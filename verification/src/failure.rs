//! What went wrong, in the words that the user sees.

use crate::text::{lossy_text, show_bytes, texts};
use vstd::prelude::*;

verus! {

/// A failure and, below it, what caused it.
#[derive(Debug)]
pub struct Failure {
    /// What went wrong.
    pub message: String,
    /// Why, where something else failed first.
    pub cause: Option<String>,
}

/// A message that ends in a path.
pub open spec fn about(message: Seq<char>, path: Seq<u8>) -> Seq<char> {
    message + lossy_text(path)
}

impl Failure {
    /// The message and the cause in one line.
    pub open spec fn line(&self) -> Seq<char> {
        match self.cause {
            None => self.message@,
            Some(cause) => self.message@ + ": "@ + cause@,
        }
    }

    /// Whether the failure has this message and no cause.
    pub open spec fn says(&self, message: Seq<char>) -> bool {
        self.message@ == message && self.cause is None
    }

    /// Whether the failure has this message and this cause.
    pub open spec fn blames(&self, message: Seq<char>, cause: Seq<char>) -> bool {
        self.message@ == message && self.cause is Some && self.cause->0@ == cause
    }

    /// A failure without a cause.
    pub fn plain(message: &str) -> (failure: Failure)
        ensures
            failure.says(message@),
    {
        Failure { message: message.to_owned(), cause: None }
    }

    /// A failure whose message ends in a path.
    pub fn at(message: &str, path: &[u8]) -> (failure: Failure)
        ensures
            failure.says(about(message@, path@)),
    {
        Failure { message: message_at(message, path), cause: None }
    }

    /// A failure with a cause, whose message ends in a path.
    pub fn caused_at(message: &str, path: &[u8], cause: &str) -> (failure: Failure)
        ensures
            failure.blames(about(message@, path@), cause@),
    {
        Failure { message: message_at(message, path), cause: Some(cause.to_owned()) }
    }

    /// A failure with a cause.
    pub fn caused(message: &str, cause: &str) -> (failure: Failure)
        ensures
            failure.blames(message@, cause@),
    {
        Failure { message: message.to_owned(), cause: Some(cause.to_owned()) }
    }

    /// The message and the cause in one line.
    pub fn full_text(&self) -> (text: String)
        ensures
            text@ == self.line(),
    {
        let mut text = self.message.clone();
        match &self.cause {
            None => {},
            Some(cause) => {
                text.append(": ");
                text.append(cause);
            },
        }
        text
    }
}

/// A message that ends in a path.
pub fn message_at(message: &str, path: &[u8]) -> (text: String)
    ensures
        text@ == about(message@, path@),
{
    let mut text = message.to_owned();
    text.append(&show_bytes(path));
    text
}

/// The words of a failure: its message and, where there is one, its cause.
pub type Words = (Seq<char>, Option<Seq<char>>);

/// The first of two problems.
pub open spec fn earlier(first: Option<Words>, second: Option<Words>) -> Option<Words> {
    if first is Some {
        first
    } else {
        second
    }
}

/// Whether a check has come out this way.
pub open spec fn reports(result: Result<(), Failure>, problem: Option<Words>) -> bool {
    match problem {
        None => result is Ok,
        Some(words) => result is Err && is_failure(result->Err_0, words),
    }
}

/// The first of two checks that has failed.
pub fn first_failure(first: Result<(), Failure>, second: Result<(), Failure>) -> (result: Result<
    (),
    Failure,
>)
    ensures
        result == if first is Err {
            first
        } else {
            second
        },
{
    match first {
        Err(failure) => Err(failure),
        Ok(()) => second,
    }
}

/// Whether the failure has this message and, where there is one, this cause.
pub open spec fn is_failure(failure: Failure, words: Words) -> bool {
    match words.1 {
        Some(cause) => failure.blames(words.0, cause),
        None => failure.says(words.0),
    }
}

/// The texts with `"; "` between neighbours.
pub open spec fn listed(items: Seq<String>) -> Seq<char>
    decreases items.len(),
{
    if items.len() == 0 {
        Seq::empty()
    } else if items.len() == 1 {
        items[0]@
    } else {
        listed(items.drop_last()) + "; "@ + items.last()@
    }
}

/// The texts with `"; "` between neighbours.
pub open spec fn listed_words(items: Seq<Seq<char>>) -> Seq<char>
    decreases items.len(),
{
    if items.len() == 0 {
        Seq::empty()
    } else if items.len() == 1 {
        items[0]
    } else {
        listed_words(items.drop_last()) + "; "@ + items.last()
    }
}

/// A list of texts is what the texts hold.
pub proof fn lemma_listed(items: Seq<String>)
    ensures
        listed(items) == listed_words(texts(items)),
    decreases items.len(),
{
    if items.len() > 1 {
        lemma_listed(items.drop_last());
        assert(texts(items).drop_last() =~= texts(items.drop_last()));
    }
}

/// The texts with `"; "` between neighbours.
pub fn list_texts(items: &Vec<String>) -> (text: String)
    ensures
        text@ == listed(items@),
{
    let mut text = String::new();
    let mut index: usize = 0;
    assert(items@.take(0) =~= Seq::<String>::empty());
    assert(text@ =~= listed(items@.take(0)));
    while index < items.len()
        invariant
            index <= items.len(),
            text@ == listed(items@.take(index as int)),
        decreases items.len() - index,
    {
        let ghost before = items@.take(index as int);
        let ghost after = items@.take(index + 1);
        assert(after.drop_last() =~= before);
        if index > 0 {
            text.append("; ");
            text.append(&items[index]);
        } else {
            text.append(&items[index]);
            assert(text@ =~= items@[0]@);
        }
        index = index + 1;
    }
    assert(items@.take(index as int) =~= items@);
    text
}

/// Reasons are listed in their order with a semicolon and a blank between two.
pub proof fn reasons_are_listed_in_order(items: Seq<Seq<char>>, item: Seq<char>)
    ensures
        listed_words(seq![item]) == item,
        items.len() > 0 ==> listed_words(items.push(item)) == listed_words(items) + "; "@ + item,
        listed_words(Seq::<Seq<char>>::empty()) == Seq::<char>::empty(),
{
    assert(items.push(item).drop_last() =~= items);
}

/// Of two problems the first is told where there is one, and nothing is told only where
/// there is neither; what is told is told with its cause.
pub proof fn the_first_problem_is_told(
    first: Option<Words>,
    second: Option<Words>,
    result: Result<(), Failure>,
)
    requires
        reports(result, earlier(first, second)),
    ensures
        result is Ok <==> first is None && second is None,
        match first {
            Some(words) => {
                &&& result->Err_0.message@ == words.0
                &&& result->Err_0.cause is Some <==> words.1 is Some
                &&& words.1 is Some ==> result->Err_0.cause->0@ == words.1->0
            },
            None => match second {
                Some(words) => result->Err_0.message@ == words.0,
                None => true,
            },
        },
{
}

} // verus!
