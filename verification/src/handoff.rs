//! The question whether to change to Zsh, and the settings that go with it.

use crate::bytes::copy_bytes;
use crate::config::{config_of, config_unread, is_show_cad_status_enabled};
use crate::failure::Failure;
use crate::host::{complaint_of, judged_contents, judged_reply, Ask, Fault, Reply, Request};
use crate::installed::{load_installed_paths, Lookup};
use crate::paths::under;
use crate::script::unanswered;
use crate::settings::toml_settings;
use crate::text::{chars_of, lower_case, same_chars, to_lower_case, trim, trimmed};
use vstd::prelude::*;
use vstd::utf8::{decode_utf8, valid_utf8};

verus! {

/// The question.
pub const PROMPT: &'static str = "Switch to Zsh? [Y/n] ";

/// What an answer means: yes, no, or nothing that is known. Case and the white space
/// around it do not matter, and an empty answer is a yes.
pub open spec fn meaning(line: Seq<char>) -> Option<bool> {
    let word = lower_case(trimmed(line));
    if word == ""@ || word == "y"@ || word == "yes"@ {
        Some(true)
    } else if word == "n"@ || word == "no"@ {
        Some(false)
    } else {
        None
    }
}

/// What an answer means.
pub fn read_answer(line: &str) -> (answer: Option<bool>)
    ensures
        answer == meaning(line@),
{
    let word = to_lower_case(trim(&chars_of(line)));
    if same_chars(&word, &chars_of("")) || same_chars(&word, &chars_of("y")) || same_chars(
        &word,
        &chars_of("yes"),
    ) {
        Some(true)
    } else if same_chars(&word, &chars_of("n")) || same_chars(&word, &chars_of("no")) {
        Some(false)
    } else {
        None
    }
}

/// What happens while the question is asked.
#[derive(Debug)]
pub enum HandoffEvent {
    /// The question was shown.
    Shown,
    /// A line was read.
    Line(String),
    /// Nothing is left to be read.
    Closed,
    /// The question could not be shown, or the answer could not be read.
    Failed(Fault),
}

/// How far the question has come.
#[derive(Debug)]
pub enum Handoff {
    /// The question is to be shown.
    Asking,
    /// The answer is to be read.
    Waiting,
    Answered(bool),
    Failed(Failure),
}

impl Handoff {
    /// What follows an event.
    pub open spec fn follows(&self, event: HandoffEvent, next: Handoff) -> bool {
        match (*self, event) {
            (Handoff::Asking, HandoffEvent::Shown) => next is Waiting,
            (Handoff::Waiting, HandoffEvent::Line(line)) => match meaning(line@) {
                Some(answer) => next == Handoff::Answered(answer),
                None => next is Asking,
            },
            (Handoff::Waiting, HandoffEvent::Closed) => next is Failed && next->Failed_0.says(
                "handoff input closed before an answer was received"@,
            ),
            (Handoff::Asking, HandoffEvent::Failed(fault))
            | (Handoff::Waiting, HandoffEvent::Failed(fault)) => next is Failed
                && next->Failed_0.says(fault.text@),
            (Handoff::Asking, _) | (Handoff::Waiting, _) => next is Failed && next->Failed_0.says(
                unanswered(),
            ),
            _ => next == *self,
        }
    }

    /// Goes on with an event.
    pub fn advance(self, event: HandoffEvent) -> (next: Handoff)
        ensures
            self.follows(event, next),
    {
        match self {
            Handoff::Asking => match event {
                HandoffEvent::Shown => Handoff::Waiting,
                HandoffEvent::Failed(fault) => Handoff::Failed(Failure::plain(&fault.text)),
                _ => Handoff::Failed(Failure::plain("unexpected reply")),
            },
            Handoff::Waiting => match event {
                HandoffEvent::Line(line) => match read_answer(&line) {
                    Some(answer) => Handoff::Answered(answer),
                    None => Handoff::Asking,
                },
                HandoffEvent::Closed => Handoff::Failed(
                    Failure::plain("handoff input closed before an answer was received"),
                ),
                HandoffEvent::Failed(fault) => Handoff::Failed(Failure::plain(&fault.text)),
                HandoffEvent::Shown => Handoff::Failed(Failure::plain("unexpected reply")),
            },
            other => other,
        }
    }
}

/// Begins to ask.
pub fn run_handoff() -> (handoff: Handoff)
    ensures
        handoff is Asking,
{
    Handoff::Asking
}

/// The first answer that means something, and how often the question is shown up to
/// it; no answer where the lines end before.
pub open spec fn first_answer(lines: Seq<String>) -> (Option<bool>, nat)
    decreases lines.len(),
{
    if lines.len() == 0 {
        (None, 1)
    } else {
        match meaning(lines[0]@) {
            Some(answer) => (Some(answer), 1),
            None => {
                let rest = first_answer(lines.drop_first());
                (rest.0, rest.1 + 1)
            },
        }
    }
}

/// Asks someone whose answers are all known: what was answered, and how often the
/// question was shown.
pub fn run_handoff_with(answers: Vec<String>) -> (result: (Result<bool, Failure>, u64))
    requires
        answers@.len() < u64::MAX,
    ensures
        match first_answer(answers@).0 {
            Some(answer) => result.0 == Ok::<bool, Failure>(answer),
            None => result.0 is Err && result.0->Err_0.says(
                "handoff input closed before an answer was received"@,
            ),
        },
        result.1 == first_answer(answers@).1,
{
    let ghost all = answers@;
    let mut lines = answers;
    let mut shown: u64 = 0;
    assert(all.skip(0) =~= all);
    while lines.len() > 0
        invariant
            shown + lines@.len() == all.len(),
            all == answers@,
            all.len() < u64::MAX,
            lines@ == all.skip(shown as int),
            first_answer(all).0 == first_answer(lines@).0,
            first_answer(all).1 == shown + first_answer(lines@).1,
        decreases lines@.len(),
    {
        let ghost before = lines@;
        let line = lines.remove(0);
        assert(lines@ =~= before.drop_first());
        assert(lines@ =~= all.skip(shown + 1));
        shown = shown + 1;
        match Handoff::Waiting.advance(HandoffEvent::Line(line)) {
            Handoff::Answered(answer) => {
                return (Ok(answer), shown);
            },
            _ => {},
        }
    }
    match Handoff::Waiting.advance(HandoffEvent::Closed) {
        Handoff::Failed(failure) => (Err(failure), shown + 1),
        _ => (Err(Failure::plain("unexpected reply")), shown + 1),
    }
}

// --------------------------------------------------
// The status of the CAD servers
// --------------------------------------------------

/// How far the question has come whether the status of the CAD servers is shown.
#[derive(Debug)]
pub enum StatusQuery {
    /// The installation is looked for.
    Finding(Lookup),
    /// The settings of the user are to be read.
    Reading { path: Vec<u8> },
    Answered(bool),
    Failed(Failure),
}

/// Begins to find out whether the status of the CAD servers is shown.
pub fn run_show_cad_status_enabled(home: &[u8]) -> (query: StatusQuery)
    ensures
        query is Finding,
        query->Finding_0 is Link,
        query->Finding_0->Link_entry@ == under(home@, ".local/bin/eiyah"@),
{
    StatusQuery::Finding(load_installed_paths(home))
}

impl StatusQuery {
    pub open spec fn asks(&self) -> Ask {
        match self {
            StatusQuery::Finding(lookup) => lookup.asks(),
            StatusQuery::Reading { path } => Ask::ReadConfig(path@),
            _ => Ask::Nothing,
        }
    }

    /// What follows a reply: the settings of the installation that was found decide.
    pub open spec fn follows(&self, reply: Reply, next: StatusQuery) -> bool {
        match self {
            StatusQuery::Finding(lookup) => exists|found: Lookup| #[trigger]
                lookup.follows(reply, found) && match found {
                    Lookup::Link { .. } | Lookup::Metadata { .. } => next == StatusQuery::Finding(
                        found,
                    ),
                    Lookup::Found(paths) => next is Reading && next->path@ == paths.eiyah_config@,
                    Lookup::NoLink { entry, error } => next is Failed && error.tells(
                        entry@,
                        next->Failed_0,
                    ),
                    Lookup::NoMetadata { path, error, complaint } => next is Failed && error.tells(
                        "installation metadata"@,
                        path@,
                        complaint@,
                        next->Failed_0,
                    ),
                    Lookup::Unanswered => next is Failed && next->Failed_0.says(unanswered()),
                },
            StatusQuery::Reading { path } => match judged_reply(reply) {
                None => next is Failed && next->Failed_0.says(unanswered()),
                Some(contents) => match enabled_in(contents) {
                    Some(enabled) => next == StatusQuery::Answered(enabled),
                    None => next is Failed && config_unread(
                        contents,
                        complaint_of(reply),
                        path@,
                        next->Failed_0,
                    ),
                },
            },
            _ => next == *self,
        }
    }

    pub fn request(&self) -> (request: Request)
        ensures
            request@ == self.asks(),
    {
        match self {
            StatusQuery::Finding(lookup) => lookup.request(),
            StatusQuery::Reading { path } => Request::ReadConfig(copy_bytes(path)),
            _ => Request::Nothing,
        }
    }

    /// Goes on with a reply.
    pub fn advance(self, reply: Reply) -> (next: StatusQuery)
        ensures
            self.follows(reply, next),
    {
        match self {
            StatusQuery::Finding(lookup) => {
                let found = lookup.advance(reply);
                assert(lookup.follows(reply, found));
                match found {
                    Lookup::Link { entry } => StatusQuery::Finding(Lookup::Link { entry }),
                    Lookup::Metadata { path } => StatusQuery::Finding(Lookup::Metadata { path }),
                    other => match other.outcome() {
                        Some(Ok(paths)) => StatusQuery::Reading { path: paths.eiyah_config },
                        Some(Err(failure)) => StatusQuery::Failed(failure),
                        None => StatusQuery::Failed(Failure::plain("unexpected reply")),
                    },
                }
            },
            StatusQuery::Reading { path } => {
                let (judged, complaint) = judged_contents(reply);
                match judged {
                    None => StatusQuery::Failed(Failure::plain("unexpected reply")),
                    Some(contents) => match is_show_cad_status_enabled(contents) {
                        Ok(enabled) => StatusQuery::Answered(enabled),
                        Err(error) => StatusQuery::Failed(
                            error.explain("config", &path, &complaint),
                        ),
                    },
                }
            },
            other => other,
        }
    }
}

/// The setting that was read, where it can be used.
pub open spec fn enabled_in(contents: Result<Vec<u8>, Fault>) -> Option<bool> {
    match contents {
        Err(_) => None,
        Ok(bytes) => if !valid_utf8(bytes@) {
            None
        } else {
            match toml_settings(decode_utf8(bytes@)) {
                None => None,
                Some(settings) => match config_of(settings) {
                    Err(_) => None,
                    Ok(config) => Some(config.show_cad_status),
                },
            }
        },
    }
}

} // verus!
