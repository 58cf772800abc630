//! Text: lines, fields, trimming and numbers, over sequences of characters.

use crate::bytes::{lemma_views_push, split_seq, views};
use crate::paths::{lemma_split_concat, lemma_split_single};
use vstd::prelude::*;
use vstd::utf8::{decode_utf8, encode_utf8, valid_utf8};

verus! {

broadcast use vstd::string::axiom_spec_iter;

/// `String::push` appends the character.
pub assume_specification[ String::push ](text: &mut String, ch: char)
    ensures
        final(text)@ == old(text)@.push(ch),
;

/// The text that a byte string stands for when every malformed UTF-8 sequence in
/// it is replaced by U+FFFD.
pub uninterp spec fn lossy_text(bytes: Seq<u8>) -> Seq<char>;

/// Calls `String::from_utf8_lossy`. Of well-formed UTF-8 the result is the text
/// that the bytes encode.
#[verifier::external_body]
pub(crate) fn show_bytes(bytes: &[u8]) -> (text: String)
    ensures
        text@ == lossy_text(bytes@),
        valid_utf8(bytes@) ==> text@ == decode_utf8(bytes@),
{
    String::from_utf8_lossy(bytes).into_owned()
}

/// What is said of bytes that are not well-formed UTF-8: where the text ends.
pub uninterp spec fn utf8_problem(bytes: Seq<u8>) -> Seq<char>;

/// Calls `std::str::from_utf8`: the text that the bytes encode, or the words of its
/// error where they are not well-formed UTF-8. The words depend on nothing but the
/// bytes.
#[verifier::external_body]
pub(crate) fn read_utf8(bytes: &[u8]) -> (text: Result<String, String>)
    ensures
        text is Ok <==> valid_utf8(bytes@),
        text is Ok ==> text->Ok_0@ == decode_utf8(bytes@),
        text is Err ==> text->Err_0@ == utf8_problem(bytes@),
{
    match std::str::from_utf8(bytes) {
        Ok(text) => Ok(text.to_owned()),
        Err(error) => Err(format!("{error}")),
    }
}

/// The text that the bytes encode, or nothing where they are not well-formed UTF-8.
pub(crate) fn decode_text(bytes: &[u8]) -> (text: Option<String>)
    ensures
        text is Some <==> valid_utf8(bytes@),
        text is Some ==> text->0@ == decode_utf8(bytes@),
{
    match read_utf8(bytes) {
        Ok(text) => Some(text),
        Err(_) => None,
    }
}

/// The characters with the Unicode property White_Space.
pub open spec fn is_space(c: char) -> bool {
    ||| '\u{9}' <= c <= '\u{d}'
    ||| c == '\u{20}' || c == '\u{85}' || c == '\u{a0}' || c == '\u{1680}'
    ||| '\u{2000}' <= c <= '\u{200a}'
    ||| c == '\u{2028}' || c == '\u{2029}' || c == '\u{202f}' || c == '\u{205f}' || c == '\u{3000}'
}

/// What is left of `s` without its leading white space.
pub open spec fn trim_start(s: Seq<char>) -> Seq<char>
    decreases s.len(),
{
    if s.len() > 0 && is_space(s[0]) {
        trim_start(s.drop_first())
    } else {
        s
    }
}

/// What is left of `s` without its trailing white space.
pub open spec fn trim_end(s: Seq<char>) -> Seq<char>
    decreases s.len(),
{
    if s.len() > 0 && is_space(s.last()) {
        trim_end(s.drop_last())
    } else {
        s
    }
}

/// What is left of `s` without the white space around it.
pub open spec fn trimmed(s: Seq<char>) -> Seq<char> {
    trim_end(trim_start(s))
}

/// A line that was ended by a line feed, without the carriage return before it.
pub open spec fn without_return(line: Seq<char>) -> Seq<char> {
    if line.len() > 0 && line.last() == '\r' {
        line.drop_last()
    } else {
        line
    }
}

/// The lines of a text, without their ends. What follows the last line feed is a
/// line only where it is not empty.
pub open spec fn lines_of(s: Seq<char>) -> Seq<Seq<char>> {
    let pieces = split_seq(s, '\n');
    let ended = Seq::new((pieces.len() - 1) as nat, |i: int| without_return(pieces[i]));
    if pieces.last().len() == 0 {
        ended
    } else {
        ended.push(pieces.last())
    }
}

/// The words so far and the word that is still open.
pub open spec fn word_scan(s: Seq<char>) -> (Seq<Seq<char>>, Seq<char>)
    decreases s.len(),
{
    if s.len() == 0 {
        (Seq::empty(), Seq::empty())
    } else {
        let (done, open_word) = word_scan(s.drop_last());
        if !is_space(s.last()) {
            (done, open_word.push(s.last()))
        } else if open_word.len() > 0 {
            (done.push(open_word), Seq::empty())
        } else {
            (done, open_word)
        }
    }
}

/// The longest runs of characters without white space.
pub open spec fn words_of(s: Seq<char>) -> Seq<Seq<char>> {
    let (done, open_word) = word_scan(s);
    if open_word.len() > 0 {
        done.push(open_word)
    } else {
        done
    }
}

/// A capital ASCII letter in lower case, any other character unchanged.
pub open spec fn lower_char(c: char) -> char {
    if 'A' <= c <= 'Z' {
        (c as int + 32) as char
    } else {
        c
    }
}

/// The text with capital ASCII letters in lower case.
pub open spec fn lower_case(s: Seq<char>) -> Seq<char> {
    Seq::new(s.len(), |i: int| lower_char(s[i]))
}

/// The decimal digit of a number below ten.
pub open spec fn decimal_digit(value: int) -> char {
    (48 + value) as char
}

/// A number in decimal, without leading zeros.
pub open spec fn decimal(value: nat) -> Seq<char>
    decreases value,
{
    if value < 10 {
        seq![decimal_digit(value as int)]
    } else {
        decimal(value / 10).push(decimal_digit(value as int % 10))
    }
}

pub open spec fn is_decimal_digit(c: char) -> bool {
    '0' <= c <= '9'
}

/// The number that decimal digits stand for.
pub open spec fn digits_value(s: Seq<char>) -> nat
    decreases s.len(),
{
    if s.len() == 0 {
        0
    } else {
        digits_value(s.drop_last()) * 10 + (s.last() as int - '0' as int) as nat
    }
}

/// The text behind one optional plus sign.
pub open spec fn without_plus(s: Seq<char>) -> Seq<char> {
    if s.len() > 0 && s[0] == '+' {
        s.drop_first()
    } else {
        s
    }
}

/// The number that a text holds: one or more decimal digits, with at most one plus
/// sign before them, and a value below 2 to the power of 64.
pub open spec fn number_of(s: Seq<char>) -> Option<u64> {
    let digits = without_plus(s);
    if digits.len() > 0 && (forall|i: int| 0 <= i < digits.len() ==> is_decimal_digit(#[trigger] digits[i]))
        && digits_value(digits) <= u64::MAX {
        Some(digits_value(digits) as u64)
    } else {
        None
    }
}

/// The characters of a text.
pub fn chars_of(text: &str) -> (chars: Vec<char>)
    ensures
        chars@ == text@,
{
    let mut chars: Vec<char> = Vec::new();
    for c in it: text.chars()
        invariant
            it.seq() == text@,
            chars@ == text@.take(it.index()),
    {
        chars.push(c);
        assert(text@.take(it.index() + 1) =~= text@.take(it.index()).push(c));
    }
    assert(text@.take(text@.len() as int) =~= text@);
    chars
}

/// The text of the characters.
pub fn text_of(chars: &[char]) -> (text: String)
    ensures
        text@ == chars@,
{
    let mut text = String::new();
    let mut index: usize = 0;
    assert(text@ =~= chars@.take(0));
    while index < chars.len()
        invariant
            index <= chars.len(),
            text@ == chars@.take(index as int),
        decreases chars.len() - index,
    {
        text.push(chars[index]);
        index = index + 1;
        assert(chars@.take(index as int) =~= chars@.take(index - 1).push(chars@[index - 1]));
    }
    assert(chars@.take(index as int) =~= chars@);
    text
}

/// Whether the two runs of characters are the same.
pub fn same_chars(left: &[char], right: &[char]) -> (same: bool)
    ensures
        same == (left@ == right@),
{
    if left.len() != right.len() {
        return false;
    }
    let mut index: usize = 0;
    while index < left.len()
        invariant
            index <= left.len(),
            left.len() == right.len(),
            forall|i: int| 0 <= i < index ==> left@[i] == right@[i],
        decreases left.len() - index,
    {
        if left[index] != right[index] {
            return false;
        }
        index = index + 1;
    }
    assert(left@ =~= right@);
    true
}

/// Whether the two texts are the same.
pub fn same_text(left: &str, right: &str) -> (same: bool)
    ensures
        same == (left@ == right@),
{
    same_chars(&chars_of(left), &chars_of(right))
}

/// Whether the character is white space.
pub fn is_white(c: char) -> (yes: bool)
    ensures
        yes == is_space(c),
{
    ('\u{9}' <= c && c <= '\u{d}') || c == '\u{20}' || c == '\u{85}' || c == '\u{a0}' || c
        == '\u{1680}' || ('\u{2000}' <= c && c <= '\u{200a}') || c == '\u{2028}' || c == '\u{2029}'
        || c == '\u{202f}' || c == '\u{205f}' || c == '\u{3000}'
}

/// The characters without the white space around them.
pub fn trim(chars: &[char]) -> (rest: &[char])
    ensures
        rest@ == trimmed(chars@),
{
    let mut start: usize = 0;
    assert(chars@.skip(0) =~= chars@);
    while start < chars.len() && is_white(chars[start])
        invariant
            start <= chars.len(),
            trim_start(chars@) == trim_start(chars@.skip(start as int)),
        decreases chars.len() - start,
    {
        assert(chars@.skip(start as int)[0] == chars@[start as int]);
        assert(chars@.skip(start as int).drop_first() =~= chars@.skip(start + 1));
        start = start + 1;
    }
    if start < chars.len() {
        assert(chars@.skip(start as int)[0] == chars@[start as int]);
    }
    let mut end: usize = chars.len();
    let ghost front = chars@.skip(start as int);
    assert(trim_start(chars@) == front);
    assert(chars@.subrange(start as int, end as int) =~= front);
    while start < end && is_white(chars[end - 1])
        invariant
            start <= end <= chars.len(),
            trim_end(front) == trim_end(chars@.subrange(start as int, end as int)),
        decreases end - start,
    {
        let ghost rest = chars@.subrange(start as int, end as int);
        assert(rest.last() == chars@[end - 1]);
        assert(rest.drop_last() =~= chars@.subrange(start as int, end - 1));
        end = end - 1;
    }
    if start < end {
        assert(chars@.subrange(start as int, end as int).last() == chars@[end - 1]);
    }
    vstd::slice::slice_subrange(chars, start, end)
}

/// The pieces between occurrences of `separator`.
pub fn split_chars(chars: &[char], separator: char) -> (pieces: Vec<Vec<char>>)
    ensures
        views(pieces@) == split_seq(chars@, separator),
{
    let mut pieces: Vec<Vec<char>> = Vec::new();
    let mut current: Vec<char> = Vec::new();
    let mut index: usize = 0;
    assert(chars@.take(0) =~= Seq::empty());
    assert(views(pieces@).push(current@) =~= split_seq(chars@.take(0), separator));
    while index < chars.len()
        invariant
            index <= chars.len(),
            views(pieces@).push(current@) == split_seq(chars@.take(index as int), separator),
        decreases chars.len() - index,
    {
        let c: char = chars[index];
        let ghost before = views(pieces@).push(current@);
        assert(chars@.take(index + 1).drop_last() =~= chars@.take(index as int));
        assert(before.drop_last() =~= views(pieces@));
        if c == separator {
            let ghost old_pieces = pieces@;
            let ghost closed = current;
            pieces.push(current);
            current = Vec::new();
            proof {
                lemma_views_push(old_pieces, closed);
            }
            assert(current@ =~= Seq::<char>::empty());
        } else {
            current.push(c);
        }
        index = index + 1;
    }
    assert(chars@.take(index as int) =~= chars@);
    proof {
        lemma_views_push(pieces@, current);
    }
    pieces.push(current);
    pieces
}

/// The lines of a text.
pub fn lines(chars: &[char]) -> (found: Vec<Vec<char>>)
    ensures
        views(found@) == lines_of(chars@),
{
    let pieces = split_chars(chars, '\n');
    let ghost parts = split_seq(chars@, '\n');
    proof {
        lemma_split_not_empty(chars@, '\n');
    }
    assert(pieces@.len() == views(pieces@).len());
    let mut found: Vec<Vec<char>> = Vec::new();
    let ghost ended = Seq::new((parts.len() - 1) as nat, |i: int| without_return(parts[i]));
    let mut index: usize = 0;
    assert(views(found@) =~= ended.take(0));
    while index < pieces.len() - 1
        invariant
            index <= pieces.len() - 1,
            views(pieces@) == parts,
            ended == Seq::new((parts.len() - 1) as nat, |i: int| without_return(parts[i])),
            views(found@) == ended.take(index as int),
        decreases pieces.len() - index,
    {
        let piece = &pieces[index];
        assert(piece@ == parts[index as int]);
        let mut line: Vec<char> = vstd::slice::slice_to_vec(piece);
        if line.len() > 0 && line[line.len() - 1] == '\r' {
            let _ = line.pop();
        }
        assert(line@ =~= without_return(parts[index as int]));
        proof {
            lemma_views_push(found@, line);
        }
        found.push(line);
        index = index + 1;
        assert(ended.take(index as int) =~= ended.take(index - 1).push(ended[index - 1]));
    }
    assert(ended.take(index as int) =~= ended);
    let last = &pieces[pieces.len() - 1];
    assert(last@ == parts.last());
    if last.len() > 0 {
        let tail: Vec<char> = vstd::slice::slice_to_vec(last);
        proof {
            lemma_views_push(found@, tail);
        }
        found.push(tail);
    }
    found
}

/// A split has at least one piece.
pub proof fn lemma_split_not_empty<T>(s: Seq<T>, separator: T)
    ensures
        split_seq(s, separator).len() >= 1,
    decreases s.len(),
{
    if s.len() > 0 {
        lemma_split_not_empty(s.drop_last(), separator);
    }
}

/// The words of a text.
pub fn words(chars: &[char]) -> (found: Vec<Vec<char>>)
    ensures
        views(found@) == words_of(chars@),
{
    let mut found: Vec<Vec<char>> = Vec::new();
    let mut current: Vec<char> = Vec::new();
    let mut index: usize = 0;
    assert(chars@.take(0) =~= Seq::empty());
    assert(views(found@) =~= Seq::<Seq<char>>::empty());
    while index < chars.len()
        invariant
            index <= chars.len(),
            (views(found@), current@) == word_scan(chars@.take(index as int)),
        decreases chars.len() - index,
    {
        let c: char = chars[index];
        assert(chars@.take(index + 1).drop_last() =~= chars@.take(index as int));
        if !is_white(c) {
            current.push(c);
        } else if current.len() > 0 {
            let ghost before = found@;
            let ghost closed = current;
            found.push(current);
            current = Vec::new();
            proof {
                lemma_views_push(before, closed);
            }
            assert(current@ =~= Seq::<char>::empty());
        }
        index = index + 1;
    }
    assert(chars@.take(index as int) =~= chars@);
    if current.len() > 0 {
        proof {
            lemma_views_push(found@, current);
        }
        found.push(current);
    }
    found
}

/// The characters with capital ASCII letters in lower case.
pub fn to_lower_case(chars: &[char]) -> (lower: Vec<char>)
    ensures
        lower@ == lower_case(chars@),
{
    let mut lower: Vec<char> = Vec::new();
    let mut index: usize = 0;
    while index < chars.len()
        invariant
            index <= chars.len(),
            lower@ == lower_case(chars@).take(index as int),
        decreases chars.len() - index,
    {
        let c: char = chars[index];
        if 'A' <= c && c <= 'Z' {
            lower.push(((c as u8) + 32) as char);
        } else {
            lower.push(c);
        }
        index = index + 1;
        assert(lower_case(chars@).take(index as int) =~= lower_case(chars@).take(index - 1).push(
            lower_case(chars@)[index - 1],
        ));
    }
    assert(lower_case(chars@).take(index as int) =~= lower_case(chars@));
    lower
}

/// The number in decimal.
pub fn decimal_text(value: u64) -> (text: String)
    ensures
        text@ == decimal(value as nat),
    decreases value,
{
    if value < 10 {
        let mut text = String::new();
        text.push((48u8 + value as u8) as char);
        assert(text@ =~= seq![decimal_digit(value as int)]);
        text
    } else {
        let mut text = decimal_text(value / 10);
        text.push((48u8 + (value % 10) as u8) as char);
        text
    }
}

/// More digits never stand for a smaller number.
proof fn lemma_digits_grow(s: Seq<char>, count: int)
    requires
        0 <= count <= s.len(),
    ensures
        digits_value(s.take(count)) <= digits_value(s),
    decreases s.len() - count,
{
    if count < s.len() {
        lemma_digits_grow(s, count + 1);
        assert(s.take(count + 1).drop_last() =~= s.take(count));
    } else {
        assert(s.take(count) =~= s);
    }
}

/// Reads a number.
pub fn parse_number(chars: &[char]) -> (number: Option<u64>)
    ensures
        number == number_of(chars@),
{
    let mut index: usize = 0;
    if chars.len() > 0 && chars[0] == '+' {
        index = 1;
    }
    let ghost digits = without_plus(chars@);
    let ghost offset = index as int;
    assert(digits =~= chars@.skip(offset));
    if index >= chars.len() {
        return None;
    }
    let mut value: u64 = 0;
    assert(digits.take(0) =~= Seq::empty());
    while index < chars.len()
        invariant
            0 <= offset <= index <= chars.len(),
            digits == chars@.skip(offset),
            digits == without_plus(chars@),
            value == digits_value(digits.take(index - offset)),
            forall|i: int| 0 <= i < index - offset ==> is_decimal_digit(#[trigger] digits[i]),
        decreases chars.len() - index,
    {
        let c: char = chars[index];
        assert(digits[index - offset] == c);
        if !('0' <= c && c <= '9') {
            assert(!is_decimal_digit(digits[index - offset]));
            return None;
        }
        let step: u64 = (c as u8 - 48) as u64;
        let ghost next = digits.take(index + 1 - offset);
        assert(next.drop_last() =~= digits.take(index - offset));
        assert(next.last() == c);
        proof {
            lemma_digits_grow(digits, index + 1 - offset);
        }
        if value > (u64::MAX - step) / 10 {
            assert(digits_value(next) > u64::MAX);
            return None;
        }
        value = value * 10 + step;
        index = index + 1;
    }
    assert(digits.take(index - offset) =~= digits);
    Some(value)
}

/// Whether the characters begin with `prefix`.
pub fn has_prefix(chars: &[char], prefix: &[char]) -> (yes: bool)
    ensures
        yes == prefix@.is_prefix_of(chars@),
{
    if chars.len() < prefix.len() {
        return false;
    }
    let head = vstd::slice::slice_subrange(chars, 0, prefix.len());
    same_chars(prefix, head)
}

/// What texts say.
pub open spec fn texts(items: Seq<String>) -> Seq<Seq<char>> {
    items.map_values(|item: String| item@)
}

/// Adds a text behind others.
pub fn add_text(items: &mut Vec<String>, item: String)
    ensures
        texts(final(items)@) == texts(old(items)@).push(item@),
        final(items)@ == old(items)@.push(item),
{
    items.push(item);
    assert(texts(items@) =~= texts(old(items)@).push(item@));
}

/// Two texts, one behind the other.
pub fn concat(first: &str, second: &str) -> (text: String)
    ensures
        text@ == first@ + second@,
{
    let mut text = first.to_owned();
    text.append(second);
    text
}

/// Whether the text is ASCII.
pub open spec fn is_ascii_text(text: Seq<char>) -> bool {
    forall|i: int| 0 <= i < text.len() ==> (#[trigger] text[i] as u32) < 0x80
}

/// An ASCII text has one byte for each character.
pub proof fn lemma_ascii_bytes(text: Seq<char>)
    requires
        is_ascii_text(text),
    ensures
        encode_utf8(text).len() == text.len(),
        forall|i: int|
            0 <= i < text.len() ==> #[trigger] encode_utf8(text)[i] == text[i] as u32 as u8,
    decreases text.len(),
{
    if text.len() > 0 {
        let rest = text.drop_first();
        assert forall|i: int| 0 <= i < rest.len() implies (#[trigger] rest[i] as u32) < 0x80 by {
            assert(rest[i] == text[i + 1]);
        }
        lemma_ascii_bytes(rest);
        let scalar = text[0] as u32;
        assert((scalar & 0x7f) as u8 == scalar as u8) by (bit_vector)
            requires
                scalar < 0x80,
        ;
        assert(vstd::utf8::encode_scalar(scalar) =~= seq![scalar as u8]);
        assert forall|i: int| 0 <= i < text.len() implies #[trigger] encode_utf8(text)[i]
            == text[i] as u32 as u8 by {
            if i > 0 {
                assert(rest[i - 1] == text[i]);
                assert(encode_utf8(text)[i] == encode_utf8(rest)[i - 1]);
            }
        }
    }
}

// --------------------------------------------------
// Laws
// --------------------------------------------------

/// Whether a character is white space: the controls from the tab to the carriage
/// return, the blank, and the blanks and separators beyond ASCII.
pub open spec fn is_white_space(c: char) -> bool {
    ||| c == '\t' || c == '\n' || c == '\u{b}' || c == '\u{c}' || c == '\r' || c == ' '
    ||| c == '\u{85}' || c == '\u{a0}' || c == '\u{1680}'
    ||| 0x2000 <= c as u32 <= 0x200a
    ||| c == '\u{2028}' || c == '\u{2029}' || c == '\u{202f}' || c == '\u{205f}' || c == '\u{3000}'
}

pub open spec fn are_white(s: Seq<char>) -> bool {
    forall|i: int| 0 <= i < s.len() ==> is_white_space(#[trigger] s[i])
}

proof fn lemma_same_space(c: char)
    ensures
        is_space(c) <==> is_white_space(c),
{
}

/// Trimming takes away the white space at both ends and nothing else.
pub proof fn trimming_takes_the_white_space_around(
    front: Seq<char>,
    middle: Seq<char>,
    back: Seq<char>,
)
    requires
        are_white(front),
        are_white(back),
        middle.len() > 0 ==> !is_white_space(middle[0]) && !is_white_space(middle.last()),
    ensures
        trimmed(front + middle + back) == middle,
{
    assert(front + middle + back =~= front + (middle + back));
    lemma_trim_start_of(front, middle + back);
    if middle.len() > 0 {
        assert((middle + back)[0] == middle[0]);
        lemma_same_space(middle[0]);
        lemma_trim_end_of(middle, back);
    } else {
        assert(middle + back =~= back + middle);
        lemma_trim_start_of(back, middle);
        assert(middle =~= Seq::<char>::empty());
    }
}

proof fn lemma_trim_start_of(front: Seq<char>, rest: Seq<char>)
    requires
        are_white(front),
    ensures
        trim_start(front + rest) == trim_start(rest),
    decreases front.len(),
{
    if front.len() > 0 {
        lemma_same_space(front[0]);
        assert((front + rest)[0] == front[0]);
        assert((front + rest).drop_first() =~= front.drop_first() + rest);
        assert forall|i: int| 0 <= i < front.drop_first().len() implies is_white_space(
            #[trigger] front.drop_first()[i],
        ) by {
            assert(front.drop_first()[i] == front[i + 1]);
        }
        lemma_trim_start_of(front.drop_first(), rest);
    } else {
        assert(front + rest =~= rest);
    }
}

proof fn lemma_trim_end_of(middle: Seq<char>, back: Seq<char>)
    requires
        are_white(back),
        middle.len() > 0,
        !is_white_space(middle.last()),
    ensures
        trim_end(middle + back) == middle,
    decreases back.len(),
{
    if back.len() > 0 {
        assert((middle + back).last() == back[back.len() - 1]);
        lemma_same_space(back[back.len() - 1]);
        assert((middle + back).drop_last() =~= middle + back.drop_last());
        assert forall|i: int| 0 <= i < back.drop_last().len() implies is_white_space(
            #[trigger] back.drop_last()[i],
        ) by {
            assert(back.drop_last()[i] == back[i]);
        }
        lemma_trim_end_of(middle, back.drop_last());
    } else {
        lemma_same_space(middle.last());
        assert(middle + back =~= middle);
    }
}

/// White space holds no word; a word behind white space is the first word where white
/// space or nothing follows it, and the other words are those of what follows.
pub proof fn words_stand_between_white_space(lead: Seq<char>, word: Seq<char>, rest: Seq<char>)
    requires
        are_white(lead),
        word.len() > 0,
        forall|i: int| 0 <= i < word.len() ==> !is_white_space(#[trigger] word[i]),
        rest.len() > 0 ==> is_white_space(rest[0]),
    ensures
        words_of(lead) == Seq::<Seq<char>>::empty(),
        words_of(lead + word + rest) == seq![word] + words_of(rest),
{
    lemma_words_blank(lead);
    lemma_words_behind_blank(lead, word);
    lemma_words_single(word);
    assert(words_of(word) =~= seq![word]);
    if rest.len() > 0 {
        lemma_same_space(rest[0]);
        lemma_words_concat(lead + word, rest);
        assert(words_of(lead + word + rest) =~= seq![word] + words_of(rest));
    } else {
        assert(lead + word + rest =~= lead + word);
        assert(rest =~= Seq::<char>::empty());
        assert(words_of(rest) =~= Seq::<Seq<char>>::empty());
    }
}

proof fn lemma_words_blank(lead: Seq<char>)
    requires
        are_white(lead),
    ensures
        word_scan(lead) == (Seq::<Seq<char>>::empty(), Seq::<char>::empty()),
    decreases lead.len(),
{
    if lead.len() > 0 {
        assert(lead.last() == lead[lead.len() - 1]);
        lemma_same_space(lead.last());
        assert forall|i: int| 0 <= i < lead.drop_last().len() implies is_white_space(
            #[trigger] lead.drop_last()[i],
        ) by {
            assert(lead.drop_last()[i] == lead[i]);
        }
        lemma_words_blank(lead.drop_last());
    }
}

proof fn lemma_words_behind_blank(lead: Seq<char>, s: Seq<char>)
    requires
        are_white(lead),
    ensures
        word_scan(lead + s) == word_scan(s),
    decreases s.len(),
{
    if s.len() > 0 {
        assert((lead + s).drop_last() =~= lead + s.drop_last());
        assert((lead + s).last() == s.last());
        lemma_words_behind_blank(lead, s.drop_last());
    } else {
        assert(lead + s =~= lead);
        lemma_words_blank(lead);
    }
}

proof fn lemma_words_single(word: Seq<char>)
    requires
        forall|i: int| 0 <= i < word.len() ==> !is_white_space(#[trigger] word[i]),
    ensures
        word_scan(word) == (Seq::<Seq<char>>::empty(), word),
    decreases word.len(),
{
    if word.len() > 0 {
        let front = word.drop_last();
        assert(word.last() == word[word.len() - 1]);
        lemma_same_space(word.last());
        assert forall|i: int| 0 <= i < front.len() implies !is_white_space(#[trigger] front[i]) by {
            assert(front[i] == word[i]);
        }
        lemma_words_single(front);
        assert(front.push(word.last()) =~= word);
    } else {
        assert(word =~= Seq::<char>::empty());
    }
}

proof fn lemma_words_concat(a: Seq<char>, b: Seq<char>)
    requires
        b.len() > 0,
        is_space(b[0]),
    ensures
        word_scan(a + b) == (words_of(a) + word_scan(b).0, word_scan(b).1),
    decreases b.len(),
{
    let front = b.drop_last();
    assert((a + b).drop_last() =~= a + front);
    assert((a + b).last() == b.last());
    if front.len() > 0 {
        lemma_words_concat(a, front);
        assert(word_scan(a + b).0 =~= words_of(a) + word_scan(b).0);
    } else {
        assert(a + front =~= a);
        assert(b.last() == b[0]);
        assert(front =~= Seq::<char>::empty());
        assert(word_scan(front) == (Seq::<Seq<char>>::empty(), Seq::<char>::empty()));
        assert(word_scan(a + b).0 =~= words_of(a) + word_scan(b).0);
    }
}

/// A line ends with a line feed, or with a carriage return and a line feed; behind
/// the last line feed there is a line only where something stands there.
pub proof fn lines_end_with_line_feeds(line: Seq<char>, rest: Seq<char>)
    requires
        !line.contains('\n'),
    ensures
        line.len() == 0 || line.last() != '\r' ==> lines_of(line.push('\n') + rest) == seq![line]
            + lines_of(rest),
        lines_of(line.push('\r').push('\n') + rest) == seq![line] + lines_of(rest),
        line.len() > 0 ==> lines_of(line) == seq![line],
        lines_of(Seq::<char>::empty()) == Seq::<Seq<char>>::empty(),
{
    let none = Seq::<char>::empty();
    lemma_split_single(line, '\n');
    lemma_split_single(none, '\n');
    lemma_lines_of(line, rest);
    let ended = line.push('\r');
    assert(!ended.contains('\n')) by {
        if ended.contains('\n') {
            let k = choose|k: int| 0 <= k < ended.len() && ended[k] == '\n';
            assert(line[k] == '\n');
        }
    }
    lemma_lines_of(ended, rest);
    assert(without_return(ended) =~= line);
    assert(lines_of(line.push('\r').push('\n') + rest) == seq![line] + lines_of(rest));
    if line.len() > 0 {
        assert(lines_of(line) =~= seq![line]);
    }
    assert(lines_of(none) =~= Seq::<Seq<char>>::empty());
}

proof fn lemma_lines_of(line: Seq<char>, rest: Seq<char>)
    requires
        !line.contains('\n'),
    ensures
        lines_of(line.push('\n') + rest) == seq![without_return(line)] + lines_of(rest),
{
    lemma_split_single(line, '\n');
    lemma_split_concat(line, '\n', rest);
    lemma_split_not_empty(rest, '\n');
    let whole = split_seq(line.push('\n') + rest, '\n');
    let tail = split_seq(rest, '\n');
    assert(whole =~= seq![line] + tail);
    assert(whole.last() == tail.last());
    assert(lines_of(line.push('\n') + rest) =~= seq![without_return(line)] + lines_of(rest));
}

/// A number in decimal is its digits, the last one behind those of a tenth of it, and
/// is read back as the number.
pub proof fn numbers_are_read_back(value: u64)
    ensures
        number_of(decimal(value as nat)) == Some(value),
        decimal(value as nat)[0] == '0' ==> value == 0,
        value < 10 ==> decimal(value as nat).len() == 1 && decimal(value as nat)[0] as int == 48
            + value,
        value >= 10 ==> decimal(value as nat) == decimal((value / 10) as nat) + decimal(
            (value % 10) as nat,
        ),
        forall|i: int|
            0 <= i < decimal(value as nat).len() ==> '0' <= #[trigger] decimal(value as nat)[i]
                <= '9',
{
    lemma_decimal(value as nat);
    let digits = decimal(value as nat);
    assert(without_plus(digits) == digits);
    if value >= 10 {
        assert(digits =~= decimal((value / 10) as nat) + decimal((value % 10) as nat));
    }
}

proof fn lemma_decimal(value: nat)
    ensures
        decimal(value).len() > 0,
        digits_value(decimal(value)) == value,
        decimal(value)[0] == '0' ==> value == 0,
        forall|i: int|
            0 <= i < decimal(value).len() ==> is_decimal_digit(#[trigger] decimal(value)[i]),
    decreases value,
{
    reveal_with_fuel(digits_value, 2);
    if value < 10 {
        let digits = decimal(value);
        assert(digits.drop_last() =~= Seq::<char>::empty());
        assert(digits.last() as int == 48 + value);
    } else {
        let front = decimal(value / 10);
        lemma_decimal(value / 10);
        let last = decimal_digit(value as int % 10);
        assert(last as int == 48 + value as int % 10);
        assert(decimal(value).drop_last() =~= front);
        assert(decimal(value)[0] == front[0]);
        assert forall|i: int| 0 <= i < decimal(value).len() implies is_decimal_digit(
            #[trigger] decimal(value)[i],
        ) by {
            if i < front.len() {
                assert(decimal(value)[i] == front[i]);
            }
        }
    }
}

/// What is no run of digits behind at most one plus sign is no number, and a number
/// does not grow beyond its limit.
pub proof fn only_digits_are_a_number(text: Seq<char>)
    ensures
        text.len() == 0 ==> number_of(text) is None,
        (exists|i: int|
            0 <= i < text.len() && !('0' <= #[trigger] text[i] <= '9') && !(i == 0 && text[i]
                == '+')) ==> number_of(text) is None,
        text.len() == 1 && text[0] == '+' ==> number_of(text) is None,
        number_of(text) is Some ==> number_of(text)->0 as nat == digits_value(
            if text[0] == '+' {
                text.skip(1)
            } else {
                text
            },
        ),
{
    if text.len() > 0 {
        assert(text.drop_first() =~= text.skip(1));
    }
    if exists|i: int| 0 <= i < text.len() && !('0' <= #[trigger] text[i] <= '9') && !(i == 0 && text[i] == '+') {
        let i = choose|i: int|
            0 <= i < text.len() && !('0' <= #[trigger] text[i] <= '9') && !(i == 0 && text[i] == '+');
        let digits = without_plus(text);
        if text[0] == '+' {
            assert(digits[i - 1] == text[i]);
            assert(!is_decimal_digit(digits[i - 1]));
        } else {
            assert(!is_decimal_digit(digits[i]));
        }
    }
}

} // verus!
