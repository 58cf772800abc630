//! Byte strings: splitting, comparison and hexadecimal.

use crate::paths::{lemma_split_concat, lemma_split_single};
use crate::text::lemma_split_not_empty;
use vstd::prelude::*;

verus! {

/// The contents of each vector, in order.
pub open spec fn views<T>(items: Seq<Vec<T>>) -> Seq<Seq<T>> {
    items.map_values(|item: Vec<T>| item@)
}

/// The pieces of `s` between occurrences of `separator`; never empty.
pub open spec fn split_seq<T>(s: Seq<T>, separator: T) -> Seq<Seq<T>>
    decreases s.len(),
{
    if s.len() == 0 {
        seq![Seq::empty()]
    } else {
        let before = split_seq(s.drop_last(), separator);
        if s.last() == separator {
            before.push(Seq::empty())
        } else {
            before.drop_last().push(before.last().push(s.last()))
        }
    }
}

/// The items one after the other with `separator` between neighbours.
pub open spec fn join_seq<T>(items: Seq<Seq<T>>, separator: T) -> Seq<T>
    decreases items.len(),
{
    if items.len() == 0 {
        Seq::empty()
    } else if items.len() == 1 {
        items[0]
    } else {
        join_seq(items.drop_last(), separator).push(separator) + items.last()
    }
}

/// Lexicographic order on bytes, a proper prefix first.
pub open spec fn bytes_at_most(a: Seq<u8>, b: Seq<u8>) -> bool
    decreases a.len(),
{
    if a.len() == 0 {
        true
    } else if b.len() == 0 {
        false
    } else if a[0] != b[0] {
        a[0] < b[0]
    } else {
        bytes_at_most(a.drop_first(), b.drop_first())
    }
}

/// The bytes 0x20, 0x09, 0x0a, 0x0c and 0x0d.
pub open spec fn is_ascii_space(byte: u8) -> bool {
    byte == 0x20 || byte == 0x09 || byte == 0x0a || byte == 0x0c || byte == 0x0d
}

/// What is left of `s` without its leading blanks.
pub open spec fn trim_front(s: Seq<u8>) -> Seq<u8>
    decreases s.len(),
{
    if s.len() > 0 && is_ascii_space(s[0]) {
        trim_front(s.drop_first())
    } else {
        s
    }
}

/// What is left of `s` without its trailing blanks.
pub open spec fn trim_back(s: Seq<u8>) -> Seq<u8>
    decreases s.len(),
{
    if s.len() > 0 && is_ascii_space(s.last()) {
        trim_back(s.drop_last())
    } else {
        s
    }
}

/// The runs of bytes that are not blank so far, and the run that is still open.
pub open spec fn field_scan(s: Seq<u8>) -> (Seq<Seq<u8>>, Seq<u8>)
    decreases s.len(),
{
    if s.len() == 0 {
        (Seq::empty(), Seq::empty())
    } else {
        let (done, open_run) = field_scan(s.drop_last());
        if !is_ascii_space(s.last()) {
            (done, open_run.push(s.last()))
        } else if open_run.len() > 0 {
            (done.push(open_run), Seq::empty())
        } else {
            (done, open_run)
        }
    }
}

/// The longest runs of bytes that are not blank.
pub open spec fn byte_fields(s: Seq<u8>) -> Seq<Seq<u8>> {
    let (done, open_run) = field_scan(s);
    if open_run.len() > 0 {
        done.push(open_run)
    } else {
        done
    }
}

/// The lower-case hexadecimal digit of a number below 16.
pub open spec fn hex_digit(value: int) -> u8 {
    if value < 10 {
        (0x30 + value) as u8
    } else {
        (0x57 + value) as u8
    }
}

/// Whether the byte is one of `0` to `9` and `a` to `f`.
pub open spec fn is_lower_hex(byte: u8) -> bool {
    0x30 <= byte <= 0x39 || 0x61 <= byte <= 0x66
}

/// The number that a lower-case hexadecimal digit stands for.
pub open spec fn hex_value(byte: u8) -> int {
    if byte <= 0x39 {
        byte - 0x30
    } else {
        byte - 0x57
    }
}

/// Two lower-case hexadecimal digits for every byte.
pub open spec fn hex_encoded(s: Seq<u8>) -> Seq<u8> {
    Seq::new(
        s.len() * 2,
        |i: int|
            if i % 2 == 0 {
                hex_digit(s[i / 2] as int / 16)
            } else {
                hex_digit(s[i / 2] as int % 16)
            },
    )
}

/// The bytes that pairs of lower-case hexadecimal digits stand for.
pub open spec fn hex_decoded(s: Seq<u8>) -> Seq<u8> {
    Seq::new(s.len() / 2, |i: int| (hex_value(s[2 * i]) * 16 + hex_value(s[2 * i + 1])) as u8)
}

/// Whether the bytes are pairs of lower-case hexadecimal digits.
pub open spec fn is_hex_text(s: Seq<u8>) -> bool {
    s.len() % 2 == 0 && forall|i: int| 0 <= i < s.len() ==> is_lower_hex(#[trigger] s[i])
}

/// Decoding gives back every byte string that was encoded, and an encoded string
/// is pairs of lower-case hexadecimal digits.
pub proof fn hex_round_trip(s: Seq<u8>)
    ensures
        is_hex_text(hex_encoded(s)),
        hex_decoded(hex_encoded(s)) == s,
{
    let encoded = hex_encoded(s);
    assert forall|i: int| 0 <= i < encoded.len() implies is_lower_hex(#[trigger] encoded[i]) by {
        assert(0 <= s[i / 2] < 256);
    }
    assert forall|i: int| 0 <= i < s.len() implies hex_decoded(encoded)[i] == s[i] by {
        assert((2 * i) % 2 == 0 && (2 * i) / 2 == i);
        assert((2 * i + 1) % 2 == 1 && (2 * i + 1) / 2 == i);
        assert(0 <= s[i] < 256);
    }
    assert(hex_decoded(encoded) =~= s);
}

/// Encoding gives back every string of lower-case hexadecimal pairs that was decoded.
pub proof fn hex_text_round_trip(s: Seq<u8>)
    requires
        is_hex_text(s),
    ensures
        hex_encoded(hex_decoded(s)) == s,
{
    let decoded = hex_decoded(s);
    assert forall|i: int| 0 <= i < s.len() implies #[trigger] hex_encoded(decoded)[i] == s[i] by {
        let pair = i / 2;
        assert(is_lower_hex(s[2 * pair]) && is_lower_hex(s[2 * pair + 1]));
        assert(0 <= hex_value(s[2 * pair]) < 16 && 0 <= hex_value(s[2 * pair + 1]) < 16);
        assert(decoded[pair] == hex_value(s[2 * pair]) * 16 + hex_value(s[2 * pair + 1]));
        if i % 2 == 0 {
            assert(i == 2 * pair);
        } else {
            assert(i == 2 * pair + 1);
        }
    }
    assert(hex_encoded(decoded) =~= s);
}

/// Every byte string precedes or equals itself.
pub proof fn lemma_at_most_reflexive(a: Seq<u8>)
    ensures
        bytes_at_most(a, a),
    decreases a.len(),
{
    if a.len() > 0 {
        lemma_at_most_reflexive(a.drop_first());
    }
}

/// Of two byte strings one precedes or equals the other.
pub proof fn lemma_at_most_total(a: Seq<u8>, b: Seq<u8>)
    ensures
        bytes_at_most(a, b) || bytes_at_most(b, a),
    decreases a.len(),
{
    if a.len() > 0 && b.len() > 0 && a[0] == b[0] {
        lemma_at_most_total(a.drop_first(), b.drop_first());
    }
}

/// Byte strings that precede or equal one another are the same.
pub proof fn lemma_at_most_antisymmetric(a: Seq<u8>, b: Seq<u8>)
    requires
        bytes_at_most(a, b),
        bytes_at_most(b, a),
    ensures
        a == b,
    decreases a.len(),
{
    if a.len() > 0 && b.len() > 0 {
        lemma_at_most_antisymmetric(a.drop_first(), b.drop_first());
        assert(a =~= seq![a[0]] + a.drop_first());
        assert(b =~= seq![b[0]] + b.drop_first());
    } else {
        assert(a =~= b);
    }
}

/// The order on byte strings is transitive.
pub proof fn lemma_at_most_transitive(a: Seq<u8>, b: Seq<u8>, c: Seq<u8>)
    requires
        bytes_at_most(a, b),
        bytes_at_most(b, c),
    ensures
        bytes_at_most(a, c),
    decreases a.len(),
{
    if a.len() > 0 && b.len() > 0 && c.len() > 0 && a[0] == b[0] && b[0] == c[0] {
        lemma_at_most_transitive(a.drop_first(), b.drop_first(), c.drop_first());
    }
}

pub proof fn lemma_views_push<T>(items: Seq<Vec<T>>, item: Vec<T>)
    ensures
        views(items.push(item)) == views(items).push(item@),
{
    assert(views(items.push(item)) =~= views(items).push(item@));
}

/// A copy of the bytes.
pub fn copy_bytes(source: &[u8]) -> (copy: Vec<u8>)
    ensures
        copy@ == source@,
{
    vstd::slice::slice_to_vec(source)
}

/// The bytes of a text in UTF-8.
pub fn text_bytes(text: &str) -> (bytes: Vec<u8>)
    ensures
        bytes@ == vstd::utf8::encode_utf8(text@),
{
    vstd::slice::slice_to_vec(text.as_bytes())
}

/// Puts `tail` behind `target`.
pub fn append_bytes(target: &mut Vec<u8>, tail: &[u8])
    ensures
        final(target)@ == old(target)@ + tail@,
{
    let ghost start = target@;
    let mut index: usize = 0;
    while index < tail.len()
        invariant
            index <= tail.len(),
            target@ == start + tail@.take(index as int),
        decreases tail.len() - index,
    {
        target.push(tail[index]);
        index = index + 1;
        assert(tail@.take(index as int) =~= tail@.take(index - 1).push(tail@[index - 1]));
    }
    assert(tail@.take(index as int) =~= tail@);
}

/// Whether the two byte strings are the same.
pub fn same_bytes(left: &[u8], right: &[u8]) -> (same: bool)
    ensures
        same == (left@ == right@),
{
    if left.len() != right.len() {
        return false;
    }
    let mut index: usize = 0;
    while index < left.len()
        invariant
            index <= left.len(),
            left.len() == right.len(),
            forall|i: int| 0 <= i < index ==> left@[i] == right@[i],
        decreases left.len() - index,
    {
        if left[index] != right[index] {
            return false;
        }
        index = index + 1;
    }
    assert(left@ =~= right@);
    true
}

/// Whether `byte` occurs.
pub fn contains_byte(bytes: &[u8], byte: u8) -> (found: bool)
    ensures
        found == bytes@.contains(byte),
{
    let mut index: usize = 0;
    while index < bytes.len()
        invariant
            index <= bytes.len(),
            forall|i: int| 0 <= i < index ==> bytes@[i] != byte,
        decreases bytes.len() - index,
    {
        if bytes[index] == byte {
            return true;
        }
        index = index + 1;
    }
    false
}

/// Whether one of the vectors holds exactly `bytes`.
pub fn contains_bytes(items: &Vec<Vec<u8>>, bytes: &[u8]) -> (found: bool)
    ensures
        found == views(items@).contains(bytes@),
{
    let mut index: usize = 0;
    while index < items.len()
        invariant
            index <= items.len(),
            forall|i: int| 0 <= i < index ==> views(items@)[i] != bytes@,
        decreases items.len() - index,
    {
        if same_bytes(&items[index], bytes) {
            assert(views(items@)[index as int] == bytes@);
            return true;
        }
        index = index + 1;
    }
    false
}

/// The pieces between occurrences of `separator`.
pub fn split(bytes: &[u8], separator: u8) -> (pieces: Vec<Vec<u8>>)
    ensures
        views(pieces@) == split_seq(bytes@, separator),
{
    let mut pieces: Vec<Vec<u8>> = Vec::new();
    let mut current: Vec<u8> = Vec::new();
    let mut index: usize = 0;
    assert(bytes@.take(0) =~= Seq::empty());
    assert(views(pieces@).push(current@) =~= split_seq(bytes@.take(0), separator));
    while index < bytes.len()
        invariant
            index <= bytes.len(),
            views(pieces@).push(current@) == split_seq(bytes@.take(index as int), separator),
        decreases bytes.len() - index,
    {
        let byte: u8 = bytes[index];
        let ghost before = views(pieces@).push(current@);
        let ghost taken = bytes@.take(index + 1);
        assert(taken.drop_last() =~= bytes@.take(index as int));
        assert(before.drop_last() =~= views(pieces@));
        if byte == separator {
            let ghost old_pieces = pieces@;
            let ghost closed = current;
            pieces.push(current);
            current = Vec::new();
            proof {
                lemma_views_push(old_pieces, closed);
            }
            assert(current@ =~= Seq::<u8>::empty());
        } else {
            current.push(byte);
        }
        index = index + 1;
    }
    assert(bytes@.take(index as int) =~= bytes@);
    proof {
        lemma_views_push(pieces@, current);
    }
    pieces.push(current);
    pieces
}

/// Whether `bytes` ends with `suffix`.
pub fn ends_with(bytes: &[u8], suffix: &[u8]) -> (yes: bool)
    ensures
        yes == suffix@.is_suffix_of(bytes@),
{
    if bytes.len() < suffix.len() {
        return false;
    }
    let tail = vstd::slice::slice_subrange(bytes, bytes.len() - suffix.len(), bytes.len());
    same_bytes(suffix, tail)
}

/// Whether `left` precedes or equals `right`.
pub fn in_order(left: &[u8], right: &[u8]) -> (yes: bool)
    ensures
        yes == bytes_at_most(left@, right@),
{
    let mut index: usize = 0;
    assert(left@.skip(0) =~= left@ && right@.skip(0) =~= right@);
    while index < left.len() && index < right.len() && left[index] == right[index]
        invariant
            index <= left.len(),
            index <= right.len(),
            bytes_at_most(left@, right@) == bytes_at_most(
                left@.skip(index as int),
                right@.skip(index as int),
            ),
        decreases left.len() - index,
    {
        proof {
            let l = left@.skip(index as int);
            let r = right@.skip(index as int);
            assert(l[0] == left@[index as int] && r[0] == right@[index as int]);
            assert(l.drop_first() =~= left@.skip(index + 1));
            assert(r.drop_first() =~= right@.skip(index + 1));
        }
        index = index + 1;
    }
    if index >= left.len() {
        true
    } else if index >= right.len() {
        false
    } else {
        assert(left@.skip(index as int)[0] == left@[index as int]);
        assert(right@.skip(index as int)[0] == right@[index as int]);
        left[index] < right[index]
    }
}

/// Whether the byte is blank.
pub fn is_blank(byte: u8) -> (yes: bool)
    ensures
        yes == is_ascii_space(byte),
{
    byte == 0x20 || byte == 0x09 || byte == 0x0a || byte == 0x0c || byte == 0x0d
}

/// The bytes without the blanks before and behind them.
pub fn trim_ascii_whitespace(bytes: &[u8]) -> (rest: &[u8])
    ensures
        rest@ == trim_back(trim_front(bytes@)),
{
    let mut start: usize = 0;
    assert(bytes@.skip(0) =~= bytes@);
    while start < bytes.len() && is_blank(bytes[start])
        invariant
            start <= bytes.len(),
            trim_front(bytes@) == trim_front(bytes@.skip(start as int)),
        decreases bytes.len() - start,
    {
        assert(bytes@.skip(start as int)[0] == bytes@[start as int]);
        assert(bytes@.skip(start as int).drop_first() =~= bytes@.skip(start + 1));
        start = start + 1;
    }
    if start < bytes.len() {
        assert(bytes@.skip(start as int)[0] == bytes@[start as int]);
    }
    let mut end: usize = bytes.len();
    let ghost front = bytes@.skip(start as int);
    assert(trim_front(bytes@) == front);
    assert(bytes@.subrange(start as int, end as int) =~= front);
    while start < end && is_blank(bytes[end - 1])
        invariant
            start <= end <= bytes.len(),
            trim_back(front) == trim_back(bytes@.subrange(start as int, end as int)),
        decreases end - start,
    {
        let ghost rest = bytes@.subrange(start as int, end as int);
        assert(rest.last() == bytes@[end - 1]);
        assert(rest.drop_last() =~= bytes@.subrange(start as int, end - 1));
        end = end - 1;
    }
    if start < end {
        assert(bytes@.subrange(start as int, end as int).last() == bytes@[end - 1]);
    }
    vstd::slice::slice_subrange(bytes, start, end)
}

/// The runs of bytes that are not blank.
pub fn fields(bytes: &[u8]) -> (runs: Vec<Vec<u8>>)
    ensures
        views(runs@) == byte_fields(bytes@),
{
    let mut runs: Vec<Vec<u8>> = Vec::new();
    let mut current: Vec<u8> = Vec::new();
    let mut index: usize = 0;
    assert(bytes@.take(0) =~= Seq::empty());
    assert(views(runs@) =~= Seq::<Seq<u8>>::empty());
    while index < bytes.len()
        invariant
            index <= bytes.len(),
            (views(runs@), current@) == field_scan(bytes@.take(index as int)),
        decreases bytes.len() - index,
    {
        let byte: u8 = bytes[index];
        assert(bytes@.take(index + 1).drop_last() =~= bytes@.take(index as int));
        if !is_blank(byte) {
            current.push(byte);
        } else if current.len() > 0 {
            let ghost before = runs@;
            let ghost closed = current;
            runs.push(current);
            current = Vec::new();
            proof {
                lemma_views_push(before, closed);
            }
            assert(current@ =~= Seq::<u8>::empty());
        }
        index = index + 1;
    }
    assert(bytes@.take(index as int) =~= bytes@);
    if current.len() > 0 {
        proof {
            lemma_views_push(runs@, current);
        }
        runs.push(current);
    }
    runs
}

/// The digit of a number below 16.
fn digit(value: u8) -> (byte: u8)
    requires
        value < 16,
    ensures
        byte == hex_digit(value as int),
{
    if value < 10 {
        0x30 + value
    } else {
        0x57 + value
    }
}

/// The number of a digit.
fn digit_value(byte: u8) -> (value: u8)
    requires
        is_lower_hex(byte),
    ensures
        value == hex_value(byte),
        value < 16,
{
    if byte <= 0x39 {
        byte - 0x30
    } else {
        byte - 0x57
    }
}

/// Writes every byte as two lower-case hexadecimal digits.
pub fn encode_hex(bytes: &[u8]) -> (encoded: Vec<u8>)
    ensures
        encoded@ == hex_encoded(bytes@),
{
    let mut encoded: Vec<u8> = Vec::new();
    let mut index: usize = 0;
    while index < bytes.len()
        invariant
            index <= bytes.len(),
            encoded@ == hex_encoded(bytes@.take(index as int)),
        decreases bytes.len() - index,
    {
        let byte: u8 = bytes[index];
        encoded.push(digit(byte / 16));
        encoded.push(digit(byte % 16));
        proof {
            let before = hex_encoded(bytes@.take(index as int));
            let after = hex_encoded(bytes@.take(index + 1));
            assert(after.len() == before.len() + 2);
            assert forall|i: int| 0 <= i < before.len() implies after[i] == before[i] by {
                assert(bytes@.take(index + 1)[i / 2] == bytes@.take(index as int)[i / 2]);
            }
            assert((2 * index) / 2 == index && (2 * index + 1) / 2 == index);
            assert(encoded@ =~= after);
        }
        index = index + 1;
    }
    assert(bytes@.take(index as int) =~= bytes@);
    encoded
}

/// Whether the bytes are pairs of lower-case hexadecimal digits.
pub fn check_hex(bytes: &[u8]) -> (yes: bool)
    ensures
        yes == is_hex_text(bytes@),
{
    if bytes.len() % 2 != 0 {
        return false;
    }
    let mut index: usize = 0;
    while index < bytes.len()
        invariant
            index <= bytes.len(),
            forall|i: int| 0 <= i < index ==> is_lower_hex(#[trigger] bytes@[i]),
        decreases bytes.len() - index,
    {
        let byte: u8 = bytes[index];
        if !((0x30 <= byte && byte <= 0x39) || (0x61 <= byte && byte <= 0x66)) {
            assert(!is_lower_hex(bytes@[index as int]));
            return false;
        }
        index = index + 1;
    }
    true
}

/// Reads pairs of lower-case hexadecimal digits as bytes.
pub fn decode_hex(bytes: &[u8]) -> (decoded: Vec<u8>)
    requires
        is_hex_text(bytes@),
    ensures
        decoded@ == hex_decoded(bytes@),
{
    let mut decoded: Vec<u8> = Vec::new();
    let mut index: usize = 0;
    while index < bytes.len() / 2
        invariant
            index <= bytes.len() / 2,
            is_hex_text(bytes@),
            decoded@ == hex_decoded(bytes@).take(index as int),
        decreases bytes.len() / 2 - index,
    {
        assert(is_lower_hex(bytes@[2 * index as int]) && is_lower_hex(bytes@[2 * index + 1]));
        let high: u8 = digit_value(bytes[2 * index]);
        let low: u8 = digit_value(bytes[2 * index + 1]);
        decoded.push(high * 16 + low);
        index = index + 1;
        assert(hex_decoded(bytes@).take(index as int) =~= hex_decoded(bytes@).take(
            index - 1,
        ).push(hex_decoded(bytes@)[index - 1]));
    }
    assert(hex_decoded(bytes@).take(index as int) =~= hex_decoded(bytes@));
    decoded
}

// --------------------------------------------------
// Laws
// --------------------------------------------------

/// Whether every byte is a blank, a tab, a line break, a form feed or a carriage
/// return.
pub open spec fn are_blank(s: Seq<u8>) -> bool {
    forall|i: int| #![trigger s[i]] 0 <= i < s.len() ==> s[i] == 0x20 || s[i] == 0x09 || s[i] == 0x0a
        || s[i] == 0x0c || s[i] == 0x0d
}

/// Whether no byte is a blank, a tab, a line break, a form feed or a carriage return,
/// and there is one.
pub open spec fn is_word(s: Seq<u8>) -> bool {
    s.len() > 0 && forall|i: int|
        #![trigger s[i]]
        0 <= i < s.len() ==> s[i] != 0x20 && s[i] != 0x09 && s[i] != 0x0a && s[i] != 0x0c && s[i]
            != 0x0d
}

/// Whether `piece` lies in `s` between separators, or between a separator and an end.
pub open spec fn lies_between<T>(
    s: Seq<T>,
    separator: T,
    before: Seq<T>,
    piece: Seq<T>,
    behind: Seq<T>,
) -> bool {
    &&& s == before + piece + behind
    &&& !piece.contains(separator)
    &&& before.len() == 0 || before.last() == separator
    &&& behind.len() == 0 || behind[0] == separator
}

/// The pieces of a string are what lies between its separators.
pub proof fn pieces_lie_between_separators<T>(s: Seq<T>, separator: T, piece: Seq<T>)
    ensures
        split_seq(s, separator).contains(piece) <==> exists|before: Seq<T>, behind: Seq<T>| #[trigger]
            lies_between(s, separator, before, piece, behind),
{
    if split_seq(s, separator).contains(piece) {
        let i = choose|i: int| 0 <= i < split_seq(s, separator).len() && split_seq(s, separator)[i] == piece;
        lemma_piece_lies(s, separator, i);
    }
    if exists|before: Seq<T>, behind: Seq<T>| #[trigger]
        lies_between(s, separator, before, piece, behind) {
        let (before, behind) = choose|before: Seq<T>, behind: Seq<T>| #[trigger]
            lies_between(s, separator, before, piece, behind);
        let tail = piece + behind;
        let found = split_seq(tail, separator);
        lemma_split_not_empty(tail, separator);
        lemma_split_single(piece, separator);
        assert(found[0] == piece) by {
            if behind.len() > 0 {
                let rest = behind.drop_first();
                assert(tail =~= piece.push(separator) + rest);
                lemma_split_concat(piece, separator, rest);
            } else {
                assert(tail =~= piece);
            }
        }
        if before.len() > 0 {
            let front = before.drop_last();
            assert(s =~= front.push(separator) + tail);
            lemma_split_concat(front, separator, tail);
            lemma_split_not_empty(front, separator);
            let n = split_seq(front, separator).len() as int;
            assert(split_seq(s, separator)[n] == found[0]);
        } else {
            assert(s =~= tail);
            assert(split_seq(s, separator)[0] == piece);
        }
    }
}

proof fn lemma_piece_lies<T>(s: Seq<T>, separator: T, index: int)
    requires
        0 <= index < split_seq(s, separator).len(),
    ensures
        exists|before: Seq<T>, behind: Seq<T>| #[trigger]
            lies_between(s, separator, before, split_seq(s, separator)[index], behind) && (
            behind.len() == 0 <==> index == split_seq(s, separator).len() - 1),
    decreases s.len(),
{
    let found = split_seq(s, separator);
    let none = Seq::<T>::empty();
    if s.len() == 0 {
        assert(lies_between(s, separator, none, found[index], none)) by {
            assert(s =~= none + found[index] + none);
        }
    } else {
        let front = s.drop_last();
        let former = split_seq(front, separator);
        lemma_split_not_empty(front, separator);
        assert(s =~= front.push(s.last()));
        if s.last() == separator {
            if index < former.len() {
                lemma_piece_lies(front, separator, index);
                let (before, behind) = choose|before: Seq<T>, behind: Seq<T>| #[trigger]
                    lies_between(front, separator, before, former[index], behind) && (behind.len() == 0
                        <==> index == former.len() - 1);
                let longer = behind.push(separator);
                assert(s =~= before + former[index] + longer);
                assert(lies_between(s, separator, before, found[index], longer));
            } else {
                assert(s =~= s + found[index] + none);
                assert(lies_between(s, separator, s, found[index], none));
            }
        } else {
            lemma_piece_lies(front, separator, index);
            let (before, behind) = choose|before: Seq<T>, behind: Seq<T>| #[trigger]
                lies_between(front, separator, before, former[index], behind) && (behind.len() == 0
                    <==> index == former.len() - 1);
            if index < former.len() - 1 {
                let longer = behind.push(s.last());
                assert(found[index] == former[index]);
                assert(s =~= before + former[index] + longer);
                assert(lies_between(s, separator, before, found[index], longer));
            } else {
                let piece = former[index].push(s.last());
                assert(found[index] == piece);
                assert(s =~= before + piece + none);
                assert(!piece.contains(separator)) by {
                    if piece.contains(separator) {
                        let k = choose|k: int| 0 <= k < piece.len() && piece[k] == separator;
                        assert(former[index][k] == separator);
                        assert(former[index].contains(separator));
                    }
                }
                assert(lies_between(s, separator, before, found[index], none));
            }
        }
    }
}

/// Trimming takes away the blanks at both ends and nothing else.
pub proof fn trimming_takes_the_blanks_around(front: Seq<u8>, middle: Seq<u8>, back: Seq<u8>)
    requires
        are_blank(front),
        are_blank(back),
        middle.len() > 0 ==> is_word(seq![middle[0]]) && is_word(seq![middle.last()]),
    ensures
        trim_back(trim_front(front + middle + back)) == middle,
{
    lemma_trim_front_of(front, middle + back);
    assert(front + middle + back =~= front + (middle + back));
    if middle.len() > 0 {
        assert(seq![middle[0]][0] == middle[0]);
        assert(seq![middle.last()][0] == middle.last());
        assert((middle + back)[0] == middle[0]);
        lemma_trim_back_of(middle, back);
    } else {
        assert(middle + back =~= back + middle);
        lemma_trim_front_of(back, middle);
        assert(trim_back(middle) =~= middle);
    }
}

proof fn lemma_trim_front_of(front: Seq<u8>, rest: Seq<u8>)
    requires
        are_blank(front),
    ensures
        trim_front(front + rest) == trim_front(rest),
    decreases front.len(),
{
    if front.len() > 0 {
        assert(is_ascii_space(front[0]));
        assert((front + rest).drop_first() =~= front.drop_first() + rest);
        assert forall|i: int| #![trigger front.drop_first()[i]] 0 <= i < front.drop_first().len() implies is_ascii_space(
            front.drop_first()[i],
        ) by {
            assert(front.drop_first()[i] == front[i + 1]);
        }
        lemma_trim_front_of(front.drop_first(), rest);
    } else {
        assert(front + rest =~= rest);
    }
}

proof fn lemma_trim_back_of(middle: Seq<u8>, back: Seq<u8>)
    requires
        are_blank(back),
        middle.len() > 0,
        !is_ascii_space(middle.last()),
    ensures
        trim_back(middle + back) == middle,
    decreases back.len(),
{
    if back.len() > 0 {
        assert((middle + back).last() == back[back.len() - 1]);
        assert((middle + back).drop_last() =~= middle + back.drop_last());
        assert forall|i: int| #![trigger back.drop_last()[i]] 0 <= i < back.drop_last().len() implies is_ascii_space(
            back.drop_last()[i],
        ) by {
            assert(back.drop_last()[i] == back[i]);
        }
        lemma_trim_back_of(middle, back.drop_last());
    } else {
        assert(middle + back =~= middle);
    }
}

/// Blanks hold no field; a word behind blanks is the first field where blanks or
/// nothing follow it, and the other fields are those of what follows.
pub proof fn fields_are_the_words_between_blanks(lead: Seq<u8>, word: Seq<u8>, rest: Seq<u8>)
    requires
        are_blank(lead),
        is_word(word),
        rest.len() > 0 ==> are_blank(seq![rest[0]]),
    ensures
        byte_fields(lead) == Seq::<Seq<u8>>::empty(),
        byte_fields(lead + word + rest) == seq![word] + byte_fields(rest),
{
    let none = Seq::<Seq<u8>>::empty();
    lemma_scan_blank(lead);
    lemma_scan_behind_blank(lead, word);
    lemma_scan_word(word);
    assert(byte_fields(word) =~= seq![word]);
    if rest.len() > 0 {
        assert(seq![rest[0]][0] == rest[0]);
        lemma_scan_concat(lead + word, rest);
        assert(byte_fields(lead + word + rest) =~= seq![word] + byte_fields(rest));
    } else {
        assert(lead + word + rest =~= lead + word);
        assert(rest =~= Seq::<u8>::empty());
        assert(byte_fields(rest) =~= none);
    }
}

proof fn lemma_scan_blank(lead: Seq<u8>)
    requires
        are_blank(lead),
    ensures
        field_scan(lead) == (Seq::<Seq<u8>>::empty(), Seq::<u8>::empty()),
    decreases lead.len(),
{
    if lead.len() > 0 {
        assert(lead.last() == lead[lead.len() - 1]);
        assert forall|i: int| #![trigger lead.drop_last()[i]] 0 <= i < lead.drop_last().len() implies is_ascii_space(
            lead.drop_last()[i],
        ) by {
            assert(lead.drop_last()[i] == lead[i]);
        }
        lemma_scan_blank(lead.drop_last());
    }
}

proof fn lemma_scan_behind_blank(lead: Seq<u8>, s: Seq<u8>)
    requires
        are_blank(lead),
    ensures
        field_scan(lead + s) == field_scan(s),
    decreases s.len(),
{
    if s.len() > 0 {
        assert((lead + s).drop_last() =~= lead + s.drop_last());
        assert((lead + s).last() == s.last());
        lemma_scan_behind_blank(lead, s.drop_last());
    } else {
        assert(lead + s =~= lead);
        lemma_scan_blank(lead);
    }
}

proof fn lemma_scan_word(word: Seq<u8>)
    requires
        word.len() > 0 ==> is_word(word),
    ensures
        field_scan(word) == (Seq::<Seq<u8>>::empty(), word),
    decreases word.len(),
{
    if word.len() > 0 {
        let front = word.drop_last();
        assert(word.last() == word[word.len() - 1]);
        assert(!is_ascii_space(word.last()));
        if front.len() > 0 {
            assert forall|i: int| #![trigger front[i]] 0 <= i < front.len() implies !is_ascii_space(front[i]) by {
                assert(front[i] == word[i]);
            }
            assert(is_word(front));
        }
        lemma_scan_word(front);
        assert(front.push(word.last()) =~= word);
    } else {
        assert(word =~= Seq::<u8>::empty());
    }
}

proof fn lemma_scan_concat(a: Seq<u8>, b: Seq<u8>)
    requires
        b.len() > 0,
        is_ascii_space(b[0]),
    ensures
        field_scan(a + b) == (byte_fields(a) + field_scan(b).0, field_scan(b).1),
    decreases b.len(),
{
    let front = b.drop_last();
    assert((a + b).drop_last() =~= a + front);
    assert((a + b).last() == b.last());
    if front.len() > 0 {
        lemma_scan_concat(a, front);
        assert(field_scan(a + b).0 =~= byte_fields(a) + field_scan(b).0);
    } else {
        assert(a + front =~= a);
        assert(b.last() == b[0]);
        assert(front =~= Seq::<u8>::empty());
        assert(field_scan(front) == (Seq::<Seq<u8>>::empty(), Seq::<u8>::empty()));
        assert(field_scan(a + b).0 =~= byte_fields(a) + field_scan(b).0);
    }
}

/// Where a string has a field, its first field stands behind blanks and before
/// blanks or the end.
pub proof fn lemma_first_field(s: Seq<u8>) -> (parts: (Seq<u8>, Seq<u8>, Seq<u8>))
    requires
        byte_fields(s).len() > 0,
    ensures
        s == parts.0 + parts.1 + parts.2,
        are_blank(parts.0),
        is_word(parts.1),
        parts.2.len() > 0 ==> are_blank(seq![parts.2[0]]),
        byte_fields(s) == seq![parts.1] + byte_fields(parts.2),
    decreases s.len(),
{
    let none = Seq::<u8>::empty();
    if s.len() == 0 {
        assert(byte_fields(s).len() == 0);
        (none, none, none)
    } else if is_ascii_space(s[0]) {
        let rest = s.drop_first();
        let lead = seq![s[0]];
        assert(s =~= lead + rest);
        lemma_scan_behind_blank(lead, rest);
        let parts = lemma_first_field(rest);
        let longer = lead + parts.0;
        assert(s =~= longer + parts.1 + parts.2);
        assert forall|i: int| #![trigger longer[i]] 0 <= i < longer.len() implies is_ascii_space(longer[i]) by {
            if i > 0 {
                assert(longer[i] == parts.0[i - 1]);
            }
        }
        (longer, parts.1, parts.2)
    } else {
        let count = lemma_word_length(s);
        let word = s.take(count);
        let rest = s.skip(count);
        assert(s =~= none + word + rest);
        fields_are_the_words_between_blanks(none, word, rest);
        (none, word, rest)
    }
}

proof fn lemma_word_length(s: Seq<u8>) -> (count: int)
    requires
        s.len() > 0,
        !is_ascii_space(s[0]),
    ensures
        0 < count <= s.len(),
        is_word(s.take(count)),
        s.skip(count).len() > 0 ==> are_blank(seq![s.skip(count)[0]]),
    decreases s.len(),
{
    if s.len() == 1 || is_ascii_space(s[1]) {
        1
    } else {
        let rest = s.drop_first();
        let count = lemma_word_length(rest);
        let word = s.take(count + 1);
        assert forall|i: int| #![trigger word[i]] 0 <= i < word.len() implies !is_ascii_space(word[i]) by {
            if i > 0 {
                assert(word[i] == rest.take(count)[i - 1]);
            }
        }
        assert(s.skip(count + 1) =~= rest.skip(count));
        count + 1
    }
}

/// Of two byte strings the one precedes that is a proper prefix of the other, or has
/// the smaller byte in the first place in which they differ.
pub proof fn the_first_difference_decides(a: Seq<u8>, b: Seq<u8>, place: int)
    requires
        0 <= place <= a.len(),
        place <= b.len(),
        a.take(place) == b.take(place),
        place < a.len() && place < b.len() ==> a[place] != b[place],
    ensures
        place == a.len() ==> bytes_at_most(a, b),
        place == b.len() && place < a.len() ==> !bytes_at_most(a, b),
        place < a.len() && place < b.len() ==> bytes_at_most(a, b) == (a[place] < b[place]),
    decreases place,
{
    if place > 0 {
        assert(a[0] == a.take(place)[0] && b[0] == b.take(place)[0]);
        assert(a.drop_first().take(place - 1) =~= a.take(place).drop_first());
        assert(b.drop_first().take(place - 1) =~= b.take(place).drop_first());
        the_first_difference_decides(a.drop_first(), b.drop_first(), place - 1);
    }
}

/// Every byte is written as two digits, the higher one first; the digits are `0` to
/// `9` and `a` to `f`.
pub proof fn a_byte_is_two_digits(s: Seq<u8>, index: int)
    requires
        0 <= index < s.len(),
    ensures
        hex_encoded(s).len() == 2 * s.len(),
        hex_encoded(s)[2 * index] == "0123456789abcdef"@[s[index] as int / 16] as u8,
        hex_encoded(s)[2 * index + 1] == "0123456789abcdef"@[s[index] as int % 16] as u8,
{
    reveal_strlit("0123456789abcdef");
    assert((2 * index) % 2 == 0 && (2 * index) / 2 == index);
    assert((2 * index + 1) % 2 == 1 && (2 * index + 1) / 2 == index);
    let high = s[index] as int / 16;
    let low = s[index] as int % 16;
    assert(0 <= high < 16 && 0 <= low < 16);
    lemma_digit(high);
    lemma_digit(low);
}

proof fn lemma_digit(value: int)
    requires
        0 <= value < 16,
    ensures
        hex_digit(value) == "0123456789abcdef"@[value] as u8,
{
    reveal_strlit("0123456789abcdef");
    let digits = "0123456789abcdef"@;
    assert(digits[0] == '0' && digits[1] == '1' && digits[2] == '2' && digits[3] == '3');
    assert(digits[4] == '4' && digits[5] == '5' && digits[6] == '6' && digits[7] == '7');
    assert(digits[8] == '8' && digits[9] == '9' && digits[10] == 'a' && digits[11] == 'b');
    assert(digits[12] == 'c' && digits[13] == 'd' && digits[14] == 'e' && digits[15] == 'f');
}

} // verus!
