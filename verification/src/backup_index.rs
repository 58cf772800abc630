//! The index of what was moved out of the home directory, and the plan by which
//! it is put back.
//!
//! An index holds one entry per line: the path of a backup below the home
//! directory, each byte as two lower-case hexadecimal digits.

use crate::bytes::{append_bytes, contains_byte, contains_bytes, copy_bytes, decode_hex, encode_hex};
use crate::bytes::{hex_decoded, hex_encoded, hex_round_trip, hex_text_round_trip, is_lower_hex};
use crate::bytes::{lemma_views_push, same_bytes, split, split_seq, views};
use crate::paths::{absolute, components, dot, dot_dot, is_absolute, lemma_split_concat};
use crate::paths::lemma_split_single;
use crate::text::lemma_split_not_empty;
use vstd::prelude::*;

verus! {

/// Why a path cannot name a backup.
#[derive(Clone, Copy, Debug, PartialEq, Eq, Structural)]
pub enum BackupPathError {
    /// It is empty or absolute.
    NotRelative,
    /// It holds a NUL byte.
    Nul,
    /// One of its components is `.` or `..`.
    Dots,
}

/// Why an index entry is rejected.
#[derive(Clone, Copy, Debug, PartialEq, Eq, Structural)]
pub enum EntryError {
    /// It is not one or more pairs of hexadecimal digits.
    NotHexadecimal,
    /// It has capital digits.
    UpperCase,
    /// It stands for a path that cannot name a backup.
    Path(BackupPathError),
}

/// Why an index is rejected.
#[derive(Clone, Copy, Debug, PartialEq, Eq, Structural)]
pub enum IndexError {
    /// Its last line is not ended.
    Unterminated,
    /// One of its entries is rejected.
    Entry(EntryError),
    /// An entry occurs twice.
    Duplicate,
}

/// Why an entry cannot be added to an index.
#[derive(Clone, Copy, Debug, PartialEq, Eq, Structural)]
pub enum AppendError {
    /// The entry is rejected.
    Entry(EntryError),
    /// The index has it already.
    Present,
}

/// Why the entries of an index do not make a plan.
#[derive(Clone, Copy, Debug, PartialEq, Eq, Structural)]
pub enum PlanError {
    /// An entry is rejected.
    Entry(EntryError),
    /// A path has a component that is not a name.
    NotNormal,
    /// A path has no component.
    Empty,
    /// Two entries stand for the same path.
    Duplicate,
    /// One path lies below another.
    Nested,
}

impl BackupPathError {
    /// The error in words.
    pub open spec fn words(&self) -> Seq<char> {
        match self {
            BackupPathError::NotRelative => "backup path must be a non-empty relative path"@,
            BackupPathError::Nul => "backup path must not contain a NUL byte"@,
            BackupPathError::Dots => "backup path must not contain dot components"@,
        }
    }

    /// The error in words.
    pub fn text(&self) -> (text: String)
        ensures
            text@ == self.words(),
    {
        match self {
            BackupPathError::NotRelative => "backup path must be a non-empty relative path".to_owned(),
            BackupPathError::Nul => "backup path must not contain a NUL byte".to_owned(),
            BackupPathError::Dots => "backup path must not contain dot components".to_owned(),
        }
    }
}

impl EntryError {
    /// The error in words.
    pub open spec fn words(&self) -> Seq<char> {
        match self {
            EntryError::NotHexadecimal => "backup index entry must be non-empty lowercase hexadecimal"@,
            EntryError::UpperCase => "backup index entry must use lowercase hexadecimal"@,
            EntryError::Path(problem) => problem.words(),
        }
    }

    /// The error in words.
    pub fn text(&self) -> (text: String)
        ensures
            text@ == self.words(),
    {
        match self {
            EntryError::NotHexadecimal => {
                "backup index entry must be non-empty lowercase hexadecimal".to_owned()
            },
            EntryError::UpperCase => "backup index entry must use lowercase hexadecimal".to_owned(),
            EntryError::Path(problem) => problem.text(),
        }
    }
}

impl IndexError {
    /// The error in words.
    pub open spec fn words(&self) -> Seq<char> {
        match self {
            IndexError::Unterminated => "backup index entry must end with LF"@,
            IndexError::Entry(error) => error.words(),
            IndexError::Duplicate => "backup index contains a duplicate entry"@,
        }
    }

    /// The error in words.
    pub fn text(&self) -> (text: String)
        ensures
            text@ == self.words(),
    {
        match self {
            IndexError::Unterminated => "backup index entry must end with LF".to_owned(),
            IndexError::Entry(error) => error.text(),
            IndexError::Duplicate => "backup index contains a duplicate entry".to_owned(),
        }
    }
}

impl AppendError {
    /// The error in words.
    pub open spec fn words(&self) -> Seq<char> {
        match self {
            AppendError::Entry(error) => error.words(),
            AppendError::Present => "backup index already contains the entry"@,
        }
    }

    /// The error in words.
    pub fn text(&self) -> (text: String)
        ensures
            text@ == self.words(),
    {
        match self {
            AppendError::Entry(error) => error.text(),
            AppendError::Present => "backup index already contains the entry".to_owned(),
        }
    }
}

impl PlanError {
    /// The error in words.
    pub open spec fn words(&self) -> Seq<char> {
        match self {
            PlanError::Entry(error) => error.words(),
            PlanError::NotNormal => "backup path must contain only relative normal components"@,
            PlanError::Empty => "backup path must not be empty"@,
            PlanError::Duplicate => "backup index contains a duplicate path"@,
            PlanError::Nested => "backup index contains ancestor and descendant paths"@,
        }
    }

    /// The error in words.
    pub fn text(&self) -> (text: String)
        ensures
            text@ == self.words(),
    {
        match self {
            PlanError::Entry(error) => error.text(),
            PlanError::NotNormal => {
                "backup path must contain only relative normal components".to_owned()
            },
            PlanError::Empty => "backup path must not be empty".to_owned(),
            PlanError::Duplicate => "backup index contains a duplicate path".to_owned(),
            PlanError::Nested => "backup index contains ancestor and descendant paths".to_owned(),
        }
    }
}

/// What keeps a path from naming a backup, the first that applies.
pub open spec fn backup_path_problem(path: Seq<u8>) -> Option<BackupPathError> {
    if path.len() == 0 || absolute(path) {
        Some(BackupPathError::NotRelative)
    } else if path.contains(0) {
        Some(BackupPathError::Nul)
    } else if split_seq(path, 0x2f).contains(dot()) || split_seq(path, 0x2f).contains(dot_dot()) {
        Some(BackupPathError::Dots)
    } else {
        None
    }
}

/// Whether the byte is a hexadecimal digit in either case.
pub open spec fn is_any_hex(byte: u8) -> bool {
    is_lower_hex(byte) || 0x41 <= byte <= 0x46
}

pub open spec fn is_capital(byte: u8) -> bool {
    0x41 <= byte <= 0x5a
}

/// The path that an entry stands for.
pub open spec fn entry_path(entry: Seq<u8>) -> Result<Seq<u8>, EntryError> {
    if entry.len() == 0 || entry.len() % 2 != 0 || exists|i: int|
        0 <= i < entry.len() && !is_any_hex(#[trigger] entry[i]) {
        Err(EntryError::NotHexadecimal)
    } else if exists|i: int| 0 <= i < entry.len() && is_capital(#[trigger] entry[i]) {
        Err(EntryError::UpperCase)
    } else {
        match backup_path_problem(hex_decoded(entry)) {
            Some(problem) => Err(EntryError::Path(problem)),
            None => Ok(hex_decoded(entry)),
        }
    }
}

/// The entries on the given lines, in order.
pub open spec fn line_entries(lines: Seq<Seq<u8>>) -> Result<Seq<Seq<u8>>, IndexError>
    decreases lines.len(),
{
    if lines.len() == 0 {
        Ok(Seq::empty())
    } else {
        match line_entries(lines.drop_last()) {
            Err(error) => Err(error),
            Ok(before) => match entry_path(lines.last()) {
                Err(error) => Err(IndexError::Entry(error)),
                Ok(_) => if before.contains(lines.last()) {
                    Err(IndexError::Duplicate)
                } else {
                    Ok(before.push(lines.last()))
                },
            },
        }
    }
}

/// The entries of an index.
pub open spec fn index_entries(content: Seq<u8>) -> Result<Seq<Seq<u8>>, IndexError> {
    if content.len() == 0 {
        Ok(Seq::empty())
    } else if content.last() != 0x0a {
        Err(IndexError::Unterminated)
    } else {
        line_entries(split_seq(content.drop_last(), 0x0a))
    }
}

/// The index with the given entries: each on a line of its own.
pub open spec fn index_content(entries: Seq<Seq<u8>>) -> Seq<u8>
    decreases entries.len(),
{
    if entries.len() == 0 {
        Seq::empty()
    } else {
        index_content(entries.drop_last()) + entries.last().push(0x0a)
    }
}

/// Whether every entry stands for a path and none occurs twice.
pub open spec fn sound_entries(entries: Seq<Seq<u8>>) -> bool {
    &&& forall|i: int| 0 <= i < entries.len() ==> entry_path(#[trigger] entries[i]) is Ok
    &&& entries.no_duplicates()
}

/// Checks that a path can name a backup.
pub fn validate_relative_backup_path(path: &[u8]) -> (result: Result<(), BackupPathError>)
    ensures
        match backup_path_problem(path@) {
            Some(problem) => result == Err::<(), BackupPathError>(problem),
            None => result is Ok,
        },
{
    if path.len() == 0 || is_absolute(path) {
        return Err(BackupPathError::NotRelative);
    }
    if contains_byte(path, 0) {
        return Err(BackupPathError::Nul);
    }
    let pieces = split(path, 0x2f);
    let one: Vec<u8> = vec![0x2eu8];
    let two: Vec<u8> = vec![0x2eu8, 0x2eu8];
    assert(one@ =~= dot());
    assert(two@ =~= dot_dot());
    if contains_bytes(&pieces, &one) || contains_bytes(&pieces, &two) {
        return Err(BackupPathError::Dots);
    }
    Ok(())
}

/// The index entry for a path.
pub fn encode_backup_index_entry(path: &[u8]) -> (result: Result<Vec<u8>, BackupPathError>)
    ensures
        match backup_path_problem(path@) {
            Some(problem) => result == Err::<Vec<u8>, BackupPathError>(problem),
            None => result is Ok && result->Ok_0@ == hex_encoded(path@),
        },
{
    match validate_relative_backup_path(path) {
        Err(problem) => Err(problem),
        Ok(()) => Ok(encode_hex(path)),
    }
}

/// The path that an index entry stands for.
pub fn decode_backup_index_entry(entry: &[u8]) -> (result: Result<Vec<u8>, EntryError>)
    ensures
        match entry_path(entry@) {
            Err(error) => result == Err::<Vec<u8>, EntryError>(error),
            Ok(path) => result is Ok && result->Ok_0@ == path,
        },
{
    if entry.len() == 0 || entry.len() % 2 != 0 {
        return Err(EntryError::NotHexadecimal);
    }
    let mut index: usize = 0;
    let mut capital = false;
    while index < entry.len()
        invariant
            index <= entry.len(),
            entry@.len() > 0,
            entry@.len() % 2 == 0,
            forall|i: int| 0 <= i < index ==> is_any_hex(#[trigger] entry@[i]),
            capital == exists|i: int| 0 <= i < index && is_capital(#[trigger] entry@[i]),
        decreases entry.len() - index,
    {
        let byte: u8 = entry[index];
        assert(entry@[index as int] == byte);
        if !((0x30 <= byte && byte <= 0x39) || (0x61 <= byte && byte <= 0x66) || (0x41 <= byte
            && byte <= 0x46)) {
            assert(!is_any_hex(entry@[index as int]));
            return Err(EntryError::NotHexadecimal);
        }
        if 0x41 <= byte && byte <= 0x5a {
            capital = true;
            assert(is_capital(entry@[index as int]));
        }
        index = index + 1;
    }
    if capital {
        return Err(EntryError::UpperCase);
    }
    assert forall|i: int| 0 <= i < entry@.len() implies is_lower_hex(#[trigger] entry@[i]) by {
        assert(is_any_hex(entry@[i]) && !is_capital(entry@[i]));
    }
    let path = decode_hex(entry);
    match validate_relative_backup_path(&path) {
        Err(problem) => Err(EntryError::Path(problem)),
        Ok(()) => Ok(path),
    }
}

/// The entries of an index.
pub fn parse_backup_index(content: &[u8]) -> (result: Result<Vec<Vec<u8>>, IndexError>)
    ensures
        match index_entries(content@) {
            Err(error) => result == Err::<Vec<Vec<u8>>, IndexError>(error),
            Ok(entries) => result is Ok && views(result->Ok_0@) == entries,
        },
{
    let mut entries: Vec<Vec<u8>> = Vec::new();
    assert(views(entries@) =~= Seq::<Seq<u8>>::empty());
    if content.len() == 0 {
        return Ok(entries);
    }
    if content[content.len() - 1] != 0x0a {
        return Err(IndexError::Unterminated);
    }
    let body = vstd::slice::slice_subrange(content, 0, content.len() - 1);
    assert(body@ =~= content@.drop_last());
    let lines = split(body, 0x0a);
    let ghost all = split_seq(body@, 0x0a);
    assert(lines@.len() == views(lines@).len());
    let mut index: usize = 0;
    assert(all.take(0) =~= Seq::<Seq<u8>>::empty());
    while index < lines.len()
        invariant
            index <= lines.len(),
            views(lines@) == all,
            lines@.len() == all.len(),
            line_entries(all.take(index as int)) == Ok::<Seq<Seq<u8>>, IndexError>(views(entries@)),
            content@.len() > 0,
            content@.last() == 0x0a,
            all == split_seq(content@.drop_last(), 0x0a),
        decreases lines.len() - index,
    {
        let line = &lines[index];
        assert(views(lines@)[index as int] == line@);
        let ghost taken = all.take(index + 1);
        assert(taken.drop_last() =~= all.take(index as int));
        assert(taken.last() == line@);
        match decode_backup_index_entry(line) {
            Err(error) => {
                proof {
                    lemma_error_stays(all, index + 1);
                }
                return Err(IndexError::Entry(error));
            },
            Ok(_) => {},
        }
        if contains_bytes(&entries, line) {
            proof {
                lemma_error_stays(all, index + 1);
            }
            return Err(IndexError::Duplicate);
        }
        let entry = copy_bytes(line);
        proof {
            lemma_views_push(entries@, entry);
        }
        entries.push(entry);
        index = index + 1;
    }
    assert(all.take(index as int) =~= all);
    Ok(entries)
}

/// What rejects the first lines rejects all of them.
proof fn lemma_error_stays(lines: Seq<Seq<u8>>, count: int)
    requires
        0 <= count <= lines.len(),
        line_entries(lines.take(count)) is Err,
    ensures
        line_entries(lines) == line_entries(lines.take(count)),
    decreases lines.len() - count,
{
    if count < lines.len() {
        assert(lines.take(count + 1).drop_last() =~= lines.take(count));
        lemma_error_stays(lines, count + 1);
    } else {
        assert(lines.take(count) =~= lines);
    }
}

/// The entries of an index with one more at the end. Without an index there were
/// none.
pub fn append_backup_index_entry(existing: Option<Vec<Vec<u8>>>, entry: &[u8]) -> (result: Result<
    Vec<Vec<u8>>,
    AppendError,
>)
    ensures
        ({
            let before = match existing {
                Some(entries) => views(entries@),
                None => Seq::empty(),
            };
            match entry_path(entry@) {
                Err(error) => result == Err::<Vec<Vec<u8>>, AppendError>(AppendError::Entry(error)),
                Ok(_) => if before.contains(entry@) {
                    result == Err::<Vec<Vec<u8>>, AppendError>(AppendError::Present)
                } else {
                    result is Ok && views(result->Ok_0@) == before.push(entry@)
                },
            }
        }),
{
    match decode_backup_index_entry(entry) {
        Err(error) => {
            return Err(AppendError::Entry(error));
        },
        Ok(_) => {},
    }
    let mut entries: Vec<Vec<u8>> = match existing {
        Some(entries) => entries,
        None => {
            let none: Vec<Vec<u8>> = Vec::new();
            assert(views(none@) =~= Seq::<Seq<u8>>::empty());
            none
        },
    };
    if contains_bytes(&entries, entry) {
        return Err(AppendError::Present);
    }
    let copy = copy_bytes(entry);
    proof {
        lemma_views_push(entries@, copy);
    }
    entries.push(copy);
    Ok(entries)
}

/// Whether this many entries stand before the first rejected one, and this is what
/// rejects it.
pub open spec fn sound_until(entries: Seq<Seq<u8>>, count: int, refusal: Option<EntryError>) -> bool {
    &&& 0 <= count <= entries.len()
    &&& forall|i: int| 0 <= i < count ==> entry_path(#[trigger] entries[i]) is Ok
    &&& match refusal {
        None => count == entries.len(),
        Some(error) => count < entries.len() && entry_path(entries[count]) == Err::<
            Seq<u8>,
            EntryError,
        >(error),
    }
}

/// Whether this is the index with the entries up to the first rejected one, and this
/// is what rejects that one.
pub open spec fn rendered_index(
    entries: Seq<Seq<u8>>,
    content: Seq<u8>,
    refusal: Option<EntryError>,
) -> bool {
    exists|count: int| #[trigger]
        sound_until(entries, count, refusal) && content == index_content(entries.take(count))
}

/// The index with the given entries up to the first rejected one, and what rejects
/// that one.
pub fn render_backup_index(entries: &Vec<Vec<u8>>) -> (rendered: (Vec<u8>, Option<EntryError>))
    ensures
        rendered_index(views(entries@), rendered.0@, rendered.1),
        rendered.1 is None ==> rendered.0@ == index_content(views(entries@)),
{
    let mut content: Vec<u8> = Vec::new();
    let mut index: usize = 0;
    let ghost all = views(entries@);
    assert(all.take(0) =~= Seq::<Seq<u8>>::empty());
    assert(content@ =~= index_content(all.take(0)));
    while index < entries.len()
        invariant
            index <= entries.len(),
            all == views(entries@),
            content@ == index_content(all.take(index as int)),
            forall|i: int| 0 <= i < index ==> entry_path(#[trigger] all[i]) is Ok,
        decreases entries.len() - index,
    {
        let entry = &entries[index];
        assert(all[index as int] == entry@);
        match decode_backup_index_entry(entry) {
            Err(error) => {
                assert(sound_until(all, index as int, Some(error)));
                return (content, Some(error));
            },
            Ok(_) => {},
        }
        let ghost before = content@;
        append_bytes(&mut content, entry);
        content.push(0x0a);
        assert(all.take(index + 1).drop_last() =~= all.take(index as int));
        assert(content@ =~= before + entry@.push(0x0a));
        index = index + 1;
    }
    assert(all.take(index as int) =~= all);
    assert(sound_until(all, index as int, None));
    (content, None)
}

/// The entries other than the given one, in order.
pub open spec fn others(entries: Seq<Seq<u8>>, entry: Seq<u8>) -> Seq<Seq<u8>>
    decreases entries.len(),
{
    if entries.len() == 0 {
        Seq::empty()
    } else {
        let before = others(entries.drop_last(), entry);
        if entries.last() == entry {
            before
        } else {
            before.push(entries.last())
        }
    }
}

/// How often the entry occurs.
pub open spec fn occurrences(entries: Seq<Seq<u8>>, entry: Seq<u8>) -> nat
    decreases entries.len(),
{
    if entries.len() == 0 {
        0
    } else {
        occurrences(entries.drop_last(), entry) + if entries.last() == entry {
            1nat
        } else {
            0nat
        }
    }
}

/// The entries without the given one; nothing unless it occurs exactly once.
pub fn remove_backup_index_entry(entries: &Vec<Vec<u8>>, entry: &[u8]) -> (rest: Option<
    Vec<Vec<u8>>,
>)
    ensures
        rest is Some <==> occurrences(views(entries@), entry@) == 1,
        rest is Some ==> views(rest->0@) == others(views(entries@), entry@),
{
    let mut rest: Vec<Vec<u8>> = Vec::new();
    let mut found: usize = 0;
    let mut index: usize = 0;
    let ghost all = views(entries@);
    assert(all.take(0) =~= Seq::<Seq<u8>>::empty());
    assert(views(rest@) =~= Seq::<Seq<u8>>::empty());
    while index < entries.len()
        invariant
            index <= entries.len(),
            found <= index,
            all == views(entries@),
            views(rest@) == others(all.take(index as int), entry@),
            found == occurrences(all.take(index as int), entry@),
        decreases entries.len() - index,
    {
        let item = &entries[index];
        assert(views(entries@)[index as int] == item@);
        assert(all.take(index + 1).drop_last() =~= all.take(index as int));
        if same_bytes(item, entry) {
            found = found + 1;
        } else {
            let copy = copy_bytes(item);
            proof {
                lemma_views_push(rest@, copy);
            }
            rest.push(copy);
        }
        index = index + 1;
    }
    assert(all.take(index as int) =~= all);
    if found == 1 {
        Some(rest)
    } else {
        None
    }
}

/// The path that names a backup comes back from its index entry.
pub proof fn entry_round_trip(path: Seq<u8>)
    requires
        backup_path_problem(path) is None,
    ensures
        entry_path(hex_encoded(path)) == Ok::<Seq<u8>, EntryError>(path),
{
    hex_round_trip(path);
    let entry = hex_encoded(path);
    assert forall|i: int| 0 <= i < entry.len() implies is_any_hex(#[trigger] entry[i]) && !is_capital(
        entry[i],
    ) by {
        assert(is_lower_hex(entry[i]));
    }
}

/// An accepted entry is the encoding of the path it stands for.
pub proof fn entry_text_round_trip(entry: Seq<u8>)
    requires
        entry_path(entry) is Ok,
    ensures
        hex_encoded(entry_path(entry)->Ok_0) == entry,
        backup_path_problem(entry_path(entry)->Ok_0) is None,
{
    assert forall|i: int| 0 <= i < entry.len() implies is_lower_hex(#[trigger] entry[i]) by {
        assert(is_any_hex(entry[i]) && !is_capital(entry[i]));
    }
    hex_text_round_trip(entry);
}

proof fn lemma_entry_has_no_line_feed(entry: Seq<u8>)
    requires
        entry_path(entry) is Ok,
    ensures
        !entry.contains(0x0a),
        entry.len() > 0,
{
    if entry.contains(0x0a) {
        let i = choose|i: int| 0 <= i < entry.len() && entry[i] == 0x0a;
        assert(!is_any_hex(entry[i]));
    }
}

/// The lines of an index with entries.
proof fn lemma_index_lines(entries: Seq<Seq<u8>>)
    requires
        entries.len() > 0,
        forall|i: int| 0 <= i < entries.len() ==> entry_path(#[trigger] entries[i]) is Ok,
    ensures
        index_content(entries).len() > 0,
        index_content(entries).last() == 0x0a,
        split_seq(index_content(entries).drop_last(), 0x0a) == entries,
    decreases entries.len(),
{
    let before = entries.drop_last();
    let last = entries.last();
    let content = index_content(entries);
    lemma_entry_has_no_line_feed(entries[entries.len() - 1]);
    lemma_split_single(last, 0x0au8);
    if before.len() == 0 {
        assert(index_content(before) =~= Seq::<u8>::empty());
        assert(content =~= last.push(0x0a));
        assert(content.drop_last() =~= last);
        assert(entries =~= seq![last]);
    } else {
        lemma_index_lines(before);
        let head = index_content(before);
        assert(head.drop_last().push(0x0a) =~= head);
        assert(content.drop_last() =~= head.drop_last().push(0x0a) + last);
        lemma_split_concat(head.drop_last(), 0x0au8, last);
        assert(before + seq![last] =~= entries);
    }
}

proof fn lemma_sound_lines(entries: Seq<Seq<u8>>)
    requires
        sound_entries(entries),
    ensures
        line_entries(entries) == Ok::<Seq<Seq<u8>>, IndexError>(entries),
    decreases entries.len(),
{
    if entries.len() > 0 {
        let before = entries.drop_last();
        lemma_sound_lines(before);
        assert(entry_path(entries[entries.len() - 1]) is Ok);
        assert(!before.contains(entries.last())) by {
            if before.contains(entries.last()) {
                let i = choose|i: int| 0 <= i < before.len() && before[i] == entries.last();
                assert(entries[i] == entries[entries.len() - 1]);
            }
        }
        assert(before.push(entries.last()) =~= entries);
    } else {
        assert(entries =~= Seq::<Seq<u8>>::empty());
    }
}

/// Reading an index that was written gives back its entries.
pub proof fn index_round_trip(entries: Seq<Seq<u8>>)
    requires
        sound_entries(entries),
    ensures
        index_entries(index_content(entries)) == Ok::<Seq<Seq<u8>>, IndexError>(entries),
{
    if entries.len() > 0 {
        lemma_index_lines(entries);
        lemma_sound_lines(entries);
    } else {
        assert(entries =~= Seq::<Seq<u8>>::empty());
    }
}

proof fn lemma_accepted_lines(lines: Seq<Seq<u8>>)
    requires
        line_entries(lines) is Ok,
    ensures
        line_entries(lines)->Ok_0 == lines,
        sound_entries(lines),
    decreases lines.len(),
{
    if lines.len() > 0 {
        let before = lines.drop_last();
        lemma_accepted_lines(before);
        assert(before.push(lines.last()) =~= lines);
        assert forall|i: int| 0 <= i < lines.len() implies entry_path(#[trigger] lines[i]) is Ok by {
            if i < before.len() {
                assert(lines[i] == before[i]);
            }
        }
        assert forall|i: int, j: int| 0 <= i < lines.len() && 0 <= j < lines.len() && i != j implies lines[i]
            != lines[j] by {
            if i < before.len() && j < before.len() {
                assert(before[i] != before[j]);
            } else if i < before.len() {
                assert(before[i] == lines[i]);
            } else if j < before.len() {
                assert(before[j] == lines[j]);
            }
        }
    } else {
        assert(lines =~= Seq::<Seq<u8>>::empty());
    }
}

/// The entries of every accepted index are sound, and writing them gives back the
/// index byte for byte.
pub proof fn index_text_round_trip(content: Seq<u8>)
    requires
        index_entries(content) is Ok,
    ensures
        sound_entries(index_entries(content)->Ok_0),
        index_content(index_entries(content)->Ok_0) == content,
{
    if content.len() > 0 {
        let lines = split_seq(content.drop_last(), 0x0a);
        lemma_accepted_lines(lines);
        lemma_content_of_lines(content.drop_last());
        assert(content.drop_last().push(0x0a) =~= content);
    } else {
        assert(content =~= Seq::<u8>::empty());
    }
}

proof fn lemma_content_of_lines(body: Seq<u8>)
    ensures
        index_content(split_seq(body, 0x0a)) == body.push(0x0a),
    decreases body.len(),
{
    let lines = split_seq(body, 0x0a);
    lemma_split_not_empty(body, 0x0au8);
    if body.len() == 0 {
        assert(lines.drop_last() =~= Seq::<Seq<u8>>::empty());
        assert(index_content(lines.drop_last()) =~= Seq::<u8>::empty());
        assert(index_content(lines) =~= body.push(0x0a));
    } else {
        let shorter = split_seq(body.drop_last(), 0x0a);
        lemma_content_of_lines(body.drop_last());
        lemma_split_not_empty(body.drop_last(), 0x0au8);
        if body.last() == 0x0a {
            assert(lines.drop_last() =~= shorter);
            assert(index_content(lines) =~= body.push(0x0a));
        } else {
            assert(lines.drop_last() =~= shorter.drop_last());
            let head = index_content(shorter.drop_last());
            assert(index_content(shorter) == head + shorter.last().push(0x0a));
            assert(index_content(lines) == head + shorter.last().push(body.last()).push(0x0a));
            assert((head + shorter.last()).push(0x0a) =~= head + shorter.last().push(0x0a));
            assert(head + shorter.last() =~= body.drop_last()) by {
                assert((head + shorter.last()).push(0x0a).drop_last() =~= head + shorter.last());
                assert(body.drop_last().push(0x0a).drop_last() =~= body.drop_last());
            }
            assert(body.drop_last().push(body.last()) =~= body);
            assert(head + shorter.last().push(body.last()).push(0x0a) =~= (head
                + shorter.last()).push(body.last()).push(0x0a));
            assert(lines.last() == shorter.last().push(body.last()));
            assert(index_content(lines) =~= body.push(0x0a));
        }
    }
}

/// Adding an entry to sound entries that lack it keeps them sound, and taking it
/// out again gives back the entries as they were.
pub proof fn append_then_remove(entries: Seq<Seq<u8>>, entry: Seq<u8>)
    requires
        sound_entries(entries),
        entry_path(entry) is Ok,
        !entries.contains(entry),
    ensures
        sound_entries(entries.push(entry)),
        occurrences(entries.push(entry), entry) == 1,
        others(entries.push(entry), entry) == entries,
{
    let longer = entries.push(entry);
    assert forall|i: int| 0 <= i < longer.len() implies entry_path(#[trigger] longer[i]) is Ok by {
        if i < entries.len() {
            assert(longer[i] == entries[i]);
        }
    }
    lemma_absent(entries, entry);
    assert(longer.drop_last() =~= entries);
}

proof fn lemma_absent(entries: Seq<Seq<u8>>, entry: Seq<u8>)
    requires
        !entries.contains(entry),
    ensures
        occurrences(entries, entry) == 0,
        others(entries, entry) == entries,
    decreases entries.len(),
{
    if entries.len() > 0 {
        assert(entries[entries.len() - 1] == entries.last());
        assert(!entries.drop_last().contains(entry)) by {
            if entries.drop_last().contains(entry) {
                let i = choose|i: int| 0 <= i < entries.len() - 1 && entries.drop_last()[i] == entry;
                assert(entries[i] == entry);
            }
        }
        lemma_absent(entries.drop_last(), entry);
        assert(entries.drop_last().push(entries.last()) =~= entries);
    } else {
        assert(entries =~= Seq::<Seq<u8>>::empty());
    }
}

} // verus!
