//! Checks of entries that several operations share.

use crate::failure::{about, reports, Failure, Words};
use crate::host::{is_executable, is_program, Entry, Fault, FaultKind, FileKind};
use crate::paths::{absolute, components_of, is_absolute, same_path};
use crate::text::concat;
use vstd::prelude::*;

verus! {

/// What is wrong where a directory has to be.
pub open spec fn directory_problem(
    path: Seq<u8>,
    label: Seq<char>,
    found: Result<Entry, Fault>,
) -> Option<Words> {
    match found {
        Err(fault) => Some((about(label + " is unavailable: "@, path), Some(fault.text@))),
        Ok(entry) => if entry.kind == FileKind::Directory {
            None
        } else {
            Some((about(label + " must be a non-symlink directory: "@, path), None))
        },
    }
}

/// Checks that a directory is there.
pub fn validate_non_symlink_directory(path: &[u8], label: &str, found: &Result<Entry, Fault>) -> (
result: Result<(), Failure>)
    ensures
        reports(result, directory_problem(path@, label@, *found)),
{
    match found {
        Err(fault) => Err(
            Failure::caused_at(&concat(label, " is unavailable: "), path, &fault.text),
        ),
        Ok(entry) => if entry.kind == FileKind::Directory {
            Ok(())
        } else {
            Err(Failure::at(&concat(label, " must be a non-symlink directory: "), path))
        },
    }
}

/// What is wrong where a file has to be.
pub open spec fn file_problem(
    path: Seq<u8>,
    label: Seq<char>,
    found: Result<Entry, Fault>,
) -> Option<Words> {
    match found {
        Err(fault) => Some((fault.text@, None)),
        Ok(entry) => if entry.kind == FileKind::Regular {
            None
        } else {
            Some((about(label + " must be a regular file: "@, path), None))
        },
    }
}

/// Checks that a file is there.
pub fn validate_regular_non_symlink(path: &[u8], label: &str, found: &Result<Entry, Fault>) -> (
result: Result<(), Failure>)
    ensures
        reports(result, file_problem(path@, label@, *found)),
{
    match found {
        Err(fault) => Err(Failure::plain(&fault.text)),
        Ok(entry) => if entry.kind == FileKind::Regular {
            Ok(())
        } else {
            Err(Failure::at(&concat(label, " must be a regular file: "), path))
        },
    }
}

/// What is wrong where a program has to be; its path has to be absolute.
pub open spec fn program_problem(
    path: Seq<u8>,
    label: Seq<char>,
    found: Result<Entry, Fault>,
) -> Option<Words> {
    if !absolute(path) {
        Some((about(label + " path must be absolute: "@, path), None))
    } else {
        match found {
            Err(fault) => Some((fault.text@, None)),
            Ok(entry) => if is_program(entry) {
                None
            } else {
                Some((about(label + " must be a regular executable: "@, path), None))
            },
        }
    }
}

/// Checks that a program is there; its path has to be absolute.
pub fn validate_expected_executable(path: &[u8], label: &str, found: &Result<Entry, Fault>) -> (
result: Result<(), Failure>)
    ensures
        reports(result, program_problem(path@, label@, *found)),
{
    if !is_absolute(path) {
        return Err(Failure::at(&concat(label, " path must be absolute: "), path));
    }
    match found {
        Err(fault) => Err(Failure::plain(&fault.text)),
        Ok(entry) => if is_executable(entry) {
            Ok(())
        } else {
            Err(Failure::at(&concat(label, " must be a regular executable: "), path))
        },
    }
}

/// What is wrong where a link to a place, from the root, has to be.
pub open spec fn entry_problem(
    path: Seq<u8>,
    expected: Seq<u8>,
    found: Result<Entry, Fault>,
    link: Result<Vec<u8>, Fault>,
) -> Option<Words> {
    let invalid = Some((about("invalid Eiyah command link: "@, path), None));
    match found {
        Err(fault) => Some((fault.text@, None)),
        Ok(entry) => if entry.kind != FileKind::Symlink {
            invalid
        } else {
            match link {
                Err(fault) => Some((fault.text@, None)),
                Ok(target) => if components_of(target@) == components_of(expected) && absolute(
                    expected,
                ) {
                    None
                } else {
                    invalid
                },
            }
        },
    }
}

/// Checks that a link leads to a place, from the root.
pub fn validate_absolute_entry(
    path: &[u8],
    expected: &[u8],
    found: &Result<Entry, Fault>,
    link: &Result<Vec<u8>, Fault>,
) -> (result: Result<(), Failure>)
    ensures
        reports(result, entry_problem(path@, expected@, *found, *link)),
{
    match found {
        Err(fault) => {
            return Err(Failure::plain(&fault.text));
        },
        Ok(entry) => {
            if entry.kind != FileKind::Symlink {
                return Err(Failure::at("invalid Eiyah command link: ", path));
            }
        },
    }
    match link {
        Err(fault) => Err(Failure::plain(&fault.text)),
        Ok(target) => if same_path(target, expected) && is_absolute(expected) {
            Ok(())
        } else {
            Err(Failure::at("invalid Eiyah command link: ", path))
        },
    }
}

/// What is wrong where nothing or an entry of this kind has to be.
pub open spec fn optional_problem(
    path: Seq<u8>,
    words: Seq<char>,
    kind: FileKind,
    found: Result<Entry, Fault>,
) -> Option<Words> {
    match found {
        Err(fault) => if fault.kind == FaultKind::NotFound {
            None
        } else {
            Some((fault.text@, None))
        },
        Ok(entry) => if entry.kind == kind {
            None
        } else {
            Some((about(words, path), None))
        },
    }
}

fn check_optional(path: &[u8], words: &str, kind: FileKind, found: &Result<Entry, Fault>) -> (result:
    Result<(), Failure>)
    ensures
        reports(result, optional_problem(path@, words@, kind, *found)),
{
    match found {
        Err(fault) => if fault.kind == FaultKind::NotFound {
            Ok(())
        } else {
            Err(Failure::plain(&fault.text))
        },
        Ok(entry) => if entry.kind == kind {
            Ok(())
        } else {
            Err(Failure::at(words, path))
        },
    }
}

/// Checks that nothing or a directory is there.
pub fn validate_optional_directory(path: &[u8], label: &str, found: &Result<Entry, Fault>) -> (
result: Result<(), Failure>)
    ensures
        reports(
            result,
            optional_problem(
                path@,
                label@ + " must be a non-symlink directory: "@,
                FileKind::Directory,
                *found,
            ),
        ),
{
    check_optional(
        path,
        &concat(label, " must be a non-symlink directory: "),
        FileKind::Directory,
        found,
    )
}

/// Checks that nothing or a file is there.
pub fn validate_optional_uninstall_file(path: &[u8], label: &str, found: &Result<Entry, Fault>) -> (
result: Result<(), Failure>)
    ensures
        reports(
            result,
            optional_problem(path@, label@ + " must be a regular file: "@, FileKind::Regular, *found),
        ),
{
    check_optional(path, &concat(label, " must be a regular file: "), FileKind::Regular, found)
}

} // verus!
