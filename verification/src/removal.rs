//! The removal of what an installation manages.

use crate::bytes::copy_bytes;
use crate::failure::{about, message_at};
use crate::host::{Ask, FileKind, Reply, Request};
use crate::paths::{absolute, is_absolute};
use crate::script::{add_step, asked, bare_deed, bare_step, next_phase, no_steps, phase_after};
use crate::script::{step_views, Check, Cleanup, Demand, Phase, Script, Step, StepView, Tidy};
use vstd::prelude::*;

verus! {

/// What a managed path has to be before it is removed.
#[derive(Debug)]
pub enum ManagedRemovalKind {
    /// A link that leads to this path.
    ExactSymlink(Vec<u8>),
    RegularFile,
    /// A directory, which goes with everything below it.
    Directory,
}

/// What a managed path has to be before it is removed.
pub enum Removed {
    Link(Seq<u8>),
    File,
    Tree,
}

impl View for ManagedRemovalKind {
    type V = Removed;

    open spec fn view(&self) -> Removed {
        match self {
            ManagedRemovalKind::ExactSymlink(target) => Removed::Link(target@),
            ManagedRemovalKind::RegularFile => Removed::File,
            ManagedRemovalKind::Directory => Removed::Tree,
        }
    }
}

/// What is said of an entry that is not what it has to be.
pub open spec fn unmanaged_words(path: Seq<u8>, kind: Removed) -> Seq<char> {
    match kind {
        Removed::Link(_) => about("invalid managed symlink: "@, path),
        Removed::File => about("managed path must be a regular file: "@, path),
        Removed::Tree => about("managed path must be a directory: "@, path),
    }
}

/// The kind of entry that a managed path has to be.
pub open spec fn kind_of(kind: Removed) -> FileKind {
    match kind {
        Removed::Link(_) => FileKind::Symlink,
        Removed::File => FileKind::Regular,
        Removed::Tree => FileKind::Directory,
    }
}

/// The steps that remove a managed path. Where nothing stands there, nothing is done.
pub open spec fn removal_steps(path: Seq<u8>, kind: Removed) -> Seq<StepView> {
    let words = unmanaged_words(path, kind);
    let look = bare_step(
        Ask::Inspect(path),
        Demand::RememberIfPresent(kind_of(kind)),
        words,
    );
    let again = bare_step(
        Ask::Inspect(path),
        Demand::Same,
        about("managed path identity changed: "@, path),
    );
    match kind {
        Removed::Link(target) => seq![
            look,
            if absolute(target) {
                bare_step(Ask::ReadLink(path), Demand::LeadsTo(target), words)
            } else {
                bare_step(Ask::Inspect(path), Demand::Never, words)
            },
            again,
            bare_deed(Ask::RemoveFile(path)),
        ],
        Removed::File => seq![look, again, bare_deed(Ask::RemoveFile(path))],
        Removed::Tree => seq![look, again, bare_deed(Ask::RemoveTree(path))],
    }
}

/// Begins to remove a managed path.
pub fn remove_managed_path(path: &[u8], kind: &ManagedRemovalKind) -> (script: Script)
    ensures
        script.begins(removal_steps(path@, kind@), Tidy::Nothing),
{
    let mut steps = no_steps();
    let words = match kind {
        ManagedRemovalKind::ExactSymlink(_) => message_at("invalid managed symlink: ", path),
        ManagedRemovalKind::RegularFile => message_at("managed path must be a regular file: ", path),
        ManagedRemovalKind::Directory => message_at("managed path must be a directory: ", path),
    };
    let found = match kind {
        ManagedRemovalKind::ExactSymlink(_) => FileKind::Symlink,
        ManagedRemovalKind::RegularFile => FileKind::Regular,
        ManagedRemovalKind::Directory => FileKind::Directory,
    };
    let look = Request::Inspect(copy_bytes(path));
    add_step(&mut steps, Step::bare(look, Check::RememberIfPresent(found), words.clone()));
    match kind {
        ManagedRemovalKind::ExactSymlink(target) => if is_absolute(target) {
            add_step(
                &mut steps,
                Step::bare(
                    Request::ReadLink(copy_bytes(path)),
                    Check::LeadsTo(copy_bytes(target)),
                    words,
                ),
            );
        } else {
            add_step(
                &mut steps,
                Step::bare(Request::Inspect(copy_bytes(path)), Check::Never, words),
            );
        },
        _ => {},
    }
    add_step(
        &mut steps,
        Step::bare(
            Request::Inspect(copy_bytes(path)),
            Check::Same,
            message_at("managed path identity changed: ", path),
        ),
    );
    match kind {
        ManagedRemovalKind::Directory => add_step(
            &mut steps,
            Step::bare_deed(Request::RemoveTree(copy_bytes(path))),
        ),
        _ => add_step(&mut steps, Step::bare_deed(Request::RemoveFile(copy_bytes(path)))),
    }
    assert(step_views(steps@) =~= removal_steps(path@, kind@));
    Script::new(steps, Cleanup::Nothing)
}

/// The steps that remove the index of a backup.
pub open spec fn index_removal_steps(index: Seq<u8>) -> Seq<StepView> {
    seq![
        bare_step(
            Ask::Inspect(index),
            Demand::RememberKind(FileKind::Regular),
            about("backup index must be a regular file: "@, index),
        ),
        bare_step(
            Ask::Inspect(index),
            Demand::Same,
            about("backup index identity changed: "@, index),
        ),
        bare_deed(Ask::RemoveFile(index)),
    ]
}

/// Begins to remove the index of a backup.
pub fn remove_backup_index(index: &[u8]) -> (script: Script)
    ensures
        script.begins(index_removal_steps(index@), Tidy::Nothing),
{
    let mut steps = no_steps();
    add_step(
        &mut steps,
        Step::bare(
            Request::Inspect(copy_bytes(index)),
            Check::RememberKind(FileKind::Regular),
            message_at("backup index must be a regular file: ", index),
        ),
    );
    add_step(
        &mut steps,
        Step::bare(
            Request::Inspect(copy_bytes(index)),
            Check::Same,
            message_at("backup index identity changed: ", index),
        ),
    );
    add_step(&mut steps, Step::bare_deed(Request::RemoveFile(copy_bytes(index))));
    assert(step_views(steps@) =~= index_removal_steps(index@));
    Script::new(steps, Cleanup::Nothing)
}

/// Whether this request takes something away.
pub open spec fn takes_away(ask: Ask) -> bool {
    ask is RemoveFile || ask is RemoveTree || ask is RemoveDirectory
}

/// A managed path is removed only right after an inspection has shown the entry that
/// was looked at first.
pub proof fn only_what_was_looked_at_is_removed(
    path: Seq<u8>,
    kind: Removed,
    phase: Phase,
    reply: Reply,
)
    requires
        !takes_away(asked(removal_steps(path, kind), Tidy::Nothing, phase)),
        takes_away(
            asked(
                removal_steps(path, kind),
                Tidy::Nothing,
                next_phase(removal_steps(path, kind), Tidy::Nothing, phase, reply),
            ),
        ),
    ensures
        phase is Running,
        reply is Found,
        Some(reply->Found_0.identity) == phase->Running_created,
{
}

/// A link whose place is not named from the root is never removed.
pub proof fn a_relative_target_is_never_accepted(
    path: Seq<u8>,
    target: Seq<u8>,
    replies: Seq<Reply>,
)
    requires
        !absolute(target),
    ensures
        !takes_away(
            asked(
                removal_steps(path, Removed::Link(target)),
                Tidy::Nothing,
                phase_after(removal_steps(path, Removed::Link(target)), Tidy::Nothing, replies),
            ),
        ),
        match phase_after(removal_steps(path, Removed::Link(target)), Tidy::Nothing, replies) {
            Phase::Running { position, .. } => position <= 1,
            Phase::Inspecting { .. } => false,
            Phase::Removing { .. } => false,
            _ => true,
        },
    decreases replies.len(),
{
    if replies.len() > 0 {
        a_relative_target_is_never_accepted(path, target, replies.drop_last());
    }
}

} // verus!
