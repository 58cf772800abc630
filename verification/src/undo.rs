//! The reversal of a single change.

use crate::backup::{rollback_follows, BackupRollback, RollbackPhase};
use crate::bytes::{copy_bytes, text_bytes};
use crate::failure::{about, Failure};
use crate::host::{Ask, Entry, Fault, FaultKind, Program, Reply, Request};
use crate::script::unanswered;
use crate::stow::{stow_command, stow_program};
use crate::text::concat;
use crate::transaction::{removal_of, remove_created_path, Action, PathIdentity};
use vstd::prelude::*;
use vstd::utf8::encode_utf8;

verus! {

/// How far the reversal of a change has come.
#[derive(Debug)]
pub enum Undo {
    /// What was created is looked at.
    Created { path: Vec<u8>, identity: PathIdentity, recursive: bool },
    /// What was created is removed.
    Removing(Request),
    /// What was moved is moved back.
    Moved { from: Vec<u8>, to: Vec<u8> },
    /// What was moved into the backup is moved back.
    BackedUp(BackupRollback),
    /// The links of a package are removed.
    Stowed { package: String, program: Program },
    Completed,
    Failed(Failure),
}

/// Whether the undoing of a change begins this way.
pub open spec fn undo_begins(action: Action, undo: Undo) -> bool {
    match action {
        Action::Created { path, identity, recursive } => undo == (Undo::Created {
            path,
            identity,
            recursive,
        }),
        Action::Moved { from, to } => undo == (Undo::Moved { from, to }),
        Action::BackedUp { from, to, index, entry } => undo == Undo::BackedUp(
            BackupRollback { from, to, index, entry, phase: RollbackPhase::InspectSource },
        ),
        Action::Stowed { package, executable, dir, target } => undo is Stowed
            && undo->Stowed_package == package && undo->Stowed_program@ == stow_program(
            executable@,
            target@,
            dir@,
            encode_utf8(package@),
            true,
        ),
    }
}

/// Begins to undo a change.
pub fn undo(action: Action) -> (undo: Undo)
    ensures
        undo_begins(action, undo),
{
    match action {
        Action::Created { path, identity, recursive } => Undo::Created {
            path,
            identity,
            recursive,
        },
        Action::Moved { from, to } => Undo::Moved { from, to },
        Action::BackedUp { from, to, index, entry } => Undo::BackedUp(
            BackupRollback::new(from, to, index, entry),
        ),
        Action::Stowed { package, executable, dir, target } => {
            let name = text_bytes(&package);
            let program = stow_command(&executable, &target, &dir, &name, true);
            Undo::Stowed { package, program }
        },
    }
}

/// Whether a request has come out this way: it has to be done.
pub open spec fn done_or_failed(reply: Reply, next: Undo) -> bool {
    match reply {
        Reply::Done => next is Completed,
        Reply::Failed(fault) => next is Failed && next->Failed_0.says(fault.text@),
        _ => next is Failed && next->Failed_0.says(unanswered()),
    }
}

/// What an inspection shows.
pub open spec fn sighting(reply: Reply) -> Option<Result<Entry, Fault>> {
    match reply {
        Reply::Found(entry) => Some(Ok(entry)),
        Reply::Failed(fault) => Some(Err(fault)),
        _ => None,
    }
}

/// What is said where the links of a package are still there.
pub open spec fn unlinking_words(package: Seq<char>, status: Seq<char>) -> Seq<char> {
    "stow --delete failed for package "@ + package + ": "@ + status
}

impl Undo {
    pub open spec fn asks(&self) -> Ask {
        match self {
            Undo::Created { path, .. } => Ask::Inspect(path@),
            Undo::Removing(request) => request@,
            Undo::Moved { from, to } => Ask::Move { source: to@, destination: from@ },
            Undo::BackedUp(rollback) => rollback.asks(),
            Undo::Stowed { program, .. } => Ask::Run(program@),
            Undo::Completed => Ask::Nothing,
            Undo::Failed(_) => Ask::Nothing,
        }
    }

    /// What follows a reply.
    pub open spec fn follows(&self, reply: Reply, next: Undo) -> bool {
        match self {
            Undo::Created { path, identity, recursive } => match sighting(reply) {
                Some(Ok(entry)) => if entry.identity == *identity {
                    next is Removing && next->Removing_0@ == removal_of(path@, entry, *recursive)
                } else {
                    next is Failed && next->Failed_0.says(
                        about("created path identity changed: "@, path@),
                    )
                },
                Some(Err(fault)) => if fault.kind == FaultKind::NotFound {
                    next is Completed
                } else {
                    next is Failed && next->Failed_0.says(fault.text@)
                },
                None => next is Failed && next->Failed_0.says(unanswered()),
            },
            Undo::Removing(_) => done_or_failed(reply, next),
            Undo::Moved { .. } => done_or_failed(reply, next),
            Undo::BackedUp(rollback) => exists|phase: RollbackPhase| {
                &&& #[trigger] rollback_follows(rollback.entry@, rollback.phase, reply, phase)
                &&& rollback_ends(
                    BackupRollback {
                        from: rollback.from,
                        to: rollback.to,
                        index: rollback.index,
                        entry: rollback.entry,
                        phase,
                    },
                    next,
                )
            },
            Undo::Stowed { package, .. } => match reply {
                Reply::Exited { success, status, .. } => if success {
                    next is Completed
                } else {
                    next is Failed && next->Failed_0.says(unlinking_words(package@, status@))
                },
                Reply::Failed(fault) => next is Failed && next->Failed_0.says(fault.text@),
                _ => next is Failed && next->Failed_0.says(unanswered()),
            },
            _ => next == *self,
        }
    }

    /// What has to be done next.
    pub fn request(&self) -> (request: Request)
        ensures
            request@ == self.asks(),
    {
        match self {
            Undo::Created { path, .. } => Request::Inspect(copy_bytes(path)),
            Undo::Removing(request) => request.copy(),
            Undo::Moved { from, to } => Request::Move {
                source: copy_bytes(to),
                destination: copy_bytes(from),
            },
            Undo::BackedUp(rollback) => rollback.request(),
            Undo::Stowed { program, .. } => Request::Run(program.copy()),
            Undo::Completed => Request::Nothing,
            Undo::Failed(_) => Request::Nothing,
        }
    }

    /// Goes on with a reply.
    pub fn advance(self, reply: Reply) -> (next: Undo)
        ensures
            self.follows(reply, next),
    {
        match self {
            Undo::Created { path, identity, recursive } => {
                let found = match reply {
                    Reply::Found(entry) => Ok(entry),
                    Reply::Failed(fault) => Err(fault),
                    _ => {
                        return Undo::Failed(Failure::plain("unexpected reply"));
                    },
                };
                match remove_created_path(&path, identity, recursive, found) {
                    Ok(Request::Nothing) => Undo::Completed,
                    Ok(request) => Undo::Removing(request),
                    Err(failure) => Undo::Failed(failure),
                }
            },
            Undo::Removing(_) => end(reply),
            Undo::Moved { .. } => end(reply),
            Undo::BackedUp(rollback) => {
                let next = rollback.advance(reply);
                assert(rollback_follows(rollback.entry@, rollback.phase, reply, next.phase));
                match next.outcome() {
                    None => Undo::BackedUp(next),
                    Some(Ok(())) => Undo::Completed,
                    Some(Err(failure)) => Undo::Failed(failure),
                }
            },
            Undo::Stowed { package, .. } => match reply {
                Reply::Exited { success, status, .. } => if success {
                    Undo::Completed
                } else {
                    let mut words = concat("stow --delete failed for package ", &package);
                    words.append(": ");
                    words.append(&status);
                    Undo::Failed(Failure::plain(&words))
                },
                Reply::Failed(fault) => Undo::Failed(Failure::plain(&fault.text)),
                _ => Undo::Failed(Failure::plain("unexpected reply")),
            },
            Undo::Completed => Undo::Completed,
            Undo::Failed(failure) => Undo::Failed(failure),
        }
    }
}

/// How the reversal of a backup stands.
pub open spec fn rollback_ends(rollback: BackupRollback, next: Undo) -> bool {
    match rollback.phase {
        RollbackPhase::Restored => next is Completed,
        RollbackPhase::Failed(failure) => next is Failed && next->Failed_0.says(
            rollback.words(failure),
        ),
        _ => next == Undo::BackedUp(rollback),
    }
}

fn end(reply: Reply) -> (next: Undo)
    ensures
        done_or_failed(reply, next),
{
    match reply {
        Reply::Done => Undo::Completed,
        Reply::Failed(fault) => Undo::Failed(Failure::plain(&fault.text)),
        _ => Undo::Failed(Failure::plain("unexpected reply")),
    }
}

/// Only what was created is removed: an entry that has meanwhile taken its place is
/// left alone.
pub proof fn only_the_created_entry_is_removed(undo: Undo, reply: Reply, next: Undo)
    requires
        undo.follows(reply, next),
        next is Removing,
        !(undo is Removing),
    ensures
        undo is Created,
        reply is Found,
        reply->Found_0.identity == undo->Created_identity,
        next.asks() == removal_of(
            undo->Created_path@,
            reply->Found_0,
            undo->Created_recursive,
        ),
{
}

} // verus!
