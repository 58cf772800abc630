//! Putting the running program in its place.

use crate::bytes::copy_bytes;
use crate::config::ResolvedPaths;
use crate::failure::{about, is_failure, message_at, reports, Failure, Words};
use crate::host::{executable_mode, Ask, FileKind, Reply, Request};
use crate::paths::{absolute, is_absolute, join_text, under};
use crate::script::{add_step, deed, no_steps, step, step_views, tells, unanswered, Check, Cleanup};
use crate::script::{Demand, Phase, Progress, Script, Step, StepView, Tidy};
use vstd::prelude::*;

verus! {

/// The permissions of the program.
pub const EIYAH_BINARY_MODE: u32 = 0o755;

/// What is wrong with the running program, by one look at it.
pub open spec fn source_problem(source: Seq<u8>, reply: Reply) -> Option<Words> {
    match reply {
        Reply::Found(entry) => if entry.kind != FileKind::Regular {
            Some((about("Eiyah binary must be a regular file: "@, source), None))
        } else if !executable_mode(entry.mode) {
            Some((about("Eiyah binary must be executable: "@, source), None))
        } else {
            None
        },
        Reply::Failed(fault) => Some(
            (about("failed to inspect Eiyah binary: "@, source), Some(fault.text@)),
        ),
        _ => Some((unanswered(), None)),
    }
}

/// The steps that copy the running program.
pub open spec fn binary_steps(source: Seq<u8>, target: Seq<u8>) -> Seq<StepView> {
    seq![
        deed(Ask::Open(source), about("failed to open Eiyah binary: "@, source)),
        deed(
            Ask::CreateFile { path: target, mode: EIYAH_BINARY_MODE },
            about("failed to create Eiyah binary: "@, target),
        ),
        step(
            Ask::InspectOpen(target),
            Demand::Remember,
            about("failed to inspect Eiyah binary: "@, target),
            unanswered(),
        ),
        deed(
            Ask::SetOpenMode { path: target, mode: EIYAH_BINARY_MODE },
            about("failed to set Eiyah binary mode: "@, target),
        ),
        deed(
            Ask::CopyFrom { source, path: target },
            about("failed to copy Eiyah binary: "@, target),
        ),
        deed(Ask::SyncOpen(target), about("failed to sync Eiyah binary: "@, target)),
    ]
}

/// What is removed after a failure, provided that it is still what was created.
pub open spec fn binary_tidy(target: Seq<u8>) -> Tidy {
    Tidy::IfSame { inspect: Ask::Inspect(target), remove: Ask::RemoveFile(target) }
}

/// Checks the running program: it has to be a regular file that can be executed.
pub fn validate_source_binary(source: &[u8], reply: Reply) -> (result: Result<(), Failure>)
    ensures
        reports(result, source_problem(source@, reply)),
{
    match reply {
        Reply::Found(entry) => if entry.kind != FileKind::Regular {
            Err(Failure::at("Eiyah binary must be a regular file: ", source))
        } else if entry.mode & 0o111 == 0 {
            Err(Failure::at("Eiyah binary must be executable: ", source))
        } else {
            Ok(())
        },
        Reply::Failed(fault) => Err(
            Failure::caused_at("failed to inspect Eiyah binary: ", source, &fault.text),
        ),
        _ => Err(Failure::plain("unexpected reply")),
    }
}

/// Copies the running program to its place, which must be free. After a failure the
/// copy is removed, provided that it is still the file that was created.
fn copy_binary(source: &[u8], target: &[u8]) -> (script: Script)
    ensures
        script.begins(binary_steps(source@, target@), binary_tidy(target@)),
{
    let mut steps = no_steps();
    add_step(
        &mut steps,
        Step::deed(
            Request::Open(copy_bytes(source)),
            message_at("failed to open Eiyah binary: ", source),
        ),
    );
    add_step(
        &mut steps,
        Step::deed(
            Request::CreateFile { path: copy_bytes(target), mode: EIYAH_BINARY_MODE },
            message_at("failed to create Eiyah binary: ", target),
        ),
    );
    add_step(
        &mut steps,
        Step::new(
            Request::InspectOpen(copy_bytes(target)),
            Check::Remember,
            message_at("failed to inspect Eiyah binary: ", target),
            "unexpected reply".to_owned(),
        ),
    );
    add_step(
        &mut steps,
        Step::deed(
            Request::SetOpenMode { path: copy_bytes(target), mode: EIYAH_BINARY_MODE },
            message_at("failed to set Eiyah binary mode: ", target),
        ),
    );
    add_step(
        &mut steps,
        Step::deed(
            Request::CopyFrom { source: copy_bytes(source), path: copy_bytes(target) },
            message_at("failed to copy Eiyah binary: ", target),
        ),
    );
    add_step(
        &mut steps,
        Step::deed(
            Request::SyncOpen(copy_bytes(target)),
            message_at("failed to sync Eiyah binary: ", target),
        ),
    );
    assert(step_views(steps@) =~= binary_steps(source@, target@));
    Script::new(
        steps,
        Cleanup::IfSame {
            inspect: Request::Inspect(copy_bytes(target)),
            remove: Request::RemoveFile(copy_bytes(target)),
        },
    )
}

/// The running program on its way to its place.
#[derive(Debug)]
pub enum BinarySetup {
    /// The running program is looked at.
    Checking { source: Vec<u8>, target: Vec<u8> },
    /// It is copied.
    Copying(Script),
    Completed,
    Failed(Failure),
}

/// Begins to put the running program in its place.
pub fn install_running_eiyah_binary(paths: &ResolvedPaths, source: &[u8]) -> (setup: BinarySetup)
    ensures
        setup.begins(paths.eiyah_prefix@, source@),
{
    BinarySetup::Checking {
        source: copy_bytes(source),
        target: join_text(&paths.eiyah_prefix, "bin/eiyah"),
    }
}

impl BinarySetup {
    /// Whether nothing was done yet.
    pub open spec fn begins(&self, prefix: Seq<u8>, source: Seq<u8>) -> bool {
        &&& self is Checking
        &&& self->source@ == source
        &&& self->target@ == under(prefix, "bin/eiyah"@)
    }

    /// The request that the setup waits for.
    pub open spec fn asks(&self) -> Ask {
        match self {
            BinarySetup::Checking { source, .. } => Ask::Inspect(source@),
            BinarySetup::Copying(script) => script.asks(),
            BinarySetup::Completed => Ask::Nothing,
            BinarySetup::Failed(_) => Ask::Nothing,
        }
    }

    /// What follows a reply.
    pub open spec fn follows(&self, reply: Reply, next: BinarySetup) -> bool {
        match self {
            BinarySetup::Checking { source, target } => match source_problem(source@, reply) {
                Some(words) => next is Failed && is_failure(next->Failed_0, words),
                None => next is Copying && next->Copying_0.begins(
                    binary_steps(source@, target@),
                    binary_tidy(target@),
                ),
            },
            BinarySetup::Copying(script) => match script.after(reply).phase {
                Phase::Completed => next is Completed,
                Phase::Failed { step, fault } => next is Failed && tells(
                    step_views(script.steps@),
                    step as int,
                    fault,
                    next->Failed_0,
                ),
                _ => next == BinarySetup::Copying(script.after(reply)),
            },
            _ => next == *self,
        }
    }

    pub fn request(&self) -> (request: Request)
        ensures
            request@ == self.asks(),
    {
        match self {
            BinarySetup::Checking { source, .. } => Request::Inspect(copy_bytes(source)),
            BinarySetup::Copying(script) => script.wanted(),
            BinarySetup::Completed => Request::Nothing,
            BinarySetup::Failed(_) => Request::Nothing,
        }
    }

    /// Goes on with a reply.
    pub fn advance(self, reply: Reply) -> (next: BinarySetup)
        ensures
            self.follows(reply, next),
    {
        match self {
            BinarySetup::Checking { source, target } => match validate_source_binary(
                &source,
                reply,
            ) {
                Err(failure) => BinarySetup::Failed(failure),
                Ok(()) => BinarySetup::Copying(copy_binary(&source, &target)),
            },
            BinarySetup::Copying(script) => match script.progress(reply) {
                Progress::Going(script) => BinarySetup::Copying(script),
                Progress::Completed => BinarySetup::Completed,
                Progress::Broken(failure) => BinarySetup::Failed(failure),
            },
            BinarySetup::Completed => BinarySetup::Completed,
            BinarySetup::Failed(failure) => BinarySetup::Failed(failure),
        }
    }
}

/// Links the command to the program; the link has to be absolute.
pub fn create_eiyah_public_entry(paths: &ResolvedPaths, home: &[u8]) -> (result: Result<
    Step,
    Failure,
>)
    ensures
        ({
            let target = under(paths.eiyah_prefix@, "bin/eiyah"@);
            let entry = under(home@, ".local/bin/eiyah"@);
            if absolute(target) {
                result is Ok && result->Ok_0@ == deed(
                    Ask::Symlink { target, path: entry },
                    about("failed to create public Eiyah entry: "@, entry),
                )
            } else {
                result is Err && result->Err_0.says(
                    about("Eiyah command link target must be absolute: "@, target),
                )
            }
        }),
{
    let target = join_text(&paths.eiyah_prefix, "bin/eiyah");
    if !is_absolute(&target) {
        return Err(Failure::at("Eiyah command link target must be absolute: ", &target));
    }
    let entry = join_text(home, ".local/bin/eiyah");
    let context = message_at("failed to create public Eiyah entry: ", &entry);
    Ok(Step::deed(Request::Symlink { target, path: entry }, context))
}

} // verus!
