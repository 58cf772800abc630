//! Writing files so that they are whole or not there at all.
//!
//! A file is written under a temporary name beside its target and then renamed.

use crate::bytes::{append_bytes, copy_bytes, text_bytes};
use crate::failure::{about, message_at};
use crate::host::{Ask, FaultKind, FileKind, Reply, Request};
use crate::paths::{file_name, file_name_of, has_parent, join, joined, parent, parent_of};
use crate::script::{add_step, bare_step, deed, next_phase, no_steps, step, step_views, unanswered};
use crate::script::{Check, Cleanup, Demand, Phase, Script, Step, StepView, Tidy};
use crate::text::{decimal, decimal_text};
use vstd::prelude::*;
use vstd::utf8::encode_utf8;

verus! {

/// The permission bits of a file that is being written.
pub const TEMP_FILE_MODE: u32 = 0o600;

/// How many temporary names are tried.
pub const TEMP_FILE_TRIES: u32 = 128;

/// What happens to a file that stands at the target.
#[derive(Clone, Copy, Debug, PartialEq, Eq, Structural)]
pub enum SaveMode {
    /// A regular file is replaced.
    Replace,
    /// Nothing may stand there.
    Initial,
}

/// The name of a temporary file for a file of the given name.
pub open spec fn temporary_name(name: Seq<u8>, process: u64, sequence: u64) -> Seq<u8> {
    seq![0x2eu8] + name + encode_utf8(
        ".tmp-"@ + decimal(process as nat) + "-"@ + decimal(sequence as nat),
    )
}

/// The path of a temporary file beside the target.
pub open spec fn temporary_path(target: Seq<u8>, process: u64, sequence: u64) -> Seq<u8> {
    joined(
        parent_of(target),
        temporary_name(file_name_of(target)->0, process, sequence),
    )
}

/// The check of what stands at the target.
pub open spec fn target_check(mode: SaveMode, target: Seq<u8>) -> StepView {
    match mode {
        SaveMode::Replace => step(
            Ask::Inspect(target),
            Demand::MissingOr(FileKind::Regular),
            about("failed to inspect atomic save target: "@, target),
            about("atomic save target must be a regular file or missing: "@, target),
        ),
        SaveMode::Initial => step(
            Ask::Inspect(target),
            Demand::Missing,
            about("failed to inspect initial target: "@, target),
            about("initial install target already exists: "@, target),
        ),
    }
}

/// The step that puts the finished file in place.
pub open spec fn commit_step(mode: SaveMode, target: Seq<u8>, temporary: Seq<u8>) -> StepView {
    match mode {
        SaveMode::Replace => deed(
            Ask::Rename { source: temporary, destination: target },
            about("failed to replace "@, target) + about(" with "@, temporary),
        ),
        SaveMode::Initial => deed(
            Ask::RenameNoReplace { source: temporary, destination: target },
            about("failed to create installation metadata: "@, target),
        ),
    }
}

/// The checks before the temporary file is created.
pub open spec fn save_checks(mode: SaveMode, target: Seq<u8>) -> Seq<StepView> {
    let above = parent_of(target);
    let first = seq![target_check(mode, target)];
    if !has_parent(target) {
        first.push(
            bare_step(
                Ask::Nothing,
                Demand::Never,
                about("target has no parent directory: "@, target),
            ),
        )
    } else {
        let second = match mode {
            SaveMode::Replace => first,
            SaveMode::Initial => first.push(
                step(
                    Ask::Inspect(above),
                    Demand::Kind(FileKind::Directory),
                    about("failed to inspect directory: "@, above),
                    about("path must be a non-symlink directory: "@, above),
                ),
            ),
        };
        if file_name_of(target) is None {
            second.push(
                bare_step(
                    Ask::Nothing,
                    Demand::Never,
                    about("target has no file name: "@, target),
                ),
            )
        } else {
            second
        }
    }
}

/// The steps from the creation of the temporary file on.
pub open spec fn save_work(
    mode: SaveMode,
    target: Seq<u8>,
    contents: Seq<u8>,
    temporary: Seq<u8>,
) -> Seq<StepView> {
    let above = parent_of(target);
    seq![
        step(
            Ask::CreateFile { path: temporary, mode: TEMP_FILE_MODE },
            Demand::Done,
            about("failed to create temporary file in "@, above),
            about("failed to allocate a unique temporary file in "@, above),
        ),
        step(
            Ask::InspectOpen(temporary),
            Demand::Remember,
            about("failed to inspect temporary file: "@, temporary),
            unanswered(),
        ),
        deed(
            Ask::SetOpenMode { path: temporary, mode: TEMP_FILE_MODE },
            about("failed to set temporary file permissions: "@, temporary),
        ),
        deed(
            Ask::Write { path: temporary, contents },
            about("failed to write temporary file: "@, temporary),
        ),
        deed(Ask::SyncOpen(temporary), about("failed to sync temporary file: "@, temporary)),
        target_check(mode, target),
        step(
            Ask::Inspect(temporary),
            Demand::Same,
            about("failed to inspect temporary file: "@, temporary),
            about("temporary file was replaced: "@, temporary),
        ),
        commit_step(mode, target, temporary),
    ]
}

/// Whether a file can be written beside the target.
pub open spec fn has_place(target: Seq<u8>) -> bool {
    has_parent(target) && file_name_of(target) is Some
}

/// All steps of a save.
pub open spec fn save_steps(
    mode: SaveMode,
    target: Seq<u8>,
    contents: Seq<u8>,
    process: u64,
    sequence: u64,
) -> Seq<StepView> {
    if has_place(target) {
        save_checks(mode, target) + save_work(
            mode,
            target,
            contents,
            temporary_path(target, process, sequence),
        )
    } else {
        save_checks(mode, target)
    }
}

/// What a failed save takes away: its own temporary file.
pub open spec fn save_tidy(target: Seq<u8>, process: u64, sequence: u64) -> Tidy {
    let temporary = temporary_path(target, process, sequence);
    if has_place(target) {
        Tidy::IfSame { inspect: Ask::Inspect(temporary), remove: Ask::RemoveFile(temporary) }
    } else {
        Tidy::Nothing
    }
}

/// The writing of a file.
#[derive(Debug)]
pub struct Save {
    pub mode: SaveMode,
    pub target: Vec<u8>,
    pub contents: Vec<u8>,
    /// The number of this process.
    pub process: u64,
    /// The number of the temporary name that is in use.
    pub sequence: u64,
    /// How many temporary names were tried.
    pub tries: u32,
    pub script: Script,
}

fn check_target(mode: SaveMode, target: &[u8]) -> (made: Step)
    ensures
        made@ == target_check(mode, target@),
{
    match mode {
        SaveMode::Replace => Step::new(
            Request::Inspect(copy_bytes(target)),
            Check::MissingOr(FileKind::Regular),
            message_at("failed to inspect atomic save target: ", target),
            message_at("atomic save target must be a regular file or missing: ", target),
        ),
        SaveMode::Initial => Step::new(
            Request::Inspect(copy_bytes(target)),
            Check::Missing,
            message_at("failed to inspect initial target: ", target),
            message_at("initial install target already exists: ", target),
        ),
    }
}

fn commit(mode: SaveMode, target: &[u8], temporary: &[u8]) -> (made: Step)
    ensures
        made@ == commit_step(mode, target@, temporary@),
{
    match mode {
        SaveMode::Replace => {
            let mut context = message_at("failed to replace ", target);
            context.append(&message_at(" with ", temporary));
            Step::deed(
                Request::Rename { source: copy_bytes(temporary), destination: copy_bytes(target) },
                context,
            )
        },
        SaveMode::Initial => Step::deed(
            Request::RenameNoReplace {
                source: copy_bytes(temporary),
                destination: copy_bytes(target),
            },
            message_at("failed to create installation metadata: ", target),
        ),
    }
}

/// The path of a temporary file.
fn temporary_for(above: &[u8], name: &[u8], process: u64, sequence: u64) -> (path: Vec<u8>)
    ensures
        path@ == joined(above@, temporary_name(name@, process, sequence)),
{
    let mut tail = ".tmp-".to_owned();
    tail.append(&decimal_text(process));
    tail.append("-");
    tail.append(&decimal_text(sequence));
    let mut file: Vec<u8> = vec![0x2eu8];
    assert(file@ =~= seq![0x2eu8]);
    append_bytes(&mut file, name);
    append_bytes(&mut file, &text_bytes(&tail));
    join(above, &file)
}

fn add_work(
    steps: &mut Vec<Step>,
    mode: SaveMode,
    target: &[u8],
    above: &[u8],
    contents: &[u8],
    temporary: &[u8],
)
    requires
        above@ == parent_of(target@),
    ensures
        step_views(final(steps)@) == step_views(old(steps)@) + save_work(
            mode,
            target@,
            contents@,
            temporary@,
        ),
{
    let ghost before = step_views(steps@);
    add_step(
        steps,
        Step::new(
            Request::CreateFile { path: copy_bytes(temporary), mode: TEMP_FILE_MODE },
            Check::Done,
            message_at("failed to create temporary file in ", above),
            message_at("failed to allocate a unique temporary file in ", above),
        ),
    );
    add_step(
        steps,
        Step::new(
            Request::InspectOpen(copy_bytes(temporary)),
            Check::Remember,
            message_at("failed to inspect temporary file: ", temporary),
            "unexpected reply".to_owned(),
        ),
    );
    add_step(
        steps,
        Step::deed(
            Request::SetOpenMode { path: copy_bytes(temporary), mode: TEMP_FILE_MODE },
            message_at("failed to set temporary file permissions: ", temporary),
        ),
    );
    add_step(
        steps,
        Step::deed(
            Request::Write { path: copy_bytes(temporary), contents: copy_bytes(contents) },
            message_at("failed to write temporary file: ", temporary),
        ),
    );
    add_step(
        steps,
        Step::deed(
            Request::SyncOpen(copy_bytes(temporary)),
            message_at("failed to sync temporary file: ", temporary),
        ),
    );
    add_step(steps, check_target(mode, target));
    add_step(
        steps,
        Step::new(
            Request::Inspect(copy_bytes(temporary)),
            Check::Same,
            message_at("failed to inspect temporary file: ", temporary),
            message_at("temporary file was replaced: ", temporary),
        ),
    );
    add_step(steps, commit(mode, target, temporary));
    assert(step_views(steps@) =~= before + save_work(mode, target@, contents@, temporary@));
}

/// The script of a save with the given temporary name.
fn save_script(mode: SaveMode, target: &[u8], contents: &[u8], process: u64, sequence: u64) -> (script:
    Script)
    ensures
        step_views(script.steps@) == save_steps(mode, target@, contents@, process, sequence),
        script.cleanup@ == save_tidy(target@, process, sequence),
        script.phase == (Phase::Running { position: 0, created: None }),
{
    let mut steps = no_steps();
    add_step(&mut steps, check_target(mode, target));
    assert(step_views(steps@) =~= seq![target_check(mode, target@)]);
    let above = match parent(target) {
        None => {
            add_step(
                &mut steps,
                Step::bare(
                    Request::Nothing,
                    Check::Never,
                    message_at("target has no parent directory: ", target),
                ),
            );
            return Script::new(steps, Cleanup::Nothing);
        },
        Some(above) => above,
    };
    match mode {
        SaveMode::Replace => {},
        SaveMode::Initial => {
            add_step(
                &mut steps,
                Step::new(
                    Request::Inspect(copy_bytes(&above)),
                    Check::Kind(FileKind::Directory),
                    message_at("failed to inspect directory: ", &above),
                    message_at("path must be a non-symlink directory: ", &above),
                ),
            );
        },
    }
    let name = match file_name(target) {
        None => {
            add_step(
                &mut steps,
                Step::bare(
                    Request::Nothing,
                    Check::Never,
                    message_at("target has no file name: ", target),
                ),
            );
            return Script::new(steps, Cleanup::Nothing);
        },
        Some(name) => name,
    };
    let temporary = temporary_for(&above, &name, process, sequence);
    add_work(&mut steps, mode, target, &above, contents, &temporary);
    let cleanup = Cleanup::IfSame {
        inspect: Request::Inspect(copy_bytes(&temporary)),
        remove: Request::RemoveFile(copy_bytes(&temporary)),
    };
    assert(steps@.len() == step_views(steps@).len());
    Script::new(steps, cleanup)
}

impl Save {
    /// Whether the script has the steps of this save.
    pub open spec fn valid(&self) -> bool {
        &&& step_views(self.script.steps@) == save_steps(
            self.mode,
            self.target@,
            self.contents@,
            self.process,
            self.sequence,
        )
        &&& self.script.cleanup@ == save_tidy(self.target@, self.process, self.sequence)
    }

    /// The position of the step that creates the temporary file.
    pub open spec fn create_position(&self) -> int {
        save_checks(self.mode, self.target@).len() as int
    }

    /// Whether the reply says that the temporary name is taken.
    pub open spec fn name_taken(&self, reply: Reply) -> bool {
        &&& has_place(self.target@)
        &&& self.script.phase is Running
        &&& self.script.phase->Running_position == self.create_position()
        &&& reply is Failed
        &&& reply->Failed_0.kind == FaultKind::AlreadyExists
    }

    /// A save that has not begun.
    pub fn new(mode: SaveMode, target: &[u8], contents: &[u8], process: u64, sequence: u64) -> (save:
        Save)
        ensures
            save.mode == mode,
            save.target@ == target@,
            save.contents@ == contents@,
            save.process == process,
            save.sequence == sequence,
            save.tries == 1,
            save.valid(),
            save.script.phase == (Phase::Running { position: 0, created: None }),
    {
        let script = save_script(mode, target, contents, process, sequence);
        Save {
            mode,
            target: copy_bytes(target),
            contents: copy_bytes(contents),
            process,
            sequence,
            tries: 1,
            script,
        }
    }

    /// What follows a reply: where the temporary name is taken the next one is tried,
    /// as often as names may be tried.
    pub open spec fn follows(&self, reply: Reply, next: Save) -> bool {
        &&& next.mode == self.mode
        &&& next.target == self.target
        &&& next.contents == self.contents
        &&& next.process == self.process
        &&& self.name_taken(reply) && self.tries < TEMP_FILE_TRIES ==> {
            &&& next.tries == self.tries + 1
            &&& next.sequence == if self.sequence == u64::MAX {
                0
            } else {
                (self.sequence + 1) as u64
            }
            &&& next.script.phase == (Phase::Running {
                position: self.create_position() as usize,
                created: None,
            })
        }
        &&& self.name_taken(reply) && self.tries >= TEMP_FILE_TRIES ==> {
            &&& next.tries == self.tries
            &&& next.sequence == self.sequence
            &&& next.script.phase == (Phase::Failed {
                step: self.create_position() as usize,
                fault: None,
            })
        }
        &&& !self.name_taken(reply) ==> {
            &&& next.tries == self.tries
            &&& next.sequence == self.sequence
            &&& next.script.phase == next_phase(
                step_views(self.script.steps@),
                self.script.cleanup@,
                self.script.phase,
                reply,
            )
        }
    }

    /// Goes on with the reply to the request of the script. Where the temporary
    /// name is taken the next one is tried, as often as names may be tried.
    pub fn advance(self, reply: Reply) -> (next: Save)
        requires
            self.valid(),
        ensures
            next.valid(),
            self.follows(reply, next),
    {
        let taken = match (&self.script.phase, &reply) {
            (Phase::Running { position, .. }, Reply::Failed(fault)) => {
                proof {
                    assert(self.script.steps@.len() == step_views(self.script.steps@).len());
                }
                self.script.steps.len() >= 8 && *position == self.script.steps.len() - 8
                    && fault.kind == FaultKind::AlreadyExists
            },
            _ => false,
        };
        proof {
            assert(self.script.steps@.len() == step_views(self.script.steps@).len());
            assert(save_work(self.mode, self.target@, self.contents@, Seq::empty()).len() == 8);
        }
        if taken {
            let position: usize = self.script.steps.len() - 8;
            if self.tries < TEMP_FILE_TRIES {
                let sequence: u64 = self.sequence.wrapping_add(1);
                let fresh = save_script(
                    self.mode,
                    &self.target,
                    &self.contents,
                    self.process,
                    sequence,
                );
                let script = Script {
                    steps: fresh.steps,
                    cleanup: fresh.cleanup,
                    phase: Phase::Running { position, created: None },
                };
                Save {
                    mode: self.mode,
                    target: self.target,
                    contents: self.contents,
                    process: self.process,
                    sequence,
                    tries: self.tries + 1,
                    script,
                }
            } else {
                let script = Script {
                    steps: self.script.steps,
                    cleanup: self.script.cleanup,
                    phase: Phase::Failed { step: position, fault: None },
                };
                Save {
                    mode: self.mode,
                    target: self.target,
                    contents: self.contents,
                    process: self.process,
                    sequence: self.sequence,
                    tries: self.tries,
                    script,
                }
            }
        } else {
            let script = self.script.advance(reply);
            Save {
                mode: self.mode,
                target: self.target,
                contents: self.contents,
                process: self.process,
                sequence: self.sequence,
                tries: self.tries,
                script,
            }
        }
    }
}

/// Replaces a regular file, or creates it where it is missing.
pub fn atomic_save(target: &[u8], contents: &[u8], process: u64, sequence: u64) -> (save: Save)
    ensures
        save.valid(),
        save.mode == SaveMode::Replace,
        save.target@ == target@,
        save.contents@ == contents@,
        save.process == process,
        save.sequence == sequence,
        save.tries == 1,
        save.script.phase == (Phase::Running { position: 0, created: None }),
{
    Save::new(SaveMode::Replace, target, contents, process, sequence)
}

/// Creates a file where nothing stands yet.
pub fn create_initial_file(target: &[u8], contents: &[u8], process: u64, sequence: u64) -> (save: Save)
    ensures
        save.valid(),
        save.mode == SaveMode::Initial,
        save.target@ == target@,
        save.contents@ == contents@,
        save.process == process,
        save.sequence == sequence,
        save.tries == 1,
        save.script.phase == (Phase::Running { position: 0, created: None }),
{
    Save::new(SaveMode::Initial, target, contents, process, sequence)
}

/// A save touches its target in its last step alone, after the contents are on the
/// disk; before that it only inspects it. A file that stands at the target is
/// replaced only by a save that may replace it.
pub proof fn the_target_is_touched_last(
    mode: SaveMode,
    target: Seq<u8>,
    contents: Seq<u8>,
    process: u64,
    sequence: u64,
)
    requires
        has_place(target),
    ensures
        ({
            let steps = save_steps(mode, target, contents, process, sequence);
            let temporary = temporary_path(target, process, sequence);
            &&& steps.len() >= 9
            &&& steps.last() == commit_step(mode, target, temporary)
            &&& steps[steps.len() - 4].ask == Ask::SyncOpen(temporary)
            &&& steps[steps.len() - 5].ask == (Ask::Write { path: temporary, contents })
            &&& forall|i: int|
                0 <= i < steps.len() - 1 ==> match (#[trigger] steps[i]).ask {
                    Ask::Inspect(_) => true,
                    Ask::InspectOpen(path) => path == temporary,
                    Ask::CreateFile { path, .. } => path == temporary,
                    Ask::SetOpenMode { path, .. } => path == temporary,
                    Ask::Write { path, .. } => path == temporary,
                    Ask::SyncOpen(path) => path == temporary,
                    _ => false,
                }
        }),
        commit_step(mode, target, temporary_path(target, process, sequence)).ask is Rename <==> mode
            == SaveMode::Replace,
{
    let steps = save_steps(mode, target, contents, process, sequence);
    let temporary = temporary_path(target, process, sequence);
    let checks = save_checks(mode, target);
    let work = save_work(mode, target, contents, temporary);
    assert(steps.len() == checks.len() + 8);
    assert(steps.last() == work[7]);
    assert(steps[steps.len() - 4] == work[4]);
    assert(steps[steps.len() - 5] == work[3]);
    assert forall|i: int| 0 <= i < steps.len() - 1 implies match (#[trigger] steps[i]).ask {
        Ask::Inspect(_) => true,
        Ask::InspectOpen(path) => path == temporary,
        Ask::CreateFile { path, .. } => path == temporary,
        Ask::SetOpenMode { path, .. } => path == temporary,
        Ask::Write { path, .. } => path == temporary,
        Ask::SyncOpen(path) => path == temporary,
        _ => false,
    } by {
        if i < checks.len() {
            assert(steps[i] == checks[i]);
        } else {
            assert(steps[i] == work[i - checks.len()]);
        }
    }
}

} // verus!
