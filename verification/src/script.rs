//! Work that is done step by step: each step is one request, and the reply decides
//! whether the next one is made.
//!
//! When a reply is refused no further step is made. What the script itself created
//! is then taken away again, and only that: an entry that has meanwhile taken its
//! place is left alone.

use crate::bytes::same_bytes;
use crate::checksum::{sha256, sha256_digest};
use crate::failure::Failure;
use crate::host::{executable_mode, is_executable, is_program, Ask, Entry, Fault, FaultKind};
use crate::host::{FileKind, Reply, Request};
use crate::paths::{absolute, components_of, is_absolute, same_path};
use crate::text::concat;
use crate::transaction::PathIdentity;
use vstd::prelude::*;

verus! {

/// What the reply to a step has to be.
#[derive(Debug)]
pub enum Check {
    /// It was done.
    Done,
    /// Something stands there.
    Exists,
    /// An entry of this kind stands there.
    Kind(FileKind),
    /// A regular file that can be executed stands there.
    Executable,
    /// An entry with one of the execute bits stands there.
    ExecutableMode,
    /// A file, a directory or a symbolic link stands there.
    Movable,
    /// Nothing stands there.
    Missing,
    /// Nothing stands there, or an entry of this kind.
    MissingOr(FileKind),
    /// Something stands there: what the script has created.
    Remember,
    /// An entry of this kind stands there, which the script remembers.
    RememberKind(FileKind),
    /// A file, a directory or a symbolic link stands there, which the script remembers.
    RememberMovable,
    /// An entry of this kind stands there, which the script remembers; where nothing
    /// stands there, nothing is left to be done.
    RememberIfPresent(FileKind),
    /// What the script remembers still stands there.
    Same,
    /// The link leads to this path, which is absolute.
    LeadsTo(Vec<u8>),
    /// What was read has this SHA-256 digest.
    Digest(Vec<u8>),
    /// The program succeeded; where it has not, its status follows the words of the
    /// refusal.
    Success,
    /// The program succeeded and printed something.
    Prints,
    /// Nothing is accepted: the work cannot go beyond this step.
    Never,
}

/// What the reply to a step has to be.
pub enum Demand {
    Done,
    Exists,
    Kind(FileKind),
    Executable,
    ExecutableMode,
    Movable,
    Missing,
    MissingOr(FileKind),
    Remember,
    RememberKind(FileKind),
    RememberMovable,
    RememberIfPresent(FileKind),
    Same,
    LeadsTo(Seq<u8>),
    Digest(Seq<u8>),
    Success,
    Prints,
    Never,
}

impl View for Check {
    type V = Demand;

    open spec fn view(&self) -> Demand {
        match self {
            Check::Done => Demand::Done,
            Check::Exists => Demand::Exists,
            Check::Kind(kind) => Demand::Kind(*kind),
            Check::Executable => Demand::Executable,
            Check::ExecutableMode => Demand::ExecutableMode,
            Check::Movable => Demand::Movable,
            Check::Missing => Demand::Missing,
            Check::MissingOr(kind) => Demand::MissingOr(*kind),
            Check::Remember => Demand::Remember,
            Check::RememberKind(kind) => Demand::RememberKind(*kind),
            Check::RememberMovable => Demand::RememberMovable,
            Check::RememberIfPresent(kind) => Demand::RememberIfPresent(*kind),
            Check::Same => Demand::Same,
            Check::LeadsTo(path) => Demand::LeadsTo(path@),
            Check::Digest(digest) => Demand::Digest(digest@),
            Check::Success => Demand::Success,
            Check::Prints => Demand::Prints,
            Check::Never => Demand::Never,
        }
    }
}

/// A request and what its reply has to be.
#[derive(Debug)]
pub struct Step {
    pub request: Request,
    pub check: Check,
    /// What is said where the request itself fails; nothing where the system's
    /// words are enough.
    pub context: Option<String>,
    /// What is said where the reply is refused.
    pub refusal: String,
}

/// A request and what its reply has to be.
#[verifier::ext_equal]
pub struct StepView {
    pub ask: Ask,
    pub demand: Demand,
    pub context: Option<Seq<char>>,
    pub refusal: Seq<char>,
}

impl View for Step {
    type V = StepView;

    open spec fn view(&self) -> StepView {
        StepView {
            ask: self.request@,
            demand: self.check@,
            context: match self.context {
                Some(text) => Some(text@),
                None => None,
            },
            refusal: self.refusal@,
        }
    }
}

/// A step that fails with the system's words.
pub open spec fn bare_step(ask: Ask, demand: Demand, refusal: Seq<char>) -> StepView {
    StepView { ask, demand, context: None, refusal }
}

/// A step with words of its own for its failure.
pub open spec fn step(ask: Ask, demand: Demand, context: Seq<char>, refusal: Seq<char>) -> StepView {
    StepView { ask, demand, context: Some(context), refusal }
}

/// What is said of a reply that does not answer the request.
pub open spec fn unanswered() -> Seq<char> {
    "unexpected reply"@
}

/// A step that only has to be done, with words of its own for its failure.
pub open spec fn deed(ask: Ask, context: Seq<char>) -> StepView {
    step(ask, Demand::Done, context, unanswered())
}

/// A step that only has to be done and fails with the system's words.
pub open spec fn bare_deed(ask: Ask) -> StepView {
    bare_step(ask, Demand::Done, unanswered())
}

impl Step {
    /// A step that fails with the system's words.
    pub fn bare(request: Request, check: Check, refusal: String) -> (made: Step)
        ensures
            made@ == bare_step(request@, check@, refusal@),
    {
        Step { request, check, context: None, refusal }
    }

    /// A step with words of its own for its failure.
    pub fn new(request: Request, check: Check, context: String, refusal: String) -> (made: Step)
        ensures
            made@ == step(request@, check@, context@, refusal@),
    {
        Step { request, check, context: Some(context), refusal }
    }

    /// A step that only has to be done, with words of its own for its failure.
    pub fn deed(request: Request, context: String) -> (made: Step)
        ensures
            made@ == deed(request@, context@),
    {
        Step::new(request, Check::Done, context, "unexpected reply".to_owned())
    }

    /// A step that only has to be done and fails with the system's words.
    pub fn bare_deed(request: Request) -> (made: Step)
        ensures
            made@ == bare_deed(request@),
    {
        Step::bare(request, Check::Done, "unexpected reply".to_owned())
    }
}

/// Adding a step to a list adds it to what the list stands for.
pub proof fn lemma_step_views_push(steps: Seq<Step>, added: Step)
    ensures
        step_views(steps.push(added)) == step_views(steps).push(added@),
{
    assert(step_views(steps.push(added)) =~= step_views(steps).push(added@));
}

/// Adds a step to a list.
pub fn add_step(steps: &mut Vec<Step>, added: Step)
    ensures
        final(steps)@ == old(steps)@.push(added),
        step_views(final(steps)@) == step_views(old(steps)@).push(added@),
{
    proof {
        lemma_step_views_push(steps@, added);
    }
    steps.push(added);
}

/// A list without steps.
pub fn no_steps() -> (steps: Vec<Step>)
    ensures
        steps@.len() == 0,
        step_views(steps@) == Seq::<StepView>::empty(),
{
    let steps: Vec<Step> = Vec::new();
    assert(step_views(steps@) =~= Seq::<StepView>::empty());
    steps
}

/// The steps, in order.
pub open spec fn step_views(steps: Seq<Step>) -> Seq<StepView> {
    steps.map_values(|step: Step| step@)
}

/// What is done after a failure.
#[derive(Debug)]
pub enum Cleanup {
    /// Nothing.
    Nothing,
    /// Inspect a path and, provided that what the script remembers still stands
    /// there, remove it.
    IfSame { inspect: Request, remove: Request },
    /// Remove a path, after a failure in or behind this step.
    From { remove: Request, step: usize },
}

/// What is done after a failure.
pub enum Tidy {
    Nothing,
    IfSame { inspect: Ask, remove: Ask },
    From { remove: Ask, step: usize },
}

impl View for Cleanup {
    type V = Tidy;

    open spec fn view(&self) -> Tidy {
        match self {
            Cleanup::Nothing => Tidy::Nothing,
            Cleanup::IfSame { inspect, remove } => Tidy::IfSame {
                inspect: inspect@,
                remove: remove@,
            },
            Cleanup::From { remove, step } => Tidy::From { remove: remove@, step: *step },
        }
    }
}

/// Whether a step was accepted.
pub enum Verdict {
    /// The reply is what it has to be.
    Accepted,
    /// The reply is what it has to be, and this is remembered.
    Remembered(PathIdentity),
    /// Nothing is left to be done.
    Finished,
    /// The request failed, or the reply is not what it has to be.
    Refused(Option<Fault>),
}

/// The verdict on a reply.
pub open spec fn verdict_on(demand: Demand, created: Option<PathIdentity>, reply: Reply) -> Verdict {
    match (demand, reply) {
        (Demand::Never, _) => Verdict::Refused(None),
        (Demand::Done, Reply::Done) => Verdict::Accepted,
        (Demand::Missing, Reply::Failed(fault)) => if fault.kind == FaultKind::NotFound {
            Verdict::Accepted
        } else {
            Verdict::Refused(Some(fault))
        },
        (Demand::MissingOr(_), Reply::Failed(fault)) => if fault.kind == FaultKind::NotFound {
            Verdict::Accepted
        } else {
            Verdict::Refused(Some(fault))
        },
        (Demand::RememberIfPresent(_), Reply::Failed(fault)) => if fault.kind
            == FaultKind::NotFound {
            Verdict::Finished
        } else {
            Verdict::Refused(Some(fault))
        },
        (_, Reply::Failed(fault)) => Verdict::Refused(Some(fault)),
        (Demand::RememberIfPresent(kind), Reply::Found(entry)) => if entry.kind == kind {
            Verdict::Remembered(entry.identity)
        } else {
            Verdict::Refused(None)
        },
        (Demand::Remember, Reply::Found(entry)) => Verdict::Remembered(entry.identity),
        (Demand::RememberKind(kind), Reply::Found(entry)) => if entry.kind == kind {
            Verdict::Remembered(entry.identity)
        } else {
            Verdict::Refused(None)
        },
        (Demand::RememberMovable, Reply::Found(entry)) => if entry.kind != FileKind::Other {
            Verdict::Remembered(entry.identity)
        } else {
            Verdict::Refused(None)
        },
        (_, Reply::Found(entry)) => if entry_meets(demand, created, entry) {
            Verdict::Accepted
        } else {
            Verdict::Refused(None)
        },
        (Demand::LeadsTo(target), Reply::Contents(found)) => if absolute(target) && components_of(
            found@,
        ) == components_of(target) {
            Verdict::Accepted
        } else {
            Verdict::Refused(None)
        },
        (Demand::Digest(digest), Reply::Contents(found)) => if sha256(found@) == digest {
            Verdict::Accepted
        } else {
            Verdict::Refused(None)
        },
        (Demand::Success, Reply::Exited { success, status, .. }) => if success {
            Verdict::Accepted
        } else {
            Verdict::Refused(Some(Fault { kind: FaultKind::Ended, text: status }))
        },
        (Demand::Prints, Reply::Exited { success, output, .. }) => if success && output@.len() > 0 {
            Verdict::Accepted
        } else {
            Verdict::Refused(None)
        },
        _ => Verdict::Refused(None),
    }
}

/// Whether the entry that was found is what it has to be.
pub open spec fn entry_meets(demand: Demand, created: Option<PathIdentity>, entry: Entry) -> bool {
    match demand {
        Demand::Exists => true,
        Demand::Kind(kind) => entry.kind == kind,
        Demand::Executable => is_program(entry),
        Demand::ExecutableMode => executable_mode(entry.mode),
        Demand::Movable => entry.kind != FileKind::Other,
        Demand::MissingOr(kind) => entry.kind == kind,
        Demand::Same => created == Some(entry.identity),
        _ => false,
    }
}

/// Whether the entry that was found is what it has to be.
fn meets(check: &Check, created: Option<PathIdentity>, entry: &Entry) -> (yes: bool)
    ensures
        yes == entry_meets(check@, created, *entry),
{
    match check {
        Check::Exists => true,
        Check::Kind(kind) => entry.kind == *kind,
        Check::Executable => is_executable(entry),
        Check::ExecutableMode => entry.mode & 0o111 != 0,
        Check::Movable => entry.kind != FileKind::Other,
        Check::MissingOr(kind) => entry.kind == *kind,
        Check::Same => match created {
            Some(identity) => identity == entry.identity,
            None => false,
        },
        _ => false,
    }
}

/// The verdict on a reply.
fn judge(check: &Check, created: Option<PathIdentity>, reply: Reply) -> (verdict: Verdict)
    ensures
        verdict == verdict_on(check@, created, reply),
{
    match reply {
        Reply::Done => match check {
            Check::Done => Verdict::Accepted,
            _ => Verdict::Refused(None),
        },
        Reply::Failed(fault) => match check {
            Check::Never => Verdict::Refused(None),
            Check::Missing => if fault.kind == FaultKind::NotFound {
                Verdict::Accepted
            } else {
                Verdict::Refused(Some(fault))
            },
            Check::MissingOr(_) => if fault.kind == FaultKind::NotFound {
                Verdict::Accepted
            } else {
                Verdict::Refused(Some(fault))
            },
            Check::RememberIfPresent(_) => if fault.kind == FaultKind::NotFound {
                Verdict::Finished
            } else {
                Verdict::Refused(Some(fault))
            },
            _ => Verdict::Refused(Some(fault)),
        },
        Reply::Found(entry) => match check {
            Check::Remember => Verdict::Remembered(entry.identity),
            Check::RememberKind(kind) => if entry.kind == *kind {
                Verdict::Remembered(entry.identity)
            } else {
                Verdict::Refused(None)
            },
            Check::RememberMovable => if entry.kind != FileKind::Other {
                Verdict::Remembered(entry.identity)
            } else {
                Verdict::Refused(None)
            },
            Check::RememberIfPresent(kind) => if entry.kind == *kind {
                Verdict::Remembered(entry.identity)
            } else {
                Verdict::Refused(None)
            },
            _ => if meets(check, created, &entry) {
                Verdict::Accepted
            } else {
                Verdict::Refused(None)
            },
        },
        Reply::Contents(found) => match check {
            Check::LeadsTo(target) => if is_absolute(target) && same_path(&found, target) {
                Verdict::Accepted
            } else {
                Verdict::Refused(None)
            },
            Check::Digest(digest) => if same_bytes(&sha256_digest(&found), digest) {
                Verdict::Accepted
            } else {
                Verdict::Refused(None)
            },
            _ => Verdict::Refused(None),
        },
        Reply::Text(_) => Verdict::Refused(None),
        Reply::Judged { .. } => Verdict::Refused(None),
        Reply::Names(_) => Verdict::Refused(None),
        Reply::Release(_) => Verdict::Refused(None),
        Reply::PrivateRelease(_) => Verdict::Refused(None),
        Reply::Published { .. } => Verdict::Refused(None),
        Reply::Exited { success, status, output, .. } => match check {
            Check::Success => if success {
                Verdict::Accepted
            } else {
                Verdict::Refused(Some(Fault { kind: FaultKind::Ended, text: status }))
            },
            Check::Prints => if success && output.len() > 0 {
                Verdict::Accepted
            } else {
                Verdict::Refused(None)
            },
            _ => Verdict::Refused(None),
        },
    }
}

/// How far a script has come.
#[derive(Debug)]
pub enum Phase {
    /// The step at this position waits for its reply.
    Running { position: usize, created: Option<PathIdentity> },
    /// A step was refused; the entry that may have to be removed is inspected.
    Inspecting { owned: PathIdentity, step: usize, fault: Option<Fault> },
    /// A step was refused; what the script created is being removed.
    Removing { step: usize, fault: Option<Fault> },
    /// Every step was accepted.
    Completed,
    /// This step was refused.
    Failed { step: usize, fault: Option<Fault> },
}

/// Work that is done step by step.
#[derive(Debug)]
pub struct Script {
    pub steps: Vec<Step>,
    pub cleanup: Cleanup,
    pub phase: Phase,
}

/// What follows the refusal of a step.
pub open spec fn after_refusal(
    tidy: Tidy,
    created: Option<PathIdentity>,
    step: usize,
    fault: Option<Fault>,
) -> Phase {
    match tidy {
        Tidy::Nothing => Phase::Failed { step, fault },
        Tidy::IfSame { .. } => match created {
            Some(identity) => Phase::Inspecting { owned: identity, step, fault },
            None => Phase::Failed { step, fault },
        },
        Tidy::From { step: first, .. } => if step >= first {
            Phase::Removing { step, fault }
        } else {
            Phase::Failed { step, fault }
        },
    }
}

/// The phase that follows a reply.
pub open spec fn next_phase(
    steps: Seq<StepView>,
    tidy: Tidy,
    phase: Phase,
    reply: Reply,
) -> Phase {
    match phase {
        Phase::Running { position, created } => if position < steps.len() {
            match verdict_on(steps[position as int].demand, created, reply) {
                Verdict::Accepted => after_step(steps.len(), position, created),
                Verdict::Remembered(identity) => after_step(steps.len(), position, Some(identity)),
                Verdict::Finished => Phase::Completed,
                Verdict::Refused(fault) => after_refusal(tidy, created, position, fault),
            }
        } else {
            Phase::Completed
        },
        Phase::Inspecting { owned, step, fault } => match reply {
            Reply::Found(entry) => if entry.identity == owned {
                Phase::Removing { step, fault }
            } else {
                Phase::Failed { step, fault }
            },
            _ => Phase::Failed { step, fault },
        },
        Phase::Removing { step, fault } => Phase::Failed { step, fault },
        Phase::Completed => Phase::Completed,
        Phase::Failed { step, fault } => Phase::Failed { step, fault },
    }
}

/// What follows a step that was accepted.
pub open spec fn after_step(count: nat, position: usize, created: Option<PathIdentity>) -> Phase {
    if position + 1 < count {
        Phase::Running { position: (position + 1) as usize, created }
    } else {
        Phase::Completed
    }
}

impl Script {
    /// The request that the script waits for.
    pub open spec fn asks(&self) -> Ask {
        asked(step_views(self.steps@), self.cleanup@, self.phase)
    }

    /// The script after a reply.
    pub open spec fn after(&self, reply: Reply) -> Script {
        Script {
            steps: self.steps,
            cleanup: self.cleanup,
            phase: next_phase(step_views(self.steps@), self.cleanup@, self.phase, reply),
        }
    }

    /// Whether the script has these steps and this cleanup and has not begun.
    pub open spec fn begins(&self, steps: Seq<StepView>, tidy: Tidy) -> bool {
        &&& step_views(self.steps@) == steps
        &&& self.cleanup@ == tidy
        &&& self.phase == first_phase(steps.len())
    }

    /// A script that has not begun. Without steps it is complete.
    pub fn new(steps: Vec<Step>, cleanup: Cleanup) -> (script: Script)
        ensures
            script.steps == steps,
            script.cleanup == cleanup,
            script.phase == first_phase(steps@.len()),
            script.begins(step_views(steps@), cleanup@),
    {
        assert(step_views(steps@).len() == steps@.len());
        if steps.len() > 0 {
            Script { steps, cleanup, phase: Phase::Running { position: 0, created: None } }
        } else {
            Script { steps, cleanup, phase: Phase::Completed }
        }
    }

    /// The request that the script waits for.
    pub fn request(&self) -> (request: Option<&Request>)
        ensures
            match request {
                Some(request) => request@ == self.asks(),
                None => self.asks() == Ask::Nothing,
            },
    {
        match &self.phase {
            Phase::Running { position, .. } => if *position < self.steps.len() {
                assert(step_views(self.steps@)[*position as int] == self.steps@[*position as int]@);
                Some(&self.steps[*position].request)
            } else {
                None
            },
            Phase::Inspecting { .. } => match &self.cleanup {
                Cleanup::IfSame { inspect, .. } => Some(inspect),
                _ => None,
            },
            Phase::Removing { .. } => match &self.cleanup {
                Cleanup::IfSame { remove, .. } => Some(remove),
                Cleanup::From { remove, .. } => Some(remove),
                Cleanup::Nothing => None,
            },
            Phase::Completed => None,
            Phase::Failed { .. } => None,
        }
    }

    /// The request that the script waits for, for someone else to hand on.
    pub fn wanted(&self) -> (request: Request)
        ensures
            request@ == self.asks(),
    {
        match self.request() {
            Some(request) => request.copy(),
            None => Request::Nothing,
        }
    }

    /// Goes on with the reply to the request.
    pub fn advance(self, reply: Reply) -> (next: Script)
        ensures
            next == self.after(reply),
            next.steps == self.steps,
            next.cleanup == self.cleanup,
            next.phase == next_phase(step_views(self.steps@), self.cleanup@, self.phase, reply),
    {
        let steps = self.steps;
        let cleanup = self.cleanup;
        let phase = match self.phase {
            Phase::Running { position, created } => if position < steps.len() {
                assert(step_views(steps@)[position as int] == steps@[position as int]@);
                match judge(&steps[position].check, created, reply) {
                    Verdict::Accepted => if position + 1 < steps.len() {
                        Phase::Running { position: position + 1, created }
                    } else {
                        Phase::Completed
                    },
                    Verdict::Remembered(identity) => if position + 1 < steps.len() {
                        Phase::Running { position: position + 1, created: Some(identity) }
                    } else {
                        Phase::Completed
                    },
                    Verdict::Finished => Phase::Completed,
                    Verdict::Refused(fault) => match &cleanup {
                        Cleanup::Nothing => Phase::Failed { step: position, fault },
                        Cleanup::IfSame { .. } => match created {
                            Some(identity) => Phase::Inspecting {
                                owned: identity,
                                step: position,
                                fault,
                            },
                            None => Phase::Failed { step: position, fault },
                        },
                        Cleanup::From { step, .. } => if position >= *step {
                            Phase::Removing { step: position, fault }
                        } else {
                            Phase::Failed { step: position, fault }
                        },
                    },
                }
            } else {
                Phase::Completed
            },
            Phase::Inspecting { owned, step, fault } => match reply {
                Reply::Found(entry) => if entry.identity == owned {
                    Phase::Removing { step, fault }
                } else {
                    Phase::Failed { step, fault }
                },
                _ => Phase::Failed { step, fault },
            },
            Phase::Removing { step, fault } => Phase::Failed { step, fault },
            Phase::Completed => Phase::Completed,
            Phase::Failed { step, fault } => Phase::Failed { step, fault },
        };
        Script { steps, cleanup, phase }
    }

    /// Whether every step was accepted, or what the refused step says; nothing
    /// while the script is under way.
    pub fn outcome(&self) -> (outcome: Option<Result<(), Failure>>)
        ensures
            match self.phase {
                Phase::Completed => outcome == Some(Ok::<(), Failure>(())),
                Phase::Failed { step, fault } => outcome is Some && outcome->0 is Err && tells(
                    step_views(self.steps@),
                    step as int,
                    fault,
                    outcome->0->Err_0,
                ),
                _ => outcome is None,
            },
    {
        match &self.phase {
            Phase::Completed => Some(Ok(())),
            Phase::Failed { step, fault } => {
                if *step >= self.steps.len() {
                    return Some(Err(Failure::plain("")));
                }
                assert(step_views(self.steps@)[*step as int] == self.steps@[*step as int]@);
                let failed = &self.steps[*step];
                let failure = match fault {
                    None => Failure::plain(&failed.refusal),
                    Some(fault) => if fault.kind == FaultKind::Ended {
                        Failure::plain(&concat(&failed.refusal, &fault.text))
                    } else {
                        match &failed.context {
                            Some(context) => Failure::caused(context, &fault.text),
                            None => Failure::plain(&fault.text),
                        }
                    },
                };
                Some(Err(failure))
            },
            _ => None,
        }
    }
}

/// How a script stands after a reply.
#[derive(Debug)]
pub enum Progress {
    /// It is under way.
    Going(Script),
    /// Every step was accepted.
    Completed,
    /// A step was refused.
    Broken(Failure),
}

impl Script {
    /// Goes on with the reply to the request and says how the script stands then.
    pub fn progress(self, reply: Reply) -> (progress: Progress)
        ensures
            progress_of(self.after(reply), progress),
    {
        let next = self.advance(reply);
        match next.outcome() {
            None => Progress::Going(next),
            Some(Ok(())) => Progress::Completed,
            Some(Err(failure)) => Progress::Broken(failure),
        }
    }
}

/// How a script stands.
pub open spec fn progress_of(script: Script, progress: Progress) -> bool {
    match script.phase {
        Phase::Completed => progress is Completed,
        Phase::Failed { step, fault } => progress is Broken && tells(
            step_views(script.steps@),
            step as int,
            fault,
            progress->Broken_0,
        ),
        _ => progress == Progress::Going(script),
    }
}

/// The phase of a script that has not begun.
pub open spec fn first_phase(count: nat) -> Phase {
    if count > 0 {
        Phase::Running { position: 0, created: None }
    } else {
        Phase::Completed
    }
}

/// The request that a script in this phase waits for.
pub open spec fn asked(steps: Seq<StepView>, tidy: Tidy, phase: Phase) -> Ask {
    match phase {
        Phase::Running { position, .. } => if position < steps.len() {
            steps[position as int].ask
        } else {
            Ask::Nothing
        },
        Phase::Inspecting { .. } => match tidy {
            Tidy::IfSame { inspect, .. } => inspect,
            _ => Ask::Nothing,
        },
        Phase::Removing { .. } => match tidy {
            Tidy::IfSame { remove, .. } => remove,
            Tidy::From { remove, .. } => remove,
            Tidy::Nothing => Ask::Nothing,
        },
        Phase::Completed => Ask::Nothing,
        Phase::Failed { .. } => Ask::Nothing,
    }
}

/// Whether the failure is what a step says of a fault.
pub open spec fn tells(steps: Seq<StepView>, step: int, fault: Option<Fault>, failure: Failure) -> bool {
    if step >= steps.len() {
        failure.says(""@)
    } else {
        match fault {
            None => failure.says(steps[step].refusal),
            Some(fault) => if fault.kind == FaultKind::Ended {
                failure.says(steps[step].refusal + fault.text@)
            } else {
                match steps[step].context {
                    Some(context) => failure.blames(context, fault.text@),
                    None => failure.says(fault.text@),
                }
            },
        }
    }
}

/// What a step says of a fault, in one line.
pub open spec fn told_line(steps: Seq<StepView>, step: int, fault: Option<Fault>) -> Seq<char> {
    if step >= steps.len() {
        ""@
    } else {
        match fault {
            None => steps[step].refusal,
            Some(fault) => if fault.kind == FaultKind::Ended {
                steps[step].refusal + fault.text@
            } else {
                match steps[step].context {
                    Some(context) => context + ": "@ + fault.text@,
                    None => fault.text@,
                }
            },
        }
    }
}

/// The phase of a script after it was given these replies.
pub open spec fn phase_after(steps: Seq<StepView>, tidy: Tidy, replies: Seq<Reply>) -> Phase
    decreases replies.len(),
{
    if replies.len() == 0 {
        first_phase(steps.len())
    } else {
        next_phase(steps, tidy, phase_after(steps, tidy, replies.drop_last()), replies.last())
    }
}

/// What the script remembers after the first replies were accepted.
pub open spec fn remembered(steps: Seq<StepView>, replies: Seq<Reply>) -> Option<PathIdentity>
    decreases replies.len(),
{
    if replies.len() == 0 {
        None
    } else {
        match verdict_on(
            steps[replies.len() - 1].demand,
            remembered(steps, replies.drop_last()),
            replies.last(),
        ) {
            Verdict::Remembered(identity) => Some(identity),
            _ => remembered(steps, replies.drop_last()),
        }
    }
}

/// Whether the script goes on with its next step.
pub open spec fn goes_on(verdict: Verdict) -> bool {
    verdict is Accepted || verdict is Remembered
}

/// Whether each of the first `count` replies is what its step demands, so that the
/// next step follows.
pub open spec fn all_accepted(steps: Seq<StepView>, replies: Seq<Reply>, count: int) -> bool {
    forall|i: int|
        0 <= i < count ==> goes_on(
            #[trigger] verdict_on(
                steps[i].demand,
                remembered(steps, replies.take(i)),
                replies[i],
            ),
        )
}

/// As long as the replies are what the steps demand, the steps are asked for in
/// their order, each once; the script is complete when all were accepted.
pub proof fn steps_are_asked_in_order(steps: Seq<StepView>, tidy: Tidy, replies: Seq<Reply>)
    requires
        replies.len() <= steps.len() <= usize::MAX,
        all_accepted(steps, replies, replies.len() as int),
    ensures
        replies.len() < steps.len() ==> asked(steps, tidy, phase_after(steps, tidy, replies))
            == steps[replies.len() as int].ask,
        replies.len() < steps.len() ==> phase_after(steps, tidy, replies) == (Phase::Running {
            position: replies.len() as usize,
            created: remembered(steps, replies),
        }),
        replies.len() == steps.len() ==> phase_after(steps, tidy, replies) == Phase::Completed,
    decreases replies.len(),
{
    if replies.len() > 0 {
        let before = replies.drop_last();
        assert forall|i: int| 0 <= i < before.len() implies goes_on(
            #[trigger] verdict_on(
                steps[i].demand,
                remembered(steps, before.take(i)),
                before[i],
            ),
        ) by {
            assert(before.take(i) =~= replies.take(i));
            assert(before[i] == replies[i]);
        }
        steps_are_asked_in_order(steps, tidy, before);
        assert(replies.take(before.len() as int) =~= before);
        assert(goes_on(
            verdict_on(
                steps[before.len() as int].demand,
                remembered(steps, replies.take(before.len() as int)),
                replies[before.len() as int],
            ),
        ));
    }
}

/// A script that is at a step was given what every step before it demands, and
/// nothing else.
pub proof fn progress_means_acceptance(steps: Seq<StepView>, tidy: Tidy, replies: Seq<Reply>)
    requires
        steps.len() <= usize::MAX,
        phase_after(steps, tidy, replies) is Running,
    ensures
        replies.len() < steps.len(),
        phase_after(steps, tidy, replies) == (Phase::Running {
            position: replies.len() as usize,
            created: remembered(steps, replies),
        }),
        all_accepted(steps, replies, replies.len() as int),
    decreases replies.len(),
{
    if replies.len() > 0 {
        let before = replies.drop_last();
        progress_means_acceptance(steps, tidy, before);
        assert forall|i: int| 0 <= i < replies.len() implies goes_on(
            #[trigger] verdict_on(
                steps[i].demand,
                remembered(steps, replies.take(i)),
                replies[i],
            ),
        ) by {
            assert(before.take(i) =~= replies.take(i));
            if i < before.len() {
                assert(before[i] == replies[i]);
                assert(goes_on(
                    verdict_on(steps[i].demand, remembered(steps, before.take(i)), before[i]),
                ));
            } else {
                assert(replies.take(i) =~= before);
            }
        }
    }
}

/// The first reply that is not what its step demands ends the script: no further
/// step is asked for, whatever comes back later, and that step is the one that
/// failed. At most one more entry is touched: the one the script created.
pub proof fn refusal_ends_the_script(
    steps: Seq<StepView>,
    tidy: Tidy,
    replies: Seq<Reply>,
    refused: int,
)
    requires
        steps.len() <= usize::MAX,
        0 <= refused < steps.len(),
        refused < replies.len(),
        all_accepted(steps, replies, refused),
        verdict_on(
            steps[refused].demand,
            remembered(steps, replies.take(refused)),
            replies[refused],
        ) is Refused,
    ensures
        match phase_after(steps, tidy, replies) {
            Phase::Running { .. } => false,
            Phase::Completed => false,
            Phase::Inspecting { owned, step, .. } => step == refused && Some(owned)
                == remembered(steps, replies.take(refused)),
            Phase::Removing { step, .. } => step == refused,
            Phase::Failed { step, .. } => step == refused,
        },
    decreases replies.len(),
{
    let before = replies.drop_last();
    if refused == before.len() {
        assert(replies.take(refused) =~= before);
        assert forall|i: int| 0 <= i < before.len() implies goes_on(
            #[trigger] verdict_on(
                steps[i].demand,
                remembered(steps, before.take(i)),
                before[i],
            ),
        ) by {
            assert(before.take(i) =~= replies.take(i));
            assert(before[i] == replies[i]);
        }
        steps_are_asked_in_order(steps, tidy, before);
    } else {
        assert(before.take(refused) =~= replies.take(refused));
        assert(before[refused] == replies[refused]);
        assert forall|i: int| 0 <= i < refused implies goes_on(
            #[trigger] verdict_on(
                steps[i].demand,
                remembered(steps, before.take(i)),
                before[i],
            ),
        ) by {
            assert(before.take(i) =~= replies.take(i));
            assert(before[i] == replies[i]);
        }
        refusal_ends_the_script(steps, tidy, before, refused);
    }
}

/// What a script removes under the condition that it is still the same is removed
/// only after an inspection has found the entry that the script remembers.
pub proof fn only_the_same_entry_is_removed(
    steps: Seq<StepView>,
    inspect: Ask,
    remove: Ask,
    phase: Phase,
    reply: Reply,
)
    requires
        !(phase is Removing),
        next_phase(steps, Tidy::IfSame { inspect, remove }, phase, reply) is Removing,
    ensures
        phase is Inspecting,
        asked(steps, Tidy::IfSame { inspect, remove }, phase) == inspect,
        reply matches Reply::Found(entry) && entry.identity == phase->Inspecting_owned,
{
}

/// A reply lets a script go on exactly where it is what its step demands: that it was
/// done, that something, nothing or an entry of a kind stands there, that a file can be
/// executed, that what is remembered still stands there, that a link leads to a path
/// from the root, that what was read has a digest, or that a program ended well.
pub proof fn a_reply_is_accepted_exactly_if(
    demand: Demand,
    created: Option<PathIdentity>,
    reply: Reply,
)
    ensures
        !(verdict_on(demand, created, reply) is Refused) <==> match demand {
            Demand::Done => reply is Done,
            Demand::Exists | Demand::Remember => reply is Found,
            Demand::Kind(kind) | Demand::RememberKind(kind) => reply is Found
                && reply->Found_0.kind == kind,
            Demand::Executable => reply is Found && reply->Found_0.kind == FileKind::Regular
                && reply->Found_0.mode & 0o111 != 0,
            Demand::ExecutableMode => reply is Found && reply->Found_0.mode & 0o111 != 0,
            Demand::Movable | Demand::RememberMovable => reply is Found && (reply->Found_0.kind
                == FileKind::Regular || reply->Found_0.kind == FileKind::Directory
                || reply->Found_0.kind == FileKind::Symlink),
            Demand::Missing => reply is Failed && reply->Failed_0.kind == FaultKind::NotFound,
            Demand::MissingOr(kind) | Demand::RememberIfPresent(kind) => reply is Failed
                && reply->Failed_0.kind == FaultKind::NotFound || reply is Found
                && reply->Found_0.kind == kind,
            Demand::Same => reply is Found && created is Some && created->0
                == reply->Found_0.identity,
            Demand::LeadsTo(path) => reply is Contents && path.len() > 0 && path[0] == 0x2f
                && components_of(reply->Contents_0@) == components_of(path),
            Demand::Digest(digest) => reply is Contents && sha256(reply->Contents_0@) == digest,
            Demand::Success => reply is Exited && reply->success,
            Demand::Prints => reply is Exited && reply->success && reply->output@.len() > 0,
            Demand::Never => false,
        },
        verdict_on(demand, created, reply) is Finished ==> demand is RememberIfPresent
            && reply is Failed,
        verdict_on(demand, created, reply) is Remembered <==> reply is Found && !(verdict_on(
            demand,
            created,
            reply,
        ) is Refused) && (demand is Remember || demand is RememberKind || demand is RememberMovable
            || demand is RememberIfPresent),
        verdict_on(demand, created, reply) is Remembered ==> verdict_on(
            demand,
            created,
            reply,
        )->Remembered_0 == reply->Found_0.identity,
{
}

/// A refusal is followed by what the script has to take away: what it remembers is
/// looked at again first, a path is removed after a failure in or behind its step, and
/// otherwise the script ends there.
pub proof fn a_refused_script_takes_away_what_it_made(
    steps: Seq<StepView>,
    tidy: Tidy,
    position: usize,
    created: Option<PathIdentity>,
    reply: Reply,
)
    requires
        position < steps.len(),
        verdict_on(steps[position as int].demand, created, reply) is Refused,
    ensures
        ({
            let next = next_phase(steps, tidy, Phase::Running { position, created }, reply);
            match tidy {
                Tidy::Nothing => next is Failed && next->Failed_step == position,
                Tidy::IfSame { inspect, .. } => if created is Some {
                    asked(steps, tidy, next) == inspect && next is Inspecting && next->owned
                        == created->0
                } else {
                    next is Failed && next->Failed_step == position
                },
                Tidy::From { remove, step } => if step <= position {
                    asked(steps, tidy, next) == remove && next is Removing && next->Removing_step
                        == position
                } else {
                    next is Failed && next->Failed_step == position
                },
            }
        }),
{
}

} // verus!
