//! The whole installation: its steps in order and, where one fails, the way back.

use crate::acts::{act_begins, begin_act, ActRun, Workplace};
use crate::archive::{remove_owned_tree, TreeRemoval};
use crate::failure::{listed, Failure};
use crate::host::{Ask, Reply, Request};
use crate::install::{complete_install_transaction, completed_with, install_not_installed};
use crate::install::{change_of, changes_of, install_plan, settle, InstallPhase, Installation};
use crate::install::{Progression, Standing, StepReply};
use crate::script::unanswered;
use crate::transaction::{Action, PathIdentity, Rollback};
use crate::ui::UserFacingError;
use crate::undo::{undo, undo_begins, Undo};
use vstd::prelude::*;

verus! {

/// How far the whole installation has come.
#[derive(Debug)]
pub enum Stage {
    /// A step is done.
    Working { installation: Installation, run: ActRun },
    /// A step has failed; what was recorded is undone.
    Undoing { failure: Failure, rollback: Rollback, undo: Undo },
    /// What was unpacked is removed.
    Cleaning { installed: Result<(), Failure>, undone: Result<(), Failure>, removal: TreeRemoval },
    /// The user is warned that something was left behind.
    Warning(String),
    /// The directory is given up: what was unpacked is looked for once more, and
    /// removed where it is still there. What comes of that is not told.
    Dropping { result: Result<(), UserFacingError>, removal: TreeRemoval },
    Completed,
    Failed(UserFacingError),
}

/// The whole installation.
#[derive(Debug)]
pub struct Deployment {
    pub place: Workplace,
    /// Where the configuration was unpacked.
    pub root: Vec<u8>,
    /// What the directory is known by.
    pub owned: PathIdentity,
    pub stage: Stage,
}

/// Whether the removal of what was unpacked begins this way.
pub open spec fn cleaning_begins(
    root: Seq<u8>,
    owned: PathIdentity,
    installed: Result<(), Failure>,
    undone: Result<(), Failure>,
    stage: Stage,
) -> bool {
    &&& stage is Cleaning
    &&& stage->installed == installed
    &&& stage->undone == undone
    &&& stage->Cleaning_removal is Looking
    &&& stage->Cleaning_removal->Looking_path@ == root
    &&& stage->Cleaning_removal->owned == owned
}

/// Whether the directory of what was unpacked is given up this way.
pub open spec fn dropping_begins(
    root: Seq<u8>,
    owned: PathIdentity,
    result: Result<(), UserFacingError>,
    stage: Stage,
) -> bool {
    &&& stage is Dropping
    &&& stage->result == result
    &&& stage->Dropping_removal is Looking
    &&& stage->Dropping_removal->Looking_path@ == root
    &&& stage->Dropping_removal->owned == owned
}

/// Whether a rollback has this outcome.
pub open spec fn is_undone(errors: Seq<String>, undone: Result<(), Failure>) -> bool {
    match undone {
        Ok(()) => errors.len() == 0,
        Err(failure) => errors.len() > 0 && failure.says(
            "rollback failed: "@ + listed(errors),
        ),
    }
}

/// Whether the rollback goes on this way: the next change is undone, or, where none is
/// left, what was unpacked is removed.
pub open spec fn undoing_goes(
    root: Seq<u8>,
    owned: PathIdentity,
    failure: Failure,
    pending: Seq<Action>,
    errors: Seq<String>,
    stage: Stage,
) -> bool {
    if pending.len() > 0 {
        stage matches Stage::Undoing { failure: kept, rollback, undo } && kept == failure
            && rollback.pending() == pending.drop_first() && rollback.errors() == errors
            && undo_begins(pending[0], undo)
    } else {
        exists|undone: Result<(), Failure>| #[trigger]
            is_undone(errors, undone) && cleaning_begins(
                root,
                owned,
                Err(failure),
                undone,
                stage,
            )
    }
}

/// Whether an installation goes on this way: with its next step or, where there is none,
/// with its end.
pub open spec fn installation_goes(
    installation: Installation,
    place: Workplace,
    root: Seq<u8>,
    owned: PathIdentity,
    sequence: u64,
    stage: Stage,
) -> bool {
    match installation@.next() {
        Some(deed) => stage matches Stage::Working { installation: kept, run } && kept
            == installation && act_begins(deed, place, sequence, run),
        None => match installation.phase {
            InstallPhase::Completed => cleaning_begins(root, owned, Ok(()), Ok(()), stage),
            InstallPhase::Failed(failure) => undoing_goes(
                root,
                owned,
                failure,
                installation.transaction@.reverse(),
                Seq::empty(),
                stage,
            ),
            InstallPhase::Working => exists|failure: Failure| #[trigger]
                failure.says(unanswered()) && undoing_goes(
                    root,
                    owned,
                    failure,
                    installation.transaction@.reverse(),
                    Seq::empty(),
                    stage,
                ),
        },
    }
}

/// Whether the installation comes to its end this way.
pub open spec fn stage_ends(
    root: Seq<u8>,
    owned: PathIdentity,
    installed: Result<(), Failure>,
    undone: Result<(), Failure>,
    cleaned: Result<(), Failure>,
    stage: Stage,
) -> bool {
    exists|result: Result<Option<String>, UserFacingError>| #[trigger]
        completed_with(installed, undone, cleaned, result) && match result {
            Ok(Some(warning)) => stage == Stage::Warning(warning),
            Ok(None) => dropping_begins(root, owned, Ok(()), stage),
            Err(error) => dropping_begins(root, owned, Err(error), stage),
        }
}

fn begin_cleaning(
    root: &[u8],
    owned: PathIdentity,
    installed: Result<(), Failure>,
    undone: Result<(), Failure>,
) -> (stage: Stage)
    ensures
        cleaning_begins(root@, owned, installed, undone, stage),
        stage.sound(),
{
    Stage::Cleaning { installed, undone, removal: remove_owned_tree(root, owned) }
}

fn begin_dropping(root: &[u8], owned: PathIdentity, result: Result<(), UserFacingError>) -> (stage:
    Stage)
    ensures
        dropping_begins(root@, owned, result, stage),
        stage.sound(),
{
    Stage::Dropping { result, removal: remove_owned_tree(root, owned) }
}

fn go_back(root: &[u8], owned: PathIdentity, failure: Failure, rollback: Rollback) -> (stage: Stage)
    ensures
        undoing_goes(root@, owned, failure, rollback.pending(), rollback.errors(), stage),
        stage.sound(),
{
    let ghost pending = rollback.pending();
    let ghost errors = rollback.errors();
    let mut rollback = rollback;
    match rollback.next() {
        Some(action) => {
            let undo = undo(action);
            Stage::Undoing { failure, rollback, undo }
        },
        None => {
            let undone = rollback.finish();
            assert(is_undone(errors, undone));
            begin_cleaning(root, owned, Err(failure), undone)
        },
    }
}

fn finish(
    root: &[u8],
    owned: PathIdentity,
    installed: Result<(), Failure>,
    undone: Result<(), Failure>,
    cleaned: Result<(), Failure>,
) -> (stage: Stage)
    ensures
        stage_ends(root@, owned, installed, undone, cleaned, stage),
        stage.sound(),
{
    let result = complete_install_transaction(installed, undone, cleaned);
    assert(completed_with(installed, undone, cleaned, result));
    match result {
        Ok(Some(warning)) => Stage::Warning(warning),
        Ok(None) => begin_dropping(root, owned, Ok(())),
        Err(error) => begin_dropping(root, owned, Err(error)),
    }
}

fn go_on(
    installation: Installation,
    place: &Workplace,
    root: &[u8],
    owned: PathIdentity,
    sequence: u64,
) -> (stage: Stage)
    ensures
        installation_goes(installation, *place, root@, owned, sequence, stage),
        stage.sound(),
{
    let run = match installation.next_act() {
        Some(act) => Some(begin_act(act, place, sequence)),
        None => None,
    };
    match run {
        Some(run) => Stage::Working { installation, run },
        None => {
            let mut transaction = installation.transaction;
            match installation.phase {
                InstallPhase::Completed => {
                    settle(&mut transaction, true);
                    begin_cleaning(root, owned, Ok(()), Ok(()))
                },
                InstallPhase::Failed(failure) => {
                    let rollback = transaction.rollback();
                    go_back(root, owned, failure, rollback)
                },
                InstallPhase::Working => {
                    let failure = Failure::plain("unexpected reply");
                    assert(failure.says(unanswered()));
                    let rollback = transaction.rollback();
                    go_back(root, owned, failure, rollback)
                },
            }
        },
    }
}

/// Whether the whole installation of what was unpacked below `root` begins.
pub open spec fn deployment_begins(
    place: Workplace,
    root: Seq<u8>,
    owned: PathIdentity,
    sequence: u64,
    deployment: Deployment,
) -> bool {
    &&& deployment.place == place
    &&& deployment.root@ == root
    &&& deployment.owned == owned
    &&& deployment.stage.sound()
    &&& exists|installation: Installation| #[trigger]
        installation_goes(installation, place, root, owned, sequence, deployment.stage)
            && installation@ == (Progression {
            home: place.home@,
            pixi_home: place.paths.pixi_home@,
            queue: install_plan(place.paths, place.home@, place.release),
            changes: Seq::empty(),
            standing: Standing::Working,
        })
}

/// Begins the whole installation of what was unpacked below `root`.
pub fn deploy(place: Workplace, root: Vec<u8>, owned: PathIdentity, sequence: u64) -> (deployment:
    Deployment)
    ensures
        deployment_begins(place, root@, owned, sequence, deployment),
{
    let installation = install_not_installed(&place.paths, &place.home, &place.release);
    let stage = go_on(installation, &place, &root, owned, sequence);
    assert(installation_goes(installation, place, root@, owned, sequence, stage));
    Deployment { place, root, owned, stage }
}

impl Stage {
    /// Whether the step that is done can be gone on with.
    pub open spec fn sound(&self) -> bool {
        self matches Stage::Working { run, .. } ==> run.sound()
    }

    /// Whether nothing is left to be done.
    pub open spec fn is_over(&self) -> bool {
        self is Completed || self is Failed
    }
}

impl Deployment {
    /// The request that the installation waits for.
    pub open spec fn asks(&self) -> Ask {
        match self.stage {
            Stage::Working { run, .. } => run.asks(),
            Stage::Undoing { undo, .. } => undo.asks(),
            Stage::Cleaning { removal, .. } => removal.asks(),
            Stage::Warning(text) => Ask::Warning(text@),
            Stage::Dropping { removal, .. } => removal.asks(),
            Stage::Completed => Ask::Nothing,
            Stage::Failed(_) => Ask::Nothing,
        }
    }

    /// What follows a reply. A step that comes to its end is followed by the next one;
    /// one that fails, by the undoing of every change that was recorded, the latest
    /// first. Whatever happens, what was unpacked is removed in the end; where that
    /// fails, it is tried once more before all is over.
    pub open spec fn follows(&self, reply: Reply, sequence: u64, next: Stage) -> bool {
        let root = self.root@;
        match self.stage {
            Stage::Working { installation, run } => exists|later: ActRun| #[trigger]
                run.follows(self.place, reply, later) && match later {
                    ActRun::Ended(step) => exists|after: Installation| #[trigger]
                        installation_goes(
                            after,
                            self.place,
                            root,
                            self.owned,
                            sequence,
                            next,
                        ) && after@ == installation@.after(step),
                    _ => next == (Stage::Working { installation, run: later }),
                },
            Stage::Undoing { failure, rollback, undo } => exists|later: Undo| #[trigger]
                undo.follows(reply, later) && match later {
                    Undo::Completed => undoing_goes(
                        root,
                        self.owned,
                        failure,
                        rollback.pending(),
                        rollback.errors(),
                        next,
                    ),
                    Undo::Failed(problem) => undoing_goes(
                        root,
                        self.owned,
                        failure,
                        rollback.pending(),
                        rollback.errors().push(problem.message),
                        next,
                    ),
                    _ => next == (Stage::Undoing { failure, rollback, undo: later }),
                },
            Stage::Cleaning { installed, undone, removal } => exists|later: TreeRemoval| #[trigger]
                removal.follows(reply, later) && match later {
                    TreeRemoval::Completed => stage_ends(
                        root,
                        self.owned,
                        installed,
                        undone,
                        Ok(()),
                        next,
                    ),
                    TreeRemoval::Failed(problem) => stage_ends(
                        root,
                        self.owned,
                        installed,
                        undone,
                        Err(problem),
                        next,
                    ),
                    _ => next == (Stage::Cleaning { installed, undone, removal: later }),
                },
            Stage::Warning(_) => dropping_begins(root, self.owned, Ok(()), next),
            Stage::Dropping { result, removal } => exists|later: TreeRemoval| #[trigger]
                removal.follows(reply, later) && match later {
                    TreeRemoval::Completed | TreeRemoval::Failed(_) => match result {
                        Ok(()) => next is Completed,
                        Err(error) => next == Stage::Failed(error),
                    },
                    _ => next == (Stage::Dropping { result, removal: later }),
                },
            _ => next == self.stage,
        }
    }

    pub fn request(&self) -> (request: Request)
        ensures
            request@ == self.asks(),
    {
        match &self.stage {
            Stage::Working { run, .. } => run.request(),
            Stage::Undoing { undo, .. } => undo.request(),
            Stage::Cleaning { removal, .. } => removal.request(),
            Stage::Warning(text) => Request::Warning(text.clone()),
            Stage::Dropping { removal, .. } => removal.request(),
            Stage::Completed => Request::Nothing,
            Stage::Failed(_) => Request::Nothing,
        }
    }

    /// Goes on with a reply. `sequence` is a number for temporary names.
    pub fn advance(self, reply: Reply, sequence: u64) -> (next: Deployment)
        requires
            self.stage.sound(),
        ensures
            next.place == self.place,
            next.root == self.root,
            next.owned == self.owned,
            next.stage.sound(),
            self.follows(reply, sequence, next.stage),
    {
        let Deployment { place, root, owned, stage } = self;
        let stage = match stage {
            Stage::Working { installation, run } => {
                let later = run.advance(&place, reply);
                assert(run.follows(place, reply, later));
                match later {
                    ActRun::Ended(step) => {
                        let after = installation.advance(step);
                        let stage = go_on(after, &place, &root, owned, sequence);
                        assert(installation_goes(after, place, root@, owned, sequence, stage));
                        stage
                    },
                    later => Stage::Working { installation, run: later },
                }
            },
            Stage::Undoing { failure, rollback, undo } => {
                let later = undo.advance(reply);
                assert(undo.follows(reply, later));
                match later {
                    Undo::Completed => go_back(&root, owned, failure, rollback),
                    Undo::Failed(problem) => {
                        let mut rollback = rollback;
                        rollback.failed(problem.message);
                        go_back(&root, owned, failure, rollback)
                    },
                    later => Stage::Undoing { failure, rollback, undo: later },
                }
            },
            Stage::Cleaning { installed, undone, removal } => {
                let later = removal.advance(reply);
                assert(removal.follows(reply, later));
                match later {
                    TreeRemoval::Completed => finish(&root, owned, installed, undone, Ok(())),
                    TreeRemoval::Failed(problem) => finish(
                        &root,
                        owned,
                        installed,
                        undone,
                        Err(problem),
                    ),
                    later => Stage::Cleaning { installed, undone, removal: later },
                }
            },
            Stage::Warning(_) => begin_dropping(&root, owned, Ok(())),
            Stage::Dropping { result, removal } => {
                let later = removal.advance(reply);
                assert(removal.follows(reply, later));
                match later {
                    TreeRemoval::Completed | TreeRemoval::Failed(_) => match result {
                        Ok(()) => Stage::Completed,
                        Err(error) => Stage::Failed(error),
                    },
                    later => Stage::Dropping { result, removal: later },
                }
            },
            stage => stage,
        };
        Deployment { place, root, owned, stage }
    }
}

// --------------------------------------------------
// Laws
// --------------------------------------------------

/// The installation is over only once what was unpacked was looked for a second time,
/// and what comes of that changes nothing: the result was known before.
pub proof fn the_end_comes_after_the_second_look(
    deployment: Deployment,
    reply: Reply,
    sequence: u64,
    next: Stage,
)
    requires
        !deployment.stage.is_over(),
        deployment.follows(reply, sequence, next),
        next.is_over(),
    ensures
        deployment.stage is Dropping,
        match deployment.stage->result {
            Ok(()) => next is Completed,
            Err(error) => next == Stage::Failed(error),
        },
{
}

/// The result is known only after what was unpacked was looked after, it is a success
/// only where every step was done, and a failure is told with the words of the step
/// that failed.
pub proof fn the_result_comes_after_the_cleaning(
    deployment: Deployment,
    reply: Reply,
    sequence: u64,
    next: Stage,
)
    requires
        deployment.stage !is Dropping,
        deployment.follows(reply, sequence, next),
        next is Dropping,
    ensures
        deployment.stage is Cleaning || deployment.stage is Warning,
        next->result is Ok ==> deployment.stage is Warning || deployment.stage->installed is Ok,
        next->result is Err ==> {
            &&& deployment.stage is Cleaning
            &&& deployment.stage->installed is Err
            &&& next->result->Err_0.message@ == deployment.stage->installed->Err_0.line()
        },
        dropping_begins(deployment.root@, deployment.owned, next->result, next),
{
}

/// A warning at the end comes only from an installation whose steps were all done.
pub proof fn a_warning_means_success(
    deployment: Deployment,
    reply: Reply,
    sequence: u64,
    next: Stage,
)
    requires
        deployment.stage !is Warning,
        deployment.follows(reply, sequence, next),
        next is Warning,
    ensures
        deployment.stage is Cleaning,
        deployment.stage->installed is Ok,
{
}

/// A step that has failed is followed by the undoing of the latest change that was
/// recorded; where none was, by the removal of what was unpacked.
pub proof fn a_failed_step_is_undone(
    deployment: Deployment,
    reply: Reply,
    sequence: u64,
    failure: Failure,
    next: Stage,
)
    requires
        deployment.stage is Working,
        deployment.stage->installation@.next() is Some,
        deployment.stage->installation@.next()->0 !is Refuse,
        deployment.stage->run == ActRun::Ended(StepReply::Failed(failure)),
        deployment.follows(reply, sequence, next),
    ensures
        ({
            let changes = deployment.stage->installation@.changes;
            if changes.len() > 0 {
                &&& next is Undoing
                &&& next->failure.line() == failure.line()
                &&& exists|action: Action| #[trigger]
                    undo_begins(action, next->undo) && change_of(action) == changes.last()
                &&& changes_of(next->rollback.pending()) == changes.drop_last().reverse()
                &&& next->rollback.errors().len() == 0
            } else {
                &&& next is Cleaning
                &&& next->installed is Err
                &&& next->installed->Err_0.line() == failure.line()
                &&& next->undone is Ok
            }
        }),
{
    let installation = deployment.stage->installation;
    let changes = installation@.changes;
    let later = choose|later: ActRun| #[trigger]
        deployment.stage->run.follows(deployment.place, reply, later) && match later {
            ActRun::Ended(step) => exists|after: Installation| #[trigger]
                installation_goes(
                    after,
                    deployment.place,
                    deployment.root@,
                    deployment.owned,
                    sequence,
                    next,
                ) && after@ == installation@.after(step),
            _ => next == (Stage::Working { installation, run: later }),
        };
    assert(later == ActRun::Ended(StepReply::Failed(failure)));
    let after = choose|after: Installation| #[trigger]
        installation_goes(
            after,
            deployment.place,
            deployment.root@,
            deployment.owned,
            sequence,
            next,
        ) && after@ == installation@.after(StepReply::Failed(failure));
    let recorded = after.transaction@;
    assert(changes_of(recorded) == changes);
    assert(recorded.len() == changes.len());
    if changes.len() > 0 {
        let pending = recorded.reverse();
        assert(pending[0] == recorded.last());
        assert(change_of(recorded.last()) == changes.last());
        assert(undo_begins(recorded.last(), next->undo));
        assert(changes_of(pending.drop_first()) =~= changes.drop_last().reverse());
    }
}

/// While changes are left, the rollback goes on, whether or not one could be undone, and
/// what could not be undone is not forgotten.
pub proof fn the_rollback_leaves_nothing_out(
    deployment: Deployment,
    reply: Reply,
    sequence: u64,
    next: Stage,
)
    requires
        deployment.stage is Undoing,
        deployment.follows(reply, sequence, next),
    ensures
        ({
            let pending = deployment.stage->rollback.pending();
            let errors = deployment.stage->rollback.errors();
            ||| {
                &&& next is Undoing
                &&& next->failure == deployment.stage->failure
                &&& next->rollback == deployment.stage->rollback
            }
            ||| {
                &&& pending.len() > 0
                &&& next is Undoing
                &&& next->failure == deployment.stage->failure
                &&& undo_begins(pending[0], next->undo)
                &&& next->rollback.pending() == pending.drop_first()
                &&& errors.is_prefix_of(next->rollback.errors())
            }
            ||| {
                &&& pending.len() == 0
                &&& next is Cleaning
                &&& next->installed == Err::<(), Failure>(deployment.stage->failure)
                &&& errors.len() > 0 ==> next->undone is Err
            }
        }),
{
}

/// A step of the undoing that fails is told at the end, and one that succeeds is not.
pub proof fn a_failed_undoing_is_told(
    deployment: Deployment,
    reply: Reply,
    sequence: u64,
    next: Stage,
)
    requires
        deployment.stage is Undoing,
        deployment.stage->undo is Removing || deployment.stage->undo is Moved,
        reply is Done || reply is Failed,
        deployment.follows(reply, sequence, next),
    ensures
        ({
            let pending = deployment.stage->rollback.pending();
            let errors = deployment.stage->rollback.errors();
            let count = errors.len() + (if reply is Failed {
                1nat
            } else {
                0nat
            });
            &&& next is Undoing <==> pending.len() > 0
            &&& next is Undoing ==> next->rollback.errors().len() == count
            &&& next is Cleaning <==> pending.len() == 0
            &&& next is Cleaning ==> (next->undone is Ok <==> count == 0)
        }),
{
}

/// Once the temporary files of an installation that has succeeded are gone, the result is
/// a success; of one that has failed, the failure.
pub proof fn the_result_is_that_of_the_installation(
    deployment: Deployment,
    reply: Reply,
    sequence: u64,
    next: Stage,
)
    requires
        deployment.stage is Cleaning,
        deployment.stage->Cleaning_removal is Removing,
        reply is Done,
        deployment.follows(reply, sequence, next),
    ensures
        next is Dropping,
        next->result is Ok <==> deployment.stage->installed is Ok,
{
}

} // verus!
