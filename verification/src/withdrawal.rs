//! The whole removal of an installation, each of its steps done by requests to the
//! machine.

use crate::bytes::copy_bytes;
use crate::config::ResolvedPaths;
use crate::failure::Failure;
use crate::host::{Ask, Reply, Request};
use crate::install::{closing_plan, environment_plan, install_plan, program_plan, status_plan, Deed};
use crate::installed::{load_installed_paths, Lookup};
use crate::paths::under;
use crate::private_release::PrivateReleaseInfo;
use crate::removal::{remove_managed_path, removal_steps, Removed};
use crate::restoration::{restore_home_backups, HomeRestore, RestorePhase};
use crate::script::{step_views, tells, unanswered, Phase, Script, Tidy};
use crate::survey::Survey;
use crate::uninstall::{after_act, check_seen_preflight, needs_judged, plan_begins};
use crate::uninstall::{preflight_survey, removal_deeds, removal_judged, removal_needs};
use crate::uninstall::{removal_plan, removal_survey, removed_places, uninstall_locked};
use crate::uninstall::{unstow_managed_packages, validate_seen_removal, write_final_cleanup_plan};
use crate::uninstall::{RemovalAct, RemovalDeed, RemovalPhase, Uninstallation, UnlinkPhase, Unlinking};
use vstd::prelude::*;

verus! {

/// What is looked at.
#[derive(Clone, Copy, Debug, PartialEq, Eq, Structural)]
pub enum RemovalLook {
    /// What the removal needs.
    Needs,
    /// What the removal has left.
    Remains,
}

/// A step that is being done.
#[derive(Debug)]
pub enum RemovalRun {
    /// A single request that has to be done.
    Asking(Request),
    /// Steps of a script are done.
    Scripted(Script),
    /// Something is looked at.
    Looking { look: RemovalLook, survey: Survey },
    /// Links are removed.
    Unlinking(Unlinking),
    /// Backups are put back.
    Restoring(HomeRestore),
    /// The step has come to its end.
    Ended(Result<(), Failure>),
}

// --------------------------------------------------
// How parts of a step end
// --------------------------------------------------

/// How a single request ends.
pub open spec fn request_ends(reply: Reply, run: RemovalRun) -> bool {
    match reply {
        Reply::Done => run == RemovalRun::Ended(Ok(())),
        Reply::Failed(fault) => run matches RemovalRun::Ended(Err(failure)) && failure.says(
            fault.text@,
        ),
        _ => run matches RemovalRun::Ended(Err(failure)) && failure.says(unanswered()),
    }
}

/// How a script stands.
pub open spec fn script_stands(script: Script, run: RemovalRun) -> bool {
    match script.phase {
        Phase::Completed => run == RemovalRun::Ended(Ok(())),
        Phase::Failed { step, fault } => run matches RemovalRun::Ended(Err(failure)) && tells(
            step_views(script.steps@),
            step as int,
            fault,
            failure,
        ),
        _ => run == RemovalRun::Scripted(script),
    }
}

fn stand_script(script: Script) -> (run: RemovalRun)
    ensures
        script_stands(script, run),
{
    match script.outcome() {
        None => RemovalRun::Scripted(script),
        Some(result) => RemovalRun::Ended(result),
    }
}

/// Whether this is what is said of what was looked at.
pub open spec fn look_judged(
    look: RemovalLook,
    paths: ResolvedPaths,
    home: Seq<u8>,
    replies: Seq<Reply>,
    result: Result<(), Failure>,
) -> bool {
    match look {
        RemovalLook::Needs => needs_judged(paths, home, replies, result),
        RemovalLook::Remains => removal_judged(paths, home, replies, result),
    }
}

/// How a look stands.
pub open spec fn look_stands(
    look: RemovalLook,
    survey: Survey,
    paths: ResolvedPaths,
    home: Seq<u8>,
    run: RemovalRun,
) -> bool {
    if survey.is_complete() {
        exists|result: Result<(), Failure>| #[trigger]
            look_judged(look, paths, home, survey.replies@, result) && run == RemovalRun::Ended(
                result,
            )
    } else {
        run == (RemovalRun::Looking { look, survey })
    }
}

fn stand_look(look: RemovalLook, survey: Survey, paths: &ResolvedPaths, home: &[u8]) -> (run:
    RemovalRun)
    ensures
        look_stands(look, survey, *paths, home@, run),
{
    if survey.replies.len() < survey.requests.len() {
        return RemovalRun::Looking { look, survey };
    }
    let ghost replies = survey.replies@;
    let result = match look {
        RemovalLook::Needs => check_seen_preflight(paths, home, survey),
        RemovalLook::Remains => validate_seen_removal(paths, home, survey),
    };
    assert(look_judged(look, *paths, home@, replies, result));
    RemovalRun::Ended(result)
}

/// How the removal of links stands.
pub open spec fn links_stand(unlinking: Unlinking, run: RemovalRun) -> bool {
    match unlinking.phase {
        UnlinkPhase::Completed => run == RemovalRun::Ended(Ok(())),
        UnlinkPhase::Failed(failure) => run == RemovalRun::Ended(Err(failure)),
        _ => run == RemovalRun::Unlinking(unlinking),
    }
}

fn stand_links(unlinking: Unlinking) -> (run: RemovalRun)
    ensures
        links_stand(unlinking, run),
{
    match unlinking.phase {
        UnlinkPhase::Completed => RemovalRun::Ended(Ok(())),
        UnlinkPhase::Failed(failure) => RemovalRun::Ended(Err(failure)),
        _ => RemovalRun::Unlinking(unlinking),
    }
}

/// How the restoration stands.
pub open spec fn restore_stands(restore: HomeRestore, run: RemovalRun) -> bool {
    match restore.phase {
        RestorePhase::Completed => run == RemovalRun::Ended(Ok(())),
        RestorePhase::Failed(failure) => run == RemovalRun::Ended(Err(failure)),
        _ => run == RemovalRun::Restoring(restore),
    }
}

fn stand_restore(restore: HomeRestore) -> (run: RemovalRun)
    ensures
        restore_stands(restore, run),
{
    match restore.phase {
        RestorePhase::Completed => RemovalRun::Ended(Ok(())),
        RestorePhase::Failed(failure) => RemovalRun::Ended(Err(failure)),
        _ => RemovalRun::Restoring(restore),
    }
}

// --------------------------------------------------
// How a step begins and goes on
// --------------------------------------------------

/// Whether the list of what is left begins to be written this way.
pub open spec fn plan_stands(
    paths: ResolvedPaths,
    home: Seq<u8>,
    plan: Seq<u8>,
    run: RemovalRun,
) -> bool {
    exists|result: Result<Script, Failure>| #[trigger]
        plan_begins(paths, home, plan, result) && match result {
            Ok(script) => script_stands(script, run),
            Err(failure) => run == RemovalRun::Ended(Err(failure)),
        }
}

/// Whether a managed path begins to be removed this way.
pub open spec fn path_stands(
    path: Seq<u8>,
    kind: Removed,
    run: RemovalRun,
) -> bool {
    exists|script: Script| #[trigger]
        script.begins(removal_steps(path, kind), Tidy::Nothing) && script_stands(script, run)
}

/// Whether a step begins this way; `plan` is where the list of what is left goes.
pub open spec fn step_begins(
    deed: RemovalDeed,
    paths: ResolvedPaths,
    home: Seq<u8>,
    plan: Seq<u8>,
    run: RemovalRun,
) -> bool {
    match deed {
        RemovalDeed::Preflight => run matches RemovalRun::Looking { look, survey } && look
            == RemovalLook::Needs && survey.begins(removal_needs(paths, home)),
        RemovalDeed::CleanupPlan => plan_stands(paths, home, plan, run),
        RemovalDeed::Heading(text) => run matches RemovalRun::Asking(request) && request@
            == Ask::Heading(text),
        RemovalDeed::Detail(text) => run matches RemovalRun::Asking(request) && request@
            == Ask::Detail(text),
        RemovalDeed::Unstow => run matches RemovalRun::Unlinking(unlinking) && unlinking.begins(
            paths.pixi_home@,
            home,
        ),
        RemovalDeed::Remove { path, kind } => path_stands(path, kind, run),
        RemovalDeed::Restore => run matches RemovalRun::Restoring(restore) && restore.begins(
            paths.state_home@,
            home,
        ),
        RemovalDeed::Validate => run matches RemovalRun::Looking { look, survey } && look
            == RemovalLook::Remains && survey.begins(removed_places(paths, home)),
    }
}

fn begin_plan(paths: &ResolvedPaths, home: &[u8], plan: &[u8]) -> (run: RemovalRun)
    ensures
        plan_stands(*paths, home@, plan@, run),
{
    let result = write_final_cleanup_plan(paths, home, plan);
    assert(plan_begins(*paths, home@, plan@, result));
    match result {
        Ok(script) => stand_script(script),
        Err(failure) => RemovalRun::Ended(Err(failure)),
    }
}

fn begin_step(act: &RemovalAct, paths: &ResolvedPaths, home: &[u8], plan: &[u8]) -> (run:
    RemovalRun)
    ensures
        step_begins(act@, *paths, home@, plan@, run),
{
    match act {
        RemovalAct::Preflight => RemovalRun::Looking {
            look: RemovalLook::Needs,
            survey: preflight_survey(paths, home),
        },
        RemovalAct::CleanupPlan => begin_plan(paths, home, plan),
        RemovalAct::Heading(text) => RemovalRun::Asking(Request::Heading(text.clone())),
        RemovalAct::Detail(text) => RemovalRun::Asking(Request::Detail(text.clone())),
        RemovalAct::Unstow => RemovalRun::Unlinking(unstow_managed_packages(paths, home)),
        RemovalAct::Remove { path, kind } => {
            let script = remove_managed_path(path, kind);
            assert(script.begins(removal_steps(path@, kind@), Tidy::Nothing));
            stand_script(script)
        },
        RemovalAct::Restore => RemovalRun::Restoring(
            restore_home_backups(&paths.state_home, home),
        ),
        RemovalAct::Validate => RemovalRun::Looking {
            look: RemovalLook::Remains,
            survey: removal_survey(paths, home),
        },
    }
}

/// What follows a reply to the removal of links.
pub open spec fn links_go(unlinking: Unlinking, reply: Reply, next: Unlinking) -> bool {
    &&& next.home == unlinking.home
    &&& next.stow == unlinking.stow
    &&& next.dotfiles == unlinking.dotfiles
    &&& unlinking.follows(reply, next.phase)
}

/// What follows a reply to the restoration.
pub open spec fn restore_goes(restore: HomeRestore, reply: Reply, next: HomeRestore) -> bool {
    &&& next.home == restore.home
    &&& next.root == restore.root
    &&& next.index == restore.index
    &&& restore.follows(reply, next.phase)
}

impl RemovalRun {
    /// The request that the step waits for.
    pub open spec fn asks(&self) -> Ask {
        match self {
            RemovalRun::Asking(request) => request@,
            RemovalRun::Scripted(script) => script.asks(),
            RemovalRun::Looking { survey, .. } => survey.asks(),
            RemovalRun::Unlinking(unlinking) => unlinking.asks(),
            RemovalRun::Restoring(restore) => restore.asks(),
            RemovalRun::Ended(_) => Ask::Nothing,
        }
    }

    /// What follows a reply.
    pub open spec fn follows(
        &self,
        paths: ResolvedPaths,
        home: Seq<u8>,
        reply: Reply,
        next: RemovalRun,
    ) -> bool {
        match self {
            RemovalRun::Asking(_) => request_ends(reply, next),
            RemovalRun::Scripted(script) => script_stands(script.after(reply), next),
            RemovalRun::Looking { look, survey } => exists|later: Survey| #[trigger]
                survey.follows(reply, later) && look_stands(*look, later, paths, home, next),
            RemovalRun::Unlinking(unlinking) => exists|later: Unlinking| #[trigger]
                links_go(*unlinking, reply, later) && links_stand(later, next),
            RemovalRun::Restoring(restore) => exists|later: HomeRestore| #[trigger]
                restore_goes(*restore, reply, later) && restore_stands(later, next),
            RemovalRun::Ended(_) => next == *self,
        }
    }

    pub fn request(&self) -> (request: Request)
        ensures
            request@ == self.asks(),
    {
        match self {
            RemovalRun::Asking(request) => request.copy(),
            RemovalRun::Scripted(script) => script.wanted(),
            RemovalRun::Looking { survey, .. } => survey.request(),
            RemovalRun::Unlinking(unlinking) => unlinking.request(),
            RemovalRun::Restoring(restore) => restore.request(),
            RemovalRun::Ended(_) => Request::Nothing,
        }
    }

    /// Goes on with a reply.
    pub fn advance(self, paths: &ResolvedPaths, home: &[u8], reply: Reply) -> (next: RemovalRun)
        ensures
            self.follows(*paths, home@, reply, next),
    {
        match self {
            RemovalRun::Asking(_) => match reply {
                Reply::Done => RemovalRun::Ended(Ok(())),
                Reply::Failed(fault) => RemovalRun::Ended(Err(Failure::plain(&fault.text))),
                _ => RemovalRun::Ended(Err(Failure::plain("unexpected reply"))),
            },
            RemovalRun::Scripted(script) => stand_script(script.advance(reply)),
            RemovalRun::Looking { look, survey } => {
                let later = survey.advance(reply);
                assert(survey.follows(reply, later));
                stand_look(look, later, paths, home)
            },
            RemovalRun::Unlinking(unlinking) => {
                let later = unlinking.advance(reply);
                assert(links_go(unlinking, reply, later));
                stand_links(later)
            },
            RemovalRun::Restoring(restore) => {
                let later = restore.advance(reply);
                assert(restore_goes(restore, reply, later));
                stand_restore(later)
            },
            RemovalRun::Ended(result) => RemovalRun::Ended(result),
        }
    }
}

// --------------------------------------------------
// The whole removal
// --------------------------------------------------

/// How far the whole removal has come.
#[derive(Debug)]
pub enum WithdrawalStage {
    /// The installation is looked for.
    Finding(Lookup),
    /// Its lock is taken.
    Locking(ResolvedPaths),
    /// A step is done.
    Working { paths: ResolvedPaths, removal: Uninstallation, run: RemovalRun },
    Completed,
    Failed(Failure),
}

/// The whole removal.
#[derive(Debug)]
pub struct Withdrawal {
    pub home: Vec<u8>,
    /// Where the list of what is left goes.
    pub plan: Vec<u8>,
    pub stage: WithdrawalStage,
}

/// Whether the steps go on this way.
pub open spec fn removal_goes(
    removal: Uninstallation,
    paths: ResolvedPaths,
    home: Seq<u8>,
    plan: Seq<u8>,
    stage: WithdrawalStage,
) -> bool {
    match removal.phase {
        RemovalPhase::Working(position) => if position < removal.acts@.len() {
            stage matches WithdrawalStage::Working { paths: known, removal: kept, run } && known
                == paths && kept == removal && step_begins(
                removal.acts@[position as int]@,
                paths,
                home,
                plan,
                run,
            )
        } else {
            stage is Completed
        },
        RemovalPhase::Completed => stage is Completed,
        RemovalPhase::Failed(failure) => stage == WithdrawalStage::Failed(failure),
    }
}

fn go_on(removal: Uninstallation, paths: ResolvedPaths, home: &[u8], plan: &[u8]) -> (stage:
    WithdrawalStage)
    ensures
        removal_goes(removal, paths, home@, plan@, stage),
{
    let run = match removal.next_act() {
        Some(act) => Some(begin_step(act, &paths, home, plan)),
        None => None,
    };
    match run {
        Some(run) => WithdrawalStage::Working { paths, removal, run },
        None => match removal.phase {
            RemovalPhase::Failed(failure) => WithdrawalStage::Failed(failure),
            _ => WithdrawalStage::Completed,
        },
    }
}

/// Begins to remove the installation of a home directory.
pub fn run_uninstall_from_home(home: &[u8], cleanup_plan: &[u8]) -> (withdrawal: Withdrawal)
    ensures
        withdrawal.home@ == home@,
        withdrawal.plan@ == cleanup_plan@,
        withdrawal.stage is Finding,
        withdrawal.stage->Finding_0 is Link,
        withdrawal.stage->Finding_0->Link_entry@ == under(home@, ".local/bin/eiyah"@),
{
    Withdrawal {
        home: copy_bytes(home),
        plan: copy_bytes(cleanup_plan),
        stage: WithdrawalStage::Finding(load_installed_paths(home)),
    }
}

impl WithdrawalStage {
    /// Whether nothing is left to be done.
    pub open spec fn is_over(&self) -> bool {
        self is Completed || self is Failed
    }

    /// Whether a failure has these words.
    pub open spec fn says(&self, words: Seq<char>) -> bool {
        self is Failed && self->Failed_0.says(words)
    }
}

fn stop(words: &str) -> (stage: WithdrawalStage)
    ensures
        stage.says(words@),
{
    WithdrawalStage::Failed(Failure::plain(words))
}

impl Withdrawal {
    /// The request that the removal waits for.
    pub open spec fn asks(&self) -> Ask {
        match self.stage {
            WithdrawalStage::Finding(lookup) => lookup.asks(),
            WithdrawalStage::Locking(paths) => Ask::Lock(paths.state_home@),
            WithdrawalStage::Working { run, .. } => run.asks(),
            WithdrawalStage::Completed => Ask::Nothing,
            WithdrawalStage::Failed(_) => Ask::Nothing,
        }
    }

    /// What follows a reply.
    pub open spec fn follows(&self, reply: Reply, next: WithdrawalStage) -> bool {
        let home = self.home@;
        match self.stage {
            WithdrawalStage::Finding(lookup) => exists|found: Lookup| #[trigger]
                lookup.follows(reply, found) && match found {
                    Lookup::Link { .. } | Lookup::Metadata { .. } => next
                        == WithdrawalStage::Finding(found),
                    Lookup::Found(paths) => next == WithdrawalStage::Locking(paths),
                    Lookup::NoLink { entry, error } => next is Failed && error.tells(
                        entry@,
                        next->Failed_0,
                    ),
                    Lookup::NoMetadata { path, error, complaint } => next is Failed && error.tells(
                        "installation metadata"@,
                        path@,
                        complaint@,
                        next->Failed_0,
                    ),
                    Lookup::Unanswered => next.says(unanswered()),
                },
            WithdrawalStage::Locking(paths) => match reply {
                Reply::Done => exists|removal: Uninstallation| #[trigger]
                    removal_goes(removal, paths, home, self.plan@, next) && removal_deeds(
                        removal.acts@,
                    ) == removal_plan(paths, home) && removal.phase == RemovalPhase::Working(0),
                Reply::Failed(fault) => next.says(fault.text@),
                _ => next.says(unanswered()),
            },
            WithdrawalStage::Working { paths, removal, run } => exists|later: RemovalRun| #[trigger]
                run.follows(paths, home, reply, later) && match later {
                    RemovalRun::Ended(result) => exists|after: Uninstallation| #[trigger]
                        removal_goes(after, paths, home, self.plan@, next) && after.acts
                            == removal.acts && after.phase == after_act(
                            removal.acts@.len(),
                            removal.phase,
                            result,
                        ),
                    _ => next == (WithdrawalStage::Working { paths, removal, run: later }),
                },
            _ => next == self.stage,
        }
    }

    pub fn request(&self) -> (request: Request)
        ensures
            request@ == self.asks(),
    {
        match &self.stage {
            WithdrawalStage::Finding(lookup) => lookup.request(),
            WithdrawalStage::Locking(paths) => Request::Lock(copy_bytes(&paths.state_home)),
            WithdrawalStage::Working { run, .. } => run.request(),
            WithdrawalStage::Completed => Request::Nothing,
            WithdrawalStage::Failed(_) => Request::Nothing,
        }
    }

    /// Goes on with a reply.
    pub fn advance(self, reply: Reply) -> (next: Withdrawal)
        ensures
            next.home == self.home,
            next.plan == self.plan,
            self.follows(reply, next.stage),
    {
        let Withdrawal { home, plan, stage } = self;
        let stage = match stage {
            WithdrawalStage::Finding(lookup) => {
                let found = lookup.advance(reply);
                assert(lookup.follows(reply, found));
                match found {
                    Lookup::Link { entry } => WithdrawalStage::Finding(Lookup::Link { entry }),
                    Lookup::Metadata { path } => WithdrawalStage::Finding(
                        Lookup::Metadata { path },
                    ),
                    other => match other.outcome() {
                        Some(Ok(paths)) => WithdrawalStage::Locking(paths),
                        Some(Err(failure)) => WithdrawalStage::Failed(failure),
                        None => WithdrawalStage::Completed,
                    },
                }
            },
            WithdrawalStage::Locking(paths) => match reply {
                Reply::Done => {
                    let removal = uninstall_locked(&paths, &home);
                    let stage = go_on(removal, paths, &home, &plan);
                    assert(removal_goes(removal, paths, home@, plan@, stage));
                    stage
                },
                Reply::Failed(fault) => stop(&fault.text),
                _ => stop("unexpected reply"),
            },
            WithdrawalStage::Working { paths, removal, run } => {
                let later = run.advance(&paths, &home, reply);
                assert(run.follows(paths, home@, reply, later));
                match later {
                    RemovalRun::Ended(result) => {
                        let after = removal.advance(result);
                        let stage = go_on(after, paths, &home, &plan);
                        assert(removal_goes(after, paths, home@, plan@, stage));
                        stage
                    },
                    later => WithdrawalStage::Working { paths, removal, run: later },
                }
            },
            other => other,
        };
        Withdrawal { home, plan, stage }
    }
}

// --------------------------------------------------
// Laws
// --------------------------------------------------

/// Nothing is done before the installation was found and its lock was taken, and then
/// the conditions are checked first.
pub proof fn the_lock_comes_first(withdrawal: Withdrawal, reply: Reply, next: WithdrawalStage)
    requires
        withdrawal.stage !is Working,
        withdrawal.follows(reply, next),
        next is Working,
    ensures
        withdrawal.stage is Locking,
        reply is Done,
        next->run matches RemovalRun::Looking { look, .. } && look == RemovalLook::Needs,
{
    let paths = withdrawal.stage->Locking_0;
    let home = withdrawal.home@;
    let removal = choose|removal: Uninstallation| #[trigger]
        removal_goes(removal, paths, home, withdrawal.plan@, next) && removal_deeds(removal.acts@)
            == removal_plan(paths, home) && removal.phase == RemovalPhase::Working(0);
    assert(removal_plan(paths, home)[0] is Preflight);
    assert(removal_deeds(removal.acts@)[0] == removal.acts@[0]@);
}

/// A step that has failed ends the removal with its failure.
pub proof fn a_failed_step_ends_the_removal(
    withdrawal: Withdrawal,
    reply: Reply,
    failure: Failure,
    next: WithdrawalStage,
)
    requires
        withdrawal.stage is Working,
        withdrawal.stage->removal.phase is Working,
        withdrawal.stage->run == RemovalRun::Ended(Err(failure)),
        withdrawal.follows(reply, next),
    ensures
        next == WithdrawalStage::Failed(failure),
{
}

/// The removal is complete only once its last step has come to a good end.
pub proof fn a_complete_removal_has_done_every_step(
    withdrawal: Withdrawal,
    reply: Reply,
    next: WithdrawalStage,
)
    requires
        withdrawal.stage is Working,
        withdrawal.stage->removal.phase is Working,
        withdrawal.follows(reply, next),
        next is Completed,
    ensures
        withdrawal.stage->removal.phase->Working_0 + 1 >= withdrawal.stage->removal.acts@.len(),
        withdrawal.stage->run.follows(
            withdrawal.stage->Working_paths,
            withdrawal.home@,
            reply,
            RemovalRun::Ended(Ok(())),
        ),
{
    let stage = withdrawal.stage;
    let later = choose|later: RemovalRun| #[trigger]
        stage->run.follows(stage->Working_paths, withdrawal.home@, reply, later)
            && match later {
            RemovalRun::Ended(result) => exists|after: Uninstallation| #[trigger]
                removal_goes(
                    after,
                    stage->Working_paths,
                    withdrawal.home@,
                    withdrawal.plan@,
                    next,
                ) && after.acts == stage->removal.acts && after.phase == after_act(
                    stage->removal.acts@.len(),
                    stage->removal.phase,
                    result,
                ),
            _ => next == (WithdrawalStage::Working {
                paths: stage->Working_paths,
                removal: stage->removal,
                run: later,
            }),
        };
    match later {
        RemovalRun::Ended(Ok(done)) => {
            assert(done == ());
        },
        _ => {},
    }
}

/// The path that a step of the installation leaves behind.
pub open spec fn installed_path(deed: Deed, paths: ResolvedPaths) -> Option<Seq<u8>> {
    match deed {
        Deed::Record { path, .. } => Some(path),
        Deed::Publish { path, .. } => Some(path),
        Deed::Pixi => Some(paths.pixi_home@),
        _ => None,
    }
}

/// Whether a step of the removal removes this path.
pub open spec fn is_removed(paths: ResolvedPaths, home: Seq<u8>, path: Seq<u8>) -> bool {
    exists|i: int|
        0 <= i < removal_plan(paths, home).len() && #[trigger] removal_plan(paths, home)[i] is Remove
            && removal_plan(paths, home)[i]->path == path
}

/// Whether the path is in the list of what is left to the caller.
pub open spec fn is_left(paths: ResolvedPaths, home: Seq<u8>, path: Seq<u8>) -> bool {
    path == under(paths.eiyah_prefix@, "bin/eiyah"@) || path == under(home, ".local/bin/eiyah"@)
}

/// Everything that the plan of the installation leaves behind is removed by the removal,
/// but for the program and its link, which are left to the caller.
pub proof fn what_is_installed_is_removed(
    paths: ResolvedPaths,
    home: Seq<u8>,
    release: PrivateReleaseInfo,
    i: int,
)
    requires
        0 <= i < install_plan(paths, home, release).len(),
        installed_path(install_plan(paths, home, release)[i], paths) is Some,
    ensures
        ({
            let path = installed_path(install_plan(paths, home, release)[i], paths)->0;
            is_removed(paths, home, path) || is_left(paths, home, path)
        }),
{
    let plan = removal_plan(paths, home);
    let first = program_plan(paths, home);
    let second = environment_plan(paths, home);
    let third = status_plan(paths, home, release);
    let last = closing_plan(paths);
    assert(plan[6] is Remove && plan[7] is Remove && plan[11] is Remove);
    assert(plan[12] is Remove && plan[15] is Remove && plan[16] is Remove);
    assert(install_plan(paths, home, release) == first + second + third + last);
}

} // verus!
