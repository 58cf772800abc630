//! What an installation does first: it finds its places, checks the host, looks at what
//! is installed, takes the lock, and then updates or goes on to install.

use crate::bytes::copy_bytes;
use crate::config::{Environment, ResolvedPaths};
use crate::failure::Failure;
use crate::host::{Ask, Fault, FaultKind, Reply, Request};
use crate::paths::{join_text, under};
use crate::preflight::{begin_preflight, host_questions, host_survey, preflight_judged, Preflight};
use crate::script::unanswered;
use crate::state::{detect_seen_state, resolve_install_paths, route_begins, route_install_state};
use crate::state::{state_judged, state_places, state_survey, InstallRoute, InstallState, PathSearch};
use crate::survey::Survey;
use crate::ui::{plain_error, UserFacingError};
use crate::update::UpdateRun;
use vstd::prelude::*;

verus! {

/// How far the beginning of an installation has come.
#[derive(Debug)]
pub enum ArrivalStage {
    /// Its places are searched for.
    Finding(PathSearch),
    /// The host is looked at.
    Surveying { paths: ResolvedPaths, survey: Survey },
    /// The directories are checked.
    Checking { paths: ResolvedPaths, preflight: Preflight },
    /// What is installed is looked at.
    Looking { paths: ResolvedPaths, survey: Survey },
    /// The lock is taken; whether the environment is installed.
    Locking { paths: ResolvedPaths, installed: bool },
    /// Under the lock, what is installed is looked at once more.
    LookingAgain { paths: ResolvedPaths, survey: Survey },
    /// The user is told that the environment is installed.
    Announcing(ResolvedPaths),
    /// It is updated.
    Updating(UpdateRun),
    /// It has to be installed, at these places.
    Ready(ResolvedPaths),
    Completed,
    Failed(UserFacingError),
}

/// The beginning of an installation.
#[derive(Debug)]
pub struct Arrival {
    pub home: Vec<u8>,
    /// The architecture of this machine.
    pub architecture: String,
    pub stage: ArrivalStage,
}

impl ArrivalStage {
    /// Whether the beginning has failed with this message.
    pub open spec fn says(&self, message: Seq<char>) -> bool {
        self is Failed && plain_error(self->Failed_0, message)
    }
}

fn stop(failure: &Failure) -> (stage: ArrivalStage)
    ensures
        stage.says(failure.line()),
{
    ArrivalStage::Failed(UserFacingError::from_failure(failure))
}

/// How the search for places stands.
pub open spec fn search_stands(search: PathSearch, stage: ArrivalStage) -> bool {
    match search {
        PathSearch::Found(paths) => stage is Surveying && stage->Surveying_paths == paths
            && stage->Surveying_survey.begins(host_questions()),
        PathSearch::Failed(failure) => stage.says(failure.line()),
        _ => stage == ArrivalStage::Finding(search),
    }
}

fn stand_search(search: PathSearch) -> (stage: ArrivalStage)
    ensures
        search_stands(search, stage),
{
    match search {
        PathSearch::Found(paths) => ArrivalStage::Surveying { paths, survey: host_survey() },
        PathSearch::Failed(failure) => stop(&failure),
        _ => ArrivalStage::Finding(search),
    }
}

/// How the check of the directories stands.
pub open spec fn check_stands(
    paths: ResolvedPaths,
    home: Seq<u8>,
    preflight: Preflight,
    stage: ArrivalStage,
) -> bool {
    match preflight {
        Preflight::Completed => stage is Looking && stage->Looking_paths == paths
            && stage->Looking_survey.begins(
            state_places(paths.eiyah_prefix@, under(home, ".local/bin/eiyah"@)),
        ),
        Preflight::Failed(failure) => stage.says(failure.line()),
        _ => stage == (ArrivalStage::Checking { paths, preflight }),
    }
}

fn stand_check(paths: ResolvedPaths, home: &[u8], preflight: Preflight) -> (stage: ArrivalStage)
    ensures
        check_stands(paths, home@, preflight, stage),
{
    match preflight {
        Preflight::Completed => {
            let entry = join_text(home, ".local/bin/eiyah");
            let survey = state_survey(&paths, &entry);
            ArrivalStage::Looking { paths, survey }
        },
        Preflight::Failed(failure) => stop(&failure),
        _ => ArrivalStage::Checking { paths, preflight },
    }
}

/// How the look at the host stands.
pub open spec fn host_stands(
    paths: ResolvedPaths,
    home: Seq<u8>,
    architecture: String,
    survey: Survey,
    stage: ArrivalStage,
) -> bool {
    if survey.is_complete() {
        exists|preflight: Preflight| #[trigger]
            preflight_judged(paths, home, architecture, survey.replies@, preflight)
                && check_stands(paths, home, preflight, stage)
    } else {
        stage == (ArrivalStage::Surveying { paths, survey })
    }
}

fn stand_host(paths: ResolvedPaths, home: &[u8], architecture: &String, survey: Survey) -> (stage:
    ArrivalStage)
    ensures
        host_stands(paths, home@, *architecture, survey, stage),
{
    if survey.replies.len() < survey.requests.len() {
        return ArrivalStage::Surveying { paths, survey };
    }
    let preflight = begin_preflight(&paths, home, architecture.clone(), survey);
    assert(preflight_judged(paths, home@, *architecture, survey.replies@, preflight));
    stand_check(paths, home, preflight)
}

/// How the way of the installation stands.
pub open spec fn route_stands(
    paths: ResolvedPaths,
    home: Seq<u8>,
    route: InstallRoute,
    stage: ArrivalStage,
) -> bool {
    match route {
        InstallRoute::Locking { installed } => stage == (ArrivalStage::Locking {
            paths,
            installed,
        }),
        InstallRoute::Detecting => stage is LookingAgain && stage->LookingAgain_paths == paths
            && stage->LookingAgain_survey.begins(
            state_places(paths.eiyah_prefix@, under(home, ".local/bin/eiyah"@)),
        ),
        InstallRoute::Updating => stage == ArrivalStage::Announcing(paths),
        InstallRoute::Installing => stage == ArrivalStage::Ready(paths),
        InstallRoute::Failed(failure) => stage.says(failure.line()),
    }
}

fn stand_route(paths: ResolvedPaths, home: &[u8], route: InstallRoute) -> (stage: ArrivalStage)
    ensures
        route_stands(paths, home@, route, stage),
{
    match route {
        InstallRoute::Locking { installed } => ArrivalStage::Locking { paths, installed },
        InstallRoute::Detecting => {
            let entry = join_text(home, ".local/bin/eiyah");
            let survey = state_survey(&paths, &entry);
            ArrivalStage::LookingAgain { paths, survey }
        },
        InstallRoute::Updating => ArrivalStage::Announcing(paths),
        InstallRoute::Installing => ArrivalStage::Ready(paths),
        InstallRoute::Failed(failure) => stop(&failure),
    }
}

/// How the first look at what is installed stands.
pub open spec fn look_stands(
    paths: ResolvedPaths,
    home: Seq<u8>,
    survey: Survey,
    stage: ArrivalStage,
) -> bool {
    if survey.is_complete() {
        exists|result: Result<InstallState, Failure>| #[trigger]
            state_judged(paths.eiyah_prefix@, survey.replies@, result) && match result {
                Err(failure) => stage.says(failure.line()),
                Ok(state) => exists|route: InstallRoute| #[trigger]
                    route_begins(state, route) && route_stands(paths, home, route, stage),
            }
    } else {
        stage == (ArrivalStage::Looking { paths, survey })
    }
}

fn stand_look(paths: ResolvedPaths, home: &[u8], survey: Survey) -> (stage: ArrivalStage)
    ensures
        look_stands(paths, home@, survey, stage),
{
    if survey.replies.len() < survey.requests.len() {
        return ArrivalStage::Looking { paths, survey };
    }
    let entry = join_text(home, ".local/bin/eiyah");
    let result = detect_seen_state(&paths, &entry, survey);
    assert(state_judged(paths.eiyah_prefix@, survey.replies@, result));
    match result {
        Err(failure) => stop(&failure),
        Ok(state) => {
            let route = route_install_state(state);
            assert(route_begins(state, route));
            stand_route(paths, home, route)
        },
    }
}

/// How the second look at what is installed stands.
pub open spec fn second_look_stands(
    paths: ResolvedPaths,
    home: Seq<u8>,
    survey: Survey,
    stage: ArrivalStage,
) -> bool {
    if survey.is_complete() {
        exists|result: Result<InstallState, Failure>, route: InstallRoute|
            #[trigger]
            state_judged(paths.eiyah_prefix@, survey.replies@, result) && #[trigger]
            InstallRoute::Detecting.follows_state(result, route) && route_stands(
                paths,
                home,
                route,
                stage,
            )
    } else {
        stage == (ArrivalStage::LookingAgain { paths, survey })
    }
}

fn stand_second_look(paths: ResolvedPaths, home: &[u8], survey: Survey) -> (stage: ArrivalStage)
    ensures
        second_look_stands(paths, home@, survey, stage),
{
    if survey.replies.len() < survey.requests.len() {
        return ArrivalStage::LookingAgain { paths, survey };
    }
    let entry = join_text(home, ".local/bin/eiyah");
    let result = detect_seen_state(&paths, &entry, survey);
    assert(state_judged(paths.eiyah_prefix@, survey.replies@, result));
    let route = InstallRoute::Detecting.detected(result);
    assert(InstallRoute::Detecting.follows_state(result, route));
    stand_route(paths, home, route)
}

/// How the update stands.
pub open spec fn update_stands(run: UpdateRun, stage: ArrivalStage) -> bool {
    match run {
        UpdateRun::Completed => stage is Completed,
        UpdateRun::Failed(error) => stage == ArrivalStage::Failed(error),
        _ => stage == ArrivalStage::Updating(run),
    }
}

fn stand_update(run: UpdateRun) -> (stage: ArrivalStage)
    ensures
        update_stands(run, stage),
{
    match run {
        UpdateRun::Completed => ArrivalStage::Completed,
        UpdateRun::Failed(error) => ArrivalStage::Failed(error),
        _ => ArrivalStage::Updating(run),
    }
}

/// Whether the lock was taken.
pub open spec fn lock_of(reply: Reply, lock: Result<(), Fault>) -> bool {
    match reply {
        Reply::Done => lock is Ok,
        Reply::Failed(fault) => lock == Err::<(), Fault>(fault),
        _ => lock is Err && lock->Err_0.text@ == unanswered(),
    }
}

fn take_lock(reply: Reply) -> (lock: Result<(), Fault>)
    ensures
        lock_of(reply, lock),
{
    match reply {
        Reply::Done => Ok(()),
        Reply::Failed(fault) => Err(fault),
        _ => Err(Fault { kind: FaultKind::Other, text: "unexpected reply".to_owned() }),
    }
}

/// Begins an installation in a home directory.
pub fn run_install(home: &[u8], environment: Environment, architecture: String) -> (arrival:
    Arrival)
    ensures
        arrival.home@ == home@,
        arrival.architecture == architecture,
        arrival.stage is Finding,
        arrival.stage->Finding_0 is Looking,
        arrival.stage->Finding_0->Looking_home@ == home@,
        arrival.stage->Finding_0->environment == environment,
{
    Arrival {
        home: copy_bytes(home),
        architecture,
        stage: ArrivalStage::Finding(resolve_install_paths(home, environment)),
    }
}

impl Arrival {
    /// The request that the beginning waits for.
    pub open spec fn asks(&self) -> Ask {
        match self.stage {
            ArrivalStage::Finding(search) => search.asks(),
            ArrivalStage::Surveying { survey, .. } => survey.asks(),
            ArrivalStage::Checking { preflight, .. } => preflight.asks(),
            ArrivalStage::Looking { survey, .. } => survey.asks(),
            ArrivalStage::Locking { paths, .. } => Ask::Lock(paths.state_home@),
            ArrivalStage::LookingAgain { survey, .. } => survey.asks(),
            ArrivalStage::Announcing(_) => Ask::Heading("Eiyah is already installed"@),
            ArrivalStage::Updating(run) => run.asks(),
            ArrivalStage::Ready(_) => Ask::Nothing,
            ArrivalStage::Completed => Ask::Nothing,
            ArrivalStage::Failed(_) => Ask::Nothing,
        }
    }

    /// What follows a reply, in a program of this version.
    pub open spec fn follows(&self, current: Seq<char>, reply: Reply, next: ArrivalStage) -> bool {
        let home = self.home@;
        match self.stage {
            ArrivalStage::Finding(search) => exists|later: PathSearch| #[trigger]
                search.follows(reply, later) && search_stands(later, next),
            ArrivalStage::Surveying { paths, survey } => exists|later: Survey| #[trigger]
                survey.follows(reply, later) && host_stands(
                    paths,
                    home,
                    self.architecture,
                    later,
                    next,
                ),
            ArrivalStage::Checking { paths, preflight } => exists|later: Preflight| #[trigger]
                preflight.follows(reply, later) && check_stands(paths, home, later, next),
            ArrivalStage::Looking { paths, survey } => exists|later: Survey| #[trigger]
                survey.follows(reply, later) && look_stands(paths, home, later, next),
            ArrivalStage::Locking { paths, installed } => exists|
                lock: Result<(), Fault>,
                route: InstallRoute,
            |
                #![trigger lock_of(reply, lock), route_stands(paths, home, route, next)]
                lock_of(reply, lock) && (InstallRoute::Locking { installed }).follows_lock(
                    lock,
                    route,
                ) && route_stands(paths, home, route, next),
            ArrivalStage::LookingAgain { paths, survey } => exists|later: Survey| #[trigger]
                survey.follows(reply, later) && second_look_stands(paths, home, later, next),
            ArrivalStage::Announcing(paths) => match reply {
                Reply::Done => next == ArrivalStage::Updating(
                    UpdateRun::Fetching { paths, blank: true },
                ),
                Reply::Failed(fault) => next.says(fault.text@),
                _ => next.says(unanswered()),
            },
            ArrivalStage::Updating(run) => exists|later: UpdateRun| #[trigger]
                run.follows(current, reply, later) && update_stands(later, next),
            _ => next == self.stage,
        }
    }

    pub fn request(&self) -> (request: Request)
        ensures
            request@ == self.asks(),
    {
        match &self.stage {
            ArrivalStage::Finding(search) => search.request(),
            ArrivalStage::Surveying { survey, .. } => survey.request(),
            ArrivalStage::Checking { preflight, .. } => preflight.request(),
            ArrivalStage::Looking { survey, .. } => survey.request(),
            ArrivalStage::Locking { paths, .. } => Request::Lock(copy_bytes(&paths.state_home)),
            ArrivalStage::LookingAgain { survey, .. } => survey.request(),
            ArrivalStage::Announcing(_) => Request::Heading(
                "Eiyah is already installed".to_owned(),
            ),
            ArrivalStage::Updating(run) => run.request(),
            ArrivalStage::Ready(_) => Request::Nothing,
            ArrivalStage::Completed => Request::Nothing,
            ArrivalStage::Failed(_) => Request::Nothing,
        }
    }

    /// Goes on with a reply, in a program of this version.
    pub fn advance(self, current: &str, reply: Reply) -> (next: Arrival)
        ensures
            next.home == self.home,
            next.architecture == self.architecture,
            self.follows(current@, reply, next.stage),
    {
        let Arrival { home, architecture, stage } = self;
        let stage = match stage {
            ArrivalStage::Finding(search) => {
                let later = search.advance(reply);
                assert(search.follows(reply, later));
                stand_search(later)
            },
            ArrivalStage::Surveying { paths, survey } => {
                let later = survey.advance(reply);
                assert(survey.follows(reply, later));
                stand_host(paths, &home, &architecture, later)
            },
            ArrivalStage::Checking { paths, preflight } => {
                let later = preflight.advance(reply);
                assert(preflight.follows(reply, later));
                stand_check(paths, &home, later)
            },
            ArrivalStage::Looking { paths, survey } => {
                let later = survey.advance(reply);
                assert(survey.follows(reply, later));
                stand_look(paths, &home, later)
            },
            ArrivalStage::Locking { paths, installed } => {
                let lock = take_lock(reply);
                let route = (InstallRoute::Locking { installed }).locked(lock);
                assert((InstallRoute::Locking { installed }).follows_lock(lock, route));
                assert(lock_of(reply, lock));
                let stage = stand_route(paths, &home, route);
                assert(route_stands(paths, home@, route, stage));
                stage
            },
            ArrivalStage::LookingAgain { paths, survey } => {
                let later = survey.advance(reply);
                assert(survey.follows(reply, later));
                stand_second_look(paths, &home, later)
            },
            ArrivalStage::Announcing(paths) => match reply {
                Reply::Done => ArrivalStage::Updating(UpdateRun::Fetching { paths, blank: true }),
                Reply::Failed(fault) => stop(&Failure::plain(&fault.text)),
                _ => stop(&Failure::plain("unexpected reply")),
            },
            ArrivalStage::Updating(run) => {
                let later = run.advance(current, reply);
                assert(run.follows(current@, reply, later));
                stand_update(later)
            },
            other => other,
        };
        Arrival { home, architecture, stage }
    }
}

/// Nothing is updated or installed before the lock was taken: an update is announced
/// once it was, or after the second look, and the installation goes on only after the
/// second look, which itself needs the lock.
pub proof fn the_lock_is_taken_first(
    arrival: Arrival,
    current: Seq<char>,
    reply: Reply,
    next: ArrivalStage,
)
    requires
        arrival.follows(current, reply, next),
    ensures
        next is Updating ==> arrival.stage is Updating || arrival.stage is Announcing,
        next is Announcing && arrival.stage !is Announcing ==> arrival.stage is LookingAgain || (
        arrival.stage is Locking && reply is Done && arrival.stage->installed),
        next is Ready && arrival.stage !is Ready ==> arrival.stage is LookingAgain,
        next is LookingAgain && arrival.stage !is LookingAgain ==> arrival.stage is Locking
            && reply is Done && !arrival.stage->installed,
{
}

} // verus!
