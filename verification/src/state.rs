//! Whether the environment is installed, and what an installation does then.

use crate::bytes::copy_bytes;
use crate::config::{command_prefix, discover_install_metadata, environment_homes};
use crate::config::{environment_problem, homes_in, is_command_target, is_structural_error};
use crate::config::{load_install_metadata, read_homes, resolve_paths, structural_kind, Environment};
use crate::config::ResolvedPaths;
use crate::failure::{about, is_failure, Failure, Words};
use crate::host::{is_executable, is_program, Ask, Entry, Fault, FaultKind, FileKind, Reply, Request};
use crate::paths::{absolute, components_of, is_absolute, join_text, same_path, under};
use crate::script::unanswered;
use crate::survey::{add_request, asked_of, no_requests, shows_bytes, shows_entry, take_bytes};
use crate::survey::{take_entry, Survey};
use vstd::prelude::*;

verus! {

/// Whether the environment is installed.
#[derive(Clone, Copy, Debug, PartialEq, Eq, Structural)]
pub enum InstallState {
    /// Nothing of it is there.
    NotInstalled,
    /// Everything that it needs is there and fits together.
    Installed,
    /// Something is missing or does not fit.
    Partial,
}

/// What was seen of an installation.
#[derive(Debug)]
pub struct Sightings {
    /// What stands at the place of the command.
    pub entry: Result<Entry, Fault>,
    /// What stands at the place of the program.
    pub binary: Result<Entry, Fault>,
    /// What stands at the place of the metadata.
    pub metadata: Result<Entry, Fault>,
    /// The program, behind any links.
    pub program: Result<Entry, Fault>,
    /// Where the command leads.
    pub link: Result<Vec<u8>, Fault>,
    /// What the metadata holds.
    pub contents: Result<Vec<u8>, Fault>,
}

/// Whether something stands there; an error where that could not be found out.
pub open spec fn stands(found: Result<Entry, Fault>) -> Result<bool, Seq<char>> {
    match found {
        Ok(_) => Ok(true),
        Err(fault) => if fault.kind == FaultKind::NotFound {
            Ok(false)
        } else {
            Err(fault.text@)
        },
    }
}

/// Whether something stands there; an error where that could not be found out.
pub fn path_exists(found: &Result<Entry, Fault>) -> (result: Result<bool, Failure>)
    ensures
        match stands(*found) {
            Ok(there) => result == Ok::<bool, Failure>(there),
            Err(words) => result is Err && result->Err_0.says(words),
        },
{
    match found {
        Ok(_) => Ok(true),
        Err(fault) => if fault.kind == FaultKind::NotFound {
            Ok(false)
        } else {
            Err(Failure::plain(&fault.text))
        },
    }
}

/// What follows from an error: something is wrong with the installation, or nothing is
/// known of it.
pub open spec fn state_of_fault(fault: Fault) -> Result<InstallState, Words> {
    if structural_kind(fault.kind) {
        Ok(InstallState::Partial)
    } else {
        Err((fault.text@, None))
    }
}

/// The state of an installation whose parts are all there, by the metadata.
pub open spec fn state_by_metadata(prefix: Seq<u8>, contents: Result<Vec<u8>, Fault>) -> Result<
    InstallState,
    Words,
> {
    match read_homes(contents) {
        Some(homes) => if components_of(under(homes.data_home, "eiyah"@)) == components_of(prefix) {
            Ok(InstallState::Installed)
        } else {
            Ok(InstallState::Partial)
        },
        None => match contents {
            Err(fault) => if structural_kind(fault.kind) {
                Ok(InstallState::Partial)
            } else {
                Err(
                    (
                        about(
                            "failed to read installation metadata: "@,
                            under(prefix, "install.toml"@),
                        ),
                        Some(fault.text@),
                    ),
                )
            },
            Ok(_) => Ok(InstallState::Partial),
        },
    }
}

/// The state of an installation whose parts are all there, by the link to it.
pub open spec fn state_by_link(prefix: Seq<u8>, seen: Sightings) -> Result<InstallState, Words> {
    let binary = under(prefix, "bin/eiyah"@);
    match seen.link {
        Err(fault) => state_of_fault(fault),
        Ok(target) => if !absolute(target@) || components_of(target@) != components_of(binary)
            || !is_command_target(target@) || components_of(
            under(command_prefix(target@), "install.toml"@),
        ) != components_of(under(prefix, "install.toml"@)) {
            Ok(InstallState::Partial)
        } else {
            state_by_metadata(prefix, seen.contents)
        },
    }
}

/// The state of an installation; an error where it could not be found out.
pub open spec fn install_state(prefix: Seq<u8>, seen: Sightings) -> Result<InstallState, Words> {
    match (stands(seen.entry), stands(seen.binary), stands(seen.metadata)) {
        (Err(words), _, _) => Err((words, None)),
        (_, Err(words), _) => Err((words, None)),
        (_, _, Err(words)) => Err((words, None)),
        (Ok(entry), Ok(binary), Ok(metadata)) => if !entry && !binary && !metadata {
            Ok(InstallState::NotInstalled)
        } else if !entry || !binary || !metadata || seen.metadata->Ok_0.kind != FileKind::Regular {
            Ok(InstallState::Partial)
        } else {
            match seen.program {
                Err(fault) => state_of_fault(fault),
                Ok(program) => if !is_program(program) {
                    Ok(InstallState::Partial)
                } else {
                    state_by_link(prefix, seen)
                },
            }
        },
    }
}

/// What follows from an error.
fn from_fault(fault: &Fault) -> (result: Result<InstallState, Failure>)
    ensures
        structural_kind(fault.kind) ==> result == Ok::<InstallState, Failure>(InstallState::Partial),
        !structural_kind(fault.kind) ==> result is Err && result->Err_0.says(fault.text@),
{
    if is_structural_error(fault.kind) {
        Ok(InstallState::Partial)
    } else {
        Err(Failure::plain(&fault.text))
    }
}

/// The state of an installation at these places. Only where nothing of it is there it
/// is not installed; only where everything is there and fits together it is installed.
pub fn detect_install_state(paths: &ResolvedPaths, public_entry: &[u8], seen: Sightings) -> (result:
    Result<InstallState, Failure>)
    ensures
        match install_state(paths.eiyah_prefix@, seen) {
            Ok(state) => result == Ok::<InstallState, Failure>(state),
            Err(words) => result is Err && is_failure(result->Err_0, words),
        },
{
    let binary = join_text(&paths.eiyah_prefix, "bin/eiyah");
    let metadata_path = join_text(&paths.eiyah_prefix, "install.toml");
    let entry_exists = match path_exists(&seen.entry) {
        Err(failure) => {
            return Err(failure);
        },
        Ok(there) => there,
    };
    let binary_exists = match path_exists(&seen.binary) {
        Err(failure) => {
            return Err(failure);
        },
        Ok(there) => there,
    };
    let metadata_exists = match path_exists(&seen.metadata) {
        Err(failure) => {
            return Err(failure);
        },
        Ok(there) => there,
    };
    if !entry_exists && !binary_exists && !metadata_exists {
        return Ok(InstallState::NotInstalled);
    }
    if !entry_exists || !binary_exists || !metadata_exists {
        return Ok(InstallState::Partial);
    }
    match &seen.metadata {
        Ok(metadata) => {
            if metadata.kind != FileKind::Regular {
                return Ok(InstallState::Partial);
            }
        },
        Err(fault) => {
            return from_fault(fault);
        },
    }
    match &seen.program {
        Ok(program) => {
            if !is_executable(program) {
                return Ok(InstallState::Partial);
            }
        },
        Err(fault) => {
            return from_fault(fault);
        },
    }
    match &seen.link {
        Ok(target) => {
            if !is_absolute(target) || !same_path(target, &binary) {
                return Ok(InstallState::Partial);
            }
        },
        Err(fault) => {
            return from_fault(fault);
        },
    }
    match discover_install_metadata(public_entry, seen.link) {
        Ok(path) => {
            if !same_path(&path, &metadata_path) {
                return Ok(InstallState::Partial);
            }
        },
        Err(error) => {
            if error.is_structural() {
                return Ok(InstallState::Partial);
            }
            return Err(error.explain(public_entry));
        },
    }
    let metadata = match load_install_metadata(seen.contents) {
        Ok(metadata) => metadata,
        Err(error) => {
            if error.is_structural() {
                return Ok(InstallState::Partial);
            }
            proof {
                reveal_strlit("failed to read ");
                reveal_strlit("installation metadata");
                reveal_strlit(": ");
                reveal_strlit("failed to read installation metadata: ");
                assert("failed to read "@ + "installation metadata"@ + ": "@
                    =~= "failed to read installation metadata: "@);
            }
            return Err(error.explain("installation metadata", &metadata_path, ""));
        },
    };
    let found = match ResolvedPaths::from_install_metadata(metadata) {
        Ok(found) => found,
        Err(_) => {
            return Ok(InstallState::Partial);
        },
    };
    if !same_path(&found.eiyah_prefix, &paths.eiyah_prefix) {
        return Ok(InstallState::Partial);
    }
    Ok(InstallState::Installed)
}

/// What is looked at to find out whether the environment is installed.
pub open spec fn state_places(prefix: Seq<u8>, entry: Seq<u8>) -> Seq<Ask> {
    seq![
        Ask::Inspect(entry),
        Ask::Inspect(under(prefix, "bin/eiyah"@)),
        Ask::Inspect(under(prefix, "install.toml"@)),
        Ask::InspectTarget(under(prefix, "bin/eiyah"@)),
        Ask::ReadLink(entry),
        Ask::Read(under(prefix, "install.toml"@)),
    ]
}

/// Looks at the places of an installation.
pub fn state_survey(paths: &ResolvedPaths, public_entry: &[u8]) -> (survey: Survey)
    ensures
        survey.begins(state_places(paths.eiyah_prefix@, public_entry@)),
{
    let prefix = &paths.eiyah_prefix;
    let mut requests = no_requests();
    add_request(&mut requests, Request::Inspect(copy_bytes(public_entry)));
    add_request(&mut requests, Request::Inspect(join_text(prefix, "bin/eiyah")));
    add_request(&mut requests, Request::Inspect(join_text(prefix, "install.toml")));
    add_request(&mut requests, Request::InspectTarget(join_text(prefix, "bin/eiyah")));
    add_request(&mut requests, Request::ReadLink(copy_bytes(public_entry)));
    add_request(&mut requests, Request::Read(join_text(prefix, "install.toml")));
    assert(asked_of(requests@) =~= state_places(prefix@, public_entry@));
    Survey::new(requests)
}

/// Whether this was seen at the places of an installation.
pub open spec fn sighted_in(seen: Sightings, replies: Seq<Reply>) -> bool {
    &&& replies.len() == 6
    &&& shows_entry(replies[0], seen.entry)
    &&& shows_entry(replies[1], seen.binary)
    &&& shows_entry(replies[2], seen.metadata)
    &&& shows_entry(replies[3], seen.program)
    &&& shows_bytes(replies[4], seen.link)
    &&& shows_bytes(replies[5], seen.contents)
}

/// Whether this is the state of an installation by what was seen.
pub open spec fn state_judged(
    prefix: Seq<u8>,
    replies: Seq<Reply>,
    result: Result<InstallState, Failure>,
) -> bool {
    if replies.len() == 6 {
        exists|seen: Sightings| #[trigger]
            sighted_in(seen, replies) && match install_state(prefix, seen) {
                Ok(state) => result == Ok::<InstallState, Failure>(state),
                Err(words) => result is Err && is_failure(result->Err_0, words),
            }
    } else {
        result is Err && result->Err_0.says(unanswered())
    }
}

/// The state of an installation by what was seen at its places.
pub fn detect_seen_state(paths: &ResolvedPaths, public_entry: &[u8], survey: Survey) -> (result:
    Result<InstallState, Failure>)
    ensures
        state_judged(paths.eiyah_prefix@, survey.replies@, result),
{
    if survey.replies.len() != 6 {
        return Err(Failure::plain("unexpected reply"));
    }
    let mut replies = survey.replies;
    let contents = take_bytes(&mut replies);
    let link = take_bytes(&mut replies);
    let program = take_entry(&mut replies);
    let metadata = take_entry(&mut replies);
    let binary = take_entry(&mut replies);
    let entry = take_entry(&mut replies);
    let seen = Sightings { entry, binary, metadata, program, link, contents };
    assert(sighted_in(seen, survey.replies@));
    detect_install_state(paths, public_entry, seen)
}

/// An installation that counts as installed is one: the command leads to the program,
/// the program can be run, and the metadata leads back to the same prefix. One that
/// counts as not installed has left nothing.
pub proof fn installed_means_installed(prefix: Seq<u8>, seen: Sightings)
    ensures
        install_state(prefix, seen) == Ok::<InstallState, Words>(InstallState::Installed) ==> {
            &&& seen.entry is Ok
            &&& seen.program is Ok
            &&& is_program(seen.program->Ok_0)
            &&& seen.link is Ok
            &&& components_of(seen.link->Ok_0@) == components_of(under(prefix, "bin/eiyah"@))
            &&& read_homes(seen.contents) is Some
            &&& components_of(under(read_homes(seen.contents)->0.data_home, "eiyah"@))
                == components_of(prefix)
        },
        install_state(prefix, seen) == Ok::<InstallState, Words>(InstallState::NotInstalled) ==> {
            &&& stands(seen.entry) == Ok::<bool, Seq<char>>(false)
            &&& stands(seen.binary) == Ok::<bool, Seq<char>>(false)
            &&& stands(seen.metadata) == Ok::<bool, Seq<char>>(false)
        },
{
}

// --------------------------------------------------
// Places
// --------------------------------------------------

/// What is said where the command of a present installation is of no use.
pub open spec fn bad_link_words(home: Seq<u8>) -> Seq<char> {
    about(
        "existing Eiyah installation is incomplete: Eiyah command link is missing or invalid: "@,
        under(home, ".local/bin/eiyah"@),
    )
}

/// What is said where the metadata of a present installation is of no use.
pub open spec fn bad_metadata_words(path: Seq<u8>) -> Seq<char> {
    about(
        "existing Eiyah installation is incomplete: installation information is missing or invalid: "@,
        path,
    )
}

/// The search for the places of an installation.
#[derive(Debug)]
pub enum PathSearch {
    /// Whether a command is there is looked up.
    Looking { home: Vec<u8>, environment: Environment },
    /// Where the command leads is looked up.
    Linking { home: Vec<u8> },
    /// The metadata is read.
    Reading { path: Vec<u8> },
    Found(ResolvedPaths),
    Failed(Failure),
}

/// Begins to search for the places of an installation: those of the one that is there,
/// and only where none is there those that the environment calls for.
pub fn resolve_install_paths(home: &[u8], environment: Environment) -> (search: PathSearch)
    ensures
        search is Looking,
        search->Looking_home@ == home@,
        search->environment == environment,
{
    PathSearch::Looking { home: copy_bytes(home), environment }
}

impl PathSearch {
    /// The request that the search waits for.
    pub open spec fn asks(&self) -> Ask {
        match self {
            PathSearch::Looking { home, .. } => Ask::Inspect(under(home@, ".local/bin/eiyah"@)),
            PathSearch::Linking { home } => Ask::ReadLink(under(home@, ".local/bin/eiyah"@)),
            PathSearch::Reading { path } => Ask::Read(path@),
            PathSearch::Found(_) => Ask::Nothing,
            PathSearch::Failed(_) => Ask::Nothing,
        }
    }

    /// What follows a reply.
    pub open spec fn follows(&self, reply: Reply, next: PathSearch) -> bool {
        match self {
            PathSearch::Looking { home, environment } => match reply {
                Reply::Found(_) => next is Linking && next->Linking_home@ == home@,
                Reply::Failed(fault) => if fault.kind == FaultKind::NotFound {
                    match environment_problem(*environment) {
                        Some(words) => next is Failed && next->Failed_0.says(words),
                        None => next is Found && next->Found_0.homes() == environment_homes(
                            *environment,
                        ) && next->Found_0.well_placed(),
                    }
                } else {
                    next is Failed && next->Failed_0.says(fault.text@)
                },
                _ => next is Failed && next->Failed_0.says(unanswered()),
            },
            PathSearch::Linking { home } => match reply {
                Reply::Contents(target) => if is_command_target(target@) {
                    next is Reading && next->path@ == under(
                        command_prefix(target@),
                        "install.toml"@,
                    )
                } else {
                    next is Failed && next->Failed_0.says(bad_link_words(home@))
                },
                Reply::Failed(_) => next is Failed && next->Failed_0.says(bad_link_words(home@)),
                _ => next is Failed && next->Failed_0.says(unanswered()),
            },
            PathSearch::Reading { path } => match reply {
                Reply::Contents(contents) => match homes_in(contents@) {
                    Some(homes) => next is Found && next->Found_0.homes() == homes
                        && next->Found_0.well_placed(),
                    None => next is Failed && next->Failed_0.says(bad_metadata_words(path@)),
                },
                Reply::Failed(_) => next is Failed && next->Failed_0.says(
                    bad_metadata_words(path@),
                ),
                _ => next is Failed && next->Failed_0.says(unanswered()),
            },
            _ => next == *self,
        }
    }

    pub fn request(&self) -> (request: Request)
        ensures
            request@ == self.asks(),
    {
        match self {
            PathSearch::Looking { home, .. } => Request::Inspect(
                join_text(home, ".local/bin/eiyah"),
            ),
            PathSearch::Linking { home } => Request::ReadLink(join_text(home, ".local/bin/eiyah")),
            PathSearch::Reading { path } => Request::Read(copy_bytes(path)),
            PathSearch::Found(_) => Request::Nothing,
            PathSearch::Failed(_) => Request::Nothing,
        }
    }

    /// Goes on with a reply.
    pub fn advance(self, reply: Reply) -> (next: PathSearch)
        ensures
            self.follows(reply, next),
    {
        match self {
            PathSearch::Looking { home, environment } => match reply {
                Reply::Found(_) => PathSearch::Linking { home },
                Reply::Failed(fault) => if fault.kind == FaultKind::NotFound {
                    match resolve_paths(environment) {
                        Ok(paths) => PathSearch::Found(paths),
                        Err(failure) => PathSearch::Failed(failure),
                    }
                } else {
                    PathSearch::Failed(Failure::plain(&fault.text))
                },
                _ => PathSearch::Failed(Failure::plain("unexpected reply")),
            },
            PathSearch::Linking { home } => {
                let entry = join_text(&home, ".local/bin/eiyah");
                let link: Result<Vec<u8>, Fault> = match reply {
                    Reply::Contents(target) => Ok(target),
                    Reply::Failed(fault) => Err(fault),
                    _ => {
                        return PathSearch::Failed(Failure::plain("unexpected reply"));
                    },
                };
                match discover_install_metadata(&entry, link) {
                    Ok(path) => PathSearch::Reading { path },
                    Err(_) => PathSearch::Failed(
                        Failure::at(
                            "existing Eiyah installation is incomplete: Eiyah command link is missing or invalid: ",
                            &entry,
                        ),
                    ),
                }
            },
            PathSearch::Reading { path } => {
                let contents: Result<Vec<u8>, Fault> = match reply {
                    Reply::Contents(contents) => Ok(contents),
                    Reply::Failed(fault) => Err(fault),
                    _ => {
                        return PathSearch::Failed(Failure::plain("unexpected reply"));
                    },
                };
                let metadata = match load_install_metadata(contents) {
                    Ok(metadata) => metadata,
                    Err(_) => {
                        return PathSearch::Failed(
                            Failure::at(
                                "existing Eiyah installation is incomplete: installation information is missing or invalid: ",
                                &path,
                            ),
                        );
                    },
                };
                match ResolvedPaths::from_install_metadata(metadata) {
                    Ok(paths) => PathSearch::Found(paths),
                    Err(_) => PathSearch::Failed(
                        Failure::at(
                            "existing Eiyah installation is incomplete: installation paths are invalid: ",
                            &path,
                        ),
                    ),
                }
            },
            PathSearch::Found(paths) => PathSearch::Found(paths),
            PathSearch::Failed(failure) => PathSearch::Failed(failure),
        }
    }
}

/// The environment decides where the installation is only where no command is there; a
/// command that is there decides alone, whatever the environment calls for.
pub proof fn a_present_installation_decides(
    search: PathSearch,
    reply: Reply,
    next: PathSearch,
    last: PathSearch,
    answer: Reply,
)
    requires
        search is Looking,
        search.follows(reply, next),
        next.follows(answer, last),
    ensures
        next is Found ==> reply is Failed && reply->Failed_0.kind == FaultKind::NotFound
            && next->Found_0.homes() == environment_homes(search->environment),
        reply is Found ==> next is Linking && (last is Reading ==> answer is Contents
            && is_command_target(answer->Contents_0@)),
{
}

// --------------------------------------------------
// What is done
// --------------------------------------------------

/// What an installation does.
#[derive(Debug)]
pub enum InstallRoute {
    /// It takes the lock; the state was this one.
    Locking { installed: bool },
    /// Under the lock, it looks at the state once more.
    Detecting,
    /// It says that the environment is installed and updates it.
    Updating,
    /// It installs the environment.
    Installing,
    Failed(Failure),
}

/// What is said of an installation with something missing.
pub open spec fn incomplete_words() -> Seq<char> {
    "existing Eiyah installation is incomplete: required files are missing or invalid"@
}

fn incomplete() -> (route: InstallRoute)
    ensures
        route is Failed,
        route->Failed_0.says(incomplete_words()),
{
    InstallRoute::Failed(
        Failure::plain(
            "existing Eiyah installation is incomplete: required files are missing or invalid",
        ),
    )
}

/// Whether an installation begins with this, in this state.
pub open spec fn route_begins(initial_state: InstallState, route: InstallRoute) -> bool {
    match initial_state {
        InstallState::Partial => route is Failed && route->Failed_0.says(incomplete_words()),
        InstallState::Installed => route == (InstallRoute::Locking { installed: true }),
        InstallState::NotInstalled => route == (InstallRoute::Locking { installed: false }),
    }
}

/// What an installation begins with, in this state.
pub fn route_install_state(initial_state: InstallState) -> (route: InstallRoute)
    ensures
        route_begins(initial_state, route),
{
    match initial_state {
        InstallState::Partial => incomplete(),
        InstallState::Installed => InstallRoute::Locking { installed: true },
        InstallState::NotInstalled => InstallRoute::Locking { installed: false },
    }
}

impl InstallRoute {
    /// What follows the attempt to take the lock.
    pub open spec fn follows_lock(&self, lock: Result<(), Fault>, next: InstallRoute) -> bool {
        match self {
            InstallRoute::Locking { installed } => match lock {
                Err(fault) => next is Failed && next->Failed_0.says(fault.text@),
                Ok(()) => if *installed {
                    next is Updating
                } else {
                    next is Detecting
                },
            },
            _ => next == *self,
        }
    }

    /// What follows the second look.
    pub open spec fn follows_state(&self, state: Result<InstallState, Failure>, next: InstallRoute) -> bool {
        match self {
            InstallRoute::Detecting => match state {
                Err(failure) => next == InstallRoute::Failed(failure),
                Ok(InstallState::Installed) => next is Updating,
                Ok(InstallState::Partial) => next is Failed && next->Failed_0.says(
                    incomplete_words(),
                ),
                Ok(InstallState::NotInstalled) => next is Installing,
            },
            _ => next == *self,
        }
    }

    /// Goes on after the attempt to take the lock.
    pub fn locked(self, lock: Result<(), Fault>) -> (next: InstallRoute)
        ensures
            self.follows_lock(lock, next),
    {
        match self {
            InstallRoute::Locking { installed } => match lock {
                Err(fault) => InstallRoute::Failed(Failure::plain(&fault.text)),
                Ok(()) => if installed {
                    InstallRoute::Updating
                } else {
                    InstallRoute::Detecting
                },
            },
            other => other,
        }
    }

    /// Goes on after the second look.
    pub fn detected(self, state: Result<InstallState, Failure>) -> (next: InstallRoute)
        ensures
            self.follows_state(state, next),
    {
        match self {
            InstallRoute::Detecting => match state {
                Err(failure) => InstallRoute::Failed(failure),
                Ok(InstallState::Installed) => InstallRoute::Updating,
                Ok(InstallState::Partial) => incomplete(),
                Ok(InstallState::NotInstalled) => InstallRoute::Installing,
            },
            other => other,
        }
    }
}

/// The environment is installed only under the lock, and only where it was missing
/// both before and under the lock; an incomplete installation is never touched.
pub proof fn installing_needs_the_lock(
    initial: InstallState,
    first: InstallRoute,
    lock: Result<(), Fault>,
    second: InstallRoute,
    state: Result<InstallState, Failure>,
    last: InstallRoute,
)
    requires
        route_begins(initial, first),
        first.follows_lock(lock, second),
        second.follows_state(state, last),
    ensures
        last is Installing <==> initial == InstallState::NotInstalled && lock is Ok && state == Ok::<
            InstallState,
            Failure,
        >(InstallState::NotInstalled),
        last is Updating <==> lock is Ok && (initial == InstallState::Installed || (initial
            == InstallState::NotInstalled && state == Ok::<InstallState, Failure>(
            InstallState::Installed,
        ))),
{
}

} // verus!
