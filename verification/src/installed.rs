//! Finding an installation through the link to its command.

use crate::bytes::copy_bytes;
use crate::config::{command_prefix, command_problem, discover_install_metadata, homes_in};
use crate::config::{is_command_target, load_install_metadata, paths_come_back, read_homes};
use crate::config::{refuses_homes, DiscoverError, LoadError, ResolvedPaths};
use crate::failure::{about, message_at, Failure};
use crate::host::{complaint_of, judged_contents, judged_reply, Ask, Fault, FaultKind, Reply};
use crate::host::Request;
use crate::paths::{join_text, under};
use crate::script::unanswered;
use crate::text::concat;
use vstd::prelude::*;

verus! {

/// How far the search for an installation has come.
#[derive(Debug)]
pub enum Lookup {
    /// The link to the command is to be read.
    Link { entry: Vec<u8> },
    /// What the installation knows of itself is to be read.
    Metadata { path: Vec<u8> },
    Found(ResolvedPaths),
    /// The link does not lead to an installation.
    NoLink { entry: Vec<u8>, error: DiscoverError },
    /// What the installation knows of itself cannot be used.
    NoMetadata { path: Vec<u8>, error: LoadError, complaint: String },
    /// A request was answered with something else.
    Unanswered,
}

/// Begins to look for the installation of a home directory.
pub fn load_installed_paths(home: &[u8]) -> (lookup: Lookup)
    ensures
        lookup is Link,
        lookup->Link_entry@ == under(home@, ".local/bin/eiyah"@),
{
    Lookup::Link { entry: join_text(home, ".local/bin/eiyah") }
}

/// What is read of a reply.
pub open spec fn read_reply(reply: Reply) -> Option<Result<Vec<u8>, Fault>> {
    match reply {
        Reply::Contents(bytes) => Some(Ok(bytes)),
        Reply::Failed(fault) => Some(Err(fault)),
        _ => None,
    }
}

/// What is read of a reply.
pub fn contents_of(reply: Reply) -> (contents: Option<Result<Vec<u8>, Fault>>)
    ensures
        contents == read_reply(reply),
{
    match reply {
        Reply::Contents(bytes) => Some(Ok(bytes)),
        Reply::Failed(fault) => Some(Err(fault)),
        _ => None,
    }
}

/// What is said first where an installation could not be read.
pub open spec fn unread() -> Seq<char> {
    "Eiyah installation information could not be read: "@
}

/// Whether nothing stands where the command should be.
pub open spec fn is_absent(error: DiscoverError) -> bool {
    error matches DiscoverError::Unreadable(fault) && fault.kind == FaultKind::NotFound
}

impl Lookup {
    pub open spec fn asks(&self) -> Ask {
        match self {
            Lookup::Link { entry } => Ask::ReadLink(entry@),
            Lookup::Metadata { path } => Ask::ReadMetadata(path@),
            _ => Ask::Nothing,
        }
    }

    /// What the search does with a reply.
    pub open spec fn follows(&self, reply: Reply, next: Lookup) -> bool {
        match self {
            Lookup::Link { entry } => match read_reply(reply) {
                None => next is Unanswered,
                Some(Err(fault)) => next == (Lookup::NoLink {
                    entry: *entry,
                    error: DiscoverError::Unreadable(fault),
                }),
                Some(Ok(target)) => if is_command_target(target@) {
                    next is Metadata && next->Metadata_path@ == under(
                        command_prefix(target@),
                        "install.toml"@,
                    )
                } else {
                    next is NoLink && next->NoLink_entry == *entry && next->NoLink_error is Shape
                        && next->NoLink_error->Shape_0.says(command_problem(target@))
                },
            },
            Lookup::Metadata { path } => match judged_reply(reply) {
                None => next is Unanswered,
                Some(contents) => match read_homes(contents) {
                    Some(homes) => next is Found && next->Found_0.homes() == homes
                        && next->Found_0.well_placed(),
                    None => {
                        &&& next is NoMetadata
                        &&& next->NoMetadata_path == *path
                        &&& refuses_homes(contents, next->NoMetadata_error)
                        &&& next->complaint@ == complaint_of(reply)
                    },
                },
            },
            _ => next == *self,
        }
    }

    pub fn request(&self) -> (request: Request)
        ensures
            request@ == self.asks(),
    {
        match self {
            Lookup::Link { entry } => Request::ReadLink(copy_bytes(entry)),
            Lookup::Metadata { path } => Request::ReadMetadata(copy_bytes(path)),
            _ => Request::Nothing,
        }
    }

    /// Goes on with a reply.
    pub fn advance(self, reply: Reply) -> (next: Lookup)
        ensures
            self.follows(reply, next),
    {
        match self {
            Lookup::Link { entry } => match contents_of(reply) {
                None => Lookup::Unanswered,
                Some(link) => match discover_install_metadata(&entry, link) {
                    Ok(path) => Lookup::Metadata { path },
                    Err(error) => Lookup::NoLink { entry, error },
                },
            },
            Lookup::Metadata { path } => {
                let (judged, complaint) = judged_contents(reply);
                match judged {
                    None => Lookup::Unanswered,
                    Some(contents) => match load_install_metadata(contents) {
                        Err(error) => Lookup::NoMetadata { path, error, complaint },
                        Ok(metadata) => match ResolvedPaths::from_install_metadata(metadata) {
                            Ok(paths) => Lookup::Found(paths),
                            Err(failure) => Lookup::NoMetadata {
                                path,
                                error: LoadError::Invalid(failure),
                                complaint,
                            },
                        },
                    },
                }
            },
            other => other,
        }
    }

    /// What was found, in the end.
    pub fn outcome(self) -> (outcome: Option<Result<ResolvedPaths, Failure>>)
        ensures
            match self {
                Lookup::Link { .. } | Lookup::Metadata { .. } => outcome is None,
                Lookup::Found(paths) => outcome == Some(Ok::<ResolvedPaths, Failure>(paths)),
                Lookup::NoLink { entry, error } => outcome is Some && outcome->0 is Err
                    && error.tells(entry@, outcome->0->Err_0),
                Lookup::NoMetadata { path, error, complaint } => outcome is Some && outcome->0 is Err
                    && error.tells(
                    "installation metadata"@,
                    path@,
                    complaint@,
                    outcome->0->Err_0,
                ),
                Lookup::Unanswered => outcome is Some && outcome->0 is Err
                    && outcome->0->Err_0.says(unanswered()),
            },
    {
        match self {
            Lookup::Link { .. } => None,
            Lookup::Metadata { .. } => None,
            Lookup::Found(paths) => Some(Ok(paths)),
            Lookup::NoLink { entry, error } => Some(Err(error.explain(&entry))),
            Lookup::NoMetadata { path, error, complaint } => Some(
                Err(error.explain("installation metadata", &path, &complaint)),
            ),
            Lookup::Unanswered => Some(Err(Failure::plain("unexpected reply"))),
        }
    }

    /// What was found, in words for someone who wants to update.
    pub fn outcome_for_update(self) -> (outcome: Option<Result<ResolvedPaths, Failure>>)
        ensures
            match self {
                Lookup::Link { .. } | Lookup::Metadata { .. } => outcome is None,
                Lookup::Found(paths) => outcome == Some(Ok::<ResolvedPaths, Failure>(paths)),
                Lookup::NoLink { entry, .. } => outcome is Some && outcome->0 is Err
                    && outcome->0->Err_0.says(
                    about("Eiyah command link is missing or invalid: "@, entry@),
                ),
                Lookup::NoMetadata { path, .. } => outcome is Some && outcome->0 is Err
                    && outcome->0->Err_0.says(
                    about("installation information is missing or invalid: "@, path@),
                ),
                Lookup::Unanswered => outcome is Some && outcome->0 is Err
                    && outcome->0->Err_0.says(unanswered()),
            },
    {
        match self {
            Lookup::Link { .. } => None,
            Lookup::Metadata { .. } => None,
            Lookup::Found(paths) => Some(Ok(paths)),
            Lookup::NoLink { entry, .. } => Some(
                Err(Failure::at("Eiyah command link is missing or invalid: ", &entry)),
            ),
            Lookup::NoMetadata { path, .. } => Some(
                Err(Failure::at("installation information is missing or invalid: ", &path)),
            ),
            Lookup::Unanswered => Some(Err(Failure::plain("unexpected reply"))),
        }
    }

    /// Why nothing was found, in words for someone who only looks: a command that is
    /// not there is told as such, anything else in the words of the failure.
    pub fn reason_for_report(self) -> (reason: Option<String>)
        ensures
            match self {
                Lookup::Link { .. } | Lookup::Metadata { .. } | Lookup::Found(_) => reason is None,
                Lookup::NoLink { entry, error } => reason is Some && if is_absent(error) {
                    reason->0@ == about(unread() + "Eiyah command was not found at "@, entry@)
                } else {
                    exists|failure: Failure| #[trigger]
                        error.tells(entry@, failure) && reason->0@ == unread() + failure.line()
                },
                Lookup::NoMetadata { path, error, complaint } => reason is Some && exists|
                    failure: Failure,
                | #[trigger]
                    error.tells("installation metadata"@, path@, complaint@, failure) && reason->0@
                        == unread() + failure.line(),
                Lookup::Unanswered => reason is Some && reason->0@ == unread() + unanswered(),
            },
    {
        match self {
            Lookup::NoLink { entry, error: DiscoverError::Unreadable(fault) } => {
                if fault.kind == FaultKind::NotFound {
                    let words = concat(
                        "Eiyah installation information could not be read: ",
                        "Eiyah command was not found at ",
                    );
                    return Some(message_at(&words, &entry));
                }
                let failure = DiscoverError::Unreadable(fault).explain(&entry);
                Some(
                    concat(
                        "Eiyah installation information could not be read: ",
                        &failure.full_text(),
                    ),
                )
            },
            other => match other.outcome() {
                Some(Err(failure)) => Some(
                    concat(
                        "Eiyah installation information could not be read: ",
                        &failure.full_text(),
                    ),
                ),
                _ => None,
            },
        }
    }
}

/// An installation is found exactly where the link leads to one and its metadata
/// can be used; its places are then those below the kept base directories.
pub proof fn found_means_installed(
    first: Lookup,
    link: Reply,
    second: Lookup,
    metadata: Reply,
    last: Lookup,
)
    requires
        first is Link,
        first.follows(link, second),
        second.follows(metadata, last),
    ensures
        last is Found <==> {
            &&& link is Contents
            &&& is_command_target(link->Contents_0@)
            &&& metadata is Judged
            &&& read_homes(Ok(metadata->contents)) is Some
        },
        last is Found ==> last->Found_0.well_placed() && read_homes(Ok(metadata->contents))
            == Some(last->Found_0.homes()),
{
}

/// What was kept with an installation is found again: where the link leads to an
/// installation and the file holds its base directories, its places are found.
pub proof fn a_kept_installation_is_found(
    paths: ResolvedPaths,
    kept: Vec<u8>,
    complaint: String,
    first: Lookup,
    link: Reply,
    second: Lookup,
    last: Lookup,
)
    requires
        paths.well_placed(),
        homes_in(kept@) == Some(paths.homes()),
        first is Link,
        link is Contents,
        is_command_target(link->Contents_0@),
        first.follows(link, second),
        second.follows((Reply::Judged { contents: kept, complaint }), last),
    ensures
        last is Found,
        last->Found_0.same_places(&paths),
        last->Found_0.eiyah_prefix@ == paths.eiyah_prefix@,
        last->Found_0.eiyah_config@ == paths.eiyah_config@,
        last->Found_0.pixi_home@ == paths.pixi_home@,
{
    found_means_installed(
        first,
        link,
        second,
        Reply::Judged { contents: kept, complaint },
        last,
    );
    paths_come_back(paths, last->Found_0);
}

} // verus!
