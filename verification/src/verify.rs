//! The check of an installation before it is kept.

use crate::bytes::copy_bytes;
use crate::checks::{directory_problem, entry_problem, file_problem, program_problem};
use crate::checks::{validate_absolute_entry, validate_expected_executable};
use crate::checks::{validate_non_symlink_directory, validate_regular_non_symlink};
use crate::config::{config_unread, homes_match, load_config, load_install_metadata, read_homes};
use crate::config::ResolvedPaths;
use crate::dotfiles::{cshrc_problem, validate_stowed_cshrc};
use crate::failure::{about, earlier, first_failure, is_failure, reports, Failure, Words};
use crate::handoff::enabled_in;
use crate::host::{complaint_of, is_program, Ask, Entry, Fault, FileKind, Reply, Request};
use crate::paths::{components_of, join_text, under};
use crate::script::unanswered;
use crate::stow::leads_to_source;
use crate::survey::{add_request, asked_of, no_requests, shows_bytes, shows_entry, shows_judged};
use crate::survey::{take_bytes, take_entry, take_judged, Survey};
use vstd::prelude::*;

verus! {

/// What was seen of an installation that has just been made.
#[derive(Debug)]
pub struct InstalledFacts {
    pub binary: Result<Entry, Fault>,
    pub entry: Result<Entry, Fault>,
    pub entry_link: Result<Vec<u8>, Fault>,
    pub metadata: Result<Vec<u8>, Fault>,
    pub pixi: Result<Entry, Fault>,
    pub manifest: Result<Entry, Fault>,
    pub dotfiles: Result<Entry, Fault>,
    pub cshrc: Result<Entry, Fault>,
    pub cshrc_link: Result<Vec<u8>, Fault>,
    pub status: Result<Entry, Fault>,
    pub status_entry: Result<Entry, Fault>,
    pub status_link: Result<Vec<u8>, Fault>,
    pub config: Result<Vec<u8>, Fault>,
    /// What a reader that knows the settings has to say against them.
    pub complaint: String,
}

/// What is wrong with the metadata.
pub open spec fn metadata_problem(paths: ResolvedPaths, contents: Result<Vec<u8>, Fault>) -> Option<
    Words,
> {
    let path = under(paths.eiyah_prefix@, "install.toml"@);
    match read_homes(contents) {
        None => Some((about("installation information is missing or invalid: "@, path), None)),
        Some(homes) => if homes_match(homes, paths) {
            None
        } else {
            Some((about("installation paths do not match installed files: "@, path), None))
        },
    }
}

fn check_metadata(paths: &ResolvedPaths, contents: Result<Vec<u8>, Fault>) -> (result: Result<
    (),
    Failure,
>)
    ensures
        reports(result, metadata_problem(*paths, contents)),
{
    let path = join_text(&paths.eiyah_prefix, "install.toml");
    let metadata = match load_install_metadata(contents) {
        Err(_) => {
            return Err(
                Failure::at("installation information is missing or invalid: ", &path),
            );
        },
        Ok(metadata) => metadata,
    };
    match ResolvedPaths::from_install_metadata(metadata) {
        Err(_) => Err(Failure::at("installation paths are invalid: ", &path)),
        Ok(found) => if found.same_as(paths) {
            Ok(())
        } else {
            Err(Failure::at("installation paths do not match installed files: ", &path))
        },
    }
}

/// What is wrong with the program, its command and the metadata.
pub open spec fn program_part_problem(
    paths: ResolvedPaths,
    home: Seq<u8>,
    seen: InstalledFacts,
) -> Option<Words> {
    let binary = under(paths.eiyah_prefix@, "bin/eiyah"@);
    earlier(
        program_problem(binary, "Eiyah"@, seen.binary),
        earlier(
            entry_problem(under(home, ".local/bin/eiyah"@), binary, seen.entry, seen.entry_link),
            metadata_problem(paths, seen.metadata),
        ),
    )
}

/// What is wrong with Pixi and the dotfiles.
pub open spec fn environment_part_problem(
    paths: ResolvedPaths,
    home: Seq<u8>,
    seen: InstalledFacts,
) -> Option<Words> {
    let dotfiles = under(home, ".dotfiles"@);
    earlier(
        program_problem(under(paths.pixi_home@, "bin/pixi"@), "Pixi"@, seen.pixi),
        earlier(
            file_problem(
                under(paths.pixi_home@, "manifests/pixi-global.toml"@),
                "Pixi manifest"@,
                seen.manifest,
            ),
            earlier(
                directory_problem(dotfiles, "dotfiles"@, seen.dotfiles),
                cshrc_problem(dotfiles, home, seen.cshrc, seen.cshrc_link),
            ),
        ),
    )
}

/// What is wrong with the status program and its command.
pub open spec fn status_part_problem(
    paths: ResolvedPaths,
    home: Seq<u8>,
    seen: InstalledFacts,
) -> Option<Words> {
    let status = under(paths.eiyah_prefix@, "bin/show-cad-status"@);
    earlier(
        program_problem(status, "show-cad-status"@, seen.status),
        entry_problem(
            under(home, ".local/bin/show-cad-status"@),
            status,
            seen.status_entry,
            seen.status_link,
        ),
    )
}

/// What is wrong with an installation before its settings are looked at.
pub open spec fn installation_problem(
    paths: ResolvedPaths,
    home: Seq<u8>,
    seen: InstalledFacts,
) -> Option<Words> {
    earlier(
        program_part_problem(paths, home, seen),
        earlier(
            environment_part_problem(paths, home, seen),
            status_part_problem(paths, home, seen),
        ),
    )
}

/// What is wrong with an installation: its parts first, then its settings.
pub open spec fn validated(
    paths: ResolvedPaths,
    home: Seq<u8>,
    seen: InstalledFacts,
    result: Result<(), Failure>,
) -> bool {
    match installation_problem(paths, home, seen) {
        Some(words) => result is Err && is_failure(result->Err_0, words),
        None => match enabled_in(seen.config) {
            Some(true) => result is Ok,
            Some(false) => result is Err && result->Err_0.says(
                "initial config must enable show-cad-status"@,
            ),
            None => result is Err && config_unread(
                seen.config,
                seen.complaint@,
                paths.eiyah_config@,
                result->Err_0,
            ),
        },
    }
}

fn check_settings(path: &[u8], contents: Result<Vec<u8>, Fault>, complaint: &str) -> (result: Result<
    (),
    Failure,
>)
    ensures
        match enabled_in(contents) {
            Some(true) => result is Ok,
            Some(false) => result is Err && result->Err_0.says(
                "initial config must enable show-cad-status"@,
            ),
            None => result is Err && config_unread(contents, complaint@, path@, result->Err_0),
        },
{
    match load_config(contents) {
        Err(error) => Err(error.explain("config", path, complaint)),
        Ok(config) => if config.show_cad_status {
            Ok(())
        } else {
            Err(Failure::plain("initial config must enable show-cad-status"))
        },
    }
}

/// Checks an installation before it is kept: everything has to be in its place, the
/// metadata has to lead back to the same places, and the status of the CAD servers has
/// to be shown.
pub fn validate_installation(paths: &ResolvedPaths, home: &[u8], seen: InstalledFacts) -> (result:
    Result<(), Failure>)
    ensures
        validated(*paths, home@, seen, result),
{
    let binary = join_text(&paths.eiyah_prefix, "bin/eiyah");
    let status = join_text(&paths.eiyah_prefix, "bin/show-cad-status");
    let dotfiles = join_text(home, ".dotfiles");
    let pixi = join_text(&paths.pixi_home, "bin/pixi");
    let manifest = join_text(&paths.pixi_home, "manifests/pixi-global.toml");
    let entry = join_text(home, ".local/bin/eiyah");
    let status_entry = join_text(home, ".local/bin/show-cad-status");
    let ghost facts = seen;
    let first = validate_expected_executable(&binary, "Eiyah", &seen.binary);
    let second = validate_absolute_entry(&entry, &binary, &seen.entry, &seen.entry_link);
    let third = check_metadata(paths, seen.metadata);
    let program_part = first_failure(first, first_failure(second, third));
    assert(reports(program_part, program_part_problem(*paths, home@, facts)));
    let fourth = validate_expected_executable(&pixi, "Pixi", &seen.pixi);
    let fifth = validate_regular_non_symlink(&manifest, "Pixi manifest", &seen.manifest);
    let sixth = validate_non_symlink_directory(&dotfiles, "dotfiles", &seen.dotfiles);
    let seventh = validate_stowed_cshrc(&dotfiles, home, seen.cshrc, seen.cshrc_link);
    let environment_part = first_failure(
        fourth,
        first_failure(fifth, first_failure(sixth, seventh)),
    );
    assert(reports(environment_part, environment_part_problem(*paths, home@, facts)));
    let eighth = validate_expected_executable(&status, "show-cad-status", &seen.status);
    let ninth = validate_absolute_entry(
        &status_entry,
        &status,
        &seen.status_entry,
        &seen.status_link,
    );
    let status_part = first_failure(eighth, ninth);
    assert(reports(status_part, status_part_problem(*paths, home@, facts)));
    let settings = check_settings(&paths.eiyah_config, seen.config, &seen.complaint);
    first_failure(
        program_part,
        first_failure(environment_part, first_failure(status_part, settings)),
    )
}

/// What is looked at before an installation is kept.
pub open spec fn installation_places(paths: ResolvedPaths, home: Seq<u8>) -> Seq<Ask> {
    let entry = under(home, ".local/bin/eiyah"@);
    let status_entry = under(home, ".local/bin/show-cad-status"@);
    seq![
        Ask::Inspect(under(paths.eiyah_prefix@, "bin/eiyah"@)),
        Ask::Inspect(entry),
        Ask::ReadLink(entry),
        Ask::Read(under(paths.eiyah_prefix@, "install.toml"@)),
        Ask::Inspect(under(paths.pixi_home@, "bin/pixi"@)),
        Ask::Inspect(under(paths.pixi_home@, "manifests/pixi-global.toml"@)),
        Ask::Inspect(under(home, ".dotfiles"@)),
        Ask::Inspect(under(home, ".cshrc"@)),
        Ask::ReadLink(under(home, ".cshrc"@)),
        Ask::Inspect(under(paths.eiyah_prefix@, "bin/show-cad-status"@)),
        Ask::Inspect(status_entry),
        Ask::ReadLink(status_entry),
        Ask::ReadConfig(paths.eiyah_config@),
    ]
}

/// Looks at everything that an installation is made of.
pub fn installation_survey(paths: &ResolvedPaths, home: &[u8]) -> (survey: Survey)
    ensures
        survey.begins(installation_places(*paths, home@)),
{
    let prefix = &paths.eiyah_prefix;
    let entry = join_text(home, ".local/bin/eiyah");
    let status_entry = join_text(home, ".local/bin/show-cad-status");
    let cshrc = join_text(home, ".cshrc");
    let mut requests = no_requests();
    add_request(&mut requests, Request::Inspect(join_text(prefix, "bin/eiyah")));
    add_request(&mut requests, Request::Inspect(copy_bytes(&entry)));
    add_request(&mut requests, Request::ReadLink(entry));
    add_request(&mut requests, Request::Read(join_text(prefix, "install.toml")));
    add_request(&mut requests, Request::Inspect(join_text(&paths.pixi_home, "bin/pixi")));
    add_request(
        &mut requests,
        Request::Inspect(join_text(&paths.pixi_home, "manifests/pixi-global.toml")),
    );
    add_request(&mut requests, Request::Inspect(join_text(home, ".dotfiles")));
    add_request(&mut requests, Request::Inspect(copy_bytes(&cshrc)));
    add_request(&mut requests, Request::ReadLink(cshrc));
    add_request(&mut requests, Request::Inspect(join_text(prefix, "bin/show-cad-status")));
    add_request(&mut requests, Request::Inspect(copy_bytes(&status_entry)));
    add_request(&mut requests, Request::ReadLink(status_entry));
    add_request(&mut requests, Request::ReadConfig(copy_bytes(&paths.eiyah_config)));
    assert(asked_of(requests@) =~= installation_places(*paths, home@));
    Survey::new(requests)
}

/// Whether this was seen at the places of an installation.
pub open spec fn seen_in(seen: InstalledFacts, replies: Seq<Reply>) -> bool {
    &&& replies.len() == 13
    &&& shows_entry(replies[0], seen.binary)
    &&& shows_entry(replies[1], seen.entry)
    &&& shows_bytes(replies[2], seen.entry_link)
    &&& shows_bytes(replies[3], seen.metadata)
    &&& shows_entry(replies[4], seen.pixi)
    &&& shows_entry(replies[5], seen.manifest)
    &&& shows_entry(replies[6], seen.dotfiles)
    &&& shows_entry(replies[7], seen.cshrc)
    &&& shows_bytes(replies[8], seen.cshrc_link)
    &&& shows_entry(replies[9], seen.status)
    &&& shows_entry(replies[10], seen.status_entry)
    &&& shows_bytes(replies[11], seen.status_link)
    &&& shows_judged(replies[12], seen.config)
    &&& seen.complaint@ == complaint_of(replies[12])
}

fn installed_facts(replies: Vec<Reply>) -> (seen: InstalledFacts)
    requires
        replies@.len() == 13,
    ensures
        seen_in(seen, replies@),
{
    let mut replies = replies;
    let (config, complaint) = take_judged(&mut replies);
    let status_link = take_bytes(&mut replies);
    let status_entry = take_entry(&mut replies);
    let status = take_entry(&mut replies);
    let cshrc_link = take_bytes(&mut replies);
    let cshrc = take_entry(&mut replies);
    let dotfiles = take_entry(&mut replies);
    let manifest = take_entry(&mut replies);
    let pixi = take_entry(&mut replies);
    let metadata = take_bytes(&mut replies);
    let entry_link = take_bytes(&mut replies);
    let entry = take_entry(&mut replies);
    let binary = take_entry(&mut replies);
    InstalledFacts {
        binary,
        entry,
        entry_link,
        metadata,
        pixi,
        manifest,
        dotfiles,
        cshrc,
        cshrc_link,
        status,
        status_entry,
        status_link,
        config,
        complaint,
    }
}

/// Whether this is what is said of an installation by what was seen at its places.
pub open spec fn installation_judged(
    paths: ResolvedPaths,
    home: Seq<u8>,
    replies: Seq<Reply>,
    result: Result<(), Failure>,
) -> bool {
    if replies.len() == 13 {
        exists|seen: InstalledFacts| #[trigger]
            seen_in(seen, replies) && validated(paths, home, seen, result)
    } else {
        result is Err && result->Err_0.says(unanswered())
    }
}

/// Checks an installation by what was seen at its places.
pub fn validate_seen_installation(paths: &ResolvedPaths, home: &[u8], survey: Survey) -> (result:
    Result<(), Failure>)
    ensures
        installation_judged(*paths, home@, survey.replies@, result),
{
    if survey.replies.len() != 13 {
        return Err(Failure::plain("unexpected reply"));
    }
    let seen = installed_facts(survey.replies);
    let ghost facts = seen;
    let result = validate_installation(paths, home, seen);
    assert(seen_in(facts, survey.replies@) && validated(*paths, home@, facts, result));
    result
}

/// An installation that is kept has both of its programs and Pixi, both commands lead
/// to them, its metadata leads to its places, and the shell starts with its dotfiles.
pub proof fn a_kept_installation_is_whole(paths: ResolvedPaths, home: Seq<u8>, seen: InstalledFacts)
    requires
        installation_problem(paths, home, seen) is None,
    ensures
        seen.binary is Ok && is_program(seen.binary->Ok_0),
        seen.pixi is Ok && is_program(seen.pixi->Ok_0),
        seen.status is Ok && is_program(seen.status->Ok_0),
        seen.entry_link is Ok && components_of(seen.entry_link->Ok_0@) == components_of(
            under(paths.eiyah_prefix@, "bin/eiyah"@),
        ),
        seen.status_link is Ok && components_of(seen.status_link->Ok_0@) == components_of(
            under(paths.eiyah_prefix@, "bin/show-cad-status"@),
        ),
        read_homes(seen.metadata) is Some && homes_match(read_homes(seen.metadata)->0, paths),
        seen.dotfiles is Ok && seen.dotfiles->Ok_0.kind == FileKind::Directory,
        seen.cshrc_link is Ok && leads_to_source(
            under(home, ".cshrc"@),
            seen.cshrc_link->Ok_0@,
            under(under(home, ".dotfiles"@), "tcsh/.cshrc"@),
        ),
{
}

} // verus!
