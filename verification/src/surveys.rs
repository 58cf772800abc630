//! What a host that answers decides: a survey asks it for what is judged, so that each
//! judgement says what stands at the places it names.

use crate::accounts::is_run_of;
use crate::clearance::{a_removal_may_begin_exactly_if, a_removal_was_whole_exactly_if, is_rooted};
use crate::config::{command_prefix, homes_in, is_command_target, ResolvedPaths};
use crate::doctor::{a_diagnosis_leaves_nothing_out, all_issues, diagnosis_places, found_in};
use crate::doctor::{holds_the_flag, host_issues, shell_issues, Findings};
use crate::failure::{earlier, is_failure, reports, Failure};
use crate::host::{program_with, Ask, FileKind, Reply};
use crate::judgements::a_host_passes_exactly_if_everything_is_there;
use crate::judgements::an_installation_is_valid_exactly_if_it_is_whole;
use crate::judgements::{the_flag_is_what_is_answered, the_state_is_what_stands};
use crate::paths::{components_of, under};
use crate::preflight::{conditions_in, host_questions, preflight_begins, preflight_judged};
use crate::preflight::{HostConditions, Preflight};
use crate::progress::says_missing;
use crate::settings::{toml_document, Setting};
use crate::state::{install_state, sighted_in, state_judged, state_places, InstallState, Sightings};
use crate::stow::leads_to_source;
use crate::system::{last_word_of, major_minor, os_release_raw};
use crate::uninstall::{leftovers_problem, needs_in, needs_judged, needs_problem, places_problem};
use crate::uninstall::{remainder_problem, removal_judged, removal_needs, removed_in};
use crate::uninstall::{removed_places, RemovalConditions, RemovedFacts};
use crate::verify::{installation_judged, installation_places, seen_in, validated, InstalledFacts};
use vstd::prelude::*;
use vstd::utf8::{decode_utf8, encode_utf8, valid_utf8};

verus! {

/// What a host answers to the questions of a survey.
pub open spec fn answered(host: spec_fn(Ask) -> Reply, questions: Seq<Ask>) -> Seq<Reply> {
    Seq::new(questions.len(), |i: int| host(questions[i]))
}

/// Whether a regular file that can be executed was found.
pub open spec fn shows_program(reply: Reply) -> bool {
    reply is Found && reply->Found_0.kind == FileKind::Regular && reply->Found_0.mode & 0o111 != 0
}

/// Whether an entry of this kind was found.
pub open spec fn shows_kind(reply: Reply, kind: FileKind) -> bool {
    reply is Found && reply->Found_0.kind == kind
}

/// Whether a link was found that leads to an absolute place.
pub open spec fn shows_link(entry: Reply, link: Reply, place: Seq<u8>) -> bool {
    &&& shows_kind(entry, FileKind::Symlink)
    &&& link is Contents
    &&& components_of(link->Contents_0@) == components_of(place)
    &&& is_rooted(place)
}

/// Whether settings that turn the status on were read.
pub open spec fn turns_the_status_on(reply: Reply) -> bool {
    &&& reply is Judged
    &&& valid_utf8(reply->Judged_contents@)
    &&& match toml_document(decode_utf8(reply->Judged_contents@)) {
        Ok(settings) => settings.len() > 0 && settings[0].1 == Some(Setting::Flag(true))
            && forall|i: int|
            0 <= i < settings.len() ==> #[trigger] settings[i].0 == "show-cad-status"@,
        Err(_) => false,
    }
}

/// Whether the directories that were written down lead to these paths.
pub open spec fn leads_to_paths(reply: Reply, paths: ResolvedPaths) -> bool {
    &&& reply is Contents
    &&& match homes_in(reply->Contents_0@) {
        None => false,
        Some(homes) => {
            &&& components_of(homes.config_home) == components_of(paths.config_home@)
            &&& components_of(homes.data_home) == components_of(paths.data_home@)
            &&& components_of(homes.state_home) == components_of(paths.state_home@)
            &&& components_of(homes.cache_home) == components_of(paths.cache_home@)
            &&& components_of(under(homes.data_home, "eiyah"@)) == components_of(
                paths.eiyah_prefix@,
            )
            &&& components_of(under(under(homes.config_home, "eiyah"@), "config.toml"@))
                == components_of(paths.eiyah_config@)
            &&& components_of(under(under(homes.data_home, "eiyah"@), "pixi"@)) == components_of(
                paths.pixi_home@,
            )
        },
    }
}

/// An installation passes exactly where its programs, its links, its manifest, the
/// dotfiles with the link to them, and what was written down of it stand on the host.
pub proof fn an_installation_passes_exactly_if_it_stands(
    host: spec_fn(Ask) -> Reply,
    paths: ResolvedPaths,
    home: Seq<u8>,
    result: Result<(), Failure>,
)
    requires
        installation_judged(
            paths,
            home,
            answered(host, installation_places(paths, home)),
            result,
        ),
    ensures
        result is Ok <==> {
            let program = under(paths.eiyah_prefix@, "bin/eiyah"@);
            let status = under(paths.eiyah_prefix@, "bin/show-cad-status"@);
            let pixi = under(paths.pixi_home@, "bin/pixi"@);
            let entry = under(home, ".local/bin/eiyah"@);
            let status_entry = under(home, ".local/bin/show-cad-status"@);
            let cshrc = under(home, ".cshrc"@);
            let source = under(under(home, ".dotfiles"@), "tcsh/.cshrc"@);
            &&& is_rooted(program) && shows_program(host(Ask::Inspect(program)))
            &&& is_rooted(status) && shows_program(host(Ask::Inspect(status)))
            &&& is_rooted(pixi) && shows_program(host(Ask::Inspect(pixi)))
            &&& shows_link(host(Ask::Inspect(entry)), host(Ask::ReadLink(entry)), program)
            &&& shows_link(
                host(Ask::Inspect(status_entry)),
                host(Ask::ReadLink(status_entry)),
                status,
            )
            &&& shows_kind(
                host(Ask::Inspect(under(paths.pixi_home@, "manifests/pixi-global.toml"@))),
                FileKind::Regular,
            )
            &&& shows_kind(host(Ask::Inspect(under(home, ".dotfiles"@))), FileKind::Directory)
            &&& shows_kind(host(Ask::Inspect(cshrc)), FileKind::Symlink)
            &&& host(Ask::ReadLink(cshrc)) is Contents && leads_to_source(
                cshrc,
                host(Ask::ReadLink(cshrc))->Contents_0@,
                source,
            )
            &&& leads_to_paths(
                host(Ask::Read(under(paths.eiyah_prefix@, "install.toml"@))),
                paths,
            )
            &&& turns_the_status_on(host(Ask::ReadConfig(paths.eiyah_config@)))
        },
{
    let replies = answered(host, installation_places(paths, home));
    assert(replies.len() == 13);
    let seen = choose|seen: InstalledFacts| #[trigger]
        seen_in(seen, replies) && validated(paths, home, seen, result);
    an_installation_is_valid_exactly_if_it_is_whole(paths, home, seen, result);
    the_flag_is_what_is_answered(seen.config, true);
}

/// The state is that of an installation exactly where its program, its link and what was
/// written down of it stand on the host, and that of none exactly where all three are
/// missing.
pub proof fn the_state_is_what_the_host_shows(
    host: spec_fn(Ask) -> Reply,
    prefix: Seq<u8>,
    entry: Seq<u8>,
    result: Result<InstallState, Failure>,
)
    requires
        state_judged(prefix, answered(host, state_places(prefix, entry)), result),
    ensures
        ({
            let program = under(prefix, "bin/eiyah"@);
            let metadata = under(prefix, "install.toml"@);
            let link = host(Ask::ReadLink(entry));
            let contents = host(Ask::Read(metadata));
            &&& result == Ok::<InstallState, Failure>(InstallState::NotInstalled) <==> {
                &&& says_missing(host(Ask::Inspect(entry)))
                &&& says_missing(host(Ask::Inspect(program)))
                &&& says_missing(host(Ask::Inspect(metadata)))
            }
            &&& result == Ok::<InstallState, Failure>(InstallState::Installed) <==> {
                &&& host(Ask::Inspect(entry)) is Found
                &&& host(Ask::Inspect(program)) is Found
                &&& shows_kind(host(Ask::Inspect(metadata)), FileKind::Regular)
                &&& shows_program(host(Ask::InspectTarget(program)))
                &&& link is Contents && is_rooted(link->Contents_0@) && components_of(
                    link->Contents_0@,
                ) == components_of(program)
                &&& is_command_target(link->Contents_0@)
                &&& components_of(under(command_prefix(link->Contents_0@), "install.toml"@))
                    == components_of(metadata)
                &&& contents is Contents
                &&& homes_in(contents->Contents_0@) is Some
                &&& components_of(under(homes_in(contents->Contents_0@)->0.data_home, "eiyah"@))
                    == components_of(prefix)
            }
        }),
{
    let replies = answered(host, state_places(prefix, entry));
    assert(replies.len() == 6);
    let seen = choose|seen: Sightings| #[trigger]
        sighted_in(seen, replies) && match install_state(prefix, seen) {
            Ok(state) => result == Ok::<InstallState, Failure>(state),
            Err(words) => result is Err && is_failure(result->Err_0, words),
        };
    the_state_is_what_stands(prefix, seen);
}

/// A preflight goes on exactly where the host is the right one: the home is absolute, the
/// operating system, its library and its machine are those that are needed, and all the
/// programs are there.
pub proof fn a_preflight_goes_on_exactly_if_the_host_is_right(
    host: spec_fn(Ask) -> Reply,
    paths: ResolvedPaths,
    home: Seq<u8>,
    architecture: String,
    preflight: Preflight,
    getconf: Ask,
    curl: Ask,
    ssh: Ask,
    keygen: Ask,
)
    requires
        preflight_judged(
            paths,
            home,
            architecture,
            answered(host, host_questions()),
            preflight,
        ),
        is_run_of(getconf, encode_utf8("getconf"@), "GNU_LIBC_VERSION"@),
        is_run_of(curl, encode_utf8("curl"@), "--version"@),
        is_run_of(ssh, encode_utf8("ssh"@), "-V"@),
        is_run_of(keygen, encode_utf8("ssh-keygen"@), "-V"@),
    ensures
        preflight is Checking || preflight is Failed,
        preflight is Checking <==> {
            let release = host(Ask::Read(encode_utf8("/etc/os-release"@)));
            let library = host(getconf);
            &&& is_rooted(home)
            &&& release is Contents && valid_utf8(release->Contents_0@)
            &&& os_release_raw(decode_utf8(release->Contents_0@), "ID"@) == Some("almalinux"@)
            &&& match os_release_raw(decode_utf8(release->Contents_0@), "VERSION_ID"@) {
                Some(version) => version.len() >= 2 && version[0] == '8' && version[1] == '.',
                None => false,
            }
            &&& architecture@ == "x86_64"@
            &&& library is Exited && library->success && valid_utf8(library->output@)
            &&& match major_minor(last_word_of(decode_utf8(library->output@))) {
                Some((major, minor)) => major > 2 || (major == 2 && minor >= 28),
                None => false,
            }
            &&& host(curl) is Exited
            &&& host(ssh) is Exited
            &&& host(keygen) is Exited
            &&& shows_program(host(Ask::Inspect(encode_utf8("/usr/bin/bash"@))))
            &&& shows_program(host(Ask::Inspect(encode_utf8("/usr/bin/tar"@))))
        },
{
    let replies = answered(host, host_questions());
    assert(replies.len() == 7);
    let seen = choose|seen: HostConditions| #[trigger]
        conditions_in(seen, replies) && seen.architecture == architecture && preflight_begins(
            paths,
            home,
            seen,
            preflight,
        );
    lemma_one_run(getconf, encode_utf8("getconf"@), "GNU_LIBC_VERSION"@);
    lemma_one_run(curl, encode_utf8("curl"@), "--version"@);
    lemma_one_run(ssh, encode_utf8("ssh"@), "-V"@);
    lemma_one_run(keygen, encode_utf8("ssh-keygen"@), "-V"@);
    a_host_passes_exactly_if_everything_is_there(home, seen);
}

proof fn lemma_one_run(asked: Ask, executable: Seq<u8>, argument: Seq<char>)
    requires
        is_run_of(asked, executable, argument),
    ensures
        asked == Ask::Capture(program_with(executable, argument)),
{
    match asked {
        Ask::Capture(program) => {
            assert(program.arguments =~= seq![encode_utf8(argument)]);
            assert(program.set =~= Seq::empty());
            assert(program.unset =~= Seq::empty());
        },
        _ => {},
    }
}

/// A removal begins exactly where all the places are absolute and the dotfiles, the
/// environment, the program that unlinks and sound backups, if any, stand on the host.
pub proof fn a_removal_begins_exactly_if_its_needs_stand(
    host: spec_fn(Ask) -> Reply,
    paths: ResolvedPaths,
    home: Seq<u8>,
    result: Result<(), Failure>,
)
    requires
        needs_judged(paths, home, answered(host, removal_needs(paths, home)), result),
    ensures
        result is Ok <==> {
            let backups = host(Ask::Inspect(under(paths.state_home@, "eiyah/backup"@)));
            let index = host(Ask::Inspect(under(paths.state_home@, "eiyah/backup/index"@)));
            &&& is_rooted(home)
            &&& is_rooted(paths.config_home@)
            &&& is_rooted(paths.data_home@)
            &&& is_rooted(paths.state_home@)
            &&& is_rooted(paths.cache_home@)
            &&& is_rooted(paths.eiyah_prefix@)
            &&& is_rooted(paths.eiyah_config@)
            &&& is_rooted(paths.pixi_home@)
            &&& shows_kind(host(Ask::Inspect(under(home, ".dotfiles"@))), FileKind::Directory)
            &&& shows_kind(host(Ask::Inspect(paths.pixi_home@)), FileKind::Directory)
            &&& is_rooted(under(paths.pixi_home@, "bin/stow"@)) && shows_program(
                host(Ask::Inspect(under(paths.pixi_home@, "bin/stow"@))),
            )
            &&& says_missing(backups) || shows_kind(backups, FileKind::Directory)
            &&& says_missing(index) || shows_kind(index, FileKind::Regular)
        },
{
    let replies = answered(host, removal_needs(paths, home));
    assert(replies.len() == 5);
    let seen = choose|seen: RemovalConditions| #[trigger]
        needs_in(seen, replies) && reports(
            result,
            earlier(places_problem(paths, home), needs_problem(paths, home, seen)),
        );
    a_removal_may_begin_exactly_if(paths, home, seen);
}

/// A removal was whole exactly where everything that was installed is missing on the
/// host, while the program, the link to it and the lock still stand.
pub proof fn a_removal_was_whole_exactly_if_nothing_stands(
    host: spec_fn(Ask) -> Reply,
    paths: ResolvedPaths,
    home: Seq<u8>,
    result: Result<(), Failure>,
)
    requires
        removal_judged(paths, home, answered(host, removed_places(paths, home)), result),
    ensures
        result is Ok <==> {
            let prefix = paths.eiyah_prefix@;
            let program = under(prefix, "bin/eiyah"@);
            let entry = under(home, ".local/bin/eiyah"@);
            let backups = under(paths.state_home@, "eiyah/backup/home"@);
            let listed = host(Ask::List(backups));
            &&& says_missing(host(Ask::Inspect(under(home, ".local/bin/show-cad-status"@))))
            &&& says_missing(host(Ask::Inspect(under(prefix, "bin/show-cad-status"@))))
            &&& says_missing(host(Ask::Inspect(paths.eiyah_config@)))
            &&& says_missing(host(Ask::Inspect(under(home, ".dotfiles"@))))
            &&& says_missing(host(Ask::Inspect(paths.pixi_home@)))
            &&& says_missing(host(Ask::Inspect(under(prefix, "install.toml"@))))
            &&& says_missing(host(Ask::Inspect(under(paths.state_home@, "eiyah/backup/index"@))))
            &&& is_rooted(program) && shows_program(host(Ask::Inspect(program)))
            &&& shows_link(host(Ask::Inspect(entry)), host(Ask::ReadLink(entry)), program)
            &&& shows_kind(
                host(Ask::Inspect(under(paths.state_home@, "eiyah"@))),
                FileKind::Directory,
            )
            &&& shows_kind(
                host(Ask::Inspect(under(paths.state_home@, "eiyah/lock"@))),
                FileKind::Regular,
            )
            &&& says_missing(host(Ask::Inspect(backups))) || (shows_kind(
                host(Ask::Inspect(backups)),
                FileKind::Directory,
            ) && listed is Names && listed->Names_0@.len() == 0)
        },
{
    let replies = answered(host, removed_places(paths, home));
    assert(replies.len() == 14);
    let seen = choose|seen: RemovedFacts| #[trigger]
        removed_in(seen, replies) && reports(
            result,
            earlier(leftovers_problem(paths, home, seen), remainder_problem(paths, home, seen)),
        );
    a_removal_was_whole_exactly_if(paths, home, seen);
}

/// A diagnosis finds nothing wrong exactly where the dotfiles, the programs, the links and
/// the settings stand on the host, which is the right one, and the shell is.
pub proof fn a_diagnosis_is_clean_exactly_if_all_is_well(
    host: spec_fn(Ask) -> Reply,
    home: Vec<u8>,
    paths: ResolvedPaths,
    shell: Option<Vec<u8>>,
    found: Findings,
)
    requires
        found_in(
            found,
            Ok(home),
            Ok(paths),
            shell,
            answered(host, diagnosis_places(Some(home@), Some(paths))),
        ),
    ensures
        all_issues(found).len() == 0 <==> {
            let prefix = paths.eiyah_prefix@;
            let link = host(Ask::ReadLink(under(home@, ".local/bin/eiyah"@)));
            let status_link = host(Ask::ReadLink(under(home@, ".local/bin/show-cad-status"@)));
            let settings = host(Ask::Read(paths.eiyah_config@));
            &&& shows_kind(
                host(Ask::InspectTarget(under(home@, ".dotfiles"@))),
                FileKind::Directory,
            )
            &&& shows_program(host(Ask::InspectTarget(under(prefix, "bin/eiyah"@))))
            &&& shows_program(host(Ask::InspectTarget(under(prefix, "bin/show-cad-status"@))))
            &&& shows_program(host(Ask::InspectTarget(under(paths.pixi_home@, "bin/pixi"@))))
            &&& shows_program(host(Ask::InspectTarget(under(paths.pixi_home@, "bin/zsh"@))))
            &&& link is Contents && is_rooted(link->Contents_0@) && components_of(
                link->Contents_0@,
            ) == components_of(under(prefix, "bin/eiyah"@))
            &&& status_link is Contents && is_rooted(status_link->Contents_0@) && components_of(
                status_link->Contents_0@,
            ) == components_of(under(prefix, "bin/show-cad-status"@))
            &&& settings is Contents && holds_the_flag(Ok(settings->Contents_0))
            &&& shell_issues(shell).len() == 0
            &&& host_issues(found.host).len() == 0
        },
{
    let asked = diagnosis_places(Some(home@), Some(paths));
    let replies = answered(host, asked);
    assert(asked.len() == 11);
    assert(asked[3] == Ask::InspectTarget(under(home@, ".dotfiles"@)));
    a_diagnosis_leaves_nothing_out(found);
}

} // verus!
