//! What the judgements on a host, on an installation and on its settings come to:
//! each is stated by what was found, without the order in which it is looked at.

use crate::bytes::views;
use crate::config::{command_prefix, config_of, environment_homes, environment_problem, homes_in};
use crate::config::{homes_problem, is_command_target, is_config_name, is_metadata_name};
use crate::config::{metadata_of, Config, Environment, Homes, ResolvedPaths, SchemaError};
use crate::doctor::{holds_the_flag, points_at, stands_ready};
use crate::dotfiles::{git_value, without_breaks};
use crate::failure::{Failure, Words};
use crate::handoff::{enabled_in, first_answer, meaning};
use crate::host::{Entry, Fault, FaultKind, FileKind, Reply};
use crate::paths::{components_of, has_parent, lemma_parent_components, parent_of, under, Part};
use crate::preflight::{host_problem, preflight_begins, HostConditions, Preflight, WritableCheck};
use crate::settings::{setting_named, toml_document, Setting};
use crate::state::{install_state, InstallState, Sightings};
use crate::stow::leads_to_source;
use crate::system::{first_line_of, last_word_of, major_minor, os_release_field, os_release_raw};
use crate::system::{value_behind, without_back_quotes, without_front_quotes};
use crate::text::{are_white, is_white_space, lines_of, lower_case, lower_char, trimmed};
use crate::text::trimming_takes_the_white_space_around;
use crate::verify::{validated, InstalledFacts};
use vstd::prelude::*;
use vstd::utf8::{decode_utf8, encode_utf8, valid_utf8};

verus! {

// --------------------------------------------------
// The host
// --------------------------------------------------

/// A host passes exactly if the home directory is an absolute path, the system calls
/// itself AlmaLinux with a version that begins with `8.`, the machine is an x86-64, the
/// C library answers with at least 2.28, curl, ssh and ssh-keygen can be run, and Bash
/// and tar are regular executable files.
pub proof fn a_host_passes_exactly_if_everything_is_there(home: Seq<u8>, seen: HostConditions)
    ensures
        host_problem(home, seen) is None <==> {
            &&& home.len() > 0 && home[0] == 0x2f
            &&& seen.os_release is Ok && valid_utf8(seen.os_release->Ok_0@)
            &&& os_release_raw(decode_utf8(seen.os_release->Ok_0@), "ID"@) == Some("almalinux"@)
            &&& match os_release_raw(decode_utf8(seen.os_release->Ok_0@), "VERSION_ID"@) {
                Some(version) => version.len() >= 2 && version[0] == '8' && version[1] == '.',
                None => false,
            }
            &&& seen.architecture@ == "x86_64"@
            &&& match seen.glibc {
                Ok((success, output)) => success && valid_utf8(output@) && match major_minor(
                    last_word_of(decode_utf8(output@)),
                ) {
                    Some((major, minor)) => major > 2 || (major == 2 && minor >= 28),
                    None => false,
                },
                Err(_) => false,
            }
            &&& seen.curl
            &&& seen.ssh
            &&& seen.ssh_keygen
            &&& stands_ready(seen.bash)
            &&& stands_ready(seen.tar)
        },
{
    reveal_strlit("8.");
    reveal_strlit("/usr/bin/bash");
    reveal_strlit("/usr/bin/tar");
    crate::text::lemma_ascii_bytes("/usr/bin/bash"@);
    crate::text::lemma_ascii_bytes("/usr/bin/tar"@);
    assert(encode_utf8("/usr/bin/bash"@)[0] == 0x2f);
    assert(encode_utf8("/usr/bin/tar"@)[0] == 0x2f);
    if seen.os_release is Ok {
        let version = os_release_raw(decode_utf8(seen.os_release->Ok_0@), "VERSION_ID"@);
        if version is Some {
            let text = version->0;
            assert("8."@.len() == 2 && "8."@[0] == '8' && "8."@[1] == '.');
            if "8."@.is_prefix_of(text) {
                assert(text.subrange(0, 2)[0] == text[0] && text.subrange(0, 2)[1] == text[1]);
            }
            if text.len() >= 2 && text[0] == '8' && text[1] == '.' {
                assert("8."@.is_prefix_of(text)) by {
                    assert(text.take(2) =~= "8."@);
                }
            }
        }
    }
}

/// A host that passes has its home directory, its state directory, its data directory
/// and its configuration directory looked at, each of them; one that does not pass
/// ends there.
pub proof fn every_place_is_to_be_writable(
    paths: ResolvedPaths,
    home: Seq<u8>,
    seen: HostConditions,
    preflight: Preflight,
)
    requires
        preflight_begins(paths, home, seen, preflight),
    ensures
        preflight is Checking <==> host_problem(home, seen) is None,
        preflight is Checking || preflight is Failed,
        preflight is Checking ==> {
            &&& preflight->check is Looking && preflight->check->Looking_path@ == home
            &&& preflight->rest@.len() == 3
            &&& views(preflight->rest@).contains(paths.state_home@)
            &&& views(preflight->rest@).contains(paths.data_home@)
            &&& views(preflight->rest@).contains(paths.config_home@)
        },
{
    if preflight is Checking {
        let rest = views(preflight->rest@);
        assert(rest.len() == 3);
        assert(rest[0] == paths.state_home@ && rest[1] == paths.data_home@ && rest[2]
            == paths.config_home@);
    }
}

/// A place can be written to exactly where access to the nearest directory above it
/// that exists is granted: what is not there leads to the directory above, something
/// else than a directory ends the check, and so does a refusal.
pub proof fn the_nearest_directory_decides(check: WritableCheck, reply: Reply, next: WritableCheck)
    requires
        check is Looking || check is Trying,
        check.follows(reply, next),
    ensures
        next is Completed <==> check is Trying && reply is Done,
        next is Trying <==> check is Looking && reply is Found && reply->Found_0.kind
            == FileKind::Directory,
        next is Trying ==> next->Trying_path == check->Looking_path,
        next is Looking <==> check is Looking && reply is Failed && reply->Failed_0.kind
            == FaultKind::NotFound && components_of(check->Looking_path@).len() > 0 && components_of(
            check->Looking_path@,
        ).last() != Part::Root,
        next is Looking ==> components_of(next->Looking_path@) == components_of(
            check->Looking_path@,
        ).drop_last(),
{
}

/// A preflight is complete only when the last place can be written to, and goes on to
/// the next place only when the one before can be.
pub proof fn a_preflight_leaves_no_place_out(preflight: Preflight, reply: Reply, next: Preflight)
    requires
        preflight is Checking,
        preflight->check is Looking || preflight->check is Trying,
        preflight.follows(reply, next),
    ensures
        next is Completed ==> preflight->rest@.len() == 0 && preflight->check is Trying
            && reply is Done,
        next is Checking ==> next->rest == preflight->rest || (next->rest@
            == preflight->rest@.drop_last() && preflight->rest@.len() > 0 && next->check is Looking
            && next->check->Looking_path@ == preflight->rest@.last()@ && preflight->check is Trying
            && reply is Done),
        preflight->check is Trying && reply is Done && preflight->rest@.len() == 0
            ==> next is Completed,
{
}

// --------------------------------------------------
// What a system says of itself
// --------------------------------------------------

/// The value of a field stands on the first line that begins with the field's name,
/// behind the name; without such a line there is none.
pub proof fn the_first_line_of_a_field_counts(all: Seq<Seq<char>>, prefix: Seq<char>)
    ensures
        value_behind(all, prefix) is None <==> forall|i: int|
            0 <= i < all.len() ==> !prefix.is_prefix_of(#[trigger] all[i]),
        value_behind(all, prefix) is Some ==> exists|i: int|
            0 <= i < all.len() && #[trigger] all[i] == prefix + value_behind(all, prefix)->0 && forall|
                j: int,
            | 0 <= j < i ==> !prefix.is_prefix_of(#[trigger] all[j]),
    decreases all.len(),
{
    if all.len() > 0 {
        let rest = all.drop_first();
        the_first_line_of_a_field_counts(rest, prefix);
        if prefix.is_prefix_of(all[0]) {
            assert(all[0] =~= prefix + all[0].skip(prefix.len() as int));
        } else {
            if value_behind(rest, prefix) is Some {
                let i = choose|i: int|
                    0 <= i < rest.len() && #[trigger] rest[i] == prefix + value_behind(
                        rest,
                        prefix,
                    )->0 && forall|j: int| 0 <= j < i ==> !prefix.is_prefix_of(#[trigger] rest[j]);
                assert(all[i + 1] == rest[i]);
                assert forall|j: int| 0 <= j < i + 1 implies !prefix.is_prefix_of(#[trigger] all[j]) by {
                    if j > 0 {
                        assert(all[j] == rest[j - 1]);
                    }
                }
            } else {
                assert forall|i: int| 0 <= i < all.len() implies !prefix.is_prefix_of(
                    #[trigger] all[i],
                ) by {
                    if i > 0 {
                        assert(all[i] == rest[i - 1]);
                    }
                }
            }
        }
        assert forall|i: int| 0 <= i < rest.len() implies #[trigger] rest[i] == all[i + 1] by {}
    }
}

/// A field is shown without the white space around it and without one pair of double
/// quotes around what is left; a field of which nothing is left is missing.
pub proof fn a_field_is_shown_without_its_quotes(
    contents: Seq<char>,
    name: Seq<char>,
    front: Seq<char>,
    value: Seq<char>,
    back: Seq<char>,
)
    requires
        value_behind(lines_of(contents), name + "="@) == Some(front + value + back),
        are_white(front),
        are_white(back),
        value.len() > 0 ==> !is_white_space(value[0]) && !is_white_space(value.last()),
    ensures
        value.len() == 0 ==> os_release_field(contents, name) is None,
        value == seq!['"', '"'] ==> os_release_field(contents, name) is None,
        value.len() > 0 && !(value[0] == '"' && value.last() == '"') ==> os_release_field(
            contents,
            name,
        ) == Some(value),
        value.len() > 2 && value[0] == '"' && value.last() == '"' ==> os_release_field(
            contents,
            name,
        ) == Some(value.skip(1).drop_last()),
{
    trimming_takes_the_white_space_around(front, value, back);
    if value.len() >= 2 && value[0] == '"' && value.last() == '"' {
        assert(value.subrange(1, value.len() - 1) =~= value.skip(1).drop_last());
    }
}

/// A field is read for the preflight without any quotes before and behind it.
pub proof fn a_raw_field_has_no_quotes_around_it(
    contents: Seq<char>,
    name: Seq<char>,
    front: Seq<char>,
    value: Seq<char>,
    back: Seq<char>,
)
    requires
        value_behind(lines_of(contents), name + "="@) == Some(front + value + back),
        forall|i: int| 0 <= i < front.len() ==> #[trigger] front[i] == '"' || front[i] == '\'',
        forall|i: int| 0 <= i < back.len() ==> #[trigger] back[i] == '"' || back[i] == '\'',
        value.len() > 0,
        value[0] != '"' && value[0] != '\'' && value.last() != '"' && value.last() != '\'',
    ensures
        os_release_raw(contents, name) == Some(value),
{
    assert(front + value + back =~= front + (value + back));
    lemma_front_quotes(front, value + back);
    lemma_back_quotes(value, back);
}

proof fn lemma_front_quotes(front: Seq<char>, rest: Seq<char>)
    requires
        forall|i: int| 0 <= i < front.len() ==> #[trigger] front[i] == '"' || front[i] == '\'',
        rest.len() > 0,
        rest[0] != '"' && rest[0] != '\'',
    ensures
        without_front_quotes(front + rest) == rest,
    decreases front.len(),
{
    if front.len() > 0 {
        assert((front + rest)[0] == front[0]);
        assert((front + rest).drop_first() =~= front.drop_first() + rest);
        assert forall|i: int| 0 <= i < front.drop_first().len() implies #[trigger] front.drop_first()[i]
            == '"' || front.drop_first()[i] == '\'' by {
            assert(front.drop_first()[i] == front[i + 1]);
        }
        lemma_front_quotes(front.drop_first(), rest);
    } else {
        assert(front + rest =~= rest);
    }
}

proof fn lemma_back_quotes(value: Seq<char>, back: Seq<char>)
    requires
        forall|i: int| 0 <= i < back.len() ==> #[trigger] back[i] == '"' || back[i] == '\'',
        value.len() > 0,
        value.last() != '"' && value.last() != '\'',
    ensures
        without_back_quotes(value + back) == value,
    decreases back.len(),
{
    if back.len() > 0 {
        assert((value + back).last() == back[back.len() - 1]);
        assert((value + back).drop_last() =~= value + back.drop_last());
        assert forall|i: int| 0 <= i < back.drop_last().len() implies #[trigger] back.drop_last()[i]
            == '"' || back.drop_last()[i] == '\'' by {
            assert(back.drop_last()[i] == back[i]);
        }
        lemma_back_quotes(value, back.drop_last());
    } else {
        assert(value + back =~= value);
    }
}

/// A program has said something exactly where it has ended well and printed text whose
/// first line is not blank, and what it has said is that line without the white space
/// around it.
pub proof fn the_first_line_is_what_was_said(success: bool, output: Seq<u8>)
    ensures
        first_line_of(success, output) is Some <==> {
            &&& success
            &&& valid_utf8(output)
            &&& lines_of(decode_utf8(output)).len() > 0
            &&& trimmed(lines_of(decode_utf8(output))[0]) != Seq::<char>::empty()
        },
        first_line_of(success, output) is Some ==> first_line_of(success, output)->0 == trimmed(
            lines_of(decode_utf8(output))[0],
        ),
{
    if success && valid_utf8(output) && lines_of(decode_utf8(output)).len() > 0 {
        let line = trimmed(lines_of(decode_utf8(output))[0]);
        if line.len() == 0 {
            assert(line =~= Seq::<char>::empty());
        }
    }
}

// --------------------------------------------------
// Settings
// --------------------------------------------------

/// A document is the settings of the user exactly where it has the name
/// `show-cad-status` and no other name, and what the name first stands for is a flag;
/// the flag is the setting.
pub proof fn the_settings_are_the_flag(settings: Seq<(Seq<char>, Option<Setting>)>, flag: bool)
    ensures
        config_of(settings) == Ok::<Config, SchemaError>(Config { show_cad_status: flag }) <==> {
            &&& settings.len() > 0
            &&& settings[0].1 == Some(Setting::Flag(flag))
            &&& forall|i: int| 0 <= i < settings.len() ==> #[trigger] settings[i].0
                == "show-cad-status"@
        },
{
    if settings.len() > 0 {
        assert(is_config_name(settings[0].0) <==> settings[0].0 == "show-cad-status"@);
    }
    if forall|i: int| 0 <= i < settings.len() ==> #[trigger] settings[i].0 == "show-cad-status"@ {
        assert forall|i: int| 0 <= i < settings.len() implies is_config_name(
            #[trigger] settings[i].0,
        ) by {}
    } else {
        let i = choose|i: int|
            0 <= i < settings.len() && #[trigger] settings[i].0 != "show-cad-status"@;
        assert(!is_config_name(settings[i].0));
    }
}

/// Whether show-cad-status is on is what the flag of the settings says, and nothing is
/// said where there are no settings.
pub proof fn the_flag_is_what_is_answered(contents: Result<Vec<u8>, Fault>, flag: bool)
    ensures
        enabled_in(contents) is Some <==> holds_the_flag(contents),
        enabled_in(contents) == Some(flag) <==> contents is Ok && valid_utf8(contents->Ok_0@)
            && match toml_document(decode_utf8(contents->Ok_0@)) {
            Ok(settings) => settings.len() > 0 && settings[0].1 == Some(Setting::Flag(flag))
                && forall|i: int|
                0 <= i < settings.len() ==> #[trigger] settings[i].0 == "show-cad-status"@,
            Err(_) => false,
        },
{
    if contents is Ok && valid_utf8(contents->Ok_0@) {
        match toml_document(decode_utf8(contents->Ok_0@)) {
            Ok(settings) => {
                the_settings_are_the_flag(settings, true);
                the_settings_are_the_flag(settings, false);
                the_settings_are_the_flag(settings, flag);
            },
            Err(_) => {},
        }
    }
}

/// Whether a name stands for a text in a document.
pub open spec fn stands_for(
    settings: Seq<(Seq<char>, Option<Setting>)>,
    name: Seq<char>,
    path: Seq<u8>,
) -> bool {
    exists|i: int|
        0 <= i < settings.len() && #[trigger] settings[i].0 == name && settings[i].1 is Some
            && settings[i].1->0 is Text && encode_utf8(settings[i].1->0->Text_0) == path
}

proof fn lemma_named(settings: Seq<(Seq<char>, Option<Setting>)>, name: Seq<char>, index: int)
    requires
        0 <= index < settings.len(),
        settings[index].0 == name,
        forall|i: int, j: int|
            0 <= i < j < settings.len() ==> #[trigger] settings[i].0 != #[trigger] settings[j].0,
    ensures
        setting_named(settings, name) == Some(settings[index].1),
    decreases settings.len(),
{
    if index > 0 {
        assert(settings[0].0 != settings[index].0);
        let rest = settings.drop_first();
        assert forall|i: int, j: int| 0 <= i < j < rest.len() implies #[trigger] rest[i].0
            != #[trigger] rest[j].0 by {
            assert(settings[i + 1].0 != settings[j + 1].0);
        }
        lemma_named(rest, name, index - 1);
    }
}

proof fn lemma_unnamed(settings: Seq<(Seq<char>, Option<Setting>)>, name: Seq<char>)
    ensures
        setting_named(settings, name) is Some ==> exists|i: int|
            0 <= i < settings.len() && #[trigger] settings[i].0 == name && setting_named(
                settings,
                name,
            ) == Some(settings[i].1),
    decreases settings.len(),
{
    if settings.len() > 0 && settings[0].0 != name {
        let rest = settings.drop_first();
        lemma_unnamed(rest, name);
        if setting_named(rest, name) is Some {
            let i = choose|i: int|
                0 <= i < rest.len() && #[trigger] rest[i].0 == name && setting_named(rest, name)
                    == Some(rest[i].1);
            assert(settings[i + 1] == rest[i]);
        }
    }
}

/// A document without repeated names is what is kept with an installation exactly
/// where it has the names of the four base directories and no other name, each standing
/// for a text; the texts are the directories.
pub proof fn what_is_kept_are_the_four_directories(
    settings: Seq<(Seq<char>, Option<Setting>)>,
    homes: Homes,
)
    requires
        forall|i: int, j: int|
            0 <= i < j < settings.len() ==> #[trigger] settings[i].0 != #[trigger] settings[j].0,
    ensures
        metadata_of(settings) == Ok::<Homes, SchemaError>(homes) <==> {
            &&& stands_for(settings, "config-home"@, homes.config_home)
            &&& stands_for(settings, "data-home"@, homes.data_home)
            &&& stands_for(settings, "state-home"@, homes.state_home)
            &&& stands_for(settings, "cache-home"@, homes.cache_home)
            &&& forall|i: int|
                0 <= i < settings.len() ==> {
                    let name = #[trigger] settings[i].0;
                    name == "config-home"@ || name == "data-home"@ || name == "state-home"@ || name
                        == "cache-home"@
                }
        },
{
    lemma_stands_for(settings, "config-home"@, homes.config_home);
    lemma_stands_for(settings, "data-home"@, homes.data_home);
    lemma_stands_for(settings, "state-home"@, homes.state_home);
    lemma_stands_for(settings, "cache-home"@, homes.cache_home);
    assert forall|i: int| 0 <= i < settings.len() implies is_metadata_name(#[trigger] settings[i].0)
        == (settings[i].0 == "config-home"@ || settings[i].0 == "data-home"@ || settings[i].0
        == "state-home"@ || settings[i].0 == "cache-home"@) by {}
}

proof fn lemma_stands_for(
    settings: Seq<(Seq<char>, Option<Setting>)>,
    name: Seq<char>,
    path: Seq<u8>,
)
    requires
        forall|i: int, j: int|
            0 <= i < j < settings.len() ==> #[trigger] settings[i].0 != #[trigger] settings[j].0,
    ensures
        stands_for(settings, name, path) <==> crate::config::home_of(settings, name) == Ok::<
            Seq<u8>,
            SchemaError,
        >(path),
{
    lemma_unnamed(settings, name);
    if stands_for(settings, name, path) {
        let i = choose|i: int|
            0 <= i < settings.len() && #[trigger] settings[i].0 == name && settings[i].1 is Some
                && settings[i].1->0 is Text && encode_utf8(settings[i].1->0->Text_0) == path;
        lemma_named(settings, name, i);
    }
    if setting_named(settings, name) is Some {
        let i = choose|i: int|
            0 <= i < settings.len() && #[trigger] settings[i].0 == name && setting_named(
                settings,
                name,
            ) == Some(settings[i].1);
        assert(settings[i].0 == name);
    }
}

/// Base directories can be kept exactly where each of them is an absolute path.
pub proof fn base_directories_are_absolute(homes: Homes)
    ensures
        homes_problem(homes) is None <==> {
            &&& homes.config_home.len() > 0 && homes.config_home[0] == 0x2f
            &&& homes.data_home.len() > 0 && homes.data_home[0] == 0x2f
            &&& homes.state_home.len() > 0 && homes.state_home[0] == 0x2f
            &&& homes.cache_home.len() > 0 && homes.cache_home[0] == 0x2f
        },
{
}

/// Whether a variable is unset, empty or an absolute path.
pub open spec fn is_usable(value: Option<Vec<u8>>) -> bool {
    match value {
        None => true,
        Some(path) => path@.len() == 0 || path@[0] == 0x2f,
    }
}

/// The base directory that a variable and the home directory give: the variable where
/// it is set and not empty.
pub open spec fn is_chosen(
    chosen: Seq<u8>,
    value: Option<Vec<u8>>,
    home: Seq<u8>,
    fallback: Seq<char>,
) -> bool {
    match value {
        Some(path) => if path@ != Seq::<u8>::empty() {
            chosen == path@
        } else {
            chosen == under(home, fallback)
        },
        None => chosen == under(home, fallback),
    }
}

/// An environment gives the base directories exactly where the home directory is set
/// to an absolute path and each other variable is unset, empty or an absolute path;
/// each directory is then its variable's, or stands in the home directory.
pub proof fn the_environment_gives_the_directories(environment: Environment)
    ensures
        environment_problem(environment) is None <==> {
            &&& environment.home is Some && environment.home->0@.len() > 0 && environment.home->0@[0]
                == 0x2f
            &&& is_usable(environment.config_home)
            &&& is_usable(environment.data_home)
            &&& is_usable(environment.state_home)
            &&& is_usable(environment.cache_home)
        },
        environment.home is Some ==> {
            let homes = environment_homes(environment);
            let home = environment.home->0@;
            &&& is_chosen(homes.config_home, environment.config_home, home, ".config"@)
            &&& is_chosen(homes.data_home, environment.data_home, home, ".local/share"@)
            &&& is_chosen(homes.state_home, environment.state_home, home, ".local/state"@)
            &&& is_chosen(homes.cache_home, environment.cache_home, home, ".cache"@)
        },
{
    assert forall|value: Option<Vec<u8>>| value is Some && #[trigger] value->0@.len() == 0 implies value->0@
        == Seq::<u8>::empty() by {
        assert(value->0@ =~= Seq::<u8>::empty());
    }
    assert forall|value: Option<Vec<u8>>|
        value is Some && #[trigger] value->0@ == Seq::<u8>::empty() implies value->0@.len() == 0 by {}
}

/// The command link leads to an installation exactly where its target is an absolute
/// path that ends with `bin/eiyah`; the installation is what stands above those two.
pub proof fn a_command_stands_in_its_installation(target: Seq<u8>)
    ensures
        is_command_target(target) <==> {
            let parts = components_of(target);
            &&& target.len() > 0 && target[0] == 0x2f
            &&& parts.len() >= 2
            &&& parts[parts.len() - 1] == Part::Name(encode_utf8("eiyah"@))
            &&& parts[parts.len() - 2] == Part::Name(encode_utf8("bin"@))
        },
        is_command_target(target) ==> components_of(command_prefix(target)) == components_of(
            target,
        ).take(components_of(target).len() - 2),
{
    let parts = components_of(target);
    if parts.len() > 0 && parts.last() is Name {
        lemma_parent_components(target);
        let above = parent_of(target);
        assert(components_of(above) == parts.drop_last());
        if parts.len() >= 2 {
            assert(components_of(above).last() == parts[parts.len() - 2]);
            if parts[parts.len() - 2] is Name {
                assert(has_parent(above));
                lemma_parent_components(above);
                assert(components_of(parent_of(above)) =~= parts.take(parts.len() - 2));
            }
        }
    }
}

// --------------------------------------------------
// The state of an installation
// --------------------------------------------------

/// Whether nothing was found.
pub open spec fn is_missing(found: Result<Entry, Fault>) -> bool {
    match found {
        Ok(_) => false,
        Err(fault) => fault.kind == FaultKind::NotFound,
    }
}

/// Nothing is installed exactly where the command link, the program and what is kept
/// with an installation are all missing; the installation is there exactly where all
/// three stand, the program is a regular executable file, the link leads to it, and
/// what is kept was read and names the directory of the installation.
pub proof fn the_state_is_what_stands(prefix: Seq<u8>, seen: Sightings)
    ensures
        install_state(prefix, seen) == Ok::<InstallState, Words>(InstallState::NotInstalled) <==> {
            &&& is_missing(seen.entry)
            &&& is_missing(seen.binary)
            &&& is_missing(seen.metadata)
        },
        install_state(prefix, seen) == Ok::<InstallState, Words>(InstallState::Installed) <==> {
            &&& seen.entry is Ok
            &&& seen.binary is Ok
            &&& seen.metadata is Ok && seen.metadata->Ok_0.kind == FileKind::Regular
            &&& stands_ready(seen.program)
            &&& points_at(seen.link, under(prefix, "bin/eiyah"@))
            &&& is_command_target(seen.link->Ok_0@)
            &&& components_of(under(command_prefix(seen.link->Ok_0@), "install.toml"@))
                == components_of(under(prefix, "install.toml"@))
            &&& seen.contents is Ok
            &&& homes_in(seen.contents->Ok_0@) is Some
            &&& components_of(under(homes_in(seen.contents->Ok_0@)->0.data_home, "eiyah"@))
                == components_of(prefix)
        },
        install_state(prefix, seen) is Err ==> {
            ||| seen.entry is Err && !is_missing(seen.entry)
            ||| seen.binary is Err && !is_missing(seen.binary)
            ||| seen.metadata is Err && !is_missing(seen.metadata)
            ||| seen.program is Err && seen.program->Err_0.kind != FaultKind::NotFound
            ||| seen.link is Err && seen.link->Err_0.kind != FaultKind::NotFound
            ||| seen.contents is Err && seen.contents->Err_0.kind != FaultKind::NotFound
        },
{
}

/// Whether a link was found and leads to this program, which has an absolute path.
pub open spec fn is_linked(
    found: Result<Entry, Fault>,
    link: Result<Vec<u8>, Fault>,
    program: Seq<u8>,
) -> bool {
    &&& found is Ok && found->Ok_0.kind == FileKind::Symlink
    &&& link is Ok && components_of(link->Ok_0@) == components_of(program)
    &&& program.len() > 0 && program[0] == 0x2f
}

/// Whether an entry of this kind was found.
pub open spec fn is_found(found: Result<Entry, Fault>, kind: FileKind) -> bool {
    found is Ok && found->Ok_0.kind == kind
}

/// An installation is valid exactly if the three programs are regular executable files
/// at absolute paths, both links lead to theirs, what is kept names the directories of
/// the installation, the Pixi manifest is a regular file, the dotfiles are a directory,
/// `.cshrc` is a link to theirs, and the settings turn show-cad-status on.
pub proof fn an_installation_is_valid_exactly_if_it_is_whole(
    paths: ResolvedPaths,
    home: Seq<u8>,
    seen: InstalledFacts,
    result: Result<(), Failure>,
)
    requires
        validated(paths, home, seen, result),
    ensures
        result is Ok <==> {
            let program = under(paths.eiyah_prefix@, "bin/eiyah"@);
            let status = under(paths.eiyah_prefix@, "bin/show-cad-status"@);
            let pixi = under(paths.pixi_home@, "bin/pixi"@);
            &&& program.len() > 0 && program[0] == 0x2f && stands_ready(seen.binary)
            &&& status.len() > 0 && status[0] == 0x2f && stands_ready(seen.status)
            &&& pixi.len() > 0 && pixi[0] == 0x2f && stands_ready(seen.pixi)
            &&& is_linked(seen.entry, seen.entry_link, program)
            &&& is_linked(seen.status_entry, seen.status_link, status)
            &&& is_found(seen.manifest, FileKind::Regular)
            &&& is_found(seen.dotfiles, FileKind::Directory)
            &&& is_found(seen.cshrc, FileKind::Symlink)
            &&& seen.cshrc_link is Ok && leads_to_source(
                under(home, ".cshrc"@),
                seen.cshrc_link->Ok_0@,
                under(under(home, ".dotfiles"@), "tcsh/.cshrc"@),
            )
            &&& seen.metadata is Ok && match homes_in(seen.metadata->Ok_0@) {
                None => false,
                Some(homes) => {
                    &&& components_of(homes.config_home) == components_of(paths.config_home@)
                    &&& components_of(homes.data_home) == components_of(paths.data_home@)
                    &&& components_of(homes.state_home) == components_of(paths.state_home@)
                    &&& components_of(homes.cache_home) == components_of(paths.cache_home@)
                    &&& components_of(under(homes.data_home, "eiyah"@)) == components_of(
                        paths.eiyah_prefix@,
                    )
                    &&& components_of(under(under(homes.config_home, "eiyah"@), "config.toml"@))
                        == components_of(paths.eiyah_config@)
                    &&& components_of(under(under(homes.data_home, "eiyah"@), "pixi"@))
                        == components_of(paths.pixi_home@)
                },
            }
            &&& enabled_in(seen.config) == Some(true)
        },
{
}

// --------------------------------------------------
// Answers
// --------------------------------------------------

/// An answer is a yes exactly where it is nothing, `y` or `yes`, and a no exactly where
/// it is `n` or `no`, in small or capital letters and with any white space around it.
pub proof fn answers_are_yes_or_no(front: Seq<char>, word: Seq<char>, back: Seq<char>)
    requires
        are_white(front),
        are_white(back),
        word.len() > 0 ==> !is_white_space(word[0]) && !is_white_space(word.last()),
    ensures
        meaning(front + word + back) == Some(true) <==> {
            ||| word.len() == 0
            ||| word.len() == 1 && (word[0] == 'y' || word[0] == 'Y')
            ||| word.len() == 3 && (word[0] == 'y' || word[0] == 'Y') && (word[1] == 'e' || word[1]
                == 'E') && (word[2] == 's' || word[2] == 'S')
        },
        meaning(front + word + back) == Some(false) <==> {
            ||| word.len() == 1 && (word[0] == 'n' || word[0] == 'N')
            ||| word.len() == 2 && (word[0] == 'n' || word[0] == 'N') && (word[1] == 'o' || word[1]
                == 'O')
        },
{
    trimming_takes_the_white_space_around(front, word, back);
    reveal_strlit("");
    reveal_strlit("y");
    reveal_strlit("yes");
    reveal_strlit("n");
    reveal_strlit("no");
    let low = lower_case(word);
    assert(low.len() == word.len());
    if word.len() > 0 {
        assert(low[0] == lower_char(word[0]));
        lemma_small(word[0], 'y', 'Y');
        lemma_small(word[0], 'n', 'N');
    }
    if word.len() > 1 {
        assert(low[1] == lower_char(word[1]));
        lemma_small(word[1], 'e', 'E');
        lemma_small(word[1], 'o', 'O');
    }
    if word.len() > 2 {
        assert(low[2] == lower_char(word[2]));
        lemma_small(word[2], 's', 'S');
    }
    assert("y"@.len() == 1 && "n"@.len() == 1 && "no"@.len() == 2 && "yes"@.len() == 3);
    assert("y"@[0] == 'y' && "n"@[0] == 'n' && "no"@[0] == 'n' && "no"@[1] == 'o');
    assert("yes"@[0] == 'y' && "yes"@[1] == 'e' && "yes"@[2] == 's');
    if word.len() == 0 {
        assert(low =~= ""@);
    }
    if word.len() == 1 && (word[0] == 'y' || word[0] == 'Y') {
        assert(low =~= "y"@);
    }
    if word.len() == 1 && (word[0] == 'n' || word[0] == 'N') {
        assert(low =~= "n"@);
    }
    if word.len() == 2 && (word[0] == 'n' || word[0] == 'N') && (word[1] == 'o' || word[1] == 'O') {
        assert(low =~= "no"@);
    }
    if word.len() == 3 && (word[0] == 'y' || word[0] == 'Y') && (word[1] == 'e' || word[1] == 'E') && (
    word[2] == 's' || word[2] == 'S') {
        assert(low =~= "yes"@);
    }
}

proof fn lemma_small(c: char, small: char, capital: char)
    requires
        'a' <= small <= 'z',
        capital as int + 32 == small as int,
    ensures
        lower_char(c) == small <==> c == small || c == capital,
{
}

/// The question is asked until a line has a meaning: that line is the answer, and the
/// question was asked once for it and once for each line before it.
pub proof fn the_first_line_with_a_meaning_answers(lines: Seq<String>, index: int)
    requires
        0 <= index < lines.len(),
        meaning(lines[index]@) is Some,
        forall|i: int| 0 <= i < index ==> meaning(#[trigger] lines[i]@) is None,
    ensures
        first_answer(lines) == (meaning(lines[index]@), (index + 1) as nat),
    decreases index,
{
    if index > 0 {
        let rest = lines.drop_first();
        assert(meaning(lines[0]@) is None);
        assert(rest[index - 1] == lines[index]);
        assert forall|i: int| 0 <= i < index - 1 implies meaning(#[trigger] rest[i]@) is None by {
            assert(rest[i] == lines[i + 1]);
        }
        the_first_line_with_a_meaning_answers(rest, index - 1);
    }
}

/// Lines without a meaning are no answer.
pub proof fn lines_without_a_meaning_are_no_answer(lines: Seq<String>)
    requires
        forall|i: int| 0 <= i < lines.len() ==> meaning(#[trigger] lines[i]@) is None,
    ensures
        first_answer(lines) == (None::<bool>, (lines.len() + 1) as nat),
    decreases lines.len(),
{
    if lines.len() > 0 {
        let rest = lines.drop_first();
        assert(meaning(lines[0]@) is None);
        assert forall|i: int| 0 <= i < rest.len() implies meaning(#[trigger] rest[i]@) is None by {
            assert(rest[i] == lines[i + 1]);
        }
        lines_without_a_meaning_are_no_answer(rest);
    }
}

/// Git has a value exactly where it has ended well and printed text that is not line
/// breaks alone; the value is the text without the line breaks behind it.
pub proof fn a_value_of_git_is_what_it_prints(
    key: Seq<char>,
    reply: Reply,
    value: Seq<char>,
    breaks: Seq<char>,
)
    requires
        reply is Exited,
        valid_utf8(reply->output@),
        decode_utf8(reply->output@) == value + breaks,
        forall|i: int| 0 <= i < breaks.len() ==> #[trigger] breaks[i] == '\r' || breaks[i] == '\n',
        value.len() > 0 ==> value.last() != '\r' && value.last() != '\n',
    ensures
        git_value(key, reply) is Ok <==> reply->success && value.len() > 0,
        git_value(key, reply) is Ok ==> git_value(key, reply)->Ok_0 == value,
{
    lemma_without_breaks(value, breaks);
}

proof fn lemma_without_breaks(value: Seq<char>, breaks: Seq<char>)
    requires
        forall|i: int| 0 <= i < breaks.len() ==> #[trigger] breaks[i] == '\r' || breaks[i] == '\n',
        value.len() > 0 ==> value.last() != '\r' && value.last() != '\n',
    ensures
        without_breaks(value + breaks) == value,
    decreases breaks.len(),
{
    if breaks.len() > 0 {
        assert((value + breaks).last() == breaks[breaks.len() - 1]);
        assert((value + breaks).drop_last() =~= value + breaks.drop_last());
        assert forall|i: int| 0 <= i < breaks.drop_last().len() implies #[trigger] breaks.drop_last()[i]
            == '\r' || breaks.drop_last()[i] == '\n' by {
            assert(breaks.drop_last()[i] == breaks[i]);
        }
        lemma_without_breaks(value, breaks.drop_last());
    } else {
        assert(value + breaks =~= value);
    }
}

} // verus!
