//! Diagnosis of an installation.

use crate::bytes::{copy_bytes, split_seq, text_bytes, views};
use crate::config::{config_of, is_config_name, load_config, ResolvedPaths};
use crate::failure::{about, message_at};
use crate::host::{is_executable, is_program, program_with, run_with_argument, Ask, Entry, Fault};
use crate::host::{FileKind, Reply, Request};
use crate::paths::{absolute, components_of, file_name, file_name_of, is_absolute, join_text};
use crate::paths::{same_path, under, Part};
use crate::settings::{toml_document, toml_settings};
use crate::survey::{add_request, asked_of, no_requests, shows_bytes, shows_entry, take_bytes};
use crate::survey::{take_entry, Survey};
use crate::system::{at_least, is_text, last_word, last_word_of, major_minor, os_release_value};
use crate::system::{printed, system_field, take_line, version_at_least};
use crate::text::{add_text, chars_of, concat, decode_text, lemma_split_not_empty, lossy_text};
use crate::text::{same_chars, same_text, show_bytes, split_chars, texts};
use crate::ui::{detail, labelled, write_labelled};
use vstd::prelude::*;
use vstd::utf8::{decode_utf8, encode_utf8, valid_utf8};

verus! {

/// What is said where nothing is wrong.
pub const HEALTHY_MESSAGE: &'static str = "Your system is ready to use Eiyah.";

/// What was found at the places that an installation manages. Inspections follow
/// symbolic links here.
#[derive(Debug)]
pub struct Managed {
    pub binary: Result<Entry, Fault>,
    pub entry: Result<Vec<u8>, Fault>,
    pub config: Result<Vec<u8>, Fault>,
    pub pixi: Result<Entry, Fault>,
    pub zsh: Result<Entry, Fault>,
    pub status_binary: Result<Entry, Fault>,
    pub status_entry: Result<Vec<u8>, Fault>,
}

/// What the host has said about itself.
#[derive(Debug)]
pub struct HostFacts {
    pub os: Option<String>,
    pub os_id: Option<String>,
    pub os_version: Option<String>,
    pub architecture: Option<String>,
    pub glibc: Option<String>,
}

/// A list with one message, where it is called for.
pub open spec fn message_if(needed: bool, message: Seq<char>) -> Seq<Seq<char>> {
    if needed {
        seq![message]
    } else {
        Seq::empty()
    }
}

/// Adds a message where it is called for.
fn add_if(issues: &mut Vec<String>, needed: bool, message: String)
    ensures
        texts(final(issues)@) == texts(old(issues)@) + message_if(needed, message@),
{
    if needed {
        add_text(issues, message);
    }
    assert(texts(issues@) =~= texts(old(issues)@) + message_if(needed, message@));
}

/// Messages that are added one list after the other are added as one list.
proof fn lemma_added(start: Seq<Seq<char>>, first: Seq<Seq<char>>, second: Seq<Seq<char>>)
    ensures
        start + first + second == start + (first + second),
{
    assert(start + first + second =~= start + (first + second));
}

/// Whether an inspection has found a program.
pub open spec fn found_program(found: Result<Entry, Fault>) -> bool {
    found is Ok && is_program(found->Ok_0)
}

/// Whether an inspection has found a program.
pub fn is_found_executable(found: &Result<Entry, Fault>) -> (yes: bool)
    ensures
        yes == found_program(*found),
{
    match found {
        Ok(entry) => is_executable(entry),
        Err(_) => false,
    }
}

/// Whether a link was read that leads to this place, from the root.
pub open spec fn leads_to(link: Result<Vec<u8>, Fault>, expected: Seq<u8>) -> bool {
    link is Ok && absolute(link->Ok_0@) && components_of(link->Ok_0@) == components_of(expected)
}

/// Whether a link was read that leads to this place, from the root.
pub fn is_expected_symlink(link: &Result<Vec<u8>, Fault>, expected: &[u8]) -> (yes: bool)
    ensures
        yes == leads_to(*link, expected@),
{
    match link {
        Ok(target) => is_absolute(target) && same_path(target, expected),
        Err(_) => false,
    }
}

/// What is wrong with the dotfiles directory.
pub open spec fn dotfiles_issues(home: Seq<u8>, found: Result<Entry, Fault>) -> Seq<Seq<char>> {
    message_if(
        !(found is Ok && found->Ok_0.kind == FileKind::Directory),
        about("dotfiles directory is missing: "@, under(home, ".dotfiles"@)),
    )
}

/// Diagnoses the dotfiles directory.
pub fn diagnose_dotfiles(home: &[u8], found: &Result<Entry, Fault>, issues: &mut Vec<String>)
    ensures
        texts(final(issues)@) == texts(old(issues)@) + dotfiles_issues(home@, *found),
{
    let present = match found {
        Ok(entry) => entry.kind == FileKind::Directory,
        Err(_) => false,
    };
    let dotfiles = join_text(home, ".dotfiles");
    add_if(issues, !present, message_at("dotfiles directory is missing: ", &dotfiles));
}

/// What is wrong with the command link.
pub open spec fn link_issues(home: Seq<u8>, binary: Seq<u8>, link: Result<Vec<u8>, Fault>) -> Seq<
    Seq<char>,
> {
    message_if(
        !leads_to(link, binary),
        about("Eiyah command link is invalid: "@, under(home, ".local/bin/eiyah"@)),
    )
}

/// Diagnoses the command link.
pub fn diagnose_eiyah_symlink(
    home: &[u8],
    binary: &[u8],
    link: &Result<Vec<u8>, Fault>,
    issues: &mut Vec<String>,
)
    ensures
        texts(final(issues)@) == texts(old(issues)@) + link_issues(home@, binary@, *link),
{
    let entry = join_text(home, ".local/bin/eiyah");
    add_if(
        issues,
        !is_expected_symlink(link, binary),
        message_at("Eiyah command link is invalid: ", &entry),
    );
}

/// Whether what was read are the settings of the user.
pub open spec fn config_loads(contents: Result<Vec<u8>, Fault>) -> bool {
    &&& contents is Ok
    &&& valid_utf8(contents->Ok_0@)
    &&& toml_settings(decode_utf8(contents->Ok_0@)) is Some
    &&& config_of(toml_settings(decode_utf8(contents->Ok_0@))->0) is Ok
}

/// What is wrong at the places that an installation manages.
pub open spec fn managed_issues(home: Seq<u8>, paths: ResolvedPaths, found: Managed) -> Seq<
    Seq<char>,
> {
    let binary = under(paths.eiyah_prefix@, "bin/eiyah"@);
    let status = under(paths.eiyah_prefix@, "bin/show-cad-status"@);
    message_if(!found_program(found.binary), about("Eiyah binary is not executable: "@, binary))
        + link_issues(home, binary, found.entry)
        + message_if(
        !config_loads(found.config),
        about("Eiyah config is missing or invalid: "@, paths.eiyah_config@),
    ) + message_if(
        !found_program(found.pixi),
        about("Pixi is not executable: "@, under(paths.pixi_home@, "bin/pixi"@)),
    ) + message_if(
        !found_program(found.zsh),
        about("Zsh is not executable: "@, under(paths.pixi_home@, "bin/zsh"@)),
    ) + message_if(
        !found_program(found.status_binary),
        about("show-cad-status binary is not executable: "@, status),
    ) + message_if(
        !leads_to(found.status_entry, status),
        about(
            "show-cad-status command link is invalid: "@,
            under(home, ".local/bin/show-cad-status"@),
        ),
    )
}

/// Diagnoses the places that an installation manages.
pub fn diagnose_installed_paths(
    home: &[u8],
    paths: &ResolvedPaths,
    found: Managed,
    issues: &mut Vec<String>,
)
    ensures
        texts(final(issues)@) == texts(old(issues)@) + managed_issues(home@, *paths, found),
{
    let ghost start = texts(issues@);
    let binary = join_text(&paths.eiyah_prefix, "bin/eiyah");
    let status = join_text(&paths.eiyah_prefix, "bin/show-cad-status");
    let ghost first = message_if(
        !found_program(found.binary),
        about("Eiyah binary is not executable: "@, binary@),
    );
    let ghost second = link_issues(home@, binary@, found.entry);
    let ghost third = message_if(
        !config_loads(found.config),
        about("Eiyah config is missing or invalid: "@, paths.eiyah_config@),
    );
    let ghost fourth = message_if(
        !found_program(found.pixi),
        about("Pixi is not executable: "@, under(paths.pixi_home@, "bin/pixi"@)),
    );
    let ghost fifth = message_if(
        !found_program(found.zsh),
        about("Zsh is not executable: "@, under(paths.pixi_home@, "bin/zsh"@)),
    );
    let ghost sixth = message_if(
        !found_program(found.status_binary),
        about("show-cad-status binary is not executable: "@, status@),
    );
    let ghost seventh = message_if(
        !leads_to(found.status_entry, status@),
        about("show-cad-status command link is invalid: "@, under(home@, ".local/bin/show-cad-status"@)),
    );
    proof {
        lemma_added(start, first, second);
        lemma_added(start, first + second, third);
        lemma_added(start, first + second + third, fourth);
        lemma_added(start, first + second + third + fourth, fifth);
        lemma_added(start, first + second + third + fourth + fifth, sixth);
        lemma_added(start, first + second + third + fourth + fifth + sixth, seventh);
    }
    add_if(
        issues,
        !is_found_executable(&found.binary),
        message_at("Eiyah binary is not executable: ", &binary),
    );
    diagnose_eiyah_symlink(home, &binary, &found.entry, issues);
    let loads = load_config(found.config).is_ok();
    add_if(
        issues,
        !loads,
        message_at("Eiyah config is missing or invalid: ", &paths.eiyah_config),
    );
    add_if(
        issues,
        !is_found_executable(&found.pixi),
        message_at("Pixi is not executable: ", &join_text(&paths.pixi_home, "bin/pixi")),
    );
    add_if(
        issues,
        !is_found_executable(&found.zsh),
        message_at("Zsh is not executable: ", &join_text(&paths.pixi_home, "bin/zsh")),
    );
    add_if(
        issues,
        !is_found_executable(&found.status_binary),
        message_at("show-cad-status binary is not executable: ", &status),
    );
    add_if(
        issues,
        !is_expected_symlink(&found.status_entry, &status),
        message_at(
            "show-cad-status command link is invalid: ",
            &join_text(home, ".local/bin/show-cad-status"),
        ),
    );
}

/// An installation as far as it could be found: where it lies and what is there, or
/// why its places are not known.
pub type Installation = Result<(ResolvedPaths, Managed), String>;

/// What is wrong with an installation; only why its places are not known, where they
/// are not.
pub open spec fn installation_issues(home: Seq<u8>, found: Installation) -> Seq<Seq<char>> {
    match found {
        Ok((paths, managed)) => managed_issues(home, paths, managed),
        Err(reason) => seq![reason@],
    }
}

/// Diagnoses an installation.
pub fn diagnose_installation(home: &[u8], found: Installation, issues: &mut Vec<String>)
    ensures
        texts(final(issues)@) == texts(old(issues)@) + installation_issues(home@, found),
{
    match found {
        Ok((paths, managed)) => diagnose_installed_paths(home, &paths, managed, issues),
        Err(reason) => {
            add_text(issues, reason);
            assert(texts(issues@) =~= texts(old(issues)@) + seq![reason@]);
        },
    }
}

/// Whether a program is of the C shell family, by the name of its file.
pub open spec fn is_c_shell(shell: Option<Vec<u8>>) -> bool {
    &&& shell is Some
    &&& file_name_of(shell->0@) is Some
    &&& valid_utf8(file_name_of(shell->0@)->0)
    &&& (decode_utf8(file_name_of(shell->0@)->0) == "csh"@ || decode_utf8(
        file_name_of(shell->0@)->0,
    ) == "tcsh"@)
}

/// A login shell as it is shown.
pub open spec fn shell_shown(shell: Option<Vec<u8>>) -> Seq<char> {
    if shell is Some && lossy_text(shell->0@).len() > 0 {
        lossy_text(shell->0@)
    } else {
        "N/A"@
    }
}

/// What is wrong with the login shell.
pub open spec fn shell_issues(shell: Option<Vec<u8>>) -> Seq<Seq<char>> {
    message_if(!is_c_shell(shell), "Login shell is not csh or tcsh: "@ + shell_shown(shell))
}

/// Diagnoses the login shell.
pub fn diagnose_login_shell_value(shell: &Option<Vec<u8>>, issues: &mut Vec<String>)
    ensures
        texts(final(issues)@) == texts(old(issues)@) + shell_issues(*shell),
{
    let mut valid = false;
    let mut shown = "N/A".to_owned();
    match shell {
        None => {},
        Some(path) => {
            match file_name(path) {
                None => {},
                Some(name) => match decode_text(&name) {
                    None => {},
                    Some(text) => {
                        valid = same_text(&text, "csh") || same_text(&text, "tcsh");
                    },
                },
            }
            let actual = show_bytes(path);
            if actual.unicode_len() > 0 {
                shown = actual;
            }
        },
    }
    add_if(issues, !valid, concat("Login shell is not csh or tcsh: ", &shown));
}

/// What is wrong with the operating system.
pub open spec fn os_issues(
    os: Option<String>,
    os_id: Option<String>,
    os_version: Option<String>,
) -> Seq<Seq<char>> {
    if os is None || os_id is None || os_version is None {
        seq!["OS information could not be read: /etc/os-release"@]
    } else {
        message_if(
            os_id->0@ != "almalinux"@ || split_seq(os_version->0@, '.')[0] != "8"@,
            "Unsupported OS: "@ + os->0@,
        )
    }
}

/// Diagnoses the operating system: version 8 of AlmaLinux is wanted.
pub fn diagnose_os_compatibility(
    os: &Option<String>,
    os_id: &Option<String>,
    os_version: &Option<String>,
    issues: &mut Vec<String>,
)
    ensures
        texts(final(issues)@) == texts(old(issues)@) + os_issues(*os, *os_id, *os_version),
{
    match (os, os_id, os_version) {
        (Some(os), Some(os_id), Some(os_version)) => {
            let fields = split_chars(&chars_of(os_version), '.');
            proof {
                lemma_split_not_empty(os_version@, '.');
                assert(views(fields@).len() == fields@.len());
                assert(views(fields@)[0] == fields@[0]@);
            }
            let supported = same_text(os_id, "almalinux") && same_chars(&fields[0], &chars_of("8"));
            add_if(issues, !supported, concat("Unsupported OS: ", os));
        },
        _ => {
            add_text(issues, "OS information could not be read: /etc/os-release".to_owned());
            assert(texts(issues@) =~= texts(old(issues)@)
                + seq!["OS information could not be read: /etc/os-release"@]);
        },
    }
}

/// What is wrong with the machine and its C library.
pub open spec fn machine_issues(
    architecture: Option<String>,
    glibc: Option<String>,
    glibc_compatible: bool,
) -> Seq<Seq<char>> {
    (match architecture {
        None => seq!["Architecture could not be read: uname -m"@],
        Some(name) => message_if(name@ != "x86_64"@, "Unsupported architecture: "@ + name@),
    }) + (match glibc {
        None => seq!["Host glibc could not be read: getconf GNU_LIBC_VERSION"@],
        Some(version) => message_if(!glibc_compatible, "Host glibc is too old: "@ + version@),
    })
}

/// Diagnoses the machine and its C library.
pub fn diagnose_host_compatibility_values(
    architecture: &Option<String>,
    glibc: &Option<String>,
    glibc_compatible: bool,
    issues: &mut Vec<String>,
)
    ensures
        texts(final(issues)@) == texts(old(issues)@) + machine_issues(
            *architecture,
            *glibc,
            glibc_compatible,
        ),
{
    match architecture {
        None => add_if(issues, true, "Architecture could not be read: uname -m".to_owned()),
        Some(name) => add_if(
            issues,
            !same_text(name, "x86_64"),
            concat("Unsupported architecture: ", name),
        ),
    }
    match glibc {
        None => add_if(
            issues,
            true,
            "Host glibc could not be read: getconf GNU_LIBC_VERSION".to_owned(),
        ),
        Some(version) => add_if(
            issues,
            !glibc_compatible,
            concat("Host glibc is too old: ", version),
        ),
    }
    assert(texts(issues@) =~= texts(old(issues)@) + machine_issues(
        *architecture,
        *glibc,
        glibc_compatible,
    ));
}

/// What is wrong with the host: its C library has to be of version 2.28 or later.
pub open spec fn host_issues(host: HostFacts) -> Seq<Seq<char>> {
    os_issues(host.os, host.os_id, host.os_version) + machine_issues(
        host.architecture,
        host.glibc,
        host.glibc is Some && at_least(major_minor(last_word_of(host.glibc->0@)), 2, 28),
    )
}

/// Diagnoses the host.
pub fn diagnose_host_compatibility(host: &HostFacts, issues: &mut Vec<String>)
    ensures
        texts(final(issues)@) == texts(old(issues)@) + host_issues(*host),
{
    diagnose_os_compatibility(&host.os, &host.os_id, &host.os_version, issues);
    let compatible = match &host.glibc {
        None => false,
        Some(version) => version_at_least(&last_word(version), 2, 28),
    };
    diagnose_host_compatibility_values(&host.architecture, &host.glibc, compatible, issues);
    assert(texts(issues@) =~= texts(old(issues)@) + host_issues(*host));
}

/// What a diagnosis looks at.
#[derive(Debug)]
pub struct Findings {
    /// The home directory with its dotfiles and the installation, or why it is not known.
    pub home: Result<(Vec<u8>, Result<Entry, Fault>, Installation), String>,
    /// The login shell.
    pub shell: Option<Vec<u8>>,
    pub host: HostFacts,
}

/// What is wrong.
pub open spec fn all_issues(found: Findings) -> Seq<Seq<char>> {
    (match found.home {
        Err(reason) => seq!["HOME is unavailable: "@ + reason@],
        Ok((home, dotfiles, installation)) => dotfiles_issues(home@, dotfiles)
            + installation_issues(home@, installation),
    }) + shell_issues(found.shell) + host_issues(found.host)
}

/// Collects everything that is wrong.
pub fn run_doctor(found: Findings) -> (issues: Vec<String>)
    ensures
        texts(issues@) == all_issues(found),
{
    let mut issues: Vec<String> = Vec::new();
    match found.home {
        Err(reason) => add_text(&mut issues, concat("HOME is unavailable: ", &reason)),
        Ok((home, dotfiles, installation)) => {
            diagnose_dotfiles(&home, &dotfiles, &mut issues);
            diagnose_installation(&home, installation, &mut issues);
        },
    }
    diagnose_login_shell_value(&found.shell, &mut issues);
    diagnose_host_compatibility(&found.host, &mut issues);
    assert(texts(issues@) =~= all_issues(found));
    issues
}

/// What the host is asked for a diagnosis.
pub open spec fn host_places() -> Seq<Ask> {
    seq![
        Ask::Read(encode_utf8("/etc/os-release"@)),
        Ask::Capture(program_with(encode_utf8("uname"@), "-m"@)),
        Ask::Capture(program_with(encode_utf8("getconf"@), "GNU_LIBC_VERSION"@)),
    ]
}

/// What is looked at of an installation.
pub open spec fn managed_places(home: Seq<u8>, paths: ResolvedPaths) -> Seq<Ask> {
    seq![
        Ask::InspectTarget(under(paths.eiyah_prefix@, "bin/eiyah"@)),
        Ask::ReadLink(under(home, ".local/bin/eiyah"@)),
        Ask::Read(paths.eiyah_config@),
        Ask::InspectTarget(under(paths.pixi_home@, "bin/pixi"@)),
        Ask::InspectTarget(under(paths.pixi_home@, "bin/zsh"@)),
        Ask::InspectTarget(under(paths.eiyah_prefix@, "bin/show-cad-status"@)),
        Ask::ReadLink(under(home, ".local/bin/show-cad-status"@)),
    ]
}

/// What a diagnosis looks at: the host, the dotfiles where the home directory is known,
/// and the installation where it is known.
pub open spec fn diagnosis_places(home: Option<Seq<u8>>, paths: Option<ResolvedPaths>) -> Seq<Ask> {
    match (home, paths) {
        (None, _) => host_places(),
        (Some(home), None) => host_places().push(Ask::InspectTarget(under(home, ".dotfiles"@))),
        (Some(home), Some(paths)) => host_places().push(
            Ask::InspectTarget(under(home, ".dotfiles"@)),
        ) + managed_places(home, paths),
    }
}

/// Looks at what a diagnosis needs.
pub fn diagnosis_survey(home: &Option<Vec<u8>>, paths: &Option<ResolvedPaths>) -> (survey: Survey)
    ensures
        survey.begins(
            diagnosis_places(
                match *home {
                    Some(home) => Some(home@),
                    None => None,
                },
                *paths,
            ),
        ),
{
    let mut requests = no_requests();
    add_request(&mut requests, Request::Read(text_bytes("/etc/os-release")));
    add_request(&mut requests, Request::Capture(run_with_argument(&text_bytes("uname"), "-m")));
    add_request(
        &mut requests,
        Request::Capture(run_with_argument(&text_bytes("getconf"), "GNU_LIBC_VERSION")),
    );
    assert(asked_of(requests@) =~= host_places());
    let home = match home {
        None => {
            return Survey::new(requests);
        },
        Some(home) => home,
    };
    add_request(&mut requests, Request::InspectTarget(join_text(home, ".dotfiles")));
    let paths = match paths {
        None => {
            return Survey::new(requests);
        },
        Some(paths) => paths,
    };
    let prefix = &paths.eiyah_prefix;
    let pixi_home = &paths.pixi_home;
    add_request(&mut requests, Request::InspectTarget(join_text(prefix, "bin/eiyah")));
    add_request(&mut requests, Request::ReadLink(join_text(home, ".local/bin/eiyah")));
    add_request(&mut requests, Request::Read(copy_bytes(&paths.eiyah_config)));
    add_request(&mut requests, Request::InspectTarget(join_text(pixi_home, "bin/pixi")));
    add_request(&mut requests, Request::InspectTarget(join_text(pixi_home, "bin/zsh")));
    add_request(&mut requests, Request::InspectTarget(join_text(prefix, "bin/show-cad-status")));
    add_request(&mut requests, Request::ReadLink(join_text(home, ".local/bin/show-cad-status")));
    assert(asked_of(requests@) =~= diagnosis_places(Some(home@), Some(*paths)));
    Survey::new(requests)
}

/// Whether this was found at the places of an installation.
pub open spec fn managed_in(found: Managed, replies: Seq<Reply>) -> bool {
    &&& replies.len() == 11
    &&& shows_entry(replies[4], found.binary)
    &&& shows_bytes(replies[5], found.entry)
    &&& shows_bytes(replies[6], found.config)
    &&& shows_entry(replies[7], found.pixi)
    &&& shows_entry(replies[8], found.zsh)
    &&& shows_entry(replies[9], found.status_binary)
    &&& shows_bytes(replies[10], found.status_entry)
}

/// Whether the host has said this about itself.
pub open spec fn host_in(host: HostFacts, replies: Seq<Reply>) -> bool {
    &&& replies.len() >= 3
    &&& is_text(host.os, system_field(replies[0], "PRETTY_NAME"@))
    &&& is_text(host.os_id, system_field(replies[0], "ID"@))
    &&& is_text(host.os_version, system_field(replies[0], "VERSION_ID"@))
    &&& is_text(host.architecture, printed(replies[1]))
    &&& is_text(host.glibc, printed(replies[2]))
}

/// Whether a diagnosis has found this.
pub open spec fn found_in(
    found: Findings,
    home: Result<Vec<u8>, String>,
    installed: Result<ResolvedPaths, String>,
    shell: Option<Vec<u8>>,
    replies: Seq<Reply>,
) -> bool {
    &&& found.shell == shell
    &&& host_in(found.host, replies)
    &&& match (home, found.home) {
        (Err(reason), Err(told)) => told == reason,
        (Ok(home), Ok((place, dotfiles, installation))) => {
            &&& place == home
            &&& shows_entry(replies[3], dotfiles)
            &&& match (installed, installation) {
                (Err(reason), Err(told)) => told == reason,
                (Ok(paths), Ok((places, managed))) => places == paths && managed_in(
                    managed,
                    replies,
                ),
                _ => false,
            }
        },
        _ => false,
    }
}

/// How many replies a diagnosis needs.
pub open spec fn replies_needed(
    home: Result<Vec<u8>, String>,
    installed: Result<ResolvedPaths, String>,
) -> nat {
    if home is Err {
        3
    } else if installed is Err {
        4
    } else {
        11
    }
}

fn take_managed(replies: &mut Vec<Reply>) -> (found: Managed)
    requires
        old(replies)@.len() == 11,
    ensures
        managed_in(found, old(replies)@),
        final(replies)@ == old(replies)@.take(4),
{
    let status_entry = take_bytes(replies);
    let status_binary = take_entry(replies);
    let zsh = take_entry(replies);
    let pixi = take_entry(replies);
    let config = take_bytes(replies);
    let entry = take_bytes(replies);
    let binary = take_entry(replies);
    assert(replies@ =~= old(replies)@.take(4));
    Managed { binary, entry, config, pixi, zsh, status_binary, status_entry }
}

fn take_host(replies: Vec<Reply>) -> (host: HostFacts)
    requires
        replies@.len() == 3,
    ensures
        host_in(host, replies@),
{
    let mut replies = replies;
    let glibc = take_line(&mut replies);
    let architecture = take_line(&mut replies);
    let os = os_release_value(&replies[0], "PRETTY_NAME");
    let os_id = os_release_value(&replies[0], "ID");
    let os_version = os_release_value(&replies[0], "VERSION_ID");
    HostFacts { os, os_id, os_version, architecture, glibc }
}

/// Collects everything that is wrong by what was looked at; nothing where not
/// everything was looked at.
pub fn diagnose(
    home: Result<Vec<u8>, String>,
    installed: Result<ResolvedPaths, String>,
    shell: Option<Vec<u8>>,
    survey: Survey,
) -> (issues: Option<Vec<String>>)
    ensures
        issues is Some <==> survey.replies@.len() == replies_needed(home, installed),
        issues is Some ==> exists|found: Findings| #[trigger]
            found_in(found, home, installed, shell, survey.replies@) && texts(issues->0@)
                == all_issues(found),
{
    let mut replies = survey.replies;
    let ghost all = replies@;
    let ghost known = home;
    let place: Result<(Vec<u8>, Result<Entry, Fault>, Installation), String> = match home {
        Err(reason) => {
            if replies.len() != 3 {
                return None;
            }
            Err(reason)
        },
        Ok(home) => match installed {
            Err(reason) => {
                if replies.len() != 4 {
                    return None;
                }
                let dotfiles = take_entry(&mut replies);
                Ok((home, dotfiles, Err(reason)))
            },
            Ok(paths) => {
                if replies.len() != 11 {
                    return None;
                }
                let managed = take_managed(&mut replies);
                let dotfiles = take_entry(&mut replies);
                Ok((home, dotfiles, Ok((paths, managed))))
            },
        },
    };
    assert(replies@ =~= all.take(3));
    let host = take_host(replies);
    let found = Findings { home: place, shell, host };
    assert(found_in(found, known, installed, shell, all));
    Some(run_doctor(found))
}

/// A diagnosis as it is shown.
#[derive(Debug)]
pub struct DoctorReport {
    pub healthy: bool,
    /// What goes to the standard output.
    pub output: String,
    /// What goes to the standard error stream.
    pub warnings: String,
}

/// The report of a diagnosis: that all is well, or every issue as a warning.
pub fn report_doctor(issues: &Vec<String>, styled: bool) -> (report: DoctorReport)
    ensures
        report.healthy == (issues@.len() == 0),
        report.output@ == if issues@.len() == 0 {
            HEALTHY_MESSAGE@ + "\n"@
        } else {
            Seq::empty()
        },
        report.warnings@ == labelled("Warning"@, issues@, styled),
{
    let healthy = issues.len() == 0;
    let output = if healthy {
        detail(HEALTHY_MESSAGE)
    } else {
        let none = String::new();
        assert(none@ =~= Seq::<char>::empty());
        none
    };
    DoctorReport { healthy, output, warnings: write_labelled("Warning", issues, styled) }
}

/// All is well exactly if the installation is known, everything it manages is in its
/// place, and the shell and the host are the ones that are wanted.
pub proof fn healthy_means_nothing_is_wrong(found: Findings)
    ensures
        all_issues(found).len() == 0 <==> {
            &&& match found.home {
                Ok((home, dotfiles, Ok((paths, managed)))) => {
                    &&& dotfiles_issues(home@, dotfiles).len() == 0
                    &&& managed_issues(home@, paths, managed).len() == 0
                },
                _ => false,
            }
            &&& is_c_shell(found.shell)
            &&& host_issues(found.host).len() == 0
        },
{
}

// --------------------------------------------------
// Laws
// --------------------------------------------------

/// Whether a regular file that someone may execute was found.
pub open spec fn stands_ready(found: Result<Entry, Fault>) -> bool {
    match found {
        Ok(entry) => entry.kind == FileKind::Regular && entry.mode & 0o111 != 0,
        Err(_) => false,
    }
}

/// Whether a link was read whose target starts at the root and has the components of
/// this path.
pub open spec fn points_at(link: Result<Vec<u8>, Fault>, path: Seq<u8>) -> bool {
    match link {
        Ok(target) => target@.len() > 0 && target@[0] == 0x2f && components_of(target@)
            == components_of(path),
        Err(_) => false,
    }
}

/// Whether what was read is a document with the flag `show-cad-status` and nothing
/// else.
pub open spec fn holds_the_flag(contents: Result<Vec<u8>, Fault>) -> bool {
    match contents {
        Ok(bytes) => valid_utf8(bytes@) && match toml_document(decode_utf8(bytes@)) {
            Ok(settings) => settings.len() > 0 && settings[0].1 is Some
                && settings[0].1->0 is Flag && forall|i: int|
                0 <= i < settings.len() ==> #[trigger] settings[i].0 == "show-cad-status"@,
            Err(_) => false,
        },
        Err(_) => false,
    }
}

/// The diagnosis of the managed places is empty exactly if the program, Pixi, Zsh and
/// show-cad-status were each found as regular executable files, both command links
/// lead to their programs and the settings load.
pub proof fn the_managed_places_are_well(home: Seq<u8>, paths: ResolvedPaths, found: Managed)
    ensures
        managed_issues(home, paths, found).len() == 0 <==> {
            &&& stands_ready(found.binary)
            &&& stands_ready(found.pixi)
            &&& stands_ready(found.zsh)
            &&& stands_ready(found.status_binary)
            &&& points_at(found.entry, under(paths.eiyah_prefix@, "bin/eiyah"@))
            &&& points_at(found.status_entry, under(paths.eiyah_prefix@, "bin/show-cad-status"@))
            &&& holds_the_flag(found.config)
        },
{
    lemma_flag(found.config);
}

/// The settings load exactly where they are the flag.
proof fn lemma_flag(contents: Result<Vec<u8>, Fault>)
    ensures
        config_loads(contents) <==> holds_the_flag(contents),
{
    if contents is Ok && valid_utf8(contents->Ok_0@) && toml_settings(
        decode_utf8(contents->Ok_0@),
    ) is Some {
        let settings = toml_settings(decode_utf8(contents->Ok_0@))->0;
        if settings.len() > 0 {
            assert(is_config_name(settings[0].0) <==> settings[0].0 == "show-cad-status"@);
        }
        if forall|i: int| 0 <= i < settings.len() ==> #[trigger] settings[i].0 == "show-cad-status"@ {
            assert forall|i: int| 0 <= i < settings.len() implies is_config_name(
                #[trigger] settings[i].0,
            ) by {}
        } else {
            let i = choose|i: int|
                0 <= i < settings.len() && #[trigger] settings[i].0 != "show-cad-status"@;
            assert(!is_config_name(settings[i].0));
        }
    }
}

/// Everything that is wrong at the managed places is told with its own words and the
/// place, and nothing is told of what is well.
pub proof fn every_fault_of_the_managed_places_is_told(
    home: Seq<u8>,
    paths: ResolvedPaths,
    found: Managed,
)
    ensures
        !stands_ready(found.binary) ==> managed_issues(home, paths, found).contains(
            "Eiyah binary is not executable: "@ + lossy_text(
                under(paths.eiyah_prefix@, "bin/eiyah"@),
            ),
        ),
        !points_at(found.entry, under(paths.eiyah_prefix@, "bin/eiyah"@)) ==> managed_issues(
            home,
            paths,
            found,
        ).contains(
            "Eiyah command link is invalid: "@ + lossy_text(under(home, ".local/bin/eiyah"@)),
        ),
        !holds_the_flag(found.config) ==> managed_issues(home, paths, found).contains(
            "Eiyah config is missing or invalid: "@ + lossy_text(paths.eiyah_config@),
        ),
        !stands_ready(found.pixi) ==> managed_issues(home, paths, found).contains(
            "Pixi is not executable: "@ + lossy_text(under(paths.pixi_home@, "bin/pixi"@)),
        ),
        !stands_ready(found.zsh) ==> managed_issues(home, paths, found).contains(
            "Zsh is not executable: "@ + lossy_text(under(paths.pixi_home@, "bin/zsh"@)),
        ),
        !stands_ready(found.status_binary) ==> managed_issues(home, paths, found).contains(
            "show-cad-status binary is not executable: "@ + lossy_text(
                under(paths.eiyah_prefix@, "bin/show-cad-status"@),
            ),
        ),
        !points_at(found.status_entry, under(paths.eiyah_prefix@, "bin/show-cad-status"@))
            ==> managed_issues(home, paths, found).contains(
            "show-cad-status command link is invalid: "@ + lossy_text(
                under(home, ".local/bin/show-cad-status"@),
            ),
        ),
        managed_issues(home, paths, found).len() == one_if(!stands_ready(found.binary)) + one_if(
            !points_at(found.entry, under(paths.eiyah_prefix@, "bin/eiyah"@)),
        ) + one_if(!holds_the_flag(found.config)) + one_if(!stands_ready(found.pixi)) + one_if(
            !stands_ready(found.zsh),
        ) + one_if(!stands_ready(found.status_binary)) + one_if(
            !points_at(found.status_entry, under(paths.eiyah_prefix@, "bin/show-cad-status"@)),
        ),
{
    lemma_flag(found.config);
    let program = under(paths.eiyah_prefix@, "bin/eiyah"@);
    let status = under(paths.eiyah_prefix@, "bin/show-cad-status"@);
    lemma_seven(
        message_if(
            !found_program(found.binary),
            about("Eiyah binary is not executable: "@, program),
        ),
        link_issues(home, program, found.entry),
        message_if(
            !config_loads(found.config),
            about("Eiyah config is missing or invalid: "@, paths.eiyah_config@),
        ),
        message_if(
            !found_program(found.pixi),
            about("Pixi is not executable: "@, under(paths.pixi_home@, "bin/pixi"@)),
        ),
        message_if(
            !found_program(found.zsh),
            about("Zsh is not executable: "@, under(paths.pixi_home@, "bin/zsh"@)),
        ),
        message_if(
            !found_program(found.status_binary),
            about("show-cad-status binary is not executable: "@, status),
        ),
        message_if(
            !leads_to(found.status_entry, status),
            about(
                "show-cad-status command link is invalid: "@,
                under(home, ".local/bin/show-cad-status"@),
            ),
        ),
    );
}

/// One for something that is to be told, and nothing otherwise.
pub open spec fn one_if(told: bool) -> nat {
    if told {
        1
    } else {
        0
    }
}

/// What stands in one of seven lists stands in all of them together.
proof fn lemma_seven(
    a: Seq<Seq<char>>,
    b: Seq<Seq<char>>,
    c: Seq<Seq<char>>,
    d: Seq<Seq<char>>,
    e: Seq<Seq<char>>,
    f: Seq<Seq<char>>,
    g: Seq<Seq<char>>,
)
    ensures
        a.len() > 0 ==> (a + b + c + d + e + f + g).contains(a[0]),
        b.len() > 0 ==> (a + b + c + d + e + f + g).contains(b[0]),
        c.len() > 0 ==> (a + b + c + d + e + f + g).contains(c[0]),
        d.len() > 0 ==> (a + b + c + d + e + f + g).contains(d[0]),
        e.len() > 0 ==> (a + b + c + d + e + f + g).contains(e[0]),
        f.len() > 0 ==> (a + b + c + d + e + f + g).contains(f[0]),
        g.len() > 0 ==> (a + b + c + d + e + f + g).contains(g[0]),
{
    let all = a + b + c + d + e + f + g;
    let n = a.len() as int;
    assert(a.len() > 0 ==> all[0] == a[0]);
    assert(b.len() > 0 ==> all[n] == b[0]);
    assert(c.len() > 0 ==> all[n + b.len()] == c[0]);
    assert(d.len() > 0 ==> all[n + b.len() + c.len()] == d[0]);
    assert(e.len() > 0 ==> all[n + b.len() + c.len() + d.len()] == e[0]);
    assert(f.len() > 0 ==> all[n + b.len() + c.len() + d.len() + e.len()] == f[0]);
    assert(g.len() > 0 ==> all[n + b.len() + c.len() + d.len() + e.len() + f.len()] == g[0]);
}

/// A shell is right exactly where the last component of its path is the name `csh` or
/// the name `tcsh`.
pub proof fn only_the_c_shells_are_right(shell: Option<Vec<u8>>)
    ensures
        shell_issues(shell).len() == 0 <==> match shell {
            None => false,
            Some(path) => {
                let parts = components_of(path@);
                parts.len() > 0 && (parts.last() == Part::Name(encode_utf8("csh"@))
                    || parts.last() == Part::Name(encode_utf8("tcsh"@)))
            },
        },
{
    reveal_strlit("csh");
    reveal_strlit("tcsh");
    if shell is Some {
        let parts = components_of(shell->0@);
        if parts.len() > 0 && parts.last() is Name {
            let name = parts.last()->Name_0;
            vstd::utf8::encode_utf8_decode_utf8("csh"@);
            vstd::utf8::encode_utf8_decode_utf8("tcsh"@);
            vstd::utf8::encode_utf8_valid_utf8("csh"@);
            vstd::utf8::encode_utf8_valid_utf8("tcsh"@);
            if valid_utf8(name) {
                vstd::utf8::decode_utf8_encode_utf8(name);
            }
        }
    }
}

/// A system is right exactly where it calls itself AlmaLinux and its version is `8`,
/// alone or with a point and anything behind it.
pub proof fn only_the_eighth_almalinux_is_right(
    os: Option<String>,
    os_id: Option<String>,
    os_version: Option<String>,
)
    ensures
        os_issues(os, os_id, os_version).len() == 0 <==> {
            &&& os is Some
            &&& os_id is Some && os_id->0@ == "almalinux"@
            &&& os_version is Some && os_version->0@.len() > 0 && os_version->0@[0] == '8' && (
            os_version->0@.len() == 1 || os_version->0@[1] == '.')
        },
        os_issues(os, os_id, os_version).len() <= 1,
{
    reveal_strlit("8");
    if os_version is Some {
        let version = os_version->0@;
        let first = split_seq(version, '.')[0];
        lemma_first_field_of_version(version);
        if first == "8"@ {
            assert(version[0] == first[0]);
        }
        if version.len() > 0 && version[0] == '8' && (version.len() == 1 || version[1] == '.') {
            if first.len() == 0 {
                assert(version[0] == '.');
            }
            assert(first[0] == version[0]);
            if first.len() > 1 {
                assert(first[1] == version[1]);
                assert(first.contains('.')) by {
                    assert(first[1] == '.');
                }
            }
            assert(first =~= "8"@);
        }
    }
}

proof fn lemma_first_field_of_version(version: Seq<char>)
    ensures
        split_seq(version, '.').len() > 0,
        split_seq(version, '.')[0].is_prefix_of(version),
        !split_seq(version, '.')[0].contains('.'),
        split_seq(version, '.').len() > 1 ==> split_seq(version, '.')[0].len() < version.len(),
        split_seq(version, '.')[0].len() < version.len() ==> version[split_seq(
            version,
            '.',
        )[0].len() as int] == '.',
    decreases version.len(),
{
    lemma_split_not_empty(version, '.');
    if version.len() > 0 {
        let front = version.drop_last();
        lemma_first_field_of_version(front);
        let first = split_seq(version, '.')[0];
        let former = split_seq(front, '.')[0];
        let count = split_seq(front, '.').len();
        if version.last() == '.' || count > 1 {
            assert(first == former);
            if count == 1 {
                assert(former == front) by {
                    lemma_only_piece(front);
                }
            }
            if former.len() < front.len() {
                assert(version[former.len() as int] == front[former.len() as int]);
            }
        } else {
            lemma_only_piece(front);
            assert(first == former.push(version.last()));
            assert(first =~= version);
            assert(!first.contains('.')) by {
                if first.contains('.') {
                    let k = choose|k: int| 0 <= k < first.len() && first[k] == '.';
                    assert(former[k] == '.');
                }
            }
        }
    }
}

proof fn lemma_only_piece(text: Seq<char>)
    ensures
        split_seq(text, '.').len() == 1 ==> split_seq(text, '.')[0] == text,
    decreases text.len(),
{
    if text.len() > 0 {
        lemma_only_piece(text.drop_last());
        lemma_split_not_empty(text.drop_last(), '.');
        if split_seq(text, '.').len() == 1 {
            assert(text.drop_last().push(text.last()) =~= text);
        }
    } else {
        assert(text =~= Seq::<char>::empty());
    }
}

/// A host is right exactly where its system is, its machine is an x86-64 and the two
/// numbers of its C library are read and are 2 and at least 28, or more than 2 and
/// anything.
pub proof fn only_a_new_enough_host_is_right(host: HostFacts)
    ensures
        host_issues(host).len() == 0 <==> {
            &&& os_issues(host.os, host.os_id, host.os_version).len() == 0
            &&& host.architecture is Some && host.architecture->0@ == "x86_64"@
            &&& host.glibc is Some && match major_minor(last_word_of(host.glibc->0@)) {
                None => false,
                Some((major, minor)) => major > 2 || (major == 2 && minor >= 28),
            }
        },
{
}

/// A diagnosis finds nothing wrong exactly where the home directory is known, its
/// dotfiles are a directory, the installation is known and each of its places is
/// well, and the shell and the host are right.
pub proof fn a_diagnosis_leaves_nothing_out(found: Findings)
    ensures
        all_issues(found).len() == 0 <==> {
            &&& match found.home {
                Ok((home, Ok(dotfiles), Ok((paths, managed)))) => {
                    &&& dotfiles.kind == FileKind::Directory
                    &&& stands_ready(managed.binary)
                    &&& stands_ready(managed.pixi)
                    &&& stands_ready(managed.zsh)
                    &&& stands_ready(managed.status_binary)
                    &&& points_at(managed.entry, under(paths.eiyah_prefix@, "bin/eiyah"@))
                    &&& points_at(
                        managed.status_entry,
                        under(paths.eiyah_prefix@, "bin/show-cad-status"@),
                    )
                    &&& holds_the_flag(managed.config)
                },
                _ => false,
            }
            &&& shell_issues(found.shell).len() == 0
            &&& host_issues(found.host).len() == 0
        },
{
    match found.home {
        Ok((home, dotfiles, Ok((paths, managed)))) => {
            the_managed_places_are_well(home@, paths, managed);
        },
        _ => {},
    }
}

/// What a diagnosis finds of a place is what the question about that place brought.
pub proof fn a_diagnosis_asks_for_what_it_judges(
    found: Managed,
    home: Seq<u8>,
    paths: ResolvedPaths,
    replies: Seq<Reply>,
    index: int,
)
    requires
        managed_in(found, replies),
        0 <= index < replies.len(),
    ensures
        diagnosis_places(Some(home), Some(paths)).len() == replies.len(),
        ({
            let asked = diagnosis_places(Some(home), Some(paths))[index];
            &&& index == 4 ==> asked == Ask::InspectTarget(
                under(paths.eiyah_prefix@, "bin/eiyah"@),
            )
            &&& index == 5 ==> asked == Ask::ReadLink(under(home, ".local/bin/eiyah"@))
            &&& index == 6 ==> asked == Ask::Read(paths.eiyah_config@)
            &&& index == 7 ==> asked == Ask::InspectTarget(under(paths.pixi_home@, "bin/pixi"@))
            &&& index == 8 ==> asked == Ask::InspectTarget(under(paths.pixi_home@, "bin/zsh"@))
            &&& index == 9 ==> asked == Ask::InspectTarget(
                under(paths.eiyah_prefix@, "bin/show-cad-status"@),
            )
            &&& index == 10 ==> asked == Ask::ReadLink(under(home, ".local/bin/show-cad-status"@))
        }),
        replies[4] is Found ==> found.binary == Ok::<Entry, Fault>(replies[4]->Found_0),
        replies[5] is Contents ==> found.entry is Ok && found.entry->Ok_0@
            == replies[5]->Contents_0@,
        replies[6] is Contents ==> found.config is Ok && found.config->Ok_0@
            == replies[6]->Contents_0@,
        replies[7] is Found ==> found.pixi == Ok::<Entry, Fault>(replies[7]->Found_0),
        replies[8] is Found ==> found.zsh == Ok::<Entry, Fault>(replies[8]->Found_0),
        replies[9] is Found ==> found.status_binary == Ok::<Entry, Fault>(replies[9]->Found_0),
        replies[10] is Contents ==> found.status_entry is Ok && found.status_entry->Ok_0@
            == replies[10]->Contents_0@,
        replies[4] is Failed ==> found.binary is Err,
        replies[5] is Failed ==> found.entry is Err,
        replies[6] is Failed ==> found.config is Err,
        replies[7] is Failed ==> found.pixi is Err,
        replies[8] is Failed ==> found.zsh is Err,
        replies[9] is Failed ==> found.status_binary is Err,
        replies[10] is Failed ==> found.status_entry is Err,
{
}

} // verus!
