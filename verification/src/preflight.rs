//! The conditions under which an installation begins.

use crate::archive::TAR_PATH;
use crate::bytes::{copy_bytes, text_bytes, views};
use crate::checks::{program_problem, validate_expected_executable};
use crate::config::ResolvedPaths;
use crate::failure::{about, earlier, first_failure, is_failure, reports, Failure, Words};
use crate::host::{program_with, run_with_argument, Ask, Entry, Fault, FaultKind, FileKind, Reply};
use crate::host::Request;
use crate::paths::{absolute, components_of, has_parent, is_absolute, parent, parent_of};
use crate::pixi::BASH_PATH;
use crate::script::unanswered;
use crate::survey::{add_request, asked_of, is_silence, no_requests, shows_bytes, shows_entry};
use crate::survey::{take_bytes, take_entry, Survey};
use crate::system::{at_least, last_word, last_word_of, major_minor, os_release_raw};
use crate::system::{os_release_value_from, version_at_least};
use crate::text::{chars_of, concat, decode_text, has_prefix, read_utf8, same_text, utf8_problem};
use vstd::prelude::*;
use vstd::utf8::{decode_utf8, encode_utf8, valid_utf8};

verus! {

/// What was seen of the host.
#[derive(Debug)]
pub struct HostConditions {
    /// What `/etc/os-release` holds.
    pub os_release: Result<Vec<u8>, Fault>,
    pub architecture: String,
    /// Whether `getconf` succeeded, and what it has printed.
    pub glibc: Result<(bool, Vec<u8>), Fault>,
    /// Whether these programs could be started.
    pub curl: bool,
    pub ssh: bool,
    pub ssh_keygen: bool,
    /// What stands at the place of the shell that runs installers.
    pub bash: Result<Entry, Fault>,
    /// What stands at the place of the program that reads archives.
    pub tar: Result<Entry, Fault>,
}

/// What is wrong with the operating system.
pub open spec fn system_problem(contents: Result<Vec<u8>, Fault>) -> Option<Words> {
    match contents {
        Err(fault) => Some((fault.text@, None)),
        Ok(bytes) => if !valid_utf8(bytes@) {
            Some(("stream did not contain valid UTF-8"@, None))
        } else {
            let id = os_release_raw(decode_utf8(bytes@), "ID"@);
            let version = os_release_raw(decode_utf8(bytes@), "VERSION_ID"@);
            if id == Some("almalinux"@) && version is Some && "8."@.is_prefix_of(version->0) {
                None
            } else {
                Some(("Eiyah requires AlmaLinux 8.x"@, None))
            }
        },
    }
}

/// What is wrong with the C library.
pub open spec fn library_problem(glibc: Result<(bool, Vec<u8>), Fault>) -> Option<Words> {
    match glibc {
        Err(fault) => Some((fault.text@, None)),
        Ok((success, output)) => if !valid_utf8(output@) {
            Some((utf8_problem(output@), None))
        } else if success && at_least(major_minor(last_word_of(decode_utf8(output@))), 2, 28) {
            None
        } else {
            Some(("Eiyah requires glibc >= 2.28"@, None))
        },
    }
}

/// What is wrong where a program has to be there.
pub open spec fn command_problem(there: bool, name: Seq<char>) -> Option<Words> {
    if there {
        None
    } else {
        Some(("required command is unavailable: "@ + name, None))
    }
}

/// What is wrong with the host.
pub open spec fn host_problem(home: Seq<u8>, seen: HostConditions) -> Option<Words> {
    earlier(
        if absolute(home) {
            None
        } else {
            Some(("HOME must be an absolute non-empty path"@, None))
        },
        earlier(
            system_problem(seen.os_release),
            earlier(
                if seen.architecture@ == "x86_64"@ {
                    None
                } else {
                    Some(("Eiyah requires x86_64"@, None))
                },
                earlier(
                    library_problem(seen.glibc),
                    earlier(
                        command_problem(seen.curl, "curl"@),
                        earlier(
                            command_problem(seen.ssh, "ssh"@),
                            earlier(
                                command_problem(seen.ssh_keygen, "ssh-keygen"@),
                                earlier(
                                    program_problem(
                                        encode_utf8(BASH_PATH@),
                                        "required command"@,
                                        seen.bash,
                                    ),
                                    program_problem(
                                        encode_utf8(TAR_PATH@),
                                        "required command"@,
                                        seen.tar,
                                    ),
                                ),
                            ),
                        ),
                    ),
                ),
            ),
        ),
    )
}

fn check_home(home: &[u8]) -> (result: Result<(), Failure>)
    ensures
        reports(
            result,
            if absolute(home@) {
                None
            } else {
                Some(("HOME must be an absolute non-empty path"@, None))
            },
        ),
{
    if is_absolute(home) {
        Ok(())
    } else {
        Err(Failure::plain("HOME must be an absolute non-empty path"))
    }
}

fn check_system(contents: &Result<Vec<u8>, Fault>) -> (result: Result<(), Failure>)
    ensures
        reports(result, system_problem(*contents)),
{
    let bytes = match contents {
        Err(fault) => {
            return Err(Failure::plain(&fault.text));
        },
        Ok(bytes) => bytes,
    };
    let text = match decode_text(bytes) {
        None => {
            return Err(Failure::plain("stream did not contain valid UTF-8"));
        },
        Some(text) => text,
    };
    let known = match os_release_value_from(&text, "ID") {
        Some(id) => same_text(&id, "almalinux"),
        None => false,
    };
    let fits = match os_release_value_from(&text, "VERSION_ID") {
        Some(version) => has_prefix(&chars_of(&version), &chars_of("8.")),
        None => false,
    };
    if known && fits {
        Ok(())
    } else {
        Err(Failure::plain("Eiyah requires AlmaLinux 8.x"))
    }
}

fn check_architecture(name: &str) -> (result: Result<(), Failure>)
    ensures
        reports(
            result,
            if name@ == "x86_64"@ {
                None
            } else {
                Some(("Eiyah requires x86_64"@, None))
            },
        ),
{
    if same_text(name, "x86_64") {
        Ok(())
    } else {
        Err(Failure::plain("Eiyah requires x86_64"))
    }
}

fn check_library(glibc: &Result<(bool, Vec<u8>), Fault>) -> (result: Result<(), Failure>)
    ensures
        reports(result, library_problem(*glibc)),
{
    match glibc {
        Err(fault) => Err(Failure::plain(&fault.text)),
        Ok(answer) => match read_utf8(&answer.1) {
            Err(problem) => Err(Failure::plain(&problem)),
            Ok(text) => if answer.0 && version_at_least(&last_word(&text), 2, 28) {
                Ok(())
            } else {
                Err(Failure::plain("Eiyah requires glibc >= 2.28"))
            },
        },
    }
}

fn check_command(there: bool, name: &str) -> (result: Result<(), Failure>)
    ensures
        reports(result, command_problem(there, name@)),
{
    if there {
        Ok(())
    } else {
        Err(Failure::plain(&concat("required command is unavailable: ", name)))
    }
}

/// Checks the host.
pub fn check_host(home: &[u8], seen: &HostConditions) -> (result: Result<(), Failure>)
    ensures
        reports(result, host_problem(home@, *seen)),
{
    let bash = validate_expected_executable(&text_bytes(BASH_PATH), "required command", &seen.bash);
    let tar = validate_expected_executable(&text_bytes(TAR_PATH), "required command", &seen.tar);
    let programs = first_failure(
        check_command(seen.curl, "curl"),
        first_failure(
            check_command(seen.ssh, "ssh"),
            first_failure(
                check_command(seen.ssh_keygen, "ssh-keygen"),
                first_failure(bash, tar),
            ),
        ),
    );
    first_failure(
        check_home(home),
        first_failure(
            check_system(&seen.os_release),
            first_failure(
                check_architecture(&seen.architecture),
                first_failure(check_library(&seen.glibc), programs),
            ),
        ),
    )
}

// --------------------------------------------------
// Directories
// --------------------------------------------------

/// How far the check has come whether a directory can be written to.
#[derive(Debug)]
pub enum WritableCheck {
    /// The nearest place that may be there is looked at.
    Looking { path: Vec<u8> },
    /// It is there; whether it can be written to is tried.
    Trying { path: Vec<u8> },
    Completed,
    Failed(Failure),
}

/// Begins to check whether a directory, or the nearest one above it that is there, can
/// be written to.
pub fn validate_writable_directory(path: &[u8]) -> (check: WritableCheck)
    ensures
        check is Looking,
        check->Looking_path@ == path@,
{
    WritableCheck::Looking { path: copy_bytes(path) }
}

impl WritableCheck {
    pub open spec fn asks(&self) -> Ask {
        match self {
            WritableCheck::Looking { path } => Ask::Inspect(path@),
            WritableCheck::Trying { path } => Ask::CheckAccess(path@),
            WritableCheck::Completed => Ask::Nothing,
            WritableCheck::Failed(_) => Ask::Nothing,
        }
    }

    /// What the check does with a reply.
    pub open spec fn follows(&self, reply: Reply, next: WritableCheck) -> bool {
        match self {
            WritableCheck::Looking { path } => match reply {
                Reply::Found(entry) => if entry.kind == FileKind::Directory {
                    next == (WritableCheck::Trying { path: *path })
                } else {
                    next is Failed && next->Failed_0.says(
                        about("writable path must be a non-symlink directory: "@, path@),
                    )
                },
                Reply::Failed(fault) => if fault.kind == FaultKind::NotFound {
                    if has_parent(path@) {
                        next is Looking && next->Looking_path@ == parent_of(path@) && components_of(next->Looking_path@) == components_of(path@).drop_last()
                    } else {
                        next is Failed && next->Failed_0.says(
                            "writable path has no existing ancestor"@,
                        )
                    }
                } else {
                    next is Failed && next->Failed_0.says(fault.text@)
                },
                _ => next is Failed && next->Failed_0.says(unanswered()),
            },
            WritableCheck::Trying { .. } => match reply {
                Reply::Done => next is Completed,
                Reply::Failed(fault) => next is Failed && next->Failed_0.says(fault.text@),
                _ => next is Failed && next->Failed_0.says(unanswered()),
            },
            _ => next == *self,
        }
    }

    pub fn request(&self) -> (request: Request)
        ensures
            request@ == self.asks(),
    {
        match self {
            WritableCheck::Looking { path } => Request::Inspect(copy_bytes(path)),
            WritableCheck::Trying { path } => Request::CheckAccess(copy_bytes(path)),
            WritableCheck::Completed => Request::Nothing,
            WritableCheck::Failed(_) => Request::Nothing,
        }
    }

    /// Goes on with a reply.
    pub fn advance(self, reply: Reply) -> (next: WritableCheck)
        ensures
            self.follows(reply, next),
    {
        match self {
            WritableCheck::Looking { path } => match reply {
                Reply::Found(entry) => if entry.kind == FileKind::Directory {
                    WritableCheck::Trying { path }
                } else {
                    WritableCheck::Failed(
                        Failure::at("writable path must be a non-symlink directory: ", &path),
                    )
                },
                Reply::Failed(fault) => if fault.kind == FaultKind::NotFound {
                    match parent(&path) {
                        Some(above) => WritableCheck::Looking { path: above },
                        None => WritableCheck::Failed(
                            Failure::plain("writable path has no existing ancestor"),
                        ),
                    }
                } else {
                    WritableCheck::Failed(Failure::plain(&fault.text))
                },
                _ => WritableCheck::Failed(Failure::plain("unexpected reply")),
            },
            WritableCheck::Trying { .. } => match reply {
                Reply::Done => WritableCheck::Completed,
                Reply::Failed(fault) => WritableCheck::Failed(Failure::plain(&fault.text)),
                _ => WritableCheck::Failed(Failure::plain("unexpected reply")),
            },
            other => other,
        }
    }
}

/// The search for a directory that is there goes up, one step at a time, and so ends:
/// with each step the path has one component less. Nothing passes untried.
pub proof fn the_search_ends(check: WritableCheck, reply: Reply, next: WritableCheck)
    requires
        check is Looking,
        check.follows(reply, next),
    ensures
        next is Looking ==> components_of(next->Looking_path@).len() == components_of(
            check->Looking_path@,
        ).len() - 1,
        !(next is Completed),
{
}

/// How far the check of the conditions has come.
#[derive(Debug)]
pub enum Preflight {
    /// A directory is checked; these are to be checked after it, the last one first.
    Checking { check: WritableCheck, rest: Vec<Vec<u8>> },
    Completed,
    Failed(Failure),
}

/// Whether the check of the directories begins, once the host is known to be the right
/// one.
pub open spec fn preflight_begins(
    paths: ResolvedPaths,
    home: Seq<u8>,
    seen: HostConditions,
    preflight: Preflight,
) -> bool {
    match host_problem(home, seen) {
        Some(words) => preflight is Failed && is_failure(preflight->Failed_0, words),
        None => {
            &&& preflight is Checking
            &&& preflight->check is Looking
            &&& preflight->check->Looking_path@ == home
            &&& views(preflight->rest@) == seq![
                paths.state_home@,
                paths.data_home@,
                paths.config_home@,
            ]
        },
    }
}

/// Begins to check the directories, once the host is known to be the right one.
pub fn install_preflight(paths: &ResolvedPaths, home: &[u8], seen: &HostConditions) -> (preflight:
    Preflight)
    ensures
        preflight_begins(*paths, home@, *seen, preflight),
{
    match check_host(home, seen) {
        Err(failure) => Preflight::Failed(failure),
        Ok(()) => {
            let mut rest: Vec<Vec<u8>> = Vec::new();
            rest.push(copy_bytes(&paths.state_home));
            rest.push(copy_bytes(&paths.data_home));
            rest.push(copy_bytes(&paths.config_home));
            assert(views(rest@) =~= seq![
                paths.state_home@,
                paths.data_home@,
                paths.config_home@,
            ]);
            Preflight::Checking { check: validate_writable_directory(home), rest }
        },
    }
}

/// What the host is asked before an installation.
pub open spec fn host_questions() -> Seq<Ask> {
    seq![
        Ask::Read(encode_utf8("/etc/os-release"@)),
        Ask::Capture(program_with(encode_utf8("getconf"@), "GNU_LIBC_VERSION"@)),
        Ask::Capture(program_with(encode_utf8("curl"@), "--version"@)),
        Ask::Capture(program_with(encode_utf8("ssh"@), "-V"@)),
        Ask::Capture(program_with(encode_utf8("ssh-keygen"@), "-V"@)),
        Ask::Inspect(encode_utf8(BASH_PATH@)),
        Ask::Inspect(encode_utf8(TAR_PATH@)),
    ]
}

/// Asks the host what it is.
pub fn host_survey() -> (survey: Survey)
    ensures
        survey.begins(host_questions()),
{
    let mut requests = no_requests();
    add_request(&mut requests, Request::Read(text_bytes("/etc/os-release")));
    add_request(
        &mut requests,
        Request::Capture(run_with_argument(&text_bytes("getconf"), "GNU_LIBC_VERSION")),
    );
    add_request(
        &mut requests,
        Request::Capture(run_with_argument(&text_bytes("curl"), "--version")),
    );
    add_request(&mut requests, Request::Capture(run_with_argument(&text_bytes("ssh"), "-V")));
    add_request(
        &mut requests,
        Request::Capture(run_with_argument(&text_bytes("ssh-keygen"), "-V")),
    );
    add_request(&mut requests, Request::Inspect(text_bytes(BASH_PATH)));
    add_request(&mut requests, Request::Inspect(text_bytes(TAR_PATH)));
    assert(asked_of(requests@) =~= host_questions());
    Survey::new(requests)
}

/// Whether this is how a program has ended and what it has printed.
pub open spec fn shows_answer(reply: Reply, answer: Result<(bool, Vec<u8>), Fault>) -> bool {
    match reply {
        Reply::Exited { success, output, .. } => answer == Ok::<(bool, Vec<u8>), Fault>(
            (success, output),
        ),
        Reply::Failed(fault) => answer == Err::<(bool, Vec<u8>), Fault>(fault),
        _ => answer is Err && is_silence(answer->Err_0),
    }
}

/// Whether this was seen of the host.
pub open spec fn conditions_in(seen: HostConditions, replies: Seq<Reply>) -> bool {
    &&& replies.len() == 7
    &&& shows_bytes(replies[0], seen.os_release)
    &&& shows_answer(replies[1], seen.glibc)
    &&& seen.curl == (replies[2] is Exited)
    &&& seen.ssh == (replies[3] is Exited)
    &&& seen.ssh_keygen == (replies[4] is Exited)
    &&& shows_entry(replies[5], seen.bash)
    &&& shows_entry(replies[6], seen.tar)
}

fn take_answer(replies: &mut Vec<Reply>) -> (answer: Result<(bool, Vec<u8>), Fault>)
    requires
        old(replies)@.len() > 0,
    ensures
        shows_answer(old(replies)@.last(), answer),
        final(replies)@ == old(replies)@.drop_last(),
{
    match replies.pop() {
        Some(Reply::Exited { success, output, .. }) => Ok((success, output)),
        Some(Reply::Failed(fault)) => Err(fault),
        _ => Err(Fault { kind: FaultKind::Other, text: "unexpected reply".to_owned() }),
    }
}

fn take_start(replies: &mut Vec<Reply>) -> (started: bool)
    requires
        old(replies)@.len() > 0,
    ensures
        started == (old(replies)@.last() is Exited),
        final(replies)@ == old(replies)@.drop_last(),
{
    match replies.pop() {
        Some(Reply::Exited { .. }) => true,
        _ => false,
    }
}

/// Whether the check of the directories begins, by what was seen of the host.
pub open spec fn preflight_judged(
    paths: ResolvedPaths,
    home: Seq<u8>,
    architecture: String,
    replies: Seq<Reply>,
    preflight: Preflight,
) -> bool {
    if replies.len() == 7 {
        exists|seen: HostConditions| #[trigger]
            conditions_in(seen, replies) && seen.architecture == architecture && preflight_begins(
                paths,
                home,
                seen,
                preflight,
            )
    } else {
        preflight is Failed && preflight->Failed_0.says(unanswered())
    }
}

/// Begins to check the directories, once the host is known to be the right one by what
/// it has answered.
pub fn begin_preflight(
    paths: &ResolvedPaths,
    home: &[u8],
    architecture: String,
    survey: Survey,
) -> (preflight: Preflight)
    ensures
        preflight_judged(*paths, home@, architecture, survey.replies@, preflight),
{
    if survey.replies.len() != 7 {
        return Preflight::Failed(Failure::plain("unexpected reply"));
    }
    let mut replies = survey.replies;
    let tar = take_entry(&mut replies);
    let bash = take_entry(&mut replies);
    let ssh_keygen = take_start(&mut replies);
    let ssh = take_start(&mut replies);
    let curl = take_start(&mut replies);
    let glibc = take_answer(&mut replies);
    let os_release = take_bytes(&mut replies);
    let seen = HostConditions {
        os_release,
        architecture,
        glibc,
        curl,
        ssh,
        ssh_keygen,
        bash,
        tar,
    };
    assert(conditions_in(seen, survey.replies@));
    install_preflight(paths, home, &seen)
}

impl Preflight {
    pub open spec fn asks(&self) -> Ask {
        match self {
            Preflight::Checking { check, .. } => check.asks(),
            Preflight::Completed => Ask::Nothing,
            Preflight::Failed(_) => Ask::Nothing,
        }
    }

    /// What the check does with a reply: the directories are checked one after the
    /// other, and all have to pass.
    pub open spec fn follows(&self, reply: Reply, next: Preflight) -> bool {
        match self {
            Preflight::Checking { check, rest } => exists|step: WritableCheck| #[trigger]
                check.follows(reply, step) && match step {
                    WritableCheck::Completed => if rest@.len() == 0 {
                        next is Completed
                    } else {
                        &&& next is Checking
                        &&& next->check is Looking
                        &&& next->check->Looking_path@ == rest@.last()@
                        &&& next->rest@ == rest@.drop_last()
                    },
                    WritableCheck::Failed(failure) => next == Preflight::Failed(failure),
                    _ => next == (Preflight::Checking { check: step, rest: *rest }),
                },
            _ => next == *self,
        }
    }

    pub fn request(&self) -> (request: Request)
        ensures
            request@ == self.asks(),
    {
        match self {
            Preflight::Checking { check, .. } => check.request(),
            Preflight::Completed => Request::Nothing,
            Preflight::Failed(_) => Request::Nothing,
        }
    }

    /// Goes on with a reply.
    pub fn advance(self, reply: Reply) -> (next: Preflight)
        ensures
            self.follows(reply, next),
    {
        match self {
            Preflight::Checking { check, rest } => {
                let step = check.advance(reply);
                assert(check.follows(reply, step));
                match step {
                    WritableCheck::Completed => {
                        let mut rest = rest;
                        match rest.pop() {
                            None => Preflight::Completed,
                            Some(path) => Preflight::Checking {
                                check: WritableCheck::Looking { path },
                                rest,
                            },
                        }
                    },
                    WritableCheck::Failed(failure) => Preflight::Failed(failure),
                    step => Preflight::Checking { check: step, rest },
                }
            },
            other => other,
        }
    }
}

} // verus!
