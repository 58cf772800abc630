//! Updating the program to the latest release.

use crate::bytes::copy_bytes;
use crate::config::ResolvedPaths;
use crate::failure::{about, is_failure, message_at, reports, Failure, Words};
use crate::host::{program_with, run_with_argument, Ask, Fault, FaultKind, FileKind, Reply, Request};
use crate::installed::{load_installed_paths, Lookup};
use crate::paths::{join_text, under};
use crate::release::{assets_named, digest_problem, files_problem, is_at_most, is_https};
use crate::release::{parse_checksum, parse_version, plain_version, refuses_tag, release_info};
use crate::release::{require_https_url, semver_at_most, semver_problem, semver_valid};
use crate::release::{stated_digest, tag_version, validate_release_version, Release, ReleaseAsset};
use crate::release::{ReleaseInfo, BINARY_ASSET_NAME, CHECKSUM_ASSET_NAME};
use crate::script::{add_step, bare_deed, bare_step, deed, no_steps, step, step_views, tells};
use crate::script::{unanswered, Check, Cleanup, Demand, Phase, Progress, Script, Step, StepView};
use crate::script::Tidy;
use crate::text::{chars_of, concat, lemma_ascii_bytes, lossy_text, read_utf8, same_text};
use crate::text::{show_bytes, text_of, trim, trimmed, utf8_problem};
use crate::ui::{plain_error, UserFacingError};
use vstd::prelude::*;
use vstd::utf8::{decode_utf8, encode_utf8, valid_utf8};

verus! {

/// The name of the program while it is being downloaded.
pub const CANDIDATE_FILE_NAME: &'static str = ".eiyah.new";

/// The permissions of the program while it is being downloaded.
pub const CANDIDATE_DOWNLOAD_MODE: u32 = 0o600;

/// The permissions of the program.
pub const CANDIDATE_EXECUTABLE_MODE: u32 = 0o755;

// --------------------------------------------------
// The program's own version
// --------------------------------------------------

/// What is wrong with the answer of a program that was asked for its version.
pub open spec fn version_answer(path: Seq<u8>, version: Seq<char>, reply: Reply) -> Option<
    (Seq<char>, Option<Seq<char>>),
> {
    match reply {
        Reply::Failed(fault) => Some((about("failed to execute "@, path), Some(fault.text@))),
        Reply::Exited { success, output, .. } => if !success {
            Some((about("Eiyah version validation failed: "@, path), None))
        } else if !valid_utf8(output@) {
            Some(("Eiyah version output is not valid UTF-8"@, Some(utf8_problem(output@))))
        } else if trimmed(decode_utf8(output@)) != "eiyah "@ + version {
            Some(
                (
                    about("unexpected Eiyah version output from "@, path) + ": "@ + trimmed(
                        decode_utf8(output@),
                    ),
                    None,
                ),
            )
        } else {
            None
        },
        _ => Some((unanswered(), None)),
    }
}

/// Checks the answer of a program that was asked for its version.
pub fn validate_eiyah_binary(path: &[u8], version: &str, reply: Reply) -> (result: Result<
    (),
    Failure,
>)
    ensures
        match version_answer(path@, version@, reply) {
            None => result is Ok,
            Some(words) => result is Err && is_failure(result->Err_0, words),
        },
{
    match reply {
        Reply::Failed(fault) => Err(Failure::caused_at("failed to execute ", path, &fault.text)),
        Reply::Exited { success, output, .. } => {
            if !success {
                return Err(Failure::at("Eiyah version validation failed: ", path));
            }
            let text = match read_utf8(&output) {
                Err(problem) => {
                    return Err(
                        Failure::caused("Eiyah version output is not valid UTF-8", &problem),
                    );
                },
                Ok(text) => text,
            };
            let chars = chars_of(&text);
            let shown = text_of(trim(&chars));
            if !same_text(&shown, &concat("eiyah ", version)) {
                let mut message = message_at("unexpected Eiyah version output from ", path);
                message.append(": ");
                message.append(&shown);
                return Err(Failure::plain(&message));
            }
            Ok(())
        },
        _ => Err(Failure::plain("unexpected reply")),
    }
}

// --------------------------------------------------
// The steps
// --------------------------------------------------

/// The notice with the versions.
pub open spec fn notice_steps(blank: bool, current: Seq<char>, latest: Seq<char>) -> Seq<StepView> {
    seq![
        bare_deed(
            if blank {
                Ask::Heading("Checking for Eiyah updates"@)
            } else {
                Ask::FirstHeading("Checking for Eiyah updates"@)
            },
        ),
        bare_deed(Ask::Detail("Current: "@ + current)),
        bare_deed(Ask::Detail("Latest:  "@ + latest)),
    ]
}

/// The notice that nothing has to be done.
pub open spec fn current_steps(blank: bool, current: Seq<char>, latest: Seq<char>) -> Seq<StepView> {
    notice_steps(blank, current, latest) + seq![
        bare_deed(Ask::Detail(""@)),
        bare_deed(Ask::Detail("Eiyah is already up to date."@)),
    ]
}

/// The notice of a download, and the look at the program that will be replaced.
pub open spec fn opening_steps(version: Seq<char>, url: Seq<char>, installed: Seq<u8>) -> Seq<
    StepView,
> {
    seq![
        bare_deed(Ask::Heading("Downloading Eiyah "@ + version)),
        bare_deed(Ask::Detail(url)),
        step(
            Ask::Inspect(installed),
            Demand::Executable,
            about("installed Eiyah binary is unavailable: "@, installed),
            about("installed Eiyah binary must be a regular executable file: "@, installed),
        ),
    ]
}

/// The download of the program.
pub open spec fn download_steps(url: Seq<char>, candidate: Seq<u8>) -> Seq<StepView> {
    seq![
        deed(Ask::Get(url), "failed to download "@ + url),
        deed(
            Ask::CreateFile { path: candidate, mode: CANDIDATE_DOWNLOAD_MODE },
            about("failed to create downloaded Eiyah "@, candidate),
        ),
        deed(Ask::SaveBody(candidate), about("failed to write downloaded Eiyah "@, candidate)),
        bare_deed(Ask::SyncOpen(candidate)),
    ]
}

/// The check of the download, and what makes it a program.
pub open spec fn verifying_steps(candidate: Seq<u8>, digest: Seq<u8>) -> Seq<StepView> {
    seq![
        deed(Ask::Open(candidate), about("failed to open candidate "@, candidate)),
        bare_step(
            Ask::ReadOpened(candidate),
            Demand::Digest(digest),
            "downloaded Eiyah checksum does not match"@,
        ),
        bare_deed(Ask::Heading("Verifying Eiyah download"@)),
        bare_deed(Ask::Detail("SHA-256: verified"@)),
        bare_step(Ask::Inspect(candidate), Demand::Exists, unanswered()),
        bare_deed(Ask::SetMode { path: candidate, mode: CANDIDATE_EXECUTABLE_MODE }),
        bare_deed(Ask::Sync(candidate)),
    ]
}

/// The replacement of the program.
pub open spec fn replacing_steps(candidate: Seq<u8>, installed: Seq<u8>) -> Seq<StepView> {
    seq![
        bare_deed(Ask::Heading("Updating Eiyah"@)),
        bare_deed(Ask::Detail(lossy_text(installed))),
        bare_deed(Ask::Rename { source: candidate, destination: installed }),
    ]
}

/// The notice that the update is done.
pub open spec fn closing_steps(version: Seq<char>) -> Seq<StepView> {
    seq![bare_deed(Ask::Heading("Eiyah updated to "@ + version))]
}

fn notice(blank: bool, current: &str, latest: &str) -> (steps: Vec<Step>)
    ensures
        step_views(steps@) == notice_steps(blank, current@, latest@),
{
    let mut steps = no_steps();
    let heading = if blank {
        Request::Heading("Checking for Eiyah updates".to_owned())
    } else {
        Request::FirstHeading("Checking for Eiyah updates".to_owned())
    };
    add_step(&mut steps, Step::bare_deed(heading));
    add_step(&mut steps, Step::bare_deed(Request::Detail(concat("Current: ", current))));
    add_step(&mut steps, Step::bare_deed(Request::Detail(concat("Latest:  ", latest))));
    assert(step_views(steps@) =~= notice_steps(blank, current@, latest@));
    steps
}

fn current_notice(blank: bool, current: &str, latest: &str) -> (steps: Vec<Step>)
    ensures
        step_views(steps@) == current_steps(blank, current@, latest@),
{
    let mut steps = notice(blank, current, latest);
    add_step(&mut steps, Step::bare_deed(Request::Detail("".to_owned())));
    add_step(
        &mut steps,
        Step::bare_deed(Request::Detail("Eiyah is already up to date.".to_owned())),
    );
    assert(step_views(steps@) =~= current_steps(blank, current@, latest@));
    steps
}

fn opening(version: &str, url: &str, installed: &[u8]) -> (script: Script)
    ensures
        script.begins(opening_steps(version@, url@, installed@), Tidy::Nothing),
{
    let mut steps = no_steps();
    add_step(&mut steps, Step::bare_deed(Request::Heading(concat("Downloading Eiyah ", version))));
    add_step(&mut steps, Step::bare_deed(Request::Detail(url.to_owned())));
    add_step(
        &mut steps,
        Step::new(
            Request::Inspect(copy_bytes(installed)),
            Check::Executable,
            message_at("installed Eiyah binary is unavailable: ", installed),
            message_at("installed Eiyah binary must be a regular executable file: ", installed),
        ),
    );
    assert(step_views(steps@) =~= opening_steps(version@, url@, installed@));
    Script::new(steps, Cleanup::Nothing)
}

/// Downloads a public file to a path that must be free; an address that is not one
/// of HTTPS is refused. The file is removed after a failure.
pub fn download_to_file(url: &str, path: &[u8]) -> (result: Result<Script, Failure>)
    ensures
        result is Ok <==> is_https(url@),
        result is Ok ==> result->Ok_0.begins(
            download_steps(url@, path@),
            Tidy::From { remove: Ask::RemoveFile(path@), step: 0 },
        ),
        result is Err ==> result->Err_0.says("Release asset URL must use HTTPS: "@ + url@),
{
    match require_https_url(url) {
        Err(failure) => {
            return Err(failure);
        },
        Ok(()) => {},
    }
    let mut steps = no_steps();
    add_step(
        &mut steps,
        Step::deed(Request::Get(url.to_owned()), concat("failed to download ", url)),
    );
    add_step(
        &mut steps,
        Step::deed(
            Request::CreateFile { path: copy_bytes(path), mode: CANDIDATE_DOWNLOAD_MODE },
            message_at("failed to create downloaded Eiyah ", path),
        ),
    );
    add_step(
        &mut steps,
        Step::deed(
            Request::SaveBody(copy_bytes(path)),
            message_at("failed to write downloaded Eiyah ", path),
        ),
    );
    add_step(&mut steps, Step::bare_deed(Request::SyncOpen(copy_bytes(path))));
    assert(step_views(steps@) =~= download_steps(url@, path@));
    Ok(Script::new(steps, Cleanup::From { remove: Request::RemoveFile(copy_bytes(path)), step: 0 }))
}

fn verifying(candidate: &[u8], digest: Vec<u8>) -> (script: Script)
    ensures
        script.begins(
            verifying_steps(candidate@, digest@),
            Tidy::From { remove: Ask::RemoveFile(candidate@), step: 0 },
        ),
{
    let ghost wanted = digest@;
    let mut steps = no_steps();
    add_step(
        &mut steps,
        Step::deed(
            Request::Open(copy_bytes(candidate)),
            message_at("failed to open candidate ", candidate),
        ),
    );
    add_step(
        &mut steps,
        Step::bare(
            Request::ReadOpened(copy_bytes(candidate)),
            Check::Digest(digest),
            "downloaded Eiyah checksum does not match".to_owned(),
        ),
    );
    add_step(
        &mut steps,
        Step::bare_deed(Request::Heading("Verifying Eiyah download".to_owned())),
    );
    add_step(&mut steps, Step::bare_deed(Request::Detail("SHA-256: verified".to_owned())));
    add_step(
        &mut steps,
        Step::bare(
            Request::Inspect(copy_bytes(candidate)),
            Check::Exists,
            "unexpected reply".to_owned(),
        ),
    );
    add_step(
        &mut steps,
        Step::bare_deed(
            Request::SetMode { path: copy_bytes(candidate), mode: CANDIDATE_EXECUTABLE_MODE },
        ),
    );
    add_step(&mut steps, Step::bare_deed(Request::Sync(copy_bytes(candidate))));
    assert(step_views(steps@) =~= verifying_steps(candidate@, wanted));
    Script::new(
        steps,
        Cleanup::From { remove: Request::RemoveFile(copy_bytes(candidate)), step: 0 },
    )
}

fn replacing(candidate: &[u8], installed: &[u8]) -> (script: Script)
    ensures
        script.begins(
            replacing_steps(candidate@, installed@),
            Tidy::From { remove: Ask::RemoveFile(candidate@), step: 2 },
        ),
{
    let mut steps = no_steps();
    add_step(&mut steps, Step::bare_deed(Request::Heading("Updating Eiyah".to_owned())));
    add_step(&mut steps, Step::bare_deed(Request::Detail(show_bytes(installed))));
    add_step(
        &mut steps,
        Step::bare_deed(
            Request::Rename { source: copy_bytes(candidate), destination: copy_bytes(installed) },
        ),
    );
    assert(step_views(steps@) =~= replacing_steps(candidate@, installed@));
    Script::new(
        steps,
        Cleanup::From { remove: Request::RemoveFile(copy_bytes(candidate)), step: 2 },
    )
}

fn closing(version: &str) -> (script: Script)
    ensures
        script.begins(closing_steps(version@), Tidy::Nothing),
{
    let mut steps = no_steps();
    add_step(&mut steps, Step::bare_deed(Request::Heading(concat("Eiyah updated to ", version))));
    assert(step_views(steps@) =~= closing_steps(version@));
    Script::new(steps, Cleanup::Nothing)
}

// --------------------------------------------------
// The update
// --------------------------------------------------

/// How far an update has come.
#[derive(Debug)]
pub enum UpdatePhase {
    /// The versions are shown; behind that the release may turn out to be unusable.
    Noticing { script: Script, refusal: Option<Failure> },
    /// The program that will be replaced is looked at.
    Opening(Script),
    /// What stands at the place of the download is looked at.
    Looking,
    /// An old download is removed.
    Clearing,
    /// The program is downloaded.
    Downloading(Script),
    /// The digest of the program is downloaded.
    Summing,
    /// The digest of the program is read.
    Loading,
    /// The download is checked.
    Verifying(Script),
    /// The downloaded program is asked for its version.
    Trying,
    /// The program is replaced.
    Replacing(Script),
    /// The new program is asked for its version.
    Confirming,
    /// That the update is done is shown.
    Closing(Script),
    /// The download is removed after this failure.
    Tidying(Failure),
    Completed,
    Failed(UserFacingError),
}

/// An update of the program.
#[derive(Debug)]
pub struct Update {
    pub installed: Vec<u8>,
    pub candidate: Vec<u8>,
    /// The release to be installed, where there is something to do.
    pub release: Option<ReleaseInfo>,
    pub phase: UpdatePhase,
}

/// What an update does with the latest release: nothing where the installed version
/// is at least as late. A release that is newer but unusable is refused once the
/// versions have been shown.
pub open spec fn update_begins(
    paths: ResolvedPaths,
    blank: bool,
    current: Seq<char>,
    release: Release,
    latest: Seq<char>,
    update: Update,
) -> bool {
    &&& update.installed@ == under(under(paths.eiyah_prefix@, "bin"@), "eiyah"@)
    &&& update.candidate@ == under(under(paths.eiyah_prefix@, "bin"@), CANDIDATE_FILE_NAME@)
    &&& update.phase is Noticing
    &&& if semver_at_most(latest, current) {
        &&& update.release is None
        &&& update.phase->refusal is None
        &&& update.phase->Noticing_script.begins(
            current_steps(blank, current, latest),
            Tidy::Nothing,
        )
    } else {
        &&& update.phase->Noticing_script.begins(notice_steps(blank, current, latest), Tidy::Nothing)
        &&& match files_problem(release.assets@) {
            Some(words) => {
                &&& update.release is None
                &&& update.phase->refusal is Some
                &&& update.phase->refusal->0.says(words)
            },
            None => {
                &&& update.phase->refusal is None
                &&& update.release is Some
                &&& update.release->0.version@ == latest
                &&& update.release->0.binary_url@ == assets_named(
                    release.assets@,
                    BINARY_ASSET_NAME@,
                )[0]
                &&& update.release->0.checksum_url@ == assets_named(
                    release.assets@,
                    CHECKSUM_ASSET_NAME@,
                )[0]
                &&& is_https(update.release->0.binary_url@)
                &&& is_https(update.release->0.checksum_url@)
            },
        }
    }
}

/// Whether an update begins this way, with the release that the server calls the latest.
pub open spec fn update_answered(
    paths: ResolvedPaths,
    blank: bool,
    current: Seq<char>,
    release: Release,
    result: Result<Update, Failure>,
) -> bool {
    if !semver_valid(current) {
        result is Err && result->Err_0.blames(
            "current package version is invalid"@,
            semver_problem(current)->0,
        )
    } else if release.draft {
        result is Err && result->Err_0.says("latest Eiyah release is a draft"@)
    } else if release.prerelease {
        result is Err && result->Err_0.says("latest Eiyah release is a prerelease"@)
    } else {
        match tag_version(release.tag_name@) {
            None => result is Err && refuses_tag(release.tag_name@, result->Err_0),
            Some(latest) => result is Ok && update_begins(
                paths,
                blank,
                current,
                release,
                latest,
                result->Ok_0,
            ),
        }
    }
}

/// Whether versions of three numbers were compared by the first number that differs:
/// there is something to be done exactly where the latest one is greater.
pub open spec fn compares_numbers(
    current: Seq<char>,
    release: Release,
    result: Result<Update, Failure>,
) -> bool {
    match (plain_version(current), plain_version(release.tag_name@.skip(1))) {
        (Some(old), Some(new)) => {
            !release.draft && !release.prerelease && release.tag_name@.len() > 1
                && release.tag_name@[0] == 'v' ==> result is Ok && result->Ok_0.phase is Noticing
                && {
                let greater = if new.0 != old.0 {
                    new.0 > old.0
                } else if new.1 != old.1 {
                    new.1 > old.1
                } else {
                    new.2 > old.2
                };
                (result->Ok_0.release is Some || result->Ok_0.phase->refusal is Some) <==> greater
            }
        },
        _ => true,
    }
}

/// Begins an update, with the release that the server calls the latest.
pub fn update_locked(paths: &ResolvedPaths, leading_blank: bool, current: &str, release: Release) -> (
result: Result<Update, Failure>)
    ensures
        update_answered(*paths, leading_blank, current@, release, result),
        compares_numbers(current@, release, result),
{
    match parse_version(current) {
        Err(problem) => {
            return Err(Failure::caused("current package version is invalid", &problem));
        },
        Ok(_) => {},
    }
    assert(release.tag_name@.len() > 0 ==> release.tag_name@.drop_first() =~= release.tag_name@.skip(1));
    let latest = match validate_release_version(&release) {
        Err(failure) => {
            return Err(failure);
        },
        Ok(latest) => latest,
    };
    let directory = join_text(&paths.eiyah_prefix, "bin");
    let installed = join_text(&directory, "eiyah");
    let candidate = join_text(&directory, CANDIDATE_FILE_NAME);
    if is_at_most(&latest, current) {
        let script = Script::new(
            current_notice(leading_blank, current, &latest),
            Cleanup::Nothing,
        );
        return Ok(
            Update {
                installed,
                candidate,
                release: None,
                phase: UpdatePhase::Noticing { script, refusal: None },
            },
        );
    }
    let script = Script::new(notice(leading_blank, current, &latest), Cleanup::Nothing);
    match release_info(release, latest) {
        Err(failure) => Ok(
            Update {
                installed,
                candidate,
                release: None,
                phase: UpdatePhase::Noticing { script, refusal: Some(failure) },
            },
        ),
        Ok(info) => Ok(
            Update {
                installed,
                candidate,
                release: Some(info),
                phase: UpdatePhase::Noticing { script, refusal: None },
            },
        ),
    }
}

/// Begins to download text; an address that is not one of HTTPS is refused.
pub fn download_text(url: &str) -> (result: Result<Request, Failure>)
    ensures
        result is Ok <==> is_https(url@),
        result is Ok ==> result->Ok_0@ == Ask::Get(url@),
        result is Err ==> result->Err_0.says("Release asset URL must use HTTPS: "@ + url@),
{
    match require_https_url(url) {
        Err(failure) => Err(failure),
        Ok(()) => Ok(Request::Get(url.to_owned())),
    }
}

/// Why a download has not begun.
pub open spec fn download_problem(url: Seq<char>, reply: Reply) -> Option<Words> {
    match reply {
        Reply::Done => None,
        Reply::Failed(fault) => Some(("failed to download "@ + url, Some(fault.text@))),
        _ => Some((unanswered(), None)),
    }
}

/// Why a download was not read as text.
pub open spec fn reading_problem(url: Seq<char>, reply: Reply) -> Option<Words> {
    match reply {
        Reply::Text(_) => None,
        Reply::Failed(fault) => Some(("failed to read "@ + url, Some(fault.text@))),
        _ => Some((unanswered(), None)),
    }
}

/// Whether a download has begun.
pub fn began_download(url: &str, reply: Reply) -> (result: Result<(), Failure>)
    ensures
        reports(result, download_problem(url@, reply)),
{
    match reply {
        Reply::Done => Ok(()),
        Reply::Failed(fault) => Err(
            Failure::caused(&concat("failed to download ", url), &fault.text),
        ),
        _ => Err(Failure::plain("unexpected reply")),
    }
}

/// The text that was downloaded.
pub fn downloaded_text(url: &str, reply: Reply) -> (result: Result<String, Failure>)
    ensures
        match reading_problem(url@, reply) {
            None => result is Ok && result->Ok_0@ == reply->Text_0@,
            Some(words) => result is Err && is_failure(result->Err_0, words),
        },
{
    match reply {
        Reply::Text(text) => Ok(text),
        Reply::Failed(fault) => Err(Failure::caused(&concat("failed to read ", url), &fault.text)),
        _ => Err(Failure::plain("unexpected reply")),
    }
}

/// What is said of a checksum file that states no digest of the program.
pub open spec fn checksum_problem(text: Seq<char>) -> Seq<char> {
    digest_problem(
        encode_utf8(text),
        BINARY_ASSET_NAME@,
        "invalid checksum file format"@,
        "checksum must be lowercase SHA-256 hexadecimal"@,
    )
}

/// The warning that goes with a new program that does not work.
pub open spec fn replaced_error(error: UserFacingError, version: Seq<char>) -> bool {
    &&& error.message@ == "Eiyah validation failed after updating to "@ + version + "."@
    &&& error.warnings@.len() == 1
    &&& error.warnings@[0]@ == "Eiyah "@ + version
        + " is already installed and was not reverted."@
    &&& error.hints@.len() == 0
}

impl Update {
    pub open spec fn asks(&self) -> Ask {
        match self.phase {
            UpdatePhase::Noticing { script, .. } => script.asks(),
            UpdatePhase::Opening(script) => script.asks(),
            UpdatePhase::Looking => Ask::Inspect(self.candidate@),
            UpdatePhase::Clearing => Ask::RemoveFile(self.candidate@),
            UpdatePhase::Downloading(script) => script.asks(),
            UpdatePhase::Summing => Ask::Get(self.checksum_address()),
            UpdatePhase::Loading => Ask::ReadText,
            UpdatePhase::Verifying(script) => script.asks(),
            UpdatePhase::Trying => Ask::Capture(program_with(self.candidate@, "--version"@)),
            UpdatePhase::Replacing(script) => script.asks(),
            UpdatePhase::Confirming => Ask::Capture(program_with(self.installed@, "--version"@)),
            UpdatePhase::Closing(script) => script.asks(),
            UpdatePhase::Tidying(_) => Ask::RemoveFile(self.candidate@),
            UpdatePhase::Completed => Ask::Nothing,
            UpdatePhase::Failed(_) => Ask::Nothing,
        }
    }

    /// Where the digest of the program lies.
    pub open spec fn checksum_address(&self) -> Seq<char> {
        match self.release {
            Some(info) => info.checksum_url@,
            None => ""@,
        }
    }

    /// What follows once the versions have been shown.
    pub open spec fn after_notice(&self, refusal: Option<Failure>, next: UpdatePhase) -> bool {
        match refusal {
            Some(failure) => next is Failed && plain_error(next->Failed_0, failure.line()),
            None => match self.release {
                None => next is Completed,
                Some(info) => next is Opening && next->Opening_0.begins(
                    opening_steps(info.version@, info.binary_url@, self.installed@),
                    Tidy::Nothing,
                ),
            },
        }
    }

    /// What follows once the place of the download is free.
    pub open spec fn after_clearing(&self, next: UpdatePhase) -> bool {
        match self.release {
            None => next is Completed,
            Some(info) => if is_https(info.binary_url@) {
                next is Downloading && next->Downloading_0.begins(
                    download_steps(info.binary_url@, self.candidate@),
                    Tidy::From { remove: Ask::RemoveFile(self.candidate@), step: 0 },
                )
            } else {
                next is Tidying && next->Tidying_0.says(
                    "Release asset URL must use HTTPS: "@ + info.binary_url@,
                )
            },
        }
    }

    /// What follows once the program was downloaded.
    pub open spec fn after_download(&self, next: UpdatePhase) -> bool {
        if is_https(self.checksum_address()) {
            next is Summing
        } else {
            next is Tidying && next->Tidying_0.says(
                "Release asset URL must use HTTPS: "@ + self.checksum_address(),
            )
        }
    }

    /// What a script leads to: the phase that holds it while it is under way, the
    /// next phase when it is complete, and its failure.
    pub open spec fn script_leads(
        &self,
        script: Script,
        reply: Reply,
        next: UpdatePhase,
        going: UpdatePhase,
        completed: bool,
    ) -> bool {
        match script.after(reply).phase {
            Phase::Completed => completed,
            Phase::Failed { step, fault } => next is Failed && exists|failure: Failure| #[trigger]
                tells(step_views(script.steps@), step as int, fault, failure) && plain_error(
                    next->Failed_0,
                    failure.line(),
                ),
            _ => next == going,
        }
    }

    /// What an update does with a reply.
    pub open spec fn follows(&self, reply: Reply, next: UpdatePhase) -> bool {
        match self.phase {
            UpdatePhase::Noticing { script, refusal } => self.script_leads(
                script,
                reply,
                next,
                UpdatePhase::Noticing { script: script.after(reply), refusal },
                self.after_notice(refusal, next),
            ),
            UpdatePhase::Opening(script) => self.script_leads(
                script,
                reply,
                next,
                UpdatePhase::Opening(script.after(reply)),
                next is Looking,
            ),
            UpdatePhase::Looking => match reply {
                Reply::Found(entry) => if entry.kind == FileKind::Regular {
                    next is Clearing
                } else {
                    next is Failed && plain_error(
                        next->Failed_0,
                        about(
                            "downloaded Eiyah path must be missing or a regular file: "@,
                            self.candidate@,
                        ),
                    )
                },
                Reply::Failed(fault) => if fault.kind == FaultKind::NotFound {
                    self.after_clearing(next)
                } else {
                    next is Failed && plain_error(next->Failed_0, fault.text@)
                },
                _ => next is Failed && plain_error(next->Failed_0, unanswered()),
            },
            UpdatePhase::Clearing => match reply {
                Reply::Done => self.after_clearing(next),
                Reply::Failed(fault) => next is Failed && plain_error(next->Failed_0, fault.text@),
                _ => next is Failed && plain_error(next->Failed_0, unanswered()),
            },
            UpdatePhase::Downloading(script) => self.script_leads(
                script,
                reply,
                next,
                UpdatePhase::Downloading(script.after(reply)),
                self.after_download(next),
            ),
            UpdatePhase::Summing => match download_problem(self.checksum_address(), reply) {
                None => next is Loading,
                Some(words) => next is Tidying && is_failure(next->Tidying_0, words),
            },
            UpdatePhase::Loading => match reading_problem(self.checksum_address(), reply) {
                Some(words) => next is Tidying && is_failure(next->Tidying_0, words),
                None => match stated_digest(encode_utf8(reply->Text_0@), BINARY_ASSET_NAME@) {
                    None => next is Tidying && next->Tidying_0.says(
                        checksum_problem(reply->Text_0@),
                    ),
                    Some(digest) => next is Verifying && next->Verifying_0.begins(
                        verifying_steps(self.candidate@, digest),
                        Tidy::From { remove: Ask::RemoveFile(self.candidate@), step: 0 },
                    ),
                },
            },
            UpdatePhase::Verifying(script) => self.script_leads(
                script,
                reply,
                next,
                UpdatePhase::Verifying(script.after(reply)),
                next is Trying,
            ),
            UpdatePhase::Trying => match self.release {
                None => next is Completed,
                Some(info) => match version_answer(self.candidate@, info.version@, reply) {
                    Some(words) => next is Tidying && is_failure(next->Tidying_0, words),
                    None => next is Replacing && next->Replacing_0.begins(
                        replacing_steps(self.candidate@, self.installed@),
                        Tidy::From { remove: Ask::RemoveFile(self.candidate@), step: 2 },
                    ),
                },
            },
            UpdatePhase::Replacing(script) => self.script_leads(
                script,
                reply,
                next,
                UpdatePhase::Replacing(script.after(reply)),
                next is Confirming,
            ),
            UpdatePhase::Confirming => match self.release {
                None => next is Completed,
                Some(info) => if version_answer(self.installed@, info.version@, reply) is Some {
                    next is Failed && replaced_error(next->Failed_0, info.version@)
                } else {
                    next is Closing && next->Closing_0.begins(
                        closing_steps(info.version@),
                        Tidy::Nothing,
                    )
                },
            },
            UpdatePhase::Closing(script) => self.script_leads(
                script,
                reply,
                next,
                UpdatePhase::Closing(script.after(reply)),
                next is Completed,
            ),
            UpdatePhase::Tidying(failure) => next is Failed && plain_error(
                next->Failed_0,
                failure.line(),
            ),
            UpdatePhase::Completed => next == self.phase,
            UpdatePhase::Failed(_) => next == self.phase,
        }
    }

    pub fn request(&self) -> (request: Request)
        ensures
            request@ == self.asks(),
    {
        match &self.phase {
            UpdatePhase::Noticing { script, .. } => script.wanted(),
            UpdatePhase::Opening(script) => script.wanted(),
            UpdatePhase::Looking => Request::Inspect(copy_bytes(&self.candidate)),
            UpdatePhase::Clearing => Request::RemoveFile(copy_bytes(&self.candidate)),
            UpdatePhase::Downloading(script) => script.wanted(),
            UpdatePhase::Summing => Request::Get(checksum_url(&self.release)),
            UpdatePhase::Loading => Request::ReadText,
            UpdatePhase::Verifying(script) => script.wanted(),
            UpdatePhase::Trying => Request::Capture(run_with_argument(&self.candidate, "--version")),
            UpdatePhase::Replacing(script) => script.wanted(),
            UpdatePhase::Confirming => Request::Capture(
                run_with_argument(&self.installed, "--version"),
            ),
            UpdatePhase::Closing(script) => script.wanted(),
            UpdatePhase::Tidying(_) => Request::RemoveFile(copy_bytes(&self.candidate)),
            UpdatePhase::Completed => Request::Nothing,
            UpdatePhase::Failed(_) => Request::Nothing,
        }
    }

    /// Goes on with a reply.
    #[verifier::rlimit(40)]
    pub fn advance(self, reply: Reply) -> (next: Update)
        ensures
            next.installed == self.installed,
            next.candidate == self.candidate,
            next.release == self.release,
            self.follows(reply, next.phase),
    {
        let installed = self.installed;
        let candidate = self.candidate;
        let release = self.release;
        let phase = match self.phase {
            UpdatePhase::Noticing { script, refusal } => match script.progress(reply) {
                Progress::Going(script) => UpdatePhase::Noticing { script, refusal },
                Progress::Broken(failure) => broken(failure),
                Progress::Completed => match refusal {
                    Some(failure) => broken(failure),
                    None => match &release {
                        None => UpdatePhase::Completed,
                        Some(info) => UpdatePhase::Opening(
                            opening(&info.version, &info.binary_url, &installed),
                        ),
                    },
                },
            },
            UpdatePhase::Opening(script) => match script.progress(reply) {
                Progress::Going(script) => UpdatePhase::Opening(script),
                Progress::Broken(failure) => broken(failure),
                Progress::Completed => UpdatePhase::Looking,
            },
            UpdatePhase::Looking => match reply {
                Reply::Found(entry) => if entry.kind == FileKind::Regular {
                    UpdatePhase::Clearing
                } else {
                    broken(
                        Failure::at(
                            "downloaded Eiyah path must be missing or a regular file: ",
                            &candidate,
                        ),
                    )
                },
                Reply::Failed(fault) => if fault.kind == FaultKind::NotFound {
                    begin_download(&release, &candidate)
                } else {
                    broken(Failure::plain(&fault.text))
                },
                _ => broken(Failure::plain("unexpected reply")),
            },
            UpdatePhase::Clearing => match reply {
                Reply::Done => begin_download(&release, &candidate),
                Reply::Failed(fault) => broken(Failure::plain(&fault.text)),
                _ => broken(Failure::plain("unexpected reply")),
            },
            UpdatePhase::Downloading(script) => match script.progress(reply) {
                Progress::Going(script) => UpdatePhase::Downloading(script),
                Progress::Broken(failure) => broken(failure),
                Progress::Completed => match download_text(&checksum_url(&release)) {
                    Ok(_) => UpdatePhase::Summing,
                    Err(failure) => UpdatePhase::Tidying(failure),
                },
            },
            UpdatePhase::Summing => match began_download(&checksum_url(&release), reply) {
                Err(failure) => UpdatePhase::Tidying(failure),
                Ok(()) => UpdatePhase::Loading,
            },
            UpdatePhase::Loading => match downloaded_text(&checksum_url(&release), reply) {
                Err(failure) => UpdatePhase::Tidying(failure),
                Ok(text) => match parse_checksum(&text) {
                    Err(failure) => UpdatePhase::Tidying(failure),
                    Ok(digest) => UpdatePhase::Verifying(verifying(&candidate, digest)),
                },
            },
            UpdatePhase::Verifying(script) => match script.progress(reply) {
                Progress::Going(script) => UpdatePhase::Verifying(script),
                Progress::Broken(failure) => broken(failure),
                Progress::Completed => UpdatePhase::Trying,
            },
            UpdatePhase::Trying => match &release {
                None => UpdatePhase::Completed,
                Some(info) => match validate_eiyah_binary(&candidate, &info.version, reply) {
                    Err(failure) => UpdatePhase::Tidying(failure),
                    Ok(()) => UpdatePhase::Replacing(replacing(&candidate, &installed)),
                },
            },
            UpdatePhase::Replacing(script) => match script.progress(reply) {
                Progress::Going(script) => UpdatePhase::Replacing(script),
                Progress::Broken(failure) => broken(failure),
                Progress::Completed => UpdatePhase::Confirming,
            },
            UpdatePhase::Confirming => match &release {
                None => UpdatePhase::Completed,
                Some(info) => match validate_eiyah_binary(&installed, &info.version, reply) {
                    Err(_) => UpdatePhase::Failed(not_reverted(&info.version)),
                    Ok(()) => UpdatePhase::Closing(closing(&info.version)),
                },
            },
            UpdatePhase::Closing(script) => match script.progress(reply) {
                Progress::Going(script) => UpdatePhase::Closing(script),
                Progress::Broken(failure) => broken(failure),
                Progress::Completed => UpdatePhase::Completed,
            },
            UpdatePhase::Tidying(failure) => broken(failure),
            UpdatePhase::Completed => UpdatePhase::Completed,
            UpdatePhase::Failed(error) => UpdatePhase::Failed(error),
        };
        Update { installed, candidate, release, phase }
    }
}

fn checksum_url(release: &Option<ReleaseInfo>) -> (url: String)
    ensures
        url@ == (match *release {
            Some(info) => info.checksum_url@,
            None => ""@,
        }),
{
    match release {
        Some(info) => info.checksum_url.clone(),
        None => "".to_owned(),
    }
}

fn broken(failure: Failure) -> (phase: UpdatePhase)
    ensures
        phase is Failed,
        plain_error(phase->Failed_0, failure.line()),
{
    UpdatePhase::Failed(UserFacingError::from_failure(&failure))
}

fn not_reverted(version: &str) -> (error: UserFacingError)
    ensures
        replaced_error(error, version@),
{
    let mut message = concat("Eiyah validation failed after updating to ", version);
    message.append(".");
    let mut warning = concat("Eiyah ", version);
    warning.append(" is already installed and was not reverted.");
    let mut warnings: Vec<String> = Vec::new();
    warnings.push(warning);
    UserFacingError { message, warnings, hints: Vec::new() }
}

fn begin_download(release: &Option<ReleaseInfo>, candidate: &Vec<u8>) -> (phase: UpdatePhase)
    ensures
        match *release {
            None => phase is Completed,
            Some(info) => if is_https(info.binary_url@) {
                phase is Downloading && phase->Downloading_0.begins(
                    download_steps(info.binary_url@, candidate@),
                    Tidy::From { remove: Ask::RemoveFile(candidate@), step: 0 },
                )
            } else {
                phase is Tidying && phase->Tidying_0.says(
                    "Release asset URL must use HTTPS: "@ + info.binary_url@,
                )
            },
        },
{
    match release {
        None => UpdatePhase::Completed,
        Some(info) => match download_to_file(&info.binary_url, candidate) {
            Ok(script) => UpdatePhase::Downloading(script),
            Err(failure) => UpdatePhase::Tidying(failure),
        },
    }
}

// --------------------------------------------------
// Laws
// --------------------------------------------------

/// Whether a request changes the installed program.
pub open spec fn changes(ask: Ask, installed: Seq<u8>) -> bool {
    match ask {
        Ask::Rename { destination, .. } => destination == installed,
        Ask::SetMode { path, .. } => path == installed,
        Ask::CreateFile { path, .. } => path == installed,
        Ask::SaveBody(path) => path == installed,
        Ask::RemoveFile(path) => path == installed,
        Ask::SyncOpen(path) => path == installed,
        _ => false,
    }
}

/// Whether the scripts of an update are its own.
pub open spec fn sound(update: Update) -> bool {
    &&& update.installed@ != update.candidate@
    &&& match update.phase {
        UpdatePhase::Noticing { script, .. } => exists|blank: bool, current: Seq<char>, latest:
            Seq<char>| #[trigger]
            notice_of(script, blank, current, latest),
        UpdatePhase::Opening(script) => update.release is Some && step_views(script.steps@)
            == opening_steps(
            update.release->0.version@,
            update.release->0.binary_url@,
            update.installed@,
        ) && script.cleanup@ == Tidy::Nothing,
        UpdatePhase::Downloading(script) => update.release is Some && step_views(script.steps@)
            == download_steps(update.release->0.binary_url@, update.candidate@)
            && script.cleanup@ == (Tidy::From {
            remove: Ask::RemoveFile(update.candidate@),
            step: 0,
        }),
        UpdatePhase::Verifying(script) => exists|digest: Seq<u8>|
            step_views(script.steps@) == #[trigger] verifying_steps(update.candidate@, digest)
                && script.cleanup@ == (Tidy::From {
                remove: Ask::RemoveFile(update.candidate@),
                step: 0,
            }),
        UpdatePhase::Replacing(script) => step_views(script.steps@) == replacing_steps(
            update.candidate@,
            update.installed@,
        ) && script.cleanup@ == (Tidy::From {
            remove: Ask::RemoveFile(update.candidate@),
            step: 2,
        }),
        UpdatePhase::Closing(script) => update.release is Some && step_views(script.steps@)
            == closing_steps(update.release->0.version@) && script.cleanup@ == Tidy::Nothing,
        _ => true,
    }
}

/// Whether a script shows the versions.
pub open spec fn notice_of(script: Script, blank: bool, current: Seq<char>, latest: Seq<char>) -> bool {
    script.cleanup@ == Tidy::Nothing && (step_views(script.steps@) == notice_steps(
        blank,
        current,
        latest,
    ) || step_views(script.steps@) == current_steps(blank, current, latest))
}

/// An update that has just begun has its own scripts.
pub proof fn update_begins_sound(
    paths: ResolvedPaths,
    blank: bool,
    current: Seq<char>,
    release: Release,
    latest: Seq<char>,
    update: Update,
)
    requires
        update_begins(paths, blank, current, release, latest, update),
    ensures
        sound(update),
{
    reveal_strlit("eiyah");
    reveal_strlit(".eiyah.new");
    lemma_ascii_bytes("eiyah"@);
    lemma_ascii_bytes(".eiyah.new"@);
    assert("eiyah"@.len() == 5 && ".eiyah.new"@.len() == 10);
    assert(encode_utf8("eiyah"@)[0] == 0x65 && encode_utf8(".eiyah.new"@)[0] == 0x2e);
    assert(update.installed@.len() < update.candidate@.len());
    assert(notice_of(update.phase->Noticing_script, blank, current, latest));
}

/// An update keeps its own scripts.
pub proof fn update_stays_sound(update: Update, reply: Reply, next: Update)
    requires
        sound(update),
        next.installed == update.installed,
        next.candidate == update.candidate,
        next.release == update.release,
        update.follows(reply, next.phase),
    ensures
        sound(next),
{
    match update.phase {
        UpdatePhase::Noticing { script, .. } => {
            let (blank, current, latest) = choose|blank: bool, current: Seq<char>, latest: Seq<char>|
             #[trigger] notice_of(script, blank, current, latest);
            assert(notice_of(script.after(reply), blank, current, latest));
        },
        UpdatePhase::Loading => {
            if next.phase is Verifying {
                let digest = stated_digest(
                    encode_utf8(reply->Text_0@),
                    BINARY_ASSET_NAME@,
                )->0;
                assert(step_views(next.phase->Verifying_0.steps@) == verifying_steps(
                    update.candidate@,
                    digest,
                ));
            }
        },
        UpdatePhase::Verifying(script) => {
            let digest = choose|digest: Seq<u8>|
                step_views(script.steps@) == #[trigger] verifying_steps(update.candidate@, digest)
                    && script.cleanup@ == (Tidy::From {
                    remove: Ask::RemoveFile(update.candidate@),
                    step: 0,
                });
            assert(step_views(script.after(reply).steps@) == verifying_steps(
                update.candidate@,
                digest,
            ));
        },
        _ => {},
    }
}

/// The installed program is changed in one way only: by the renaming of the download,
/// once the download was checked.
pub proof fn only_the_rename_changes_the_program(update: Update)
    requires
        sound(update),
        changes(update.asks(), update.installed@),
    ensures
        update.phase is Replacing,
        update.asks() == (Ask::Rename {
            source: update.candidate@,
            destination: update.installed@,
        }),
{
    match update.phase {
        UpdatePhase::Noticing { script, .. } => {
            let (blank, current, latest) = choose|blank: bool, current: Seq<char>, latest: Seq<char>|
             #[trigger] notice_of(script, blank, current, latest);
        },
        UpdatePhase::Verifying(script) => {
            let digest = choose|digest: Seq<u8>|
                step_views(script.steps@) == #[trigger] verifying_steps(update.candidate@, digest)
                    && script.cleanup@ == (Tidy::From {
                    remove: Ask::RemoveFile(update.candidate@),
                    step: 0,
                });
        },
        _ => {},
    }
}

/// The program is replaced only where the download has answered with the version of
/// the release; it is asked for it only once every check of the download was
/// accepted, one of which is the digest; and the digest is the one that the
/// release states.
pub proof fn only_a_verified_download_is_installed(update: Update, reply: Reply, next: UpdatePhase)
    requires
        update.follows(reply, next),
    ensures
        next is Replacing && !(update.phase is Replacing) ==> update.phase is Trying
            && update.release is Some && version_answer(
            update.candidate@,
            update.release->0.version@,
            reply,
        ) is None,
        next is Trying ==> update.phase is Verifying && update.phase->Verifying_0.after(reply).phase
            == Phase::Completed,
        next is Verifying && !(update.phase is Verifying) ==> update.phase is Loading
            && reply is Text && stated_digest(encode_utf8(reply->Text_0@), BINARY_ASSET_NAME@) is Some
            && step_views(next->Verifying_0.steps@)[1].demand == Demand::Digest(
            stated_digest(encode_utf8(reply->Text_0@), BINARY_ASSET_NAME@)->0,
        ),
{
}

/// After the program was replaced nothing is undone: a failure says that the new
/// program stays.
pub proof fn a_replaced_program_stays(update: Update, reply: Reply, next: UpdatePhase)
    requires
        update.phase is Confirming,
        update.release is Some,
        update.follows(reply, next),
    ensures
        next is Closing || (next is Failed && replaced_error(
            next->Failed_0,
            update.release->0.version@,
        )),
{
}

/// An update without a newer release asks for nothing but its notices.
pub proof fn a_current_program_is_left_alone(
    paths: ResolvedPaths,
    blank: bool,
    current: Seq<char>,
    release: Release,
    latest: Seq<char>,
    update: Update,
    reply: Reply,
    next: Update,
)
    requires
        update_begins(paths, blank, current, release, latest, update),
        semver_at_most(latest, current),
        next.release == update.release,
        update.follows(reply, next.phase),
    ensures
        next.release is None,
        next.phase is Noticing || next.phase is Completed || next.phase is Failed,
        next.phase is Noticing ==> next.phase->refusal is None && step_views(
            next.phase->Noticing_script.steps@,
        ) == current_steps(blank, current, latest),
{
}

/// Whether the place holds the one file of this name, with an address of HTTPS.
pub open spec fn is_only_file(assets: Seq<ReleaseAsset>, name: Seq<char>, place: int) -> bool {
    &&& 0 <= place < assets.len()
    &&& assets[place].name@ == name
    &&& "https://"@.is_prefix_of(assets[place].browser_download_url@)
    &&& forall|other: int|
        0 <= other < assets.len() && other != place ==> #[trigger] assets[other].name@ != name
}

/// Where the latest version is not at most the current one and the release has its
/// two files, the update begins with that release to be installed and does not say
/// that nothing is to be done.
pub proof fn a_newer_release_is_installed(
    paths: ResolvedPaths,
    blank: bool,
    current: Seq<char>,
    release: Release,
    program: int,
    digest: int,
    result: Result<Update, Failure>,
)
    requires
        update_answered(paths, blank, current, release, result),
        semver_valid(current),
        !release.draft,
        !release.prerelease,
        release.tag_name@.len() > 1,
        release.tag_name@[0] == 'v',
        semver_valid(release.tag_name@.skip(1)),
        !semver_at_most(release.tag_name@.skip(1), current),
        is_only_file(release.assets@, "eiyah-x86_64-unknown-linux-gnu"@, program),
        is_only_file(release.assets@, "eiyah-x86_64-unknown-linux-gnu.sha256"@, digest),
    ensures
        result is Ok,
        result->Ok_0.release is Some,
        result->Ok_0.release->0.version@ == release.tag_name@.skip(1),
        result->Ok_0.release->0.binary_url@ == release.assets@[program].browser_download_url@,
        result->Ok_0.release->0.checksum_url@ == release.assets@[digest].browser_download_url@,
        result->Ok_0.phase is Noticing,
        result->Ok_0.phase->refusal is None,
        forall|k: int|
            0 <= k < result->Ok_0.phase->Noticing_script.steps@.len()
                ==> #[trigger] result->Ok_0.phase->Noticing_script.steps@[k].request@
                != Ask::Detail("Eiyah is already up to date."@),
{
    let latest = release.tag_name@.skip(1);
    assert(release.tag_name@.drop_first() =~= latest);
    let update = result->Ok_0;
    the_only_file_is_taken(release.assets@, "eiyah-x86_64-unknown-linux-gnu"@, program);
    the_only_file_is_taken(release.assets@, "eiyah-x86_64-unknown-linux-gnu.sha256"@, digest);
    let script = update.phase->Noticing_script;
    assert forall|k: int| 0 <= k < script.steps@.len() implies #[trigger] script.steps@[k].request@
        != Ask::Detail("Eiyah is already up to date."@) by {
        reveal_strlit("Eiyah is already up to date.");
        reveal_strlit("Current: ");
        reveal_strlit("Latest:  ");
        assert(step_views(script.steps@)[k] == script.steps@[k]@);
        assert(("Current: "@ + current)[0] == 'C');
        assert(("Latest:  "@ + latest)[0] == 'L');
        assert("Eiyah is already up to date."@[0] == 'E');
    }
}

/// The one file of a name is what its name selects.
proof fn the_only_file_is_taken(assets: Seq<ReleaseAsset>, name: Seq<char>, place: int)
    requires
        is_only_file(assets, name, place),
    ensures
        assets_named(assets, name) == seq![assets[place].browser_download_url@],
    decreases assets.len(),
{
    let front = assets.drop_last();
    if place < front.len() {
        assert(assets.last() == assets[assets.len() - 1]);
        assert forall|other: int| 0 <= other < front.len() && other != place implies #[trigger] front[other].name@
            != name by {
            assert(front[other] == assets[other]);
        }
        the_only_file_is_taken(front, name, place);
    } else {
        assert forall|other: int| 0 <= other < front.len() implies #[trigger] front[other].name@ != name by {
            assert(front[other] == assets[other]);
        }
        no_file_is_taken(front, name);
        assert(assets_named(assets, name) =~= seq![assets[place].browser_download_url@]);
    }
}

proof fn no_file_is_taken(assets: Seq<ReleaseAsset>, name: Seq<char>)
    requires
        forall|other: int| 0 <= other < assets.len() ==> #[trigger] assets[other].name@ != name,
    ensures
        assets_named(assets, name) == Seq::<Seq<char>>::empty(),
    decreases assets.len(),
{
    if assets.len() > 0 {
        assert(assets.last() == assets[assets.len() - 1]);
        assert forall|other: int| 0 <= other < assets.drop_last().len() implies #[trigger] assets.drop_last()[other].name@
            != name by {
            assert(assets.drop_last()[other] == assets[other]);
        }
        no_file_is_taken(assets.drop_last(), name);
    }
}

/// Two places of the same name make more than one file.
proof fn files_of_a_name_are_counted(assets: Seq<ReleaseAsset>, name: Seq<char>)
    ensures
        assets_named(assets, name).len() > 0 ==> exists|place: int|
            0 <= place < assets.len() && #[trigger] assets[place].name@ == name && assets_named(
                assets,
                name,
            )[0] == assets[place].browser_download_url@,
        assets_named(assets, name).len() <= 1 ==> forall|a: int, b: int|
            0 <= a < b < assets.len() ==> !(#[trigger] assets[a].name@ == name
                && #[trigger] assets[b].name@ == name),
        assets_named(assets, name).len() == 0 ==> forall|a: int|
            0 <= a < assets.len() ==> #[trigger] assets[a].name@ != name,
    decreases assets.len(),
{
    if assets.len() > 0 {
        let front = assets.drop_last();
        files_of_a_name_are_counted(front, name);
        let last = assets.len() - 1;
        assert(assets.last() == assets[last]);
        assert forall|k: int| 0 <= k < last implies #[trigger] front[k] == assets[k] by {}
        if assets_named(front, name).len() > 0 {
            let place = choose|place: int|
                0 <= place < front.len() && #[trigger] front[place].name@ == name && assets_named(
                    front,
                    name,
                )[0] == front[place].browser_download_url@;
            assert(assets[place].name@ == name);
        }
        if assets_named(assets, name).len() == 0 {
            assert forall|a: int| 0 <= a < assets.len() implies #[trigger] assets[a].name@ != name by {
                if a < last {
                    assert(front[a].name@ != name);
                }
            }
        }
        if assets_named(assets, name).len() <= 1 {
            assert forall|a: int, b: int| 0 <= a < b < assets.len() implies !(
            #[trigger] assets[a].name@ == name && #[trigger] assets[b].name@ == name) by {
                assert(front[a] == assets[a]);
                if b < last {
                    assert(front[b] == assets[b]);
                    assert(!(front[a].name@ == name && front[b].name@ == name));
                } else if assets[b].name@ == name {
                    assert(front[a].name@ != name);
                }
            }
        }
    }
}

/// What an update installs is a file of the release: the only one with its name, at
/// an address of HTTPS.
pub proof fn only_a_whole_release_is_installed(
    paths: ResolvedPaths,
    blank: bool,
    current: Seq<char>,
    release: Release,
    result: Result<Update, Failure>,
)
    requires
        update_answered(paths, blank, current, release, result),
        result is Ok,
        result->Ok_0.release is Some,
    ensures
        !release.draft,
        !release.prerelease,
        release.tag_name@ == seq!['v'] + result->Ok_0.release->0.version@,
        !semver_at_most(result->Ok_0.release->0.version@, current),
        exists|program: int| #[trigger]
            is_only_file(release.assets@, "eiyah-x86_64-unknown-linux-gnu"@, program)
                && result->Ok_0.release->0.binary_url@
                == release.assets@[program].browser_download_url@,
        exists|digest: int| #[trigger]
            is_only_file(release.assets@, "eiyah-x86_64-unknown-linux-gnu.sha256"@, digest)
                && result->Ok_0.release->0.checksum_url@
                == release.assets@[digest].browser_download_url@,
{
    let info = result->Ok_0.release->0;
    let assets = release.assets@;
    assert(release.tag_name@ =~= seq!['v'] + release.tag_name@.drop_first());
    let first = "eiyah-x86_64-unknown-linux-gnu"@;
    let second = "eiyah-x86_64-unknown-linux-gnu.sha256"@;
    files_of_a_name_are_counted(assets, first);
    files_of_a_name_are_counted(assets, second);
    let program = choose|place: int|
        0 <= place < assets.len() && #[trigger] assets[place].name@ == first && assets_named(
            assets,
            first,
        )[0] == assets[place].browser_download_url@;
    let digest = choose|place: int|
        0 <= place < assets.len() && #[trigger] assets[place].name@ == second && assets_named(
            assets,
            second,
        )[0] == assets[place].browser_download_url@;
    assert(is_only_file(assets, first, program));
    assert(is_only_file(assets, second, digest));
}

/// An update that has a release to install comes to its end only by every step: the
/// program is downloaded before its digest is, the digest is stated before the
/// download is read, the download answers before it is renamed, and the renamed
/// program answers before the end is told.
pub proof fn an_update_takes_every_step(update: Update, reply: Reply, next: UpdatePhase)
    requires
        update.release is Some,
        update.follows(reply, next),
    ensures
        next is Completed ==> update.phase is Closing || update.phase is Completed,
        next is Closing ==> update.phase is Closing || update.phase is Confirming,
        next is Confirming ==> update.phase is Replacing,
        next is Replacing ==> update.phase is Replacing || update.phase is Trying,
        next is Trying ==> update.phase is Verifying,
        next is Verifying ==> update.phase is Verifying || update.phase is Loading,
        next is Loading ==> update.phase is Summing,
        next is Summing ==> update.phase is Downloading,
        next is Downloading ==> update.phase is Downloading || update.phase is Clearing
            || update.phase is Looking,
        next is Clearing ==> update.phase is Looking,
        next is Looking ==> update.phase is Opening,
        next is Opening ==> update.phase is Opening || (update.phase is Noticing
            && update.phase->refusal is None),
        update.phase is Noticing && update.phase->Noticing_script.after(reply).phase
            == Phase::Completed && update.phase->refusal is None ==> next is Opening,
{
}

/// A program answers for a version exactly where it ends well and prints its name
/// and that version, and nothing else but blanks around them.
pub proof fn a_program_answers_with_its_version(path: Seq<u8>, version: Seq<char>, reply: Reply)
    ensures
        version_answer(path, version, reply) is None <==> {
            &&& reply is Exited
            &&& reply->success
            &&& valid_utf8(reply->output@)
            &&& trimmed(decode_utf8(reply->output@)) == "eiyah "@ + version
        },
{
}

// --------------------------------------------------
// The command
// --------------------------------------------------

/// What is said where the latest release is not known: what came back could not be
/// read, or nothing came back.
pub open spec fn unfetched_words(fault: Fault) -> Seq<char> {
    if fault.kind == FaultKind::InvalidData {
        "failed to parse latest Eiyah release response: "@ + fault.text@
    } else {
        "failed to fetch latest Eiyah release: "@ + fault.text@
    }
}

/// How far the update command has come.
#[derive(Debug)]
pub enum UpdateRun {
    /// The installation is looked for.
    Finding(Lookup),
    /// Its lock is to be taken.
    Locking(ResolvedPaths),
    /// The latest release is asked for; whether an empty line comes before what is shown.
    Fetching { paths: ResolvedPaths, blank: bool },
    /// The program is updated.
    Working(Update),
    Completed,
    Failed(UserFacingError),
}

/// Begins to update the installation of a home directory.
pub fn run_update(home: &[u8]) -> (run: UpdateRun)
    ensures
        run is Finding,
        run->Finding_0 is Link,
        run->Finding_0->Link_entry@ == under(home@, ".local/bin/eiyah"@),
{
    UpdateRun::Finding(load_installed_paths(home))
}

impl UpdateRun {
    pub open spec fn asks(&self) -> Ask {
        match self {
            UpdateRun::Finding(lookup) => lookup.asks(),
            UpdateRun::Locking(paths) => Ask::Lock(paths.state_home@),
            UpdateRun::Fetching { .. } => Ask::FetchRelease,
            UpdateRun::Working(update) => update.asks(),
            UpdateRun::Completed => Ask::Nothing,
            UpdateRun::Failed(_) => Ask::Nothing,
        }
    }

    /// What the command does with a reply, as a program of this version.
    pub open spec fn follows(&self, current: Seq<char>, reply: Reply, next: UpdateRun) -> bool {
        match self {
            UpdateRun::Finding(lookup) => exists|found: Lookup| #[trigger]
                lookup.follows(reply, found) && match found {
                    Lookup::Link { .. } | Lookup::Metadata { .. } => next == UpdateRun::Finding(
                        found,
                    ),
                    Lookup::Found(paths) => next == UpdateRun::Locking(paths),
                    Lookup::NoLink { entry, .. } => next is Failed && plain_error(
                        next->Failed_0,
                        about("Eiyah command link is missing or invalid: "@, entry@),
                    ),
                    Lookup::NoMetadata { path, .. } => next is Failed && plain_error(
                        next->Failed_0,
                        about("installation information is missing or invalid: "@, path@),
                    ),
                    Lookup::Unanswered => next is Failed && plain_error(
                        next->Failed_0,
                        unanswered(),
                    ),
                },
            UpdateRun::Locking(paths) => match reply {
                Reply::Done => next == (UpdateRun::Fetching { paths: *paths, blank: false }),
                Reply::Failed(fault) => next is Failed && plain_error(next->Failed_0, fault.text@),
                _ => next is Failed && plain_error(next->Failed_0, unanswered()),
            },
            UpdateRun::Fetching { paths, blank } => match reply {
                Reply::Release(release) => exists|result: Result<Update, Failure>| #[trigger]
                    update_answered(*paths, *blank, current, release, result) && match result {
                        Ok(update) => next == UpdateRun::Working(update),
                        Err(failure) => next is Failed && plain_error(
                            next->Failed_0,
                            failure.line(),
                        ),
                    },
                Reply::Failed(fault) => next is Failed && plain_error(
                    next->Failed_0,
                    unfetched_words(fault),
                ),
                _ => next is Failed && plain_error(next->Failed_0, unanswered()),
            },
            UpdateRun::Working(update) => exists|step: Update| #[trigger]
                update_steps(*update, reply, step) && match step.phase {
                    UpdatePhase::Completed => next is Completed,
                    UpdatePhase::Failed(error) => next == UpdateRun::Failed(error),
                    _ => next == UpdateRun::Working(step),
                },
            _ => next == *self,
        }
    }

    pub fn request(&self) -> (request: Request)
        ensures
            request@ == self.asks(),
    {
        match self {
            UpdateRun::Finding(lookup) => lookup.request(),
            UpdateRun::Locking(paths) => Request::Lock(copy_bytes(&paths.state_home)),
            UpdateRun::Fetching { .. } => Request::FetchRelease,
            UpdateRun::Working(update) => update.request(),
            UpdateRun::Completed => Request::Nothing,
            UpdateRun::Failed(_) => Request::Nothing,
        }
    }

    /// Goes on with a reply, as a program of this version.
    pub fn advance(self, current: &str, reply: Reply) -> (next: UpdateRun)
        ensures
            self.follows(current@, reply, next),
    {
        match self {
            UpdateRun::Finding(lookup) => {
                let found = lookup.advance(reply);
                assert(lookup.follows(reply, found));
                match found {
                    Lookup::Link { entry } => UpdateRun::Finding(Lookup::Link { entry }),
                    Lookup::Metadata { path } => UpdateRun::Finding(Lookup::Metadata { path }),
                    other => match other.outcome_for_update() {
                        Some(Ok(paths)) => UpdateRun::Locking(paths),
                        Some(Err(failure)) => UpdateRun::Failed(
                            UserFacingError::from_failure(&failure),
                        ),
                        None => UpdateRun::Completed,
                    },
                }
            },
            UpdateRun::Locking(paths) => match reply {
                Reply::Done => UpdateRun::Fetching { paths, blank: false },
                Reply::Failed(fault) => UpdateRun::Failed(
                    UserFacingError::from_failure(&Failure::plain(&fault.text)),
                ),
                _ => UpdateRun::Failed(
                    UserFacingError::from_failure(&Failure::plain("unexpected reply")),
                ),
            },
            UpdateRun::Fetching { paths, blank } => match reply {
                Reply::Release(release) => {
                    let result = update_locked(&paths, blank, current, release);
                    assert(update_answered(paths, blank, current@, release, result));
                    match result {
                        Ok(update) => UpdateRun::Working(update),
                        Err(failure) => UpdateRun::Failed(UserFacingError::from_failure(&failure)),
                    }
                },
                Reply::Failed(fault) => {
                    let message = if fault.kind == FaultKind::InvalidData {
                        concat("failed to parse latest Eiyah release response: ", &fault.text)
                    } else {
                        concat("failed to fetch latest Eiyah release: ", &fault.text)
                    };
                    UpdateRun::Failed(UserFacingError::from_failure(&Failure::plain(&message)))
                },
                _ => UpdateRun::Failed(
                    UserFacingError::from_failure(&Failure::plain("unexpected reply")),
                ),
            },
            UpdateRun::Working(update) => {
                let step = update.advance(reply);
                assert(update_steps(update, reply, step));
                match step.phase {
                    UpdatePhase::Completed => UpdateRun::Completed,
                    UpdatePhase::Failed(error) => UpdateRun::Failed(error),
                    phase => UpdateRun::Working(
                        Update {
                            installed: step.installed,
                            candidate: step.candidate,
                            release: step.release,
                            phase,
                        },
                    ),
                }
            },
            other => other,
        }
    }
}

/// Whether an update has gone on with a reply.
pub open spec fn update_steps(update: Update, reply: Reply, next: Update) -> bool {
    &&& next.installed == update.installed
    &&& next.candidate == update.candidate
    &&& next.release == update.release
    &&& update.follows(reply, next.phase)
}

} // verus!
