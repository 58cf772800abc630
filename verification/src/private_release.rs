//! Releases of the configuration, and the program that comes with them.

use crate::bytes::copy_bytes;
use crate::checksum::sha256;
use crate::config::ResolvedPaths;
use crate::failure::{about, message_at, Failure};
use crate::host::{Ask, Reply, Request};
use crate::paths::{absolute, is_absolute, join_text, under};
use crate::release::{digest_for, digest_problem, stated_digest};
use crate::script::{add_step, asked, bare_deed, bare_step, deed, goes_on, no_steps, phase_after};
use crate::script::{progress_means_acceptance, remembered, step, step_views, tells, unanswered};
use crate::script::{verdict_on, Check, Cleanup, Demand, Phase, Progress, Script, Step, StepView};
use crate::script::Tidy;
use crate::text::{concat, decimal, decimal_text, read_utf8, same_text, utf8_problem};
use vstd::prelude::*;
use vstd::utf8::valid_utf8;

verus! {

/// The repository of the configuration.
pub const PRIVATE_REPOSITORY: &'static str = "su-ito-lab/eiyah-core";

/// The file of a release that holds the program.
pub const SHOW_CAD_STATUS_ASSET_NAME: &'static str = "show-cad-status-x86_64-unknown-linux-gnu";

/// The file of a release that holds the digest of the program.
pub const SHOW_CAD_STATUS_CHECKSUM_ASSET_NAME: &'static str =
    "show-cad-status-x86_64-unknown-linux-gnu.sha256";

/// The permissions of the program while it is being downloaded.
pub const SHOW_CAD_STATUS_DOWNLOAD_MODE: u32 = 0o600;

/// The permissions of the program.
pub const SHOW_CAD_STATUS_EXECUTABLE_MODE: u32 = 0o755;

/// A file of a release.
#[derive(Debug)]
pub struct PrivateReleaseAsset {
    pub name: String,
    pub id: u64,
}

/// A release as the server describes it.
#[derive(Debug)]
pub struct PrivateReleaseResponse {
    pub tag_name: String,
    pub draft: bool,
    pub prerelease: bool,
    pub assets: Vec<PrivateReleaseAsset>,
}

/// What is taken from a release.
#[derive(Debug, PartialEq, Eq)]
pub struct PrivateReleaseInfo {
    pub tag_name: String,
    pub archive_url: String,
    pub show_cad_status_asset_id: u64,
    pub show_cad_status_checksum_asset_id: u64,
}

/// The numbers of the files with this name.
pub open spec fn ids_named(assets: Seq<PrivateReleaseAsset>, name: Seq<char>) -> Seq<u64>
    decreases assets.len(),
{
    if assets.len() == 0 {
        Seq::empty()
    } else if assets.last().name@ == name {
        ids_named(assets.drop_last(), name).push(assets.last().id)
    } else {
        ids_named(assets.drop_last(), name)
    }
}

/// Why there is no file to be taken.
pub open spec fn id_problem(ids: Seq<u64>, name: Seq<char>) -> Option<Seq<char>> {
    if ids.len() == 0 {
        Some("required configuration file is missing: "@ + name)
    } else if ids.len() > 1 {
        Some("required configuration file is duplicated: "@ + name)
    } else {
        None
    }
}

/// The number of the one file with this name.
pub fn select_private_release_asset(assets: &Vec<PrivateReleaseAsset>, expected_name: &str) -> (
result: Result<u64, Failure>)
    ensures
        match id_problem(ids_named(assets@, expected_name@), expected_name@) {
            Some(words) => result is Err && result->Err_0.says(words),
            None => result == Ok::<u64, Failure>(ids_named(assets@, expected_name@)[0]),
        },
{
    let mut first: u64 = 0;
    let mut count: usize = 0;
    let mut index: usize = 0;
    assert(assets@.take(0) =~= Seq::<PrivateReleaseAsset>::empty());
    while index < assets.len()
        invariant
            index <= assets.len(),
            count <= index,
            count == ids_named(assets@.take(index as int), expected_name@).len(),
            count > 0 ==> first == ids_named(assets@.take(index as int), expected_name@)[0],
        decreases assets.len() - index,
    {
        assert(assets@.take(index + 1).drop_last() =~= assets@.take(index as int));
        let asset = &assets[index];
        if same_text(&asset.name, expected_name) {
            if count == 0 {
                first = asset.id;
            }
            count = count + 1;
        }
        index = index + 1;
    }
    assert(assets@.take(index as int) =~= assets@);
    if count == 0 {
        Err(Failure::plain(&concat("required configuration file is missing: ", expected_name)))
    } else if count > 1 {
        Err(Failure::plain(&concat("required configuration file is duplicated: ", expected_name)))
    } else {
        Ok(first)
    }
}

/// Why nothing can be taken from a release.
pub open spec fn private_problem(release: PrivateReleaseResponse) -> Option<Seq<char>> {
    let binary = id_problem(
        ids_named(release.assets@, SHOW_CAD_STATUS_ASSET_NAME@),
        SHOW_CAD_STATUS_ASSET_NAME@,
    );
    if release.draft {
        Some("latest configuration release is a draft"@)
    } else if release.prerelease {
        Some("latest configuration release is a prerelease"@)
    } else if release.tag_name@.len() == 0 {
        Some("latest configuration release tag is empty"@)
    } else if binary is Some {
        binary
    } else {
        id_problem(
            ids_named(release.assets@, SHOW_CAD_STATUS_CHECKSUM_ASSET_NAME@),
            SHOW_CAD_STATUS_CHECKSUM_ASSET_NAME@,
        )
    }
}

/// Where the configuration of a release lies.
pub open spec fn archive_address(tag: Seq<char>) -> Seq<char> {
    "https://api.github.com/repos/"@ + PRIVATE_REPOSITORY@ + "/tarball/"@ + tag
}

/// What is taken from a release.
pub fn private_release_info(release: PrivateReleaseResponse) -> (result: Result<
    PrivateReleaseInfo,
    Failure,
>)
    ensures
        match private_problem(release) {
            Some(words) => result is Err && result->Err_0.says(words),
            None => {
                &&& result is Ok
                &&& result->Ok_0.tag_name == release.tag_name
                &&& result->Ok_0.archive_url@ == archive_address(release.tag_name@)
                &&& result->Ok_0.show_cad_status_asset_id == ids_named(
                    release.assets@,
                    SHOW_CAD_STATUS_ASSET_NAME@,
                )[0]
                &&& result->Ok_0.show_cad_status_checksum_asset_id == ids_named(
                    release.assets@,
                    SHOW_CAD_STATUS_CHECKSUM_ASSET_NAME@,
                )[0]
            },
        },
{
    if release.draft {
        return Err(Failure::plain("latest configuration release is a draft"));
    }
    if release.prerelease {
        return Err(Failure::plain("latest configuration release is a prerelease"));
    }
    if release.tag_name.unicode_len() == 0 {
        return Err(Failure::plain("latest configuration release tag is empty"));
    }
    let show_cad_status_asset_id: u64 = match select_private_release_asset(
        &release.assets,
        SHOW_CAD_STATUS_ASSET_NAME,
    ) {
        Err(failure) => {
            return Err(failure);
        },
        Ok(id) => id,
    };
    let show_cad_status_checksum_asset_id: u64 = match select_private_release_asset(
        &release.assets,
        SHOW_CAD_STATUS_CHECKSUM_ASSET_NAME,
    ) {
        Err(failure) => {
            return Err(failure);
        },
        Ok(id) => id,
    };
    let mut archive_url = "https://api.github.com/repos/".to_owned();
    archive_url.append(PRIVATE_REPOSITORY);
    archive_url.append("/tarball/");
    archive_url.append(&release.tag_name);
    Ok(
        PrivateReleaseInfo {
            tag_name: release.tag_name,
            archive_url,
            show_cad_status_asset_id,
            show_cad_status_checksum_asset_id,
        },
    )
}

/// Where the latest release of the configuration is described.
pub open spec fn latest_address() -> Seq<char> {
    "https://api.github.com/repos/"@ + PRIVATE_REPOSITORY@ + "/releases/latest"@
}

/// Where the latest release of the configuration is described.
pub fn private_release_url() -> (url: String)
    ensures
        url@ == latest_address(),
{
    let mut url = "https://api.github.com/repos/".to_owned();
    url.append(PRIVATE_REPOSITORY);
    url.append("/releases/latest");
    url
}

/// Whether this is what is taken from the latest release of the configuration.
pub open spec fn release_answered(
    answer: Result<PrivateReleaseResponse, String>,
    result: Result<PrivateReleaseInfo, Failure>,
) -> bool {
    match answer {
        Err(reason) => result is Err && result->Err_0.blames(
            "failed to fetch latest configuration release"@,
            reason@,
        ),
        Ok(release) => match private_problem(release) {
            Some(words) => result is Err && result->Err_0.says(words),
            None => {
                &&& result is Ok
                &&& result->Ok_0.tag_name == release.tag_name
                &&& result->Ok_0.archive_url@ == archive_address(release.tag_name@)
                &&& result->Ok_0.show_cad_status_asset_id == ids_named(
                    release.assets@,
                    SHOW_CAD_STATUS_ASSET_NAME@,
                )[0]
                &&& result->Ok_0.show_cad_status_checksum_asset_id == ids_named(
                    release.assets@,
                    SHOW_CAD_STATUS_CHECKSUM_ASSET_NAME@,
                )[0]
            },
        },
    }
}

/// What is taken from the latest release of the configuration, by what the server has
/// answered: an error in words, or the release.
pub fn fetch_private_release(answer: Result<PrivateReleaseResponse, String>) -> (result: Result<
    PrivateReleaseInfo,
    Failure,
>)
    ensures
        release_answered(answer, result),
{
    match answer {
        Err(reason) => Err(
            Failure::caused("failed to fetch latest configuration release", &reason),
        ),
        Ok(release) => private_release_info(release),
    }
}

/// Where a file of a release lies.
pub open spec fn asset_address(id: u64) -> Seq<char> {
    "https://api.github.com/repos/"@ + PRIVATE_REPOSITORY@ + "/releases/assets/"@ + decimal(
        id as nat,
    )
}

/// Where a file of a release lies.
pub fn private_asset_url(asset_id: u64) -> (url: String)
    ensures
        url@ == asset_address(asset_id),
{
    let mut url = "https://api.github.com/repos/".to_owned();
    url.append(PRIVATE_REPOSITORY);
    url.append("/releases/assets/");
    url.append(&decimal_text(asset_id));
    url
}

/// What is said of a checksum file that states no digest of the program.
pub open spec fn status_digest_problem(content: Seq<u8>) -> Seq<char> {
    if valid_utf8(content) {
        digest_problem(
            content,
            SHOW_CAD_STATUS_ASSET_NAME@,
            "invalid show-cad-status checksum format"@,
            "show-cad-status checksum must be lowercase hexadecimal"@,
        )
    } else {
        utf8_problem(content)
    }
}

/// The digest of the program that a checksum file states.
pub fn parse_show_cad_status_checksum(content: &[u8]) -> (result: Result<Vec<u8>, Failure>)
    ensures
        result is Ok <==> valid_utf8(content@) && stated_digest(
            content@,
            SHOW_CAD_STATUS_ASSET_NAME@,
        ) is Some,
        result is Ok ==> result->Ok_0@ == stated_digest(content@, SHOW_CAD_STATUS_ASSET_NAME@)->0
            && result->Ok_0@.len() == 32,
        result is Err ==> result->Err_0.says(status_digest_problem(content@)),
{
    match read_utf8(content) {
        Err(problem) => Err(Failure::plain(&problem)),
        Ok(_) => digest_for(
            content,
            SHOW_CAD_STATUS_ASSET_NAME,
            "invalid show-cad-status checksum format",
            "show-cad-status checksum must be lowercase hexadecimal",
        ),
    }
}

/// The steps that put the program in its place.
pub open spec fn status_steps(target: Seq<u8>, asset: u64, digest: Seq<u8>) -> Seq<StepView> {
    seq![
        bare_deed(Ask::CreateFile { path: target, mode: SHOW_CAD_STATUS_DOWNLOAD_MODE }),
        bare_step(Ask::InspectOpen(target), Demand::Remember, unanswered()),
        bare_deed(Ask::SetOpenMode { path: target, mode: SHOW_CAD_STATUS_DOWNLOAD_MODE }),
        bare_deed(Ask::GetAsset(asset_address(asset))),
        bare_deed(Ask::SaveBody(target)),
        bare_deed(Ask::SyncOpen(target)),
        deed(
            Ask::Open(target),
            about("show-cad-status checksum does not match: failed to open candidate "@, target),
        ),
        step(
            Ask::ReadOpened(target),
            Demand::Digest(digest),
            "show-cad-status checksum does not match"@,
            "show-cad-status checksum does not match: downloaded Eiyah checksum does not match"@,
        ),
        bare_deed(Ask::SetOpenMode { path: target, mode: SHOW_CAD_STATUS_EXECUTABLE_MODE }),
        bare_deed(Ask::SyncOpen(target)),
        bare_step(
            Ask::InspectOpen(target),
            Demand::ExecutableMode,
            "show-cad-status binary is not executable"@,
        ),
    ]
}

/// What is removed after a failure, provided that it is still what was created.
pub open spec fn status_tidy(target: Seq<u8>) -> Tidy {
    Tidy::IfSame { inspect: Ask::Inspect(target), remove: Ask::RemoveFile(target) }
}

/// Puts the program in its place, with what its checksum file holds. After a failure
/// the file is removed, provided that it is still the one that was created.
fn place_show_cad_status(target: &[u8], asset: u64, checksum: &[u8]) -> (result: Result<
    Script,
    Failure,
>)
    ensures
        result is Ok <==> valid_utf8(checksum@) && stated_digest(
            checksum@,
            SHOW_CAD_STATUS_ASSET_NAME@,
        ) is Some,
        result is Err ==> result->Err_0.says(status_digest_problem(checksum@)),
        result is Ok ==> result->Ok_0.begins(
            status_steps(
                target@,
                asset,
                stated_digest(checksum@, SHOW_CAD_STATUS_ASSET_NAME@)->0,
            ),
            status_tidy(target@),
        ),
{
    let digest = match parse_show_cad_status_checksum(checksum) {
        Err(failure) => {
            return Err(failure);
        },
        Ok(digest) => digest,
    };
    let ghost stated = digest@;
    let mut steps = no_steps();
    add_step(
        &mut steps,
        Step::bare_deed(
            Request::CreateFile { path: copy_bytes(target), mode: SHOW_CAD_STATUS_DOWNLOAD_MODE },
        ),
    );
    add_step(
        &mut steps,
        Step::bare(
            Request::InspectOpen(copy_bytes(target)),
            Check::Remember,
            "unexpected reply".to_owned(),
        ),
    );
    add_step(
        &mut steps,
        Step::bare_deed(
            Request::SetOpenMode { path: copy_bytes(target), mode: SHOW_CAD_STATUS_DOWNLOAD_MODE },
        ),
    );
    add_step(&mut steps, Step::bare_deed(Request::GetAsset(private_asset_url(asset))));
    add_step(&mut steps, Step::bare_deed(Request::SaveBody(copy_bytes(target))));
    add_step(&mut steps, Step::bare_deed(Request::SyncOpen(copy_bytes(target))));
    add_step(
        &mut steps,
        Step::deed(
            Request::Open(copy_bytes(target)),
            message_at("show-cad-status checksum does not match: failed to open candidate ", target),
        ),
    );
    add_step(
        &mut steps,
        Step::new(
            Request::ReadOpened(copy_bytes(target)),
            Check::Digest(digest),
            "show-cad-status checksum does not match".to_owned(),
            "show-cad-status checksum does not match: downloaded Eiyah checksum does not match".to_owned(),
        ),
    );
    add_step(
        &mut steps,
        Step::bare_deed(
            Request::SetOpenMode {
                path: copy_bytes(target),
                mode: SHOW_CAD_STATUS_EXECUTABLE_MODE,
            },
        ),
    );
    add_step(&mut steps, Step::bare_deed(Request::SyncOpen(copy_bytes(target))));
    add_step(
        &mut steps,
        Step::bare(
            Request::InspectOpen(copy_bytes(target)),
            Check::ExecutableMode,
            "show-cad-status binary is not executable".to_owned(),
        ),
    );
    assert(step_views(steps@) =~= status_steps(target@, asset, stated));
    Ok(
        Script::new(
            steps,
            Cleanup::IfSame {
                inspect: Request::Inspect(copy_bytes(target)),
                remove: Request::RemoveFile(copy_bytes(target)),
            },
        ),
    )
}

/// The program on its way to its place.
#[derive(Debug)]
pub enum StatusSetup {
    /// The checksum file is downloaded.
    Summing { target: Vec<u8>, asset: u64, checksum_asset: u64 },
    /// The checksum file is read.
    Loading { target: Vec<u8>, asset: u64 },
    /// The program is downloaded, checked and made executable.
    Placing(Script),
    Completed,
    Failed(Failure),
}

/// Begins to install the program from the files of a release.
pub fn install_show_cad_status(
    paths: &ResolvedPaths,
    binary_asset_id: u64,
    checksum_asset_id: u64,
) -> (setup: StatusSetup)
    ensures
        setup.begins(paths.eiyah_prefix@, binary_asset_id, checksum_asset_id),
{
    StatusSetup::Summing {
        target: join_text(&paths.eiyah_prefix, "bin/show-cad-status"),
        asset: binary_asset_id,
        checksum_asset: checksum_asset_id,
    }
}

impl StatusSetup {
    /// Whether nothing was done yet.
    pub open spec fn begins(&self, prefix: Seq<u8>, asset: u64, checksum_asset: u64) -> bool {
        &&& self is Summing
        &&& self->Summing_target@ == under(prefix, "bin/show-cad-status"@)
        &&& self->Summing_asset == asset
        &&& self->checksum_asset == checksum_asset
    }

    /// The request that the setup waits for.
    pub open spec fn asks(&self) -> Ask {
        match self {
            StatusSetup::Summing { checksum_asset, .. } => Ask::GetAsset(
                asset_address(*checksum_asset),
            ),
            StatusSetup::Loading { .. } => Ask::ReadBody,
            StatusSetup::Placing(script) => script.asks(),
            StatusSetup::Completed => Ask::Nothing,
            StatusSetup::Failed(_) => Ask::Nothing,
        }
    }

    /// What follows a reply.
    pub open spec fn follows(&self, reply: Reply, next: StatusSetup) -> bool {
        match self {
            StatusSetup::Summing { target, asset, .. } => match reply {
                Reply::Done => next == (StatusSetup::Loading { target: *target, asset: *asset }),
                Reply::Failed(fault) => next is Failed && next->Failed_0.says(fault.text@),
                _ => next is Failed && next->Failed_0.says(unanswered()),
            },
            StatusSetup::Loading { target, asset } => match reply {
                Reply::Contents(checksum) => if valid_utf8(checksum@) && stated_digest(
                    checksum@,
                    SHOW_CAD_STATUS_ASSET_NAME@,
                ) is Some {
                    next is Placing && next->Placing_0.begins(
                        status_steps(
                            target@,
                            *asset,
                            stated_digest(checksum@, SHOW_CAD_STATUS_ASSET_NAME@)->0,
                        ),
                        status_tidy(target@),
                    )
                } else {
                    next is Failed && next->Failed_0.says(status_digest_problem(checksum@))
                },
                Reply::Failed(fault) => next is Failed && next->Failed_0.says(fault.text@),
                _ => next is Failed && next->Failed_0.says(unanswered()),
            },
            StatusSetup::Placing(script) => match script.after(reply).phase {
                Phase::Completed => next is Completed,
                Phase::Failed { step, fault } => next is Failed && tells(
                    step_views(script.steps@),
                    step as int,
                    fault,
                    next->Failed_0,
                ),
                _ => next == StatusSetup::Placing(script.after(reply)),
            },
            _ => next == *self,
        }
    }

    pub fn request(&self) -> (request: Request)
        ensures
            request@ == self.asks(),
    {
        match self {
            StatusSetup::Summing { checksum_asset, .. } => Request::GetAsset(
                private_asset_url(*checksum_asset),
            ),
            StatusSetup::Loading { .. } => Request::ReadBody,
            StatusSetup::Placing(script) => script.wanted(),
            StatusSetup::Completed => Request::Nothing,
            StatusSetup::Failed(_) => Request::Nothing,
        }
    }

    /// Goes on with a reply.
    pub fn advance(self, reply: Reply) -> (next: StatusSetup)
        ensures
            self.follows(reply, next),
    {
        match self {
            StatusSetup::Summing { target, asset, .. } => match reply {
                Reply::Done => StatusSetup::Loading { target, asset },
                Reply::Failed(fault) => StatusSetup::Failed(Failure::plain(&fault.text)),
                _ => StatusSetup::Failed(Failure::plain("unexpected reply")),
            },
            StatusSetup::Loading { target, asset } => match reply {
                Reply::Contents(checksum) => match place_show_cad_status(&target, asset, &checksum) {
                    Ok(script) => StatusSetup::Placing(script),
                    Err(failure) => StatusSetup::Failed(failure),
                },
                Reply::Failed(fault) => StatusSetup::Failed(Failure::plain(&fault.text)),
                _ => StatusSetup::Failed(Failure::plain("unexpected reply")),
            },
            StatusSetup::Placing(script) => match script.progress(reply) {
                Progress::Going(script) => StatusSetup::Placing(script),
                Progress::Completed => StatusSetup::Completed,
                Progress::Broken(failure) => StatusSetup::Failed(failure),
            },
            StatusSetup::Completed => StatusSetup::Completed,
            StatusSetup::Failed(failure) => StatusSetup::Failed(failure),
        }
    }
}

/// The program becomes executable only after what was downloaded has the digest that
/// its checksum file states.
pub proof fn only_the_verified_program_is_executable(
    target: Seq<u8>,
    asset: u64,
    digest: Seq<u8>,
    replies: Seq<Reply>,
)
    requires
        asked(
            status_steps(target, asset, digest),
            status_tidy(target),
            phase_after(status_steps(target, asset, digest), status_tidy(target), replies),
        ) == (Ask::SetOpenMode { path: target, mode: SHOW_CAD_STATUS_EXECUTABLE_MODE }),
    ensures
        exists|i: int|
            0 <= i < replies.len() && (#[trigger] replies[i] matches Reply::Contents(found)
                && sha256(found@) == digest),
{
    let steps = status_steps(target, asset, digest);
    progress_means_acceptance(steps, status_tidy(target), replies);
    assert(replies.len() == 8);
    assert(goes_on(verdict_on(steps[7].demand, remembered(steps, replies.take(7)), replies[7])));
}

/// Links the command to the program; the link has to be absolute.
pub fn create_show_cad_status_entry(paths: &ResolvedPaths, home: &[u8]) -> (result: Result<
    Request,
    Failure,
>)
    ensures
        result is Ok <==> absolute(under(paths.eiyah_prefix@, "bin/show-cad-status"@)),
        result is Ok ==> result->Ok_0@ == (Ask::Symlink {
            target: under(paths.eiyah_prefix@, "bin/show-cad-status"@),
            path: under(home@, ".local/bin/show-cad-status"@),
        }),
        result is Err ==> result->Err_0.says("show-cad-status entry target must be absolute"@),
{
    let target = join_text(&paths.eiyah_prefix, "bin/show-cad-status");
    if !is_absolute(&target) {
        return Err(Failure::plain("show-cad-status entry target must be absolute"));
    }
    Ok(Request::Symlink { target, path: join_text(home, ".local/bin/show-cad-status") })
}

} // verus!
