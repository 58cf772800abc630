//! The steps of an installation, each done by requests to the machine.

use crate::backup::{backup_begins, backup_home_path, BackupMove, BackupPhase};
use crate::binary::{create_eiyah_public_entry, install_running_eiyah_binary, BinarySetup};
use crate::bytes::{copy_bytes, views};
use crate::config::{create_initial_config, create_install_metadata, initial_config_saved};
use crate::config::{metadata_saved, ResolvedPaths};
use crate::directories::{at_level, create_install_directories, prepare_backup_root, ChainPhase};
use crate::directories::{DirectoryChain, ManagedDirectories, ManagedPhase};
use crate::dotfiles::{create_git_config_local, cshrc_judged, cshrc_survey, fresh_copy};
use crate::dotfiles::{install_dotfiles, source_judged, source_survey, validate_seen_cshrc};
use crate::dotfiles::{validate_seen_source, CopyPhase, DotfilesCopy, GitIdentity, IdentityPhase};
use crate::failure::{about, Failure};
use crate::host::{Ask, Program, Reply, Request};
use crate::install::{Act, BackupRecord, Deed, Job, Publishing, StepReply};
use crate::paths::{absolute, join_text, under};
use crate::pixi::{pixi_sync_command, prepare_pixi, sync_pixi, sync_problem, sync_program};
use crate::pixi::{PixiPhase, PixiSetup};
use crate::private_release::{create_show_cad_status_entry, install_show_cad_status};
use crate::private_release::{PrivateReleaseInfo, StatusSetup};
use crate::script::{add_step, deed, no_steps, step_views, tells, unanswered, Cleanup, Phase};
use crate::script::{Script, Tidy};
use crate::storage::{Save, SaveMode};
use crate::stow::{fresh_search, run_stow_package, stow_conflicts, stow_packages, ConflictPhase};
use crate::stow::{ConflictScan, PackagePhase, PackageScan, StowPhase, StowRun};
use crate::survey::{asked_of, Survey};
use crate::text::decimal;
use crate::transaction::Action;
use crate::verify::{installation_judged, installation_places, installation_survey};
use crate::verify::validate_seen_installation;
use vstd::prelude::*;
use vstd::utf8::encode_utf8;

verus! {

/// What the steps of an installation need to know.
#[derive(Debug)]
pub struct Workplace {
    pub paths: ResolvedPaths,
    pub home: Vec<u8>,
    /// Where the configuration was unpacked.
    pub core_root: Vec<u8>,
    pub release: PrivateReleaseInfo,
    /// The program that is running, or why it is not known.
    pub running: Result<Vec<u8>, String>,
    /// The number of the process.
    pub process: u64,
}

/// What is looked at before the installation goes on.
#[derive(Clone, Copy, Debug, PartialEq, Eq, Structural)]
pub enum Look {
    /// The configuration.
    Source,
    /// The start file of the shell.
    Cshrc,
    /// The whole installation.
    Everything,
}

/// A step that is being done.
#[derive(Debug)]
pub enum ActRun {
    /// A single request that has to be done.
    Asking(Request),
    /// Directories are created.
    Making(ManagedDirectories),
    /// What stands at a path is looked up.
    Recording { path: Vec<u8> },
    /// Steps of a script are done.
    Scripted(Script),
    /// Pixi is synchronized.
    Syncing(Program),
    /// Something is looked at.
    Looking { look: Look, survey: Survey },
    /// The directories of the backup are created.
    Chaining(DirectoryChain),
    /// The dotfiles are copied.
    Copying(DotfilesCopy),
    /// The identity of the user is written.
    Identifying(GitIdentity),
    /// The running program is put in its place.
    Installing(BinarySetup),
    /// The status program is put in its place.
    Placing(StatusSetup),
    /// A file is published.
    Saving(Save),
    /// Pixi is prepared.
    Preparing(PixiSetup),
    /// An entry is moved into the backup.
    BackingUp(BackupMove),
    /// The packages are searched for.
    Scanning(PackageScan),
    /// What stands in their way is searched for.
    Searching(ConflictScan),
    /// A package is linked.
    Linking(StowRun),
    /// The step has come to its end.
    Ended(StepReply),
}

// --------------------------------------------------
// How parts of a step end
// --------------------------------------------------

/// Whether a step has ended with a failure that says this.
pub open spec fn ended_saying(run: ActRun, words: Seq<char>) -> bool {
    run matches ActRun::Ended(StepReply::Failed(failure)) && failure.says(words)
}

/// Whether a step that has to come out well has ended this way.
pub open spec fn ended_with(result: Result<(), Failure>, run: ActRun) -> bool {
    match result {
        Ok(()) => run == ActRun::Ended(StepReply::Done),
        Err(failure) => run == ActRun::Ended(StepReply::Failed(failure)),
    }
}

fn end_with(result: Result<(), Failure>) -> (run: ActRun)
    ensures
        ended_with(result, run),
{
    match result {
        Ok(()) => ActRun::Ended(StepReply::Done),
        Err(failure) => ActRun::Ended(StepReply::Failed(failure)),
    }
}

fn end_saying(words: &str) -> (run: ActRun)
    ensures
        ended_saying(run, words@),
{
    ActRun::Ended(StepReply::Failed(Failure::plain(words)))
}

/// How a single request ends.
pub open spec fn request_run(reply: Reply, run: ActRun) -> bool {
    match reply {
        Reply::Done => run == ActRun::Ended(StepReply::Done),
        Reply::Failed(fault) => ended_saying(run, fault.text@),
        _ => ended_saying(run, unanswered()),
    }
}

/// How the creation of directories stands: the directories that were created are what
/// comes back.
pub open spec fn making_run(making: ManagedDirectories, run: ActRun) -> bool {
    match making.phase {
        ManagedPhase::Completed => run matches ActRun::Ended(StepReply::Made(paths)) && paths@.len()
            == making.made@.len() && forall|i: int|
            0 <= i < paths@.len() ==> #[trigger] paths@[i]@ == at_level(
                views(making.levels@),
                making.made@[i].level,
            ),
        ManagedPhase::Failed(problem) => run matches ActRun::Ended(StepReply::Failed(failure))
            && making.tells(problem, failure),
        _ => run == ActRun::Making(making),
    }
}

fn run_making(making: ManagedDirectories) -> (run: ActRun)
    ensures
        making_run(making, run),
{
    match making.outcome() {
        None => ActRun::Making(making),
        Some(Ok(())) => ActRun::Ended(StepReply::Made(making.created())),
        Some(Err(failure)) => ActRun::Ended(StepReply::Failed(failure)),
    }
}

/// How a look at a path ends.
pub open spec fn record_run(reply: Reply, run: ActRun) -> bool {
    match reply {
        Reply::Found(entry) => run == ActRun::Ended(StepReply::Found(entry.identity)),
        Reply::Failed(fault) => ended_saying(run, fault.text@),
        _ => ended_saying(run, unanswered()),
    }
}

/// How a script stands.
pub open spec fn script_run(script: Script, run: ActRun) -> bool {
    match script.phase {
        Phase::Completed => run == ActRun::Ended(StepReply::Done),
        Phase::Failed { step, fault } => run matches ActRun::Ended(StepReply::Failed(failure))
            && tells(step_views(script.steps@), step as int, fault, failure),
        _ => run == ActRun::Scripted(script),
    }
}

fn run_script(script: Script) -> (run: ActRun)
    ensures
        script_run(script, run),
{
    match script.outcome() {
        None => ActRun::Scripted(script),
        Some(result) => end_with(result),
    }
}

/// How the synchronization of Pixi ends.
pub open spec fn sync_run(reply: Reply, run: ActRun) -> bool {
    match sync_problem(reply) {
        None => run == ActRun::Ended(StepReply::Done),
        Some(words) => ended_saying(run, words),
    }
}

/// Whether this is what is said of what was looked at.
pub open spec fn judged(
    look: Look,
    place: Workplace,
    replies: Seq<Reply>,
    result: Result<(), Failure>,
) -> bool {
    match look {
        Look::Source => source_judged(place.core_root@, replies, result),
        Look::Cshrc => cshrc_judged(under(place.home@, ".dotfiles"@), place.home@, replies, result),
        Look::Everything => installation_judged(place.paths, place.home@, replies, result),
    }
}

/// How a look stands.
pub open spec fn look_run(look: Look, survey: Survey, place: Workplace, run: ActRun) -> bool {
    if survey.is_complete() {
        exists|result: Result<(), Failure>| #[trigger]
            judged(look, place, survey.replies@, result) && ended_with(result, run)
    } else {
        run == (ActRun::Looking { look, survey })
    }
}

fn run_look(look: Look, survey: Survey, place: &Workplace) -> (run: ActRun)
    ensures
        look_run(look, survey, *place, run),
{
    if survey.replies.len() < survey.requests.len() {
        return ActRun::Looking { look, survey };
    }
    let ghost replies = survey.replies@;
    let result = match look {
        Look::Source => validate_seen_source(&place.core_root, survey),
        Look::Cshrc => validate_seen_cshrc(
            &join_text(&place.home, ".dotfiles"),
            &place.home,
            survey,
        ),
        Look::Everything => validate_seen_installation(&place.paths, &place.home, survey),
    };
    assert(judged(look, *place, replies, result));
    end_with(result)
}

/// How the creation of the directories of the backup stands.
pub open spec fn chain_run(chain: DirectoryChain, run: ActRun) -> bool {
    match chain.phase {
        ChainPhase::Completed => run == ActRun::Ended(StepReply::Done),
        ChainPhase::Failed(problem) => run matches ActRun::Ended(StepReply::Failed(failure))
            && chain.tells(problem, failure),
        _ => run == ActRun::Chaining(chain),
    }
}

fn run_chain(chain: DirectoryChain) -> (run: ActRun)
    ensures
        chain_run(chain, run),
{
    match chain.outcome() {
        None => ActRun::Chaining(chain),
        Some(result) => end_with(result),
    }
}

/// How the copy of the dotfiles stands.
pub open spec fn copy_run(copy: DotfilesCopy, run: ActRun) -> bool {
    match copy.phase {
        CopyPhase::Completed => run == ActRun::Ended(StepReply::Done),
        CopyPhase::Failed(failure) => run == ActRun::Ended(StepReply::Failed(failure)),
        _ => run == ActRun::Copying(copy),
    }
}

fn run_copy(copy: DotfilesCopy) -> (run: ActRun)
    ensures
        copy_run(copy, run),
{
    match copy.phase {
        CopyPhase::Completed => ActRun::Ended(StepReply::Done),
        CopyPhase::Failed(failure) => ActRun::Ended(StepReply::Failed(failure)),
        _ => ActRun::Copying(copy),
    }
}

/// How the identity of the user stands.
pub open spec fn identity_run(identity: GitIdentity, run: ActRun) -> bool {
    match identity.phase {
        IdentityPhase::Completed => run == ActRun::Ended(StepReply::Done),
        IdentityPhase::Failed(failure) => run == ActRun::Ended(StepReply::Failed(failure)),
        _ => run == ActRun::Identifying(identity),
    }
}

fn run_identity(identity: GitIdentity) -> (run: ActRun)
    ensures
        identity_run(identity, run),
{
    match identity.phase {
        IdentityPhase::Completed => ActRun::Ended(StepReply::Done),
        IdentityPhase::Failed(failure) => ActRun::Ended(StepReply::Failed(failure)),
        _ => ActRun::Identifying(identity),
    }
}

/// How the status program stands.
pub open spec fn status_run(setup: StatusSetup, run: ActRun) -> bool {
    match setup {
        StatusSetup::Completed => run == ActRun::Ended(StepReply::Done),
        StatusSetup::Failed(failure) => run == ActRun::Ended(StepReply::Failed(failure)),
        _ => run == ActRun::Placing(setup),
    }
}

/// How the setup of the running program stands.
pub open spec fn binary_run(setup: BinarySetup, run: ActRun) -> bool {
    match setup {
        BinarySetup::Completed => run == ActRun::Ended(StepReply::Done),
        BinarySetup::Failed(failure) => run == ActRun::Ended(StepReply::Failed(failure)),
        _ => run == ActRun::Installing(setup),
    }
}

fn run_binary(setup: BinarySetup) -> (run: ActRun)
    ensures
        binary_run(setup, run),
{
    match setup {
        BinarySetup::Completed => ActRun::Ended(StepReply::Done),
        BinarySetup::Failed(failure) => ActRun::Ended(StepReply::Failed(failure)),
        _ => ActRun::Installing(setup),
    }
}

fn run_status(setup: StatusSetup) -> (run: ActRun)
    ensures
        status_run(setup, run),
{
    match setup {
        StatusSetup::Completed => ActRun::Ended(StepReply::Done),
        StatusSetup::Failed(failure) => ActRun::Ended(StepReply::Failed(failure)),
        _ => ActRun::Placing(setup),
    }
}

/// How the publication of a file stands.
pub open spec fn save_run(save: Save, run: ActRun) -> bool {
    match save.script.phase {
        Phase::Completed => run == ActRun::Ended(StepReply::Published(None)),
        Phase::Failed { step, fault } => run matches ActRun::Ended(StepReply::Failed(failure))
            && tells(step_views(save.script.steps@), step as int, fault, failure),
        _ => run == ActRun::Saving(save),
    }
}

fn run_save(save: Save) -> (run: ActRun)
    ensures
        save_run(save, run),
{
    match save.script.outcome() {
        None => ActRun::Saving(save),
        Some(Ok(())) => ActRun::Ended(StepReply::Published(None)),
        Some(Err(failure)) => ActRun::Ended(StepReply::Failed(failure)),
    }
}

/// How Pixi stands: what it is known by is what comes back.
pub open spec fn pixi_run(setup: PixiSetup, run: ActRun) -> bool {
    match setup.phase {
        PixiPhase::Completed(identity) => run == ActRun::Ended(StepReply::Found(identity)),
        PixiPhase::Failed(failure) => run == ActRun::Ended(StepReply::Failed(failure)),
        _ => run == ActRun::Preparing(setup),
    }
}

fn run_pixi(setup: PixiSetup) -> (run: ActRun)
    ensures
        pixi_run(setup, run),
{
    match setup.phase {
        PixiPhase::Completed(identity) => ActRun::Ended(StepReply::Found(identity)),
        PixiPhase::Failed(failure) => ActRun::Ended(StepReply::Failed(failure)),
        _ => ActRun::Preparing(setup),
    }
}

/// Whether a record tells of this backup.
pub open spec fn records(record: BackupRecord, backup: BackupMove) -> bool {
    &&& record.from@ == backup.from@
    &&& record.to@ == backup.to@
    &&& record.index@ == backup.index@
    &&& backup.entry is Ok
    &&& record.entry@ == backup.entry->Ok_0@
    &&& backup.phase == (BackupPhase::BackedUp { cleanup_error: record.cleanup_error })
}

/// How a backup stands: what was moved is what comes back.
pub open spec fn backup_run(backup: BackupMove, run: ActRun) -> bool {
    match backup.phase {
        BackupPhase::Absent => run == ActRun::Ended(StepReply::Moved(None)),
        BackupPhase::BackedUp { .. } => if backup.entry is Ok {
            run matches ActRun::Ended(StepReply::Moved(Some(record))) && records(record, backup)
        } else {
            run == ActRun::Ended(StepReply::Moved(None))
        },
        BackupPhase::Failed(problem) => run matches ActRun::Ended(StepReply::Failed(failure))
            && backup.tells(problem, failure),
        _ => run == ActRun::BackingUp(backup),
    }
}

fn run_backup(backup: BackupMove) -> (run: ActRun)
    ensures
        backup_run(backup, run),
{
    match backup.failure() {
        Some(failure) => {
            return ActRun::Ended(StepReply::Failed(failure));
        },
        None => {},
    }
    match backup.action() {
        Some(Action::BackedUp { from, to, index, entry }) => match backup.phase {
            BackupPhase::BackedUp { cleanup_error } => ActRun::Ended(
                StepReply::Moved(Some(BackupRecord { from, to, index, entry, cleanup_error })),
            ),
            _ => ActRun::Ended(StepReply::Moved(None)),
        },
        _ => match backup.phase {
            BackupPhase::Absent => ActRun::Ended(StepReply::Moved(None)),
            BackupPhase::BackedUp { .. } => ActRun::Ended(StepReply::Moved(None)),
            _ => ActRun::BackingUp(backup),
        },
    }
}

/// How the search for packages stands.
pub open spec fn packages_run(scan: PackageScan, run: ActRun) -> bool {
    match scan.phase {
        PackagePhase::Completed(names) => run == ActRun::Ended(StepReply::Names(names)),
        PackagePhase::Failed(failure) => run == ActRun::Ended(StepReply::Failed(failure)),
        _ => run == ActRun::Scanning(scan),
    }
}

fn run_packages(scan: PackageScan) -> (run: ActRun)
    ensures
        packages_run(scan, run),
{
    match scan.phase {
        PackagePhase::Completed(names) => ActRun::Ended(StepReply::Names(names)),
        PackagePhase::Failed(failure) => ActRun::Ended(StepReply::Failed(failure)),
        _ => ActRun::Scanning(scan),
    }
}

/// How the search for what stands in the way stands.
pub open spec fn conflicts_run(scan: ConflictScan, run: ActRun) -> bool {
    match scan.phase {
        ConflictPhase::Completed => run == ActRun::Ended(StepReply::Names(scan.conflicts)),
        ConflictPhase::Failed(failure) => run == ActRun::Ended(StepReply::Failed(failure)),
        _ => run == ActRun::Searching(scan),
    }
}

fn run_conflicts(scan: ConflictScan) -> (run: ActRun)
    ensures
        conflicts_run(scan, run),
{
    match scan.phase {
        ConflictPhase::Completed => ActRun::Ended(StepReply::Names(scan.conflicts)),
        ConflictPhase::Failed(failure) => ActRun::Ended(StepReply::Failed(failure)),
        _ => ActRun::Searching(scan),
    }
}

/// How the linking of a package stands.
pub open spec fn stow_run(linking: StowRun, run: ActRun) -> bool {
    match linking.phase {
        StowPhase::Completed => run == ActRun::Ended(StepReply::Done),
        StowPhase::Failed(failure) => run == ActRun::Ended(StepReply::Failed(failure)),
        _ => run == ActRun::Linking(linking),
    }
}

fn run_stow(linking: StowRun) -> (run: ActRun)
    ensures
        stow_run(linking, run),
{
    match linking.phase {
        StowPhase::Completed => ActRun::Ended(StepReply::Done),
        StowPhase::Failed(failure) => ActRun::Ended(StepReply::Failed(failure)),
        _ => ActRun::Linking(linking),
    }
}

// --------------------------------------------------
// How a step begins
// --------------------------------------------------

/// Whether an operation of the installation begins this way.
pub open spec fn job_begins(job: Job, place: Workplace, run: ActRun) -> bool {
    let prefix = place.paths.eiyah_prefix@;
    let home = place.home@;
    match job {
        Job::Binary => match place.running {
            Err(reason) => run matches ActRun::Ended(StepReply::Failed(failure)) && failure.blames(
                "failed to resolve running Eiyah executable"@,
                reason@,
            ),
            Ok(source) => run matches ActRun::Installing(setup) && setup.begins(prefix, source@),
        },
        Job::Entry => {
            let target = under(prefix, "bin/eiyah"@);
            let entry = under(home, ".local/bin/eiyah"@);
            if absolute(target) {
                exists|script: Script| #[trigger]
                    script.begins(
                        seq![
                            deed(
                                Ask::Symlink { target, path: entry },
                                about("failed to create public Eiyah entry: "@, entry),
                            ),
                        ],
                        Tidy::Nothing,
                    ) && script_run(script, run)
            } else {
                ended_saying(run, about("Eiyah command link target must be absolute: "@, target))
            }
        },
        Job::Sync => run matches ActRun::Syncing(program) && program@ == sync_program(
            under(place.paths.pixi_home@, "bin/pixi"@),
            place.paths.pixi_home@,
            home,
        ),
        Job::Source => run matches ActRun::Looking { look, survey } && look == Look::Source
            && survey.begins(
            seq![
                Ask::Inspect(place.core_root@),
                Ask::Inspect(under(place.core_root@, "dotfiles"@)),
            ],
        ),
        Job::BackupRoot => exists|chain: DirectoryChain| #[trigger]
            chain.begins_backup(
                place.paths.state_home@,
                under(place.paths.state_home@, "eiyah/backup/home"@),
            ) && chain_run(chain, run),
        Job::Dotfiles => run matches ActRun::Copying(copy) && copy@ == fresh_copy(
            place.core_root@,
            home,
        ),
        Job::Git => run matches ActRun::Identifying(identity) && identity.begins(
            under(home, ".dotfiles"@),
        ),
        Job::Cshrc => run matches ActRun::Looking { look, survey } && look == Look::Cshrc
            && survey.begins(
            seq![Ask::Inspect(under(home, ".cshrc"@)), Ask::ReadLink(under(home, ".cshrc"@))],
        ),
        Job::Status => run matches ActRun::Placing(setup) && setup.begins(
            prefix,
            place.release.show_cad_status_asset_id,
            place.release.show_cad_status_checksum_asset_id,
        ),
        Job::StatusEntry => {
            let target = under(prefix, "bin/show-cad-status"@);
            if absolute(target) {
                run matches ActRun::Asking(request) && request@ == (Ask::Symlink {
                    target,
                    path: under(home, ".local/bin/show-cad-status"@),
                })
            } else {
                ended_saying(run, "show-cad-status entry target must be absolute"@)
            }
        },
        Job::Verify => run matches ActRun::Looking { look, survey } && look == Look::Everything
            && survey.begins(installation_places(place.paths, home)),
    }
}

/// Whether the creation of directories begins this way.
pub open spec fn directories_begin(path: Seq<u8>, run: ActRun) -> bool {
    exists|making: ManagedDirectories| #[trigger] making.begins(path) && making_run(making, run)
}

fn begin_directories(path: &[u8]) -> (run: ActRun)
    ensures
        directories_begin(path@, run),
        run.sound(),
{
    let making = create_install_directories(path);
    assert(making.begins(path@));
    run_making(making)
}

/// Whether the publication of a file is prepared.
pub open spec fn is_prepared(
    what: Publishing,
    place: Workplace,
    sequence: u64,
    result: Result<Save, Failure>,
) -> bool {
    match what {
        Publishing::Metadata => metadata_saved(
            place.paths,
            SaveMode::Initial,
            place.process,
            sequence,
            result,
        ),
        Publishing::Config => initial_config_saved(place.paths, place.process, sequence, result),
    }
}

/// Whether the publication of a file begins this way.
pub open spec fn publication_begins(
    what: Publishing,
    place: Workplace,
    sequence: u64,
    run: ActRun,
) -> bool {
    exists|result: Result<Save, Failure>| #[trigger]
        is_prepared(what, place, sequence, result) && match result {
            Ok(save) => save_run(save, run),
            Err(failure) => run == ActRun::Ended(StepReply::Failed(failure)),
        }
}

fn begin_publication(what: Publishing, place: &Workplace, sequence: u64) -> (run: ActRun)
    ensures
        publication_begins(what, *place, sequence, run),
        run.sound(),
{
    let result = match what {
        Publishing::Metadata => create_install_metadata(&place.paths, place.process, sequence),
        Publishing::Config => create_initial_config(&place.paths, place.process, sequence),
    };
    assert(is_prepared(what, *place, sequence, result));
    match result {
        Ok(save) => run_save(save),
        Err(failure) => ActRun::Ended(StepReply::Failed(failure)),
    }
}

/// Whether a move into the backup begins this way.
pub open spec fn moving_begins(path: Seq<u8>, place: Workplace, run: ActRun) -> bool {
    exists|result: Result<BackupMove, Failure>| #[trigger]
        backup_begins(place.home@, place.paths.state_home@, path, result) && match result {
            Ok(backup) => backup_run(backup, run),
            Err(failure) => run == ActRun::Ended(StepReply::Failed(failure)),
        }
}

fn begin_moving(path: &[u8], place: &Workplace) -> (run: ActRun)
    ensures
        moving_begins(path@, *place, run),
        run.sound(),
{
    let result = backup_home_path(&place.home, &place.paths.state_home, path);
    assert(backup_begins(place.home@, place.paths.state_home@, path@, result));
    match result {
        Ok(backup) => run_backup(backup),
        Err(failure) => ActRun::Ended(StepReply::Failed(failure)),
    }
}

/// Whether the linking of a package begins this way.
pub open spec fn linking_begins(package: Seq<u8>, place: Workplace, run: ActRun) -> bool {
    exists|linking: StowRun| #[trigger]
        linking.begins(place.paths.pixi_home@, place.home@, package) && stow_run(linking, run)
}

fn begin_linking(package: &[u8], place: &Workplace) -> (run: ActRun)
    ensures
        linking_begins(package@, *place, run),
        run.sound(),
{
    let linking = run_stow_package(&place.paths, &place.home, package);
    assert(linking.begins(place.paths.pixi_home@, place.home@, package@));
    run_stow(linking)
}

/// Whether a step begins this way. `sequence` is a number for temporary names.
pub open spec fn act_begins(step: Deed, place: Workplace, sequence: u64, run: ActRun) -> bool {
    let home = place.home@;
    match step {
        Deed::Heading(text) => run matches ActRun::Asking(request) && request@ == Ask::Heading(text),
        Deed::Detail(text) => run matches ActRun::Asking(request) && request@ == Ask::Detail(text),
        Deed::Warning(text) => run matches ActRun::Asking(request) && request@ == Ask::Warning(text),
        Deed::Directories(path) => directories_begin(path, run),
        Deed::Record { path, .. } => run matches ActRun::Recording { path: place } && place@ == path,
        Deed::Do(job) => job_begins(job, place, run),
        Deed::Publish { what, .. } => publication_begins(what, place, sequence, run),
        Deed::Pixi => run matches ActRun::Preparing(setup) && setup.begins(
            place.paths.pixi_home@,
            place.core_root@,
        ),
        Deed::Backup(path) => moving_begins(path, place, run),
        Deed::Packages => exists|scan: PackageScan| #[trigger]
            scan.begins(place.paths.pixi_home@, under(home, ".dotfiles"@)) && packages_run(scan, run),
        Deed::Conflicts(packages) => exists|scan: ConflictScan| #[trigger]
            conflicts_run(scan, run) && scan@ == fresh_search(
                under(home, ".dotfiles"@),
                home,
                packages,
            ),
        Deed::Stow(package) => linking_begins(package, place, run),
        Deed::Refuse(words) => ended_saying(run, words),
    }
}

fn begin_job(job: Job, place: &Workplace) -> (run: ActRun)
    ensures
        job_begins(job, *place, run),
        run.sound(),
{
    let paths = &place.paths;
    let home = &place.home;
    match job {
        Job::Binary => match &place.running {
            Err(reason) => ActRun::Ended(
                StepReply::Failed(
                    Failure::caused("failed to resolve running Eiyah executable", reason),
                ),
            ),
            Ok(source) => ActRun::Installing(install_running_eiyah_binary(paths, source)),
        },
        Job::Entry => match create_eiyah_public_entry(paths, home) {
            Err(failure) => ActRun::Ended(StepReply::Failed(failure)),
            Ok(made) => {
                let mut steps = no_steps();
                let ghost step = made@;
                add_step(&mut steps, made);
                assert(step_views(steps@) =~= seq![step]);
                run_script(Script::new(steps, Cleanup::Nothing))
            },
        },
        Job::Sync => ActRun::Syncing(
            pixi_sync_command(&join_text(&paths.pixi_home, "bin/pixi"), &paths.pixi_home, home),
        ),
        Job::Source => ActRun::Looking {
            look: Look::Source,
            survey: source_survey(&place.core_root),
        },
        Job::BackupRoot => match prepare_backup_root(&paths.state_home) {
            Ok(chain) => run_chain(chain),
            Err(failure) => ActRun::Ended(StepReply::Failed(failure)),
        },
        Job::Dotfiles => ActRun::Copying(install_dotfiles(&place.core_root, home)),
        Job::Git => ActRun::Identifying(create_git_config_local(&join_text(home, ".dotfiles"))),
        Job::Cshrc => ActRun::Looking { look: Look::Cshrc, survey: cshrc_survey(home) },
        Job::Status => ActRun::Placing(
            install_show_cad_status(
                paths,
                place.release.show_cad_status_asset_id,
                place.release.show_cad_status_checksum_asset_id,
            ),
        ),
        Job::StatusEntry => match create_show_cad_status_entry(paths, home) {
            Ok(request) => ActRun::Asking(request),
            Err(failure) => ActRun::Ended(StepReply::Failed(failure)),
        },
        Job::Verify => ActRun::Looking {
            look: Look::Everything,
            survey: installation_survey(paths, home),
        },
    }
}

/// Begins a step. `sequence` is a number for temporary names.
pub fn begin_act(act: &Act, place: &Workplace, sequence: u64) -> (run: ActRun)
    ensures
        act_begins(act@, *place, sequence, run),
        run.sound(),
{
    let paths = &place.paths;
    let home = &place.home;
    match act {
        Act::Heading(text) => ActRun::Asking(Request::Heading(text.clone())),
        Act::Detail(text) => ActRun::Asking(Request::Detail(text.clone())),
        Act::Warning(text) => ActRun::Asking(Request::Warning(text.clone())),
        Act::Directories(path) => begin_directories(path),
        Act::Record { path, .. } => ActRun::Recording { path: copy_bytes(path) },
        Act::Do(job) => begin_job(*job, place),
        Act::Publish { what, .. } => begin_publication(*what, place, sequence),
        Act::Pixi => ActRun::Preparing(prepare_pixi(paths, &place.core_root)),
        Act::Backup(path) => begin_moving(path, place),
        Act::Packages => run_packages(stow_packages(paths, &join_text(home, ".dotfiles"))),
        Act::Conflicts(packages) => {
            let scan = stow_conflicts(&join_text(home, ".dotfiles"), home, packages);
            let run = run_conflicts(scan);
            assert(conflicts_run(scan, run));
            run
        },
        Act::Stow(package) => begin_linking(package, place),
        Act::Refuse(words) => end_saying(words),
    }
}

// --------------------------------------------------
// How a step goes on
// --------------------------------------------------

/// What follows a reply to the preparation of Pixi.
pub open spec fn pixi_steps(setup: PixiSetup, reply: Reply, next: PixiSetup) -> bool {
    next.pixi_home == setup.pixi_home && next.source == setup.source && setup.follows(
        reply,
        next.phase,
    )
}

/// What follows a reply to the identity of the user.
pub open spec fn identity_goes(identity: GitIdentity, reply: Reply, next: GitIdentity) -> bool {
    next.path == identity.path && identity.follows(reply, next.phase)
}

/// What follows a reply to the search for packages.
pub open spec fn packages_go(scan: PackageScan, reply: Reply, next: PackageScan) -> bool {
    next.stow == scan.stow && next.dotfiles == scan.dotfiles && scan.follows(reply, next.phase)
}

/// What follows a reply to the linking of a package.
pub open spec fn linking_goes(linking: StowRun, reply: Reply, next: StowRun) -> bool {
    &&& next.stow == linking.stow
    &&& next.home == linking.home
    &&& next.dotfiles == linking.dotfiles
    &&& next.package == linking.package
    &&& linking.follows(reply, next.phase)
}

impl ActRun {
    /// Whether a file that is being published can be gone on with.
    pub open spec fn sound(&self) -> bool {
        self matches ActRun::Saving(save) ==> save.valid()
    }

    /// The request that the step waits for.
    pub open spec fn asks(&self) -> Ask {
        match self {
            ActRun::Asking(request) => request@,
            ActRun::Making(making) => making.asks(),
            ActRun::Recording { path } => Ask::Inspect(path@),
            ActRun::Scripted(script) => script.asks(),
            ActRun::Syncing(program) => Ask::Run(program@),
            ActRun::Looking { survey, .. } => survey.asks(),
            ActRun::Chaining(chain) => chain.asks(),
            ActRun::Copying(copy) => copy@.asks(),
            ActRun::Identifying(identity) => identity.asks(),
            ActRun::Installing(setup) => setup.asks(),
            ActRun::Placing(setup) => setup.asks(),
            ActRun::Saving(save) => save.script.asks(),
            ActRun::Preparing(setup) => setup.asks(),
            ActRun::BackingUp(backup) => backup.asks(),
            ActRun::Scanning(scan) => scan.asks(),
            ActRun::Searching(scan) => scan@.asks(),
            ActRun::Linking(linking) => linking.asks(),
            ActRun::Ended(_) => Ask::Nothing,
        }
    }

    /// What follows a reply.
    pub open spec fn follows(&self, place: Workplace, reply: Reply, next: ActRun) -> bool {
        match self {
            ActRun::Asking(_) => request_run(reply, next),
            ActRun::Making(making) => exists|later: ManagedDirectories| #[trigger]
                making.follows(reply, later) && making_run(later, next),
            ActRun::Recording { .. } => record_run(reply, next),
            ActRun::Scripted(script) => script_run(script.after(reply), next),
            ActRun::Syncing(_) => sync_run(reply, next),
            ActRun::Looking { look, survey } => exists|later: Survey| #[trigger]
                survey.follows(reply, later) && look_run(*look, later, place, next),
            ActRun::Chaining(chain) => exists|later: DirectoryChain| #[trigger]
                chain.follows(reply, later) && chain_run(later, next),
            ActRun::Copying(copy) => exists|later: DotfilesCopy| #[trigger]
                copy_run(later, next) && later@ == copy@.after(reply),
            ActRun::Identifying(identity) => exists|later: GitIdentity| #[trigger]
                identity_goes(*identity, reply, later) && identity_run(later, next),
            ActRun::Installing(setup) => exists|later: BinarySetup| #[trigger]
                setup.follows(reply, later) && binary_run(later, next),
            ActRun::Placing(setup) => exists|later: StatusSetup| #[trigger]
                setup.follows(reply, later) && status_run(later, next),
            ActRun::Saving(save) => exists|later: Save| #[trigger]
                save.follows(reply, later) && later.valid() && save_run(later, next),
            ActRun::Preparing(setup) => exists|later: PixiSetup| #[trigger]
                pixi_steps(*setup, reply, later) && pixi_run(later, next),
            ActRun::BackingUp(backup) => exists|later: BackupMove| #[trigger]
                backup.follows(reply, later) && backup_run(later, next),
            ActRun::Scanning(scan) => exists|later: PackageScan| #[trigger]
                packages_go(*scan, reply, later) && packages_run(later, next),
            ActRun::Searching(scan) => exists|later: ConflictScan| #[trigger]
                conflicts_run(later, next) && later@ == scan@.after(reply),
            ActRun::Linking(linking) => exists|later: StowRun| #[trigger]
                linking_goes(*linking, reply, later) && stow_run(later, next),
            ActRun::Ended(_) => next == *self,
        }
    }

    pub fn request(&self) -> (request: Request)
        ensures
            request@ == self.asks(),
    {
        match self {
            ActRun::Asking(request) => request.copy(),
            ActRun::Making(making) => making.request(),
            ActRun::Recording { path } => Request::Inspect(copy_bytes(path)),
            ActRun::Scripted(script) => script.wanted(),
            ActRun::Syncing(program) => Request::Run(program.copy()),
            ActRun::Looking { survey, .. } => survey.request(),
            ActRun::Chaining(chain) => chain.request(),
            ActRun::Copying(copy) => copy.request(),
            ActRun::Identifying(identity) => identity.request(),
            ActRun::Installing(setup) => setup.request(),
            ActRun::Placing(setup) => setup.request(),
            ActRun::Saving(save) => save.script.wanted(),
            ActRun::Preparing(setup) => setup.request(),
            ActRun::BackingUp(backup) => backup.request(),
            ActRun::Scanning(scan) => scan.request(),
            ActRun::Searching(scan) => scan.request(),
            ActRun::Linking(linking) => linking.request(),
            ActRun::Ended(_) => Request::Nothing,
        }
    }

    /// Goes on with a reply.
    pub fn advance(self, place: &Workplace, reply: Reply) -> (next: ActRun)
        requires
            self.sound(),
        ensures
            self.follows(*place, reply, next),
            next.sound(),
    {
        match self {
            ActRun::Asking(_) => match reply {
                Reply::Done => ActRun::Ended(StepReply::Done),
                Reply::Failed(fault) => end_saying(&fault.text),
                _ => end_saying("unexpected reply"),
            },
            ActRun::Making(making) => run_making(making.advance(reply)),
            ActRun::Recording { .. } => match reply {
                Reply::Found(entry) => ActRun::Ended(StepReply::Found(entry.identity)),
                Reply::Failed(fault) => end_saying(&fault.text),
                _ => end_saying("unexpected reply"),
            },
            ActRun::Scripted(script) => run_script(script.advance(reply)),
            ActRun::Syncing(_) => end_with(sync_pixi(reply)),
            ActRun::Looking { look, survey } => {
                let later = survey.advance(reply);
                assert(survey.follows(reply, later));
                run_look(look, later, place)
            },
            ActRun::Chaining(chain) => run_chain(chain.advance(reply)),
            ActRun::Copying(copy) => {
                let later = copy.advance(reply);
                let next = run_copy(later);
                assert(copy_run(later, next));
                next
            },
            ActRun::Identifying(identity) => {
                let later = identity.advance(reply);
                assert(identity_goes(identity, reply, later));
                run_identity(later)
            },
            ActRun::Installing(setup) => run_binary(setup.advance(reply)),
            ActRun::Placing(setup) => run_status(setup.advance(reply)),
            ActRun::Saving(save) => run_save(save.advance(reply)),
            ActRun::Preparing(setup) => {
                let later = setup.advance(reply);
                assert(pixi_steps(setup, reply, later));
                run_pixi(later)
            },
            ActRun::BackingUp(backup) => run_backup(backup.advance(reply)),
            ActRun::Scanning(scan) => {
                let later = scan.advance(reply);
                assert(packages_go(scan, reply, later));
                run_packages(later)
            },
            ActRun::Searching(scan) => {
                let later = scan.advance(reply);
                let next = run_conflicts(later);
                assert(conflicts_run(later, next));
                next
            },
            ActRun::Linking(linking) => {
                let later = linking.advance(reply);
                assert(linking_goes(linking, reply, later));
                run_stow(later)
            },
            ActRun::Ended(reply) => ActRun::Ended(reply),
        }
    }
}

/// The jobs that look at something begin with the first of their places: the program
/// that runs, the configuration, `.cshrc`, and the installed program.
pub proof fn the_looks_begin_at_their_places(job: Job, place: Workplace, run: ActRun)
    requires
        job_begins(job, place, run),
    ensures
        job is Binary && place.running is Ok ==> run.asks() == Ask::Inspect(place.running->Ok_0@),
        job is Source ==> run.asks() == Ask::Inspect(place.core_root@),
        job is Dotfiles ==> run.asks() == Ask::Inspect(place.core_root@),
        job is Cshrc ==> run.asks() == Ask::Inspect(under(place.home@, ".cshrc"@)),
        job is Verify ==> run.asks() == Ask::Inspect(under(place.paths.eiyah_prefix@, "bin/eiyah"@)),
{
    match run {
        ActRun::Looking { survey, .. } => {
            assert(asked_of(survey.requests@).len() == survey.requests@.len());
        },
        _ => {},
    }
}

/// The command link leads to the installed program.
pub proof fn the_command_link_leads_to_the_program(place: Workplace, run: ActRun)
    requires
        job_begins(Job::Entry, place, run),
        under(place.paths.eiyah_prefix@, "bin/eiyah"@).len() > 0,
        under(place.paths.eiyah_prefix@, "bin/eiyah"@)[0] == 0x2f,
    ensures
        run.asks() == (Ask::Symlink {
            target: under(place.paths.eiyah_prefix@, "bin/eiyah"@),
            path: under(place.home@, ".local/bin/eiyah"@),
        }),
{
    let target = under(place.paths.eiyah_prefix@, "bin/eiyah"@);
    let entry = under(place.home@, ".local/bin/eiyah"@);
    let steps = seq![
        deed(
            Ask::Symlink { target, path: entry },
            about("failed to create public Eiyah entry: "@, entry),
        ),
    ];
    let script = choose|script: Script| #[trigger]
        script.begins(steps, Tidy::Nothing) && script_run(script, run);
    assert(script.begins(steps, Tidy::Nothing) && script_run(script, run));
    assert(steps.len() == 1);
    assert(script.phase is Running);
}

/// The link of show-cad-status leads to its program, which is placed once the file that
/// states its digest was asked for.
pub proof fn the_status_link_leads_to_the_program(job: Job, place: Workplace, run: ActRun)
    requires
        job_begins(job, place, run),
        under(place.paths.eiyah_prefix@, "bin/show-cad-status"@).len() > 0,
        under(place.paths.eiyah_prefix@, "bin/show-cad-status"@)[0] == 0x2f,
    ensures
        job is StatusEntry ==> run.asks() == (Ask::Symlink {
            target: under(place.paths.eiyah_prefix@, "bin/show-cad-status"@),
            path: under(place.home@, ".local/bin/show-cad-status"@),
        }),
        job is Status ==> run.asks() == Ask::GetAsset(
            "https://api.github.com/repos/"@ + "su-ito-lab/eiyah-core"@ + "/releases/assets/"@
                + decimal(place.release.show_cad_status_checksum_asset_id as nat),
        ),
{
}

/// The packages are synced by the installed Pixi, in the home directory.
pub proof fn the_packages_are_synced_by_pixi(place: Workplace, run: ActRun)
    requires
        job_begins(Job::Sync, place, run),
    ensures
        run.asks() is Run,
        run.asks()->Run_0.executable == under(place.paths.pixi_home@, "bin/pixi"@),
        run.asks()->Run_0.arguments == seq![encode_utf8("global"@), encode_utf8("sync"@)],
        run.asks()->Run_0.directory == Some(place.home@),
        run.asks()->Run_0.set.contains((encode_utf8("PIXI_HOME"@), place.paths.pixi_home@)),
{
    assert(run.asks()->Run_0.set[0] == (encode_utf8("PIXI_HOME"@), place.paths.pixi_home@));
}

/// An act has succeeded exactly where its request was done, the entry to be recorded was
/// found, or the packages were synced by a program that ended well.
pub proof fn an_act_succeeds_exactly_if(act: ActRun, place: Workplace, reply: Reply, next: ActRun)
    requires
        act.follows(place, reply, next),
    ensures
        act is Asking ==> (next == ActRun::Ended(StepReply::Done) <==> reply is Done),
        act is Recording ==> (next matches ActRun::Ended(StepReply::Found(_)) <==> reply is Found),
        act is Recording && reply is Found ==> next == ActRun::Ended(
            StepReply::Found(reply->Found_0.identity),
        ),
        act is Syncing ==> (next == ActRun::Ended(StepReply::Done) <==> reply is Exited
            && reply->success),
        act is Scripted ==> (next == ActRun::Ended(StepReply::Done) <==> act->Scripted_0.after(
            reply,
        ).phase == Phase::Completed),
{
}

} // verus!
