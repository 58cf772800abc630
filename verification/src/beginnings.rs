//! How the steps of an installation and of a removal begin: each asks first for what
//! stands at the place it is about, and is set up for that place.

use crate::acts::{act_begins, is_prepared, packages_run, publication_begins, save_run, ActRun};
use crate::acts::Workplace;
use crate::backup::{AppendPhase, IndexAppend};
use crate::backup_index::{entry_path, index_entries};
use crate::bytes::views;
use crate::clearance::is_rooted;
use crate::config::{command_problem, config_in, homes_in, keep_problem, Config, ResolvedPaths};
use crate::failure::{about, Failure};
use crate::host::{Ask, Fault, FaultKind, FileKind, Reply};
use crate::install::{install_plan, Deed, Job, Publishing, StepReply};
use crate::judgements::the_settings_are_the_flag;
use crate::paths::{components_of, has_parent, parent_of, under, Part};
use crate::private_release::{asset_address, PrivateReleaseInfo};
use crate::progress::says_missing;
use crate::removal::{removal_steps, Removed};
use crate::restoration::{HomeRestore, RestorePhase};
use crate::scaffold::Stand;
use crate::script::{step_views, tells, told_line, Phase, Script, StepView, Tidy};
use crate::settings::{toml_document, Setting};
use crate::storage::{has_place, save_checks, save_work, temporary_path, Save, SaveMode};
use crate::stow::PackageScan;
use crate::survey::asked_of;
use crate::text::lossy_text;
use crate::ui::{labelled, plain_error, UserFacingError};
use crate::uninstall::{plan_begins, removal_needs, removed_places, RemovalDeed};
use crate::withdrawal::{path_stands, plan_stands, script_stands, step_begins, RemovalRun};
use vstd::prelude::*;
use vstd::utf8::{decode_utf8, encode_utf8, valid_utf8};

verus! {

/// What is told is told as it stands, and a refusal ends the installation with its words.
pub proof fn a_message_is_told_as_it_stands(
    step: Deed,
    place: Workplace,
    sequence: u64,
    run: ActRun,
)
    requires
        act_begins(step, place, sequence, run),
    ensures
        step is Heading ==> run.asks() == Ask::Heading(step->Heading_0),
        step is Detail ==> run.asks() == Ask::Detail(step->Detail_0),
        step is Warning ==> run.asks() == Ask::Warning(step->Warning_0),
        step is Record ==> run.asks() == Ask::Inspect(step->Record_path),
        step is Refuse ==> (run matches ActRun::Ended(StepReply::Failed(failure)) && failure.says(
            step->Refuse_0,
        )),
{
}

/// The directories of the installation and the settings are written where nothing stood,
/// so that they are read back as what they are.
pub proof fn what_is_published_is_read_back(
    what: Publishing,
    place: Workplace,
    sequence: u64,
    run: ActRun,
)
    requires
        publication_begins(what, place, sequence, run),
    ensures
        what is Config ==> {
            &&& run is Saving
            &&& run.asks() == Ask::Inspect(place.paths.eiyah_config@)
            &&& run->Saving_0.mode == SaveMode::Initial
            &&& run->Saving_0.target@ == place.paths.eiyah_config@
            &&& config_in(run->Saving_0.contents@) == Some(Config { show_cad_status: true })
        },
        what is Metadata && !keep_problem(place.paths.homes()) ==> {
            &&& run is Saving
            &&& run.asks() == Ask::Inspect(under(place.paths.eiyah_prefix@, "install.toml"@))
            &&& run->Saving_0.mode == SaveMode::Initial
            &&& run->Saving_0.target@ == under(place.paths.eiyah_prefix@, "install.toml"@)
            &&& homes_in(run->Saving_0.contents@) == Some(place.paths.homes())
        },
        what is Metadata && keep_problem(place.paths.homes()) ==> (run matches ActRun::Ended(
            StepReply::Failed(_),
        )),
{
    let result = choose|result: Result<Save, Failure>| #[trigger]
        is_prepared(what, place, sequence, result) && match result {
            Ok(save) => save_run(save, run),
            Err(failure) => run == ActRun::Ended(StepReply::Failed(failure)),
        };
    if result is Ok {
        let save = result->Ok_0;
        assert(step_views(save.script.steps@)[0] == save_checks(save.mode, save.target@)[0]);
        assert(save.script.steps@[0]@ == step_views(save.script.steps@)[0]);
    }
}

/// Packages are looked for, linked and taken apart with the Stow of the environment, and
/// in the dotfiles of the home.
pub proof fn packages_are_handled_with_stow(
    step: Deed,
    place: Workplace,
    sequence: u64,
    run: ActRun,
)
    requires
        act_begins(step, place, sequence, run),
    ensures
        ({
            let stow = under(place.paths.pixi_home@, "bin/stow"@);
            let dotfiles = under(place.home@, ".dotfiles"@);
            &&& step is Packages && is_rooted(stow) ==> {
                &&& run is Scanning
                &&& run.asks() == Ask::Inspect(stow)
                &&& run->Scanning_0.dotfiles@ == dotfiles
            }
            &&& step is Packages && !is_rooted(stow) ==> (run matches ActRun::Ended(
                StepReply::Failed(_),
            ))
            &&& step is Stow ==> {
                &&& run is Linking
                &&& run->Linking_0.package@ == step->Stow_0
                &&& run->Linking_0.dotfiles@ == dotfiles
                &&& run->Linking_0.home@ == place.home@
                &&& run->Linking_0.stow@ == stow
            }
            &&& step is Stow && is_rooted(stow) ==> run.asks() == Ask::Inspect(stow)
            &&& step is Stow && !is_rooted(stow) ==> run->Linking_0.phase is Unlinking
        }),
{
    if step is Packages {
        let scan = choose|scan: PackageScan| #[trigger]
            scan.begins(place.paths.pixi_home@, under(place.home@, ".dotfiles"@))
                && packages_run(scan, run);
        assert(packages_run(scan, run));
    }
}

/// The environment is set up in its own place, from the manifest of the configuration, and
/// begins with its installer.
pub proof fn the_environment_begins_with_its_installer(
    place: Workplace,
    sequence: u64,
    run: ActRun,
)
    requires
        act_begins(Deed::Pixi, place, sequence, run),
    ensures
        run is Preparing,
        run.asks() == Ask::Get("https://pixi.sh/install.sh"@),
        run->Preparing_0.pixi_home@ == place.paths.pixi_home@,
        run->Preparing_0.source@ == under(place.core_root@, "pixi/pixi-global.toml"@),
{
}

/// Every step of a removal begins at the place it is about.
pub proof fn a_step_of_a_removal_begins_at_its_place(
    step: RemovalDeed,
    paths: ResolvedPaths,
    home: Seq<u8>,
    plan: Seq<u8>,
    run: RemovalRun,
)
    requires
        step_begins(step, paths, home, plan, run),
        !(step is Remove) && !(step is CleanupPlan),
    ensures
        step is Preflight ==> run.asks() == Ask::Inspect(under(home, ".dotfiles"@)),
        step is Heading ==> run.asks() == Ask::Heading(step->Heading_0),
        step is Detail ==> run.asks() == Ask::Detail(step->Detail_0),
        step is Unstow ==> {
            &&& run is Unlinking
            &&& run.asks() == Ask::Inspect(under(home, ".dotfiles"@))
            &&& run->Unlinking_0.home@ == home
            &&& run->Unlinking_0.stow@ == under(paths.pixi_home@, "bin/stow"@)
        },
        step is Restore ==> {
            &&& run is Restoring
            &&& run.asks() == Ask::Inspect(
                under(under(paths.state_home@, "eiyah/backup"@), "index"@),
            )
            &&& run->Restoring_0.home@ == home
            &&& run->Restoring_0.root@ == under(
                under(paths.state_home@, "eiyah/backup"@),
                "home"@,
            )
        },
        step is Validate ==> run.asks() == Ask::Inspect(
            under(home, ".local/bin/show-cad-status"@),
        ),
{
    match step {
        RemovalDeed::Preflight => {
            assert(asked_of(run->survey.requests@) == removal_needs(paths, home));
            assert(run->survey.requests@.len() == removal_needs(paths, home).len());
        },
        RemovalDeed::Validate => {
            assert(asked_of(run->survey.requests@) == removed_places(paths, home));
            assert(run->survey.requests@.len() == removed_places(paths, home).len());
        },
        _ => {},
    }
}

/// What is removed is looked at first.
pub proof fn a_removed_path_is_looked_at_first(path: Seq<u8>, kind: Removed, run: RemovalRun)
    requires
        path_stands(path, kind, run),
    ensures
        run is Scripted,
        run.asks() == Ask::Inspect(path),
        step_views(run->Scripted_0.steps@) == removal_steps(path, kind),
        run->Scripted_0.cleanup@ == Tidy::Nothing,
{
    let script = choose|script: Script| #[trigger]
        script.begins(removal_steps(path, kind), Tidy::Nothing) && script_stands(script, run);
    assert(step_views(script.steps@)[0].ask == Ask::Inspect(path));
}

/// The plan of what is left is written exactly to an absolute path in a directory.
pub proof fn a_cleanup_plan_has_an_absolute_place(
    paths: ResolvedPaths,
    home: Seq<u8>,
    plan: Seq<u8>,
    run: RemovalRun,
)
    requires
        plan_stands(paths, home, plan, run),
    ensures
        is_rooted(plan) && has_parent(plan) ==> run is Scripted && run.asks() == Ask::Inspect(
            parent_of(plan),
        ),
        !(is_rooted(plan) && has_parent(plan)) ==> (run matches RemovalRun::Ended(Err(_))),
{
    let result = choose|result: Result<Script, Failure>| #[trigger]
        plan_begins(paths, home, plan, result) && match result {
            Ok(script) => script_stands(script, run),
            Err(failure) => run == RemovalRun::Ended(Err(failure)),
        };
    if result is Ok {
        assert(step_views(result->Ok_0.steps@)[0].ask == Ask::Inspect(parent_of(plan)));
    }
}

/// Only the step that creates the temporary file creates one.
proof fn lemma_one_creation(save: Save)
    requires
        save.valid(),
        save.script.phase is Running,
    ensures
        save.script.asks() is CreateFile <==> has_place(save.target@)
            && save.script.phase->Running_position == save.create_position(),
{
    let checks = save_checks(save.mode, save.target@);
    let work = save_work(
        save.mode,
        save.target@,
        save.contents@,
        temporary_path(save.target@, save.process, save.sequence),
    );
    let steps = step_views(save.script.steps@);
    let position = save.script.phase->Running_position as int;
    assert(work.len() == 8);
    if has_place(save.target@) {
        assert(steps =~= checks + work);
        if position < checks.len() {
            assert(steps[position] == checks[position]);
        } else if position < steps.len() {
            assert(steps[position] == work[position - checks.len()]);
        }
    } else {
        assert(steps =~= checks);
    }
}

/// A temporary name that is taken is replaced by that with the next number, as often as
/// names may be tried; any other reply is taken as it stands.
pub proof fn a_taken_name_is_followed_by_the_next(save: Save, reply: Reply, next: Save)
    requires
        save.valid(),
        save.script.phase is Running,
        save.follows(reply, next),
    ensures
        next.target == save.target,
        next.contents == save.contents,
        next.mode == save.mode,
        ({
            let taken = save.script.asks() is CreateFile && reply is Failed && reply->Failed_0.kind
                == FaultKind::AlreadyExists;
            &&& taken && save.tries < 128 ==> {
                &&& next.tries == save.tries + 1
                &&& next.sequence as int == (save.sequence + 1) % 0x1_0000_0000_0000_0000
                &&& next.script.phase is Running
                &&& next.script.phase->Running_position == save.script.phase->Running_position
            }
            &&& taken && save.tries >= 128 ==> next.script.phase is Failed
            &&& !taken ==> {
                &&& next.tries == save.tries
                &&& next.sequence == save.sequence
                &&& next.script.phase == save.script.after(reply).phase
            }
        }),
{
    lemma_one_creation(save);
    assert(save_checks(save.mode, save.target@).len() <= 3);
}

/// The error of a failure is shown on one line.
pub proof fn a_plain_error_is_one_line(error: UserFacingError, message: Seq<char>)
    requires
        plain_error(error, message),
    ensures
        error.message@ == message,
        labelled("Warning"@, error.warnings@, true).len() == 0,
        labelled("Hint"@, error.hints@, true).len() == 0,
        labelled("Warning"@, error.warnings@, false).len() == 0,
        labelled("Hint"@, error.hints@, false).len() == 0,
{
}

/// The settings of the user are read exactly from a text that sets the flag and nothing
/// else.
pub proof fn settings_are_read_exactly_if(bytes: Seq<u8>, flag: bool)
    ensures
        config_in(bytes) == Some(Config { show_cad_status: flag }) <==> valid_utf8(bytes)
            && match toml_document(decode_utf8(bytes)) {
            Ok(settings) => settings.len() > 0 && settings[0].1 == Some(Setting::Flag(flag))
                && forall|i: int|
                0 <= i < settings.len() ==> #[trigger] settings[i].0 == "show-cad-status"@,
            Err(_) => false,
        },
{
    match toml_document(decode_utf8(bytes)) {
        Ok(settings) => {
            the_settings_are_the_flag(settings, flag);
        },
        Err(_) => {},
    }
}

// --------------------------------------------------
// Plans
// --------------------------------------------------

/// Every part of an installation is announced before it is done, and the parts come in
/// this order: the program, the environment, the dotfiles, the status, the settings, and
/// the check of it all.
pub proof fn each_part_is_announced_before_it_is_done(
    paths: ResolvedPaths,
    home: Seq<u8>,
    release: PrivateReleaseInfo,
)
    ensures
        ({
            let plan = install_plan(paths, home, release);
            let prefix = paths.eiyah_prefix@;
            let config = paths.eiyah_config@;
            &&& plan.len() == 43
            &&& plan[0] == Deed::Directories(prefix)
            &&& plan[1] == Deed::Directories(under(prefix, "bin"@))
            &&& plan[2] == Deed::Directories(under(home, ".local/bin"@))
            &&& plan[3] == Deed::Heading("Installing Eiyah"@)
            &&& plan[4] == Deed::Detail(lossy_text(under(home, ".local/bin/eiyah"@)))
            &&& plan[9] == (Deed::Publish {
                what: Publishing::Metadata,
                path: under(prefix, "install.toml"@),
            })
            &&& plan[10] == Deed::Heading("Installing Pixi"@)
            &&& plan[11] == Deed::Detail(lossy_text(paths.pixi_home@))
            &&& plan[12] == Deed::Pixi
            &&& plan[13] == Deed::Heading("Syncing packages"@)
            &&& plan[14] == Deed::Do(Job::Sync)
            &&& plan[15] == Deed::Heading("Configuring shell and Git"@)
            &&& plan[16] == Deed::Detail(lossy_text(under(home, ".dotfiles"@)))
            &&& plan[17] == Deed::Do(Job::Source)
            &&& plan[21] == Deed::Detail("Installing dotfiles."@)
            &&& plan[23] == Deed::Do(Job::Git)
            &&& plan[25] == Deed::Do(Job::Cshrc)
            &&& plan[26] == Deed::Heading("Installing show-cad-status"@)
            &&& plan[27] == Deed::Detail(release.tag_name@)
            &&& plan[28] == Deed::Detail(asset_address(release.show_cad_status_asset_id))
            &&& plan[29] == Deed::Detail(lossy_text(under(home, ".local/bin/show-cad-status"@)))
            &&& plan[31] == Deed::Heading("Verifying show-cad-status download"@)
            &&& plan[32] == Deed::Detail("SHA-256: verified"@)
            &&& has_parent(config) ==> plan[36] == Deed::Directories(parent_of(config))
            &&& !has_parent(config) ==> plan[36] is Refuse
            &&& plan[37] == Deed::Heading("Creating Eiyah config"@)
            &&& plan[38] == Deed::Detail(lossy_text(config))
            &&& plan[39] == (Deed::Publish { what: Publishing::Config, path: config })
            &&& plan[40] == Deed::Heading("Verifying installation"@)
            &&& plan[42] == Deed::Heading("Eiyah installation complete"@)
        }),
{
}

// --------------------------------------------------
// What is told of a failure
// --------------------------------------------------

/// A refused reply is told with the words of its step, a program that ended badly with how
/// it ended, and a fault with what it is about.
pub proof fn a_step_tells_what_went_wrong(
    steps: Seq<StepView>,
    step: int,
    fault: Option<Fault>,
    failure: Failure,
)
    requires
        0 <= step < steps.len(),
        tells(steps, step, fault, failure),
    ensures
        failure.line() == told_line(steps, step, fault),
        fault is None ==> failure.line() == steps[step].refusal,
        fault is Some && fault->0.kind == FaultKind::Ended ==> failure.line()
            == steps[step].refusal + fault->0.text@,
        fault is Some && fault->0.kind != FaultKind::Ended && steps[step].context is None
            ==> failure.line() == fault->0.text@,
        fault is Some && fault->0.kind != FaultKind::Ended && steps[step].context is Some
            ==> failure.line() == steps[step].context->0 + ": "@ + fault->0.text@,
{
}

/// A link that is not that of a command is told by the first thing that is wrong with it.
pub proof fn a_wrong_command_is_told_by_its_first_fault(target: Seq<u8>)
    ensures
        !is_rooted(target) ==> command_problem(target) == about(
            "public entry point symlink target must be absolute: "@,
            target,
        ),
        is_rooted(target) && !has_parent(target) ==> command_problem(target) == about(
            "public entry point target has no parent: "@,
            target,
        ),
        is_rooted(target) && has_parent(target) && components_of(target).last() != Part::Name(
            encode_utf8("eiyah"@),
        ) ==> command_problem(target) == about(
            "public entry point target must end with bin/eiyah: "@,
            target,
        ),
{
}

// --------------------------------------------------
// Indexes and backups
// --------------------------------------------------

/// An entry is added exactly to an index that is missing or a regular file that can be
/// read, and only where it is sound and new.
pub proof fn an_entry_is_added_exactly_if(
    addition: IndexAppend,
    reply: Reply,
    next: AppendPhase,
)
    requires
        addition.follows(reply, next),
    ensures
        addition.phase is Looking ==> (next is Reading <==> reply is Found && reply->Found_0.kind
            == FileKind::Regular),
        addition.phase is Looking ==> (next is Writing <==> says_missing(reply) && entry_path(
            addition.entry@,
        ) is Ok),
        addition.phase is Looking && next is Writing ==> views(next->entries@) == seq![
            addition.entry@,
        ],
        addition.phase is Reading ==> (next is Writing <==> reply is Contents && index_entries(
            reply->Contents_0@,
        ) is Ok && entry_path(addition.entry@) is Ok && !index_entries(
            reply->Contents_0@,
        )->Ok_0.contains(addition.entry@)),
        addition.phase is Reading && next is Writing ==> views(next->entries@) == index_entries(
            reply->Contents_0@,
        )->Ok_0 + seq![addition.entry@],
        addition.phase is Writing ==> (next is Written <==> reply is Done || reply is Published),
{
}

/// A restoration goes on exactly where the index and the place of the backups are what
/// they have to be and each of its steps ends well.
pub proof fn a_restoration_goes_on_exactly_if(
    restore: HomeRestore,
    reply: Reply,
    next: RestorePhase,
)
    requires
        restore.follows(reply, next),
    ensures
        restore.phase is LookingAtIndex ==> (next is Completed <==> says_missing(reply)),
        restore.phase is LookingAtIndex ==> (next is ReadingIndex <==> reply is Found
            && reply->Found_0.kind == FileKind::Regular),
        restore.phase is LookingAtRoot ==> (next is Announcing <==> reply is Found
            && reply->Found_0.kind == FileKind::Directory),
        restore.phase is LookingAtRoot && next is Announcing ==> next->Announcing_0
            == restore.phase->LookingAtRoot_0,
        restore.phase is Announcing && !(reply is Done) ==> next is Failed,
        restore.phase is Restoring ==> (next is Showing
            <==> restore.phase->Restoring_script.after(reply).phase == Phase::Completed),
        restore.phase is Restoring && next is Showing ==> next->Showing_index
            == restore.phase->Restoring_index && next->Showing_plan
            == restore.phase->Restoring_plan,
        restore.phase is Showing && !(reply is Done) ==> next is Failed,
        restore.phase is RemovingIndex ==> (next is Cleaning
            <==> restore.phase->RemovingIndex_0.after(reply).phase == Phase::Completed),
        restore.phase is RemovingIndex && next is Cleaning ==> next->Cleaning_0@.root
            == restore.root@,
        restore.phase is Cleaning ==> (next is Completed <==> restore.phase->Cleaning_0@.after(
            reply,
        ).stand == Stand::Completed),
{
}

} // verus!
