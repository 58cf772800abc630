//! How the stages of an arrival and of a journey follow each other: each comes to its
//! end exactly where what it waits for has come, and hands on what it was given.

use crate::acts::{backup_run, directories_begin, ActRun, Workplace};
use crate::archive::PrivateArchive;
use crate::arrival::{check_stands, route_stands, search_stands, second_look_stands, update_stands};
use crate::arrival::{Arrival, ArrivalStage};
use crate::backup::BackupMove;
use crate::beginnings::each_part_is_announced_before_it_is_done;
use crate::bytes::views;
use crate::config::ResolvedPaths;
use crate::deployment::{deployment_begins, installation_goes, Deployment};
use crate::failure::Failure;
use crate::host::{Ask, FileKind, Reply};
use crate::install::{install_plan, Deed, FlowDeed, FlowReply, InstallFlow, Installation};
use crate::install::{Progression, Standing, StepReply};
use crate::journey::{download_lands, flow_goes, release_lands, setup_lands, JourneyStage, Landing};
use crate::journey::{Supplies, Unpacked};
use crate::paths::under;
use crate::preflight::{host_questions, Preflight};
use crate::private_release::private_problem;
use crate::progress::says_missing;
use crate::release::digest_problem;
use crate::restoration::{HomeRestore, RestorePhase};
use crate::script::step_views;
use crate::ssh::SshSetup;
use crate::state::{route_begins, state_judged, state_places, InstallRoute, InstallState};
use crate::state::PathSearch;
use crate::survey::{asked_of, Survey};
use crate::surveys::{answered, shows_kind, shows_program, the_state_is_what_the_host_shows};
use crate::transaction::PathIdentity;
use crate::update::UpdateRun;
use vstd::prelude::*;
use vstd::utf8::encode_utf8;

verus! {

// --------------------------------------------------
// Arrivals
// --------------------------------------------------

/// Whether nothing of an installation stands on the host.
pub open spec fn shows_nothing(
    host: spec_fn(Ask) -> Reply,
    prefix: Seq<u8>,
    entry: Seq<u8>,
) -> bool {
    &&& says_missing(host(Ask::Inspect(entry)))
    &&& says_missing(host(Ask::Inspect(under(prefix, "bin/eiyah"@))))
    &&& says_missing(host(Ask::Inspect(under(prefix, "install.toml"@))))
}

/// Whether anything of an installation is missing on the host.
pub open spec fn lacks_something(
    host: spec_fn(Ask) -> Reply,
    prefix: Seq<u8>,
    entry: Seq<u8>,
) -> bool {
    ||| !(host(Ask::Inspect(entry)) is Found)
    ||| !(host(Ask::Inspect(under(prefix, "bin/eiyah"@))) is Found)
    ||| !shows_kind(host(Ask::Inspect(under(prefix, "install.toml"@))), FileKind::Regular)
    ||| !shows_program(host(Ask::InspectTarget(under(prefix, "bin/eiyah"@))))
    ||| !(host(Ask::ReadLink(entry)) is Contents)
    ||| !(host(Ask::Read(under(prefix, "install.toml"@))) is Contents)
}

/// The first look leads to the lock exactly where nothing of an installation stands, or
/// all of it does; anything between the two is refused.
pub proof fn the_first_look_leads_to_the_lock(
    host: spec_fn(Ask) -> Reply,
    paths: ResolvedPaths,
    home: Seq<u8>,
    survey: Survey,
    stage: ArrivalStage,
)
    requires
        survey.is_complete(),
        survey.replies@ == answered(
            host,
            state_places(paths.eiyah_prefix@, under(home, ".local/bin/eiyah"@)),
        ),
        crate::arrival::look_stands(paths, home, survey, stage),
    ensures
        ({
            let entry = under(home, ".local/bin/eiyah"@);
            &&& stage is Locking || stage is Failed
            &&& stage is Locking ==> stage->Locking_paths == paths
            &&& stage is Locking && !stage->installed <==> shows_nothing(
                host,
                paths.eiyah_prefix@,
                entry,
            )
            &&& stage is Locking && stage->installed ==> !lacks_something(
                host,
                paths.eiyah_prefix@,
                entry,
            )
        }),
{
    let entry = under(home, ".local/bin/eiyah"@);
    let result = choose|result: Result<InstallState, Failure>| #[trigger]
        state_judged(paths.eiyah_prefix@, survey.replies@, result) && match result {
            Err(failure) => stage.says(failure.line()),
            Ok(state) => exists|route: InstallRoute| #[trigger]
                route_begins(state, route) && route_stands(paths, home, route, stage),
        };
    the_state_is_what_the_host_shows(host, paths.eiyah_prefix@, entry, result);
}

/// The second look decides: what is not there is installed, what is there is updated, and
/// anything between the two is refused.
pub proof fn the_second_look_decides(
    host: spec_fn(Ask) -> Reply,
    paths: ResolvedPaths,
    home: Seq<u8>,
    survey: Survey,
    stage: ArrivalStage,
)
    requires
        survey.is_complete(),
        survey.replies@ == answered(
            host,
            state_places(paths.eiyah_prefix@, under(home, ".local/bin/eiyah"@)),
        ),
        second_look_stands(paths, home, survey, stage),
    ensures
        ({
            let entry = under(home, ".local/bin/eiyah"@);
            &&& stage is Ready || stage is Announcing || stage is Failed
            &&& stage is Ready <==> shows_nothing(host, paths.eiyah_prefix@, entry)
            &&& stage is Ready ==> stage->Ready_0 == paths
            &&& stage is Announcing ==> stage->Announcing_0 == paths && !lacks_something(
                host,
                paths.eiyah_prefix@,
                entry,
            )
        }),
{
    let entry = under(home, ".local/bin/eiyah"@);
    let (result, route) = choose|result: Result<InstallState, Failure>, route: InstallRoute|
        #[trigger]
        state_judged(paths.eiyah_prefix@, survey.replies@, result) && #[trigger]
        InstallRoute::Detecting.follows_state(result, route) && route_stands(
            paths,
            home,
            route,
            stage,
        );
    the_state_is_what_the_host_shows(host, paths.eiyah_prefix@, entry, result);
}

/// A look that is not over goes on.
pub proof fn a_look_goes_on_until_it_is_over(
    paths: ResolvedPaths,
    home: Seq<u8>,
    survey: Survey,
    stage: ArrivalStage,
)
    requires
        !survey.is_complete(),
    ensures
        crate::arrival::look_stands(paths, home, survey, stage) ==> stage == (
        ArrivalStage::Looking { paths, survey }),
        second_look_stands(paths, home, survey, stage) ==> stage == (ArrivalStage::LookingAgain {
            paths,
            survey,
        }),
{
}

/// The places are found before the host is asked, the host before the directories are
/// tried, and those before an installation is looked for.
pub proof fn an_arrival_goes_from_stage_to_stage(
    paths: ResolvedPaths,
    home: Seq<u8>,
    search: PathSearch,
    preflight: Preflight,
    run: UpdateRun,
    stage: ArrivalStage,
)
    ensures
        search_stands(search, stage) ==> {
            &&& stage is Surveying <==> search is Found
            &&& stage is Surveying ==> stage->Surveying_paths == search->Found_0
            &&& stage is Surveying ==> stage->Surveying_survey.asks() == Ask::Read(
                encode_utf8("/etc/os-release"@),
            )
            &&& stage is Failed <==> search is Failed
        },
        check_stands(paths, home, preflight, stage) ==> {
            &&& stage is Looking <==> preflight is Completed
            &&& stage is Looking ==> stage->Looking_paths == paths
            &&& stage is Looking ==> stage->Looking_survey.asks() == Ask::Inspect(
                under(home, ".local/bin/eiyah"@),
            )
            &&& stage is Failed <==> preflight is Failed
        },
        update_stands(run, stage) ==> {
            &&& stage is Completed <==> run is Completed
            &&& stage is Failed <==> run is Failed
        },
{
    if search_stands(search, stage) && search is Found {
        let survey = stage->Surveying_survey;
        assert(survey.requests@.len() == asked_of(survey.requests@).len());
        assert(host_questions().len() == 7);
    }
    if check_stands(paths, home, preflight, stage) && preflight is Completed {
        let survey = stage->Looking_survey;
        assert(survey.requests@.len() == asked_of(survey.requests@).len());
        assert(state_places(paths.eiyah_prefix@, under(home, ".local/bin/eiyah"@)).len() == 6);
    }
}

/// The lock leads on exactly where it was taken: to the update of an installation, or to
/// a second look where there was none.
pub proof fn the_lock_leads_on_exactly_if_it_was_taken(
    arrival: Arrival,
    current: Seq<char>,
    reply: Reply,
    next: ArrivalStage,
)
    requires
        arrival.follows(current, reply, next),
    ensures
        arrival.stage is Locking ==> {
            &&& next is Announcing <==> reply is Done && arrival.stage->installed
            &&& next is LookingAgain <==> reply is Done && !arrival.stage->installed
            &&& next is Failed <==> !(reply is Done)
        },
        arrival.stage is Announcing ==> (next is Updating <==> reply is Done),
{
}

// --------------------------------------------------
// Journeys
// --------------------------------------------------

/// A step of a journey ends with an answer exactly where its work ended well, and fails
/// with what its work says.
pub proof fn a_step_of_a_journey_lands_exactly_if(
    archive: PrivateArchive,
    setup: SshSetup,
    landing: Landing,
)
    ensures
        download_lands(archive, landing) ==> {
            &&& landing is Going <==> !(archive.phase is Completed) && !(archive.phase is Failed)
            &&& archive.phase is Completed ==> landing == (Landing::Ended {
                answer: FlowReply::Done,
                unpacked: Some(
                    Unpacked { root: archive.root, owned: archive.phase->Completed_0 },
                ),
            })
            &&& archive.phase is Failed ==> (landing matches Landing::Ended {
                answer: FlowReply::Failed(error),
                unpacked: None,
            } && error.message@ == archive.phase->Failed_0.line())
        },
        setup_lands(setup, landing) ==> {
            &&& landing is Going <==> !(setup.phase is Completed) && !(setup.phase is Failed)
            &&& setup.phase is Completed ==> landing == (Landing::Ended {
                answer: FlowReply::Ready(setup.phase->Completed_0),
                unpacked: None,
            })
            &&& setup.phase is Failed ==> (landing matches Landing::Ended {
                answer: FlowReply::Failed(error),
                unpacked: None,
            } && error.message@ == setup.phase->Failed_0.line())
        },
{
}

/// A release is taken exactly where the server describes one that nothing is wrong with.
pub proof fn a_release_lands_exactly_if_it_is_whole(reply: Reply, landing: Landing)
    requires
        release_lands(reply, landing),
    ensures
        (landing matches Landing::Ended { answer: FlowReply::Released(_), .. }) <==> reply
            is PrivateRelease && private_problem(reply->PrivateRelease_0) is None,
        landing matches Landing::Ended { answer: FlowReply::Released(info), .. }
            ==> info.tag_name == reply->PrivateRelease_0.tag_name,
        landing is Ended && landing->unpacked is None,
{
}

/// Each deed of the flow is asked for as it is, an archive at its own address, and what
/// was unpacked is thrown away at the end.
pub proof fn a_flow_does_what_comes_next(
    flow: InstallFlow,
    supplies: Supplies,
    unpacked: Option<Unpacked>,
    sequence: u64,
    stage: JourneyStage,
)
    requires
        flow_goes(flow, supplies, unpacked, sequence, stage),
    ensures
        match flow.next() {
            Some(FlowDeed::Heading(text)) => stage is Travelling && stage->step.asks()
                == Ask::Heading(text),
            Some(FlowDeed::Detail(text)) => stage is Travelling && stage->step.asks()
                == Ask::Detail(text),
            Some(FlowDeed::Report(text)) => stage is Travelling && stage->step.asks()
                == Ask::Show(text),
            Some(FlowDeed::Authorize) => stage is Travelling && stage->step.asks()
                == Ask::Authorize,
            Some(FlowDeed::Release) => stage is Travelling && stage->step.asks()
                == Ask::FetchPrivateRelease,
            Some(FlowDeed::Archive(url)) => stage is Travelling && stage->step is Downloading
                && stage->step->Downloading_0.url@ == url,
            Some(FlowDeed::Ssh) => stage is Travelling && stage->step is Connecting
                && (supplies.user is Some && supplies.user->0@.len() > 0
                ==> stage->step->Connecting_0.user == supplies.user)
                && stage->step->Connecting_0.authorized_keys@ == under(
                under(supplies.home@, ".ssh"@),
                "authorized_keys"@,
            ) && stage->step->Connecting_0.private_key@ == under(
                under(supplies.home@, ".ssh"@),
                "id_ed25519"@,
            ) && stage->step->Connecting_0.public_key@ == under(
                under(supplies.home@, ".ssh"@),
                "id_ed25519.pub"@,
            ) && stage->step.asks() == Ask::Inspect(under(supplies.home@, ".ssh"@)),
            Some(FlowDeed::Install) => stage is Deploying && stage->Deploying_0.place.home
                == supplies.home && stage->Deploying_0.place.paths == supplies.paths
                && stage->Deploying_0.root@ == unpacked->0.root@ && stage->Deploying_0.owned
                == unpacked->0.owned,
            None => (stage is Discarding <==> unpacked is Some) && (stage is Over <==> unpacked
                is None),
        },
        stage is Travelling ==> stage->unpacked == unpacked,
        stage is Discarding ==> stage->Discarding_0.asks() == Ask::Inspect(unpacked->0.root@),
{
}

/// An installation begins with the first step of its plan, and nothing was changed before.
pub proof fn a_deployment_begins_with_its_plan(
    place: Workplace,
    root: Seq<u8>,
    owned: PathIdentity,
    sequence: u64,
    deployment: Deployment,
)
    requires
        deployment_begins(place, root, owned, sequence, deployment),
    ensures
        deployment.place == place,
        deployment.root@ == root,
        deployment.owned == owned,
        deployment.stage is Working,
        deployment.stage->installation@.changes.len() == 0,
        deployment.stage->installation@.queue == install_plan(
            place.paths,
            place.home@,
            place.release,
        ),
        directories_begin(place.paths.eiyah_prefix@, deployment.stage->run),
{
    let installation = choose|installation: Installation| #[trigger]
        installation_goes(installation, place, root, owned, sequence, deployment.stage)
            && installation@ == (Progression {
            home: place.home@,
            pixi_home: place.paths.pixi_home@,
            queue: install_plan(place.paths, place.home@, place.release),
            changes: Seq::empty(),
            standing: Standing::Working,
        });
    each_part_is_announced_before_it_is_done(place.paths, place.home@, place.release);
    assert(installation@.queue[0] == Deed::Directories(place.paths.eiyah_prefix@));
}

// --------------------------------------------------
// Backups, plans and digests
// --------------------------------------------------

/// A backup is recorded exactly where something was moved and has an entry in the index.
pub proof fn a_backup_is_recorded_exactly_if(backup: BackupMove, run: ActRun)
    requires
        backup_run(backup, run),
    ensures
        (run matches ActRun::Ended(StepReply::Moved(Some(_)))) <==> backup.phase is BackedUp
            && backup.entry is Ok,
        (run matches ActRun::Ended(StepReply::Moved(None))) <==> backup.phase is Absent || (
        backup.phase is BackedUp && backup.entry is Err),
        run matches ActRun::Ended(StepReply::Moved(Some(record))) ==> record.from@ == backup.from@
            && record.to@ == backup.to@ && record.index@ == backup.index@ && record.entry@
            == backup.entry->Ok_0@,
        (run matches ActRun::Ended(StepReply::Failed(_))) <==> backup.phase is Failed,
{
}

/// The place of the backups is looked at exactly where there is something to restore;
/// otherwise the index is removed at once.
pub proof fn an_empty_plan_only_removes_the_index(
    restore: HomeRestore,
    plan: Seq<Seq<u8>>,
    next: RestorePhase,
)
    requires
        restore.begins_plan(plan, next),
    ensures
        next is RemovingIndex <==> plan.len() == 0,
        next is LookingAtRoot <==> plan.len() > 0,
        next is LookingAtRoot ==> views(next->LookingAtRoot_0@) == plan,
        next is RemovingIndex ==> step_views(next->RemovingIndex_0.steps@).last().ask
            == Ask::RemoveFile(restore.index@),
{
}

/// A checksum file of the right form is refused for its digits, and one of another form
/// for its form.
pub proof fn a_checksum_file_is_refused_for_what_is_wrong(
    front: Seq<u8>,
    name: Seq<char>,
    format_words: Seq<char>,
    hex_words: Seq<char>,
)
    ensures
        ({
            let tail = encode_utf8("  "@ + name + "\n"@);
            &&& front.len() == 64 ==> digest_problem(
                front + tail,
                name,
                format_words,
                hex_words,
            ) == hex_words
            &&& front.len() != 64 ==> digest_problem(
                front + tail,
                name,
                format_words,
                hex_words,
            ) == format_words
        }),
{
    let tail = encode_utf8("  "@ + name + "\n"@);
    let contents = front + tail;
    assert(contents.subrange(contents.len() - tail.len(), contents.len() as int) =~= tail);
}

} // verus!
