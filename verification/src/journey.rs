//! The way to a first installation: the program is authorized, the configuration is
//! downloaded, the key of the user is set up, and then everything is installed.

use crate::acts::Workplace;
use crate::archive::{download_private_archive, next_sequence, remove_owned_tree, ArchivePhase};
use crate::archive::{PrivateArchive, TreeRemoval};
use crate::config::ResolvedPaths;
use crate::deployment::{deploy, deployment_begins, Deployment, Stage};
use crate::failure::Failure;
use crate::host::{Ask, FaultKind, Reply, Request};
use crate::install::{install_not_installed_flow, FlowAct, FlowDeed, FlowPhase, FlowReply};
use crate::install::InstallFlow;
use crate::paths::{join_text, under};
use crate::private_release::{fetch_private_release, release_answered, PrivateReleaseInfo};
use crate::script::unanswered;
use crate::ssh::{bootstrap_ssh, SshPhase, SshSetup};
use crate::text::concat;
use crate::transaction::PathIdentity;
use crate::ui::{plain_error, UserFacingError};
use vstd::prelude::*;

verus! {

/// What the way needs to know.
#[derive(Debug)]
pub struct Supplies {
    pub paths: ResolvedPaths,
    pub home: Vec<u8>,
    /// The name of the user.
    pub user: Option<Vec<u8>>,
    /// The program that is running, or why it is not known.
    pub running: Result<Vec<u8>, String>,
    /// The number of the process.
    pub process: u64,
}

/// A step that is being done.
#[derive(Debug)]
pub enum JourneyStep {
    /// A single request that has to be done.
    Asking(Request),
    /// The latest configuration is asked for.
    Releasing,
    /// The configuration is downloaded.
    Downloading(PrivateArchive),
    /// The key of the user is set up.
    Connecting(SshSetup),
}

/// What was unpacked.
#[derive(Debug)]
pub struct Unpacked {
    /// Its directory.
    pub root: Vec<u8>,
    /// What the directory is known by.
    pub owned: PathIdentity,
}

/// Where a step has come to.
#[derive(Debug)]
pub enum Landing {
    Going(JourneyStep),
    /// It has ended; what it has unpacked.
    Ended { answer: FlowReply, unpacked: Option<Unpacked> },
}

/// How far the way has come.
#[derive(Debug)]
pub enum JourneyStage {
    /// A step is done; what was unpacked so far.
    Travelling { supplies: Supplies, unpacked: Option<Unpacked>, step: JourneyStep },
    /// Everything is installed.
    Deploying(Deployment),
    /// After a failure, what was unpacked is removed.
    Discarding(TreeRemoval),
    /// Nothing is left to be done.
    Over,
}

/// The way to a first installation.
#[derive(Debug)]
pub struct Journey {
    pub flow: InstallFlow,
    pub stage: JourneyStage,
}

// --------------------------------------------------
// The steps
// --------------------------------------------------

/// Whether a step has failed with this message.
pub open spec fn ends_saying(landing: Landing, message: Seq<char>) -> bool {
    landing matches Landing::Ended { answer: FlowReply::Failed(error), unpacked } && plain_error(
        error,
        message,
    ) && unpacked is None
}

fn end_saying(failure: &Failure) -> (landing: Landing)
    ensures
        ends_saying(landing, failure.line()),
{
    Landing::Ended {
        answer: FlowReply::Failed(UserFacingError::from_failure(failure)),
        unpacked: None,
    }
}

/// Whether a step has ended with this answer and has unpacked nothing.
pub open spec fn ends_with(landing: Landing, answer: FlowReply) -> bool {
    landing == (Landing::Ended { answer, unpacked: None::<Unpacked> })
}

/// How the question for the latest configuration ends.
pub open spec fn release_lands(reply: Reply, landing: Landing) -> bool {
    match reply {
        Reply::PrivateRelease(release) => exists|
            result: Result<PrivateReleaseInfo, Failure>,
        | #[trigger]
            release_answered(Ok(release), result) && match result {
                Ok(info) => ends_with(landing, FlowReply::Released(info)),
                Err(failure) => ends_saying(landing, failure.line()),
            },
        Reply::Failed(fault) => if fault.kind == FaultKind::InvalidData {
            ends_saying(
                landing,
                "failed to parse latest configuration release response: "@ + fault.text@,
            )
        } else {
            ends_saying(landing, "failed to fetch latest configuration release"@ + ": "@ + fault.text@)
        },
        _ => ends_saying(landing, unanswered()),
    }
}

fn land_release(reply: Reply) -> (landing: Landing)
    ensures
        release_lands(reply, landing),
{
    match reply {
        Reply::PrivateRelease(release) => {
            let result = fetch_private_release(Ok(release));
            assert(release_answered(Ok(release), result));
            match result {
                Ok(info) => Landing::Ended { answer: FlowReply::Released(info), unpacked: None },
                Err(failure) => end_saying(&failure),
            }
        },
        Reply::Failed(fault) => if fault.kind == FaultKind::InvalidData {
            end_saying(
                &Failure::plain(
                    &concat("failed to parse latest configuration release response: ", &fault.text),
                ),
            )
        } else {
            end_saying(
                &Failure::caused("failed to fetch latest configuration release", &fault.text),
            )
        },
        _ => end_saying(&Failure::plain("unexpected reply")),
    }
}

/// What follows a reply to the download. Only a directory that stands there already is
/// given up for the next one; from then on the directory stays the same.
pub open spec fn download_goes(archive: PrivateArchive, reply: Reply, next: PrivateArchive) -> bool {
    &&& next.sound()
    &&& next.parent == archive.parent
    &&& next.url == archive.url
    &&& next.process == archive.process
    &&& archive.follows(reply, next.phase)
    &&& if archive.phase is Making && next.phase is Making {
        next.sequence == next_sequence(archive.sequence)
    } else {
        next.sequence == archive.sequence && next.root == archive.root
    }
}

/// How the download stands.
pub open spec fn download_lands(archive: PrivateArchive, landing: Landing) -> bool {
    match archive.phase {
        ArchivePhase::Completed(owned) => landing == (Landing::Ended {
            answer: FlowReply::Done,
            unpacked: Some(Unpacked { root: archive.root, owned }),
        }),
        ArchivePhase::Failed(failure) => ends_saying(landing, failure.line()),
        _ => landing == Landing::Going(JourneyStep::Downloading(archive)),
    }
}

fn land_download(archive: PrivateArchive) -> (landing: Landing)
    ensures
        download_lands(archive, landing),
{
    match archive.phase {
        ArchivePhase::Completed(owned) => Landing::Ended {
            answer: FlowReply::Done,
            unpacked: Some(Unpacked { root: archive.root, owned }),
        },
        ArchivePhase::Failed(failure) => end_saying(&failure),
        _ => Landing::Going(JourneyStep::Downloading(archive)),
    }
}

/// What follows a reply to the setup of the key.
pub open spec fn setup_goes(setup: SshSetup, reply: Reply, next: SshSetup) -> bool {
    &&& next.directory == setup.directory
    &&& next.private_key == setup.private_key
    &&& next.public_key == setup.public_key
    &&& next.authorized_keys == setup.authorized_keys
    &&& next.temporary == setup.temporary
    &&& next.user == setup.user
    &&& setup.follows(reply, next.phase)
}

/// How the setup of the key stands.
pub open spec fn setup_lands(setup: SshSetup, landing: Landing) -> bool {
    match setup.phase {
        SshPhase::Completed(result) => ends_with(landing, FlowReply::Ready(result)),
        SshPhase::Failed(failure) => ends_saying(landing, failure.line()),
        _ => landing == Landing::Going(JourneyStep::Connecting(setup)),
    }
}

fn land_setup(setup: SshSetup) -> (landing: Landing)
    ensures
        setup_lands(setup, landing),
{
    match setup.phase {
        SshPhase::Completed(result) => Landing::Ended {
            answer: FlowReply::Ready(result),
            unpacked: None,
        },
        SshPhase::Failed(failure) => end_saying(&failure),
        _ => Landing::Going(JourneyStep::Connecting(setup)),
    }
}

impl JourneyStep {
    /// Whether the step can be gone on with.
    pub open spec fn sound(&self) -> bool {
        self matches JourneyStep::Downloading(archive) ==> archive.sound()
    }

    /// The request that the step waits for.
    pub open spec fn asks(&self) -> Ask {
        match self {
            JourneyStep::Asking(request) => request@,
            JourneyStep::Releasing => Ask::FetchPrivateRelease,
            JourneyStep::Downloading(archive) => archive.asks(),
            JourneyStep::Connecting(setup) => setup.asks(),
        }
    }

    /// What follows a reply.
    pub open spec fn follows(&self, reply: Reply, landing: Landing) -> bool {
        match self {
            JourneyStep::Asking(_) => match reply {
                Reply::Done => ends_with(landing, FlowReply::Done),
                Reply::Failed(fault) => ends_saying(landing, fault.text@),
                _ => ends_saying(landing, unanswered()),
            },
            JourneyStep::Releasing => release_lands(reply, landing),
            JourneyStep::Downloading(archive) => exists|later: PrivateArchive| #[trigger]
                download_goes(*archive, reply, later) && download_lands(later, landing),
            JourneyStep::Connecting(setup) => exists|later: SshSetup| #[trigger]
                setup_goes(*setup, reply, later) && setup_lands(later, landing),
        }
    }

    pub fn request(&self) -> (request: Request)
        ensures
            request@ == self.asks(),
    {
        match self {
            JourneyStep::Asking(request) => request.copy(),
            JourneyStep::Releasing => Request::FetchPrivateRelease,
            JourneyStep::Downloading(archive) => archive.request(),
            JourneyStep::Connecting(setup) => setup.request(),
        }
    }

    /// Goes on with a reply.
    pub fn advance(self, reply: Reply) -> (landing: Landing)
        requires
            self.sound(),
        ensures
            self.follows(reply, landing),
            landing matches Landing::Going(step) ==> step.sound(),
    {
        match self {
            JourneyStep::Asking(_) => match reply {
                Reply::Done => Landing::Ended { answer: FlowReply::Done, unpacked: None },
                Reply::Failed(fault) => end_saying(&Failure::plain(&fault.text)),
                _ => end_saying(&Failure::plain("unexpected reply")),
            },
            JourneyStep::Releasing => land_release(reply),
            JourneyStep::Downloading(archive) => {
                let later = archive.advance(reply);
                assert(download_goes(archive, reply, later));
                land_download(later)
            },
            JourneyStep::Connecting(setup) => {
                let later = setup.advance(reply);
                assert(setup_goes(setup, reply, later));
                land_setup(later)
            },
        }
    }
}

// --------------------------------------------------
// The way
// --------------------------------------------------

/// Whether the configuration is there once the way has come to where it is needed.
pub open spec fn is_supplied(flow: InstallFlow, unpacked: Option<Unpacked>) -> bool {
    flow.phase is Preparing || flow.phase is Connecting || flow.phase is Reporting
        || flow.phase is Installing ==> unpacked is Some
}

/// Whether a step begins, with what was unpacked so far.
pub open spec fn travels(
    stage: JourneyStage,
    supplies: Supplies,
    unpacked: Option<Unpacked>,
    step: JourneyStep,
) -> bool {
    stage == (JourneyStage::Travelling { supplies, unpacked, step })
}

/// Whether a single request is made, with what was unpacked so far.
pub open spec fn travels_asking(
    stage: JourneyStage,
    supplies: Supplies,
    unpacked: Option<Unpacked>,
    asked: Ask,
) -> bool {
    &&& stage is Travelling
    &&& stage->supplies == supplies
    &&& stage->unpacked == unpacked
    &&& stage->step matches JourneyStep::Asking(request) && request@ == asked
}

/// Whether the installation of what was unpacked begins.
pub open spec fn deploys(
    stage: JourneyStage,
    release: PrivateReleaseInfo,
    supplies: Supplies,
    root: Seq<u8>,
    owned: PathIdentity,
    sequence: u64,
) -> bool {
    &&& stage is Deploying
    &&& deployment_begins(stage->Deploying_0.place, root, owned, sequence, stage->Deploying_0)
    &&& stage->Deploying_0.place.paths == supplies.paths
    &&& stage->Deploying_0.place.home == supplies.home
    &&& stage->Deploying_0.place.core_root@ == under(root, "core"@)
    &&& stage->Deploying_0.place.release == release
    &&& stage->Deploying_0.place.running == supplies.running
    &&& stage->Deploying_0.place.process == supplies.process
}

/// Whether the way goes on with its next step or, where there is none, with the removal
/// of what was unpacked.
pub open spec fn flow_goes(
    flow: InstallFlow,
    supplies: Supplies,
    unpacked: Option<Unpacked>,
    sequence: u64,
    stage: JourneyStage,
) -> bool {
    match flow.next() {
        Some(FlowDeed::Heading(text)) => travels_asking(
            stage,
            supplies,
            unpacked,
            Ask::Heading(text),
        ),
        Some(FlowDeed::Detail(text)) => travels_asking(
            stage,
            supplies,
            unpacked,
            Ask::Detail(text),
        ),
        Some(FlowDeed::Report(text)) => travels_asking(stage, supplies, unpacked, Ask::Show(text)),
        Some(FlowDeed::Authorize) => travels_asking(stage, supplies, unpacked, Ask::Authorize),
        Some(FlowDeed::Release) => travels(stage, supplies, unpacked, JourneyStep::Releasing),
        Some(FlowDeed::Archive(url)) => {
            &&& stage is Travelling
            &&& stage->supplies == supplies
            &&& stage->unpacked == unpacked
            &&& stage->step matches JourneyStep::Downloading(archive) && archive.begins(
                supplies.paths.state_home@,
                url,
                supplies.process,
                sequence,
            )
        },
        Some(FlowDeed::Ssh) => {
            &&& stage is Travelling
            &&& stage->supplies.paths == supplies.paths
            &&& stage->supplies.home == supplies.home
            &&& stage->supplies.running == supplies.running
            &&& stage->supplies.process == supplies.process
            &&& stage->supplies.user is None
            &&& stage->unpacked == unpacked
            &&& stage->step matches JourneyStep::Connecting(setup) && setup.begins(
                supplies.home@,
                supplies.user,
                supplies.process,
                sequence,
            )
        },
        Some(FlowDeed::Install) => unpacked is Some && flow.phase is Installing && deploys(
            stage,
            flow.phase->Installing_release,
            supplies,
            unpacked->0.root@,
            unpacked->0.owned,
            sequence,
        ),
        None => match unpacked {
            Some(Unpacked { root, owned }) => {
                &&& stage is Discarding
                &&& stage->Discarding_0 is Looking
                &&& stage->Discarding_0->Looking_path@ == root@
                &&& stage->Discarding_0->owned == owned
            },
            None => stage is Over,
        },
    }
}

fn ask(supplies: Supplies, unpacked: Option<Unpacked>, request: Request) -> (stage: JourneyStage)
    ensures
        travels_asking(stage, supplies, unpacked, request@),
        stage.sound(),
{
    JourneyStage::Travelling { supplies, unpacked, step: JourneyStep::Asking(request) }
}

fn copy_release(release: &PrivateReleaseInfo) -> (copy: PrivateReleaseInfo)
    ensures
        copy == *release,
{
    PrivateReleaseInfo {
        tag_name: release.tag_name.clone(),
        archive_url: release.archive_url.clone(),
        show_cad_status_asset_id: release.show_cad_status_asset_id,
        show_cad_status_checksum_asset_id: release.show_cad_status_checksum_asset_id,
    }
}

fn begin_deployment(
    release: &PrivateReleaseInfo,
    supplies: Supplies,
    root: Vec<u8>,
    owned: PathIdentity,
    sequence: u64,
) -> (stage: JourneyStage)
    ensures
        deploys(stage, *release, supplies, root@, owned, sequence),
        stage.sound(),
{
    let place = Workplace {
        core_root: join_text(&root, "core"),
        paths: supplies.paths,
        home: supplies.home,
        release: copy_release(release),
        running: supplies.running,
        process: supplies.process,
    };
    JourneyStage::Deploying(deploy(place, root, owned, sequence))
}

fn go_on(flow: &InstallFlow, supplies: Supplies, unpacked: Option<Unpacked>, sequence: u64) -> (stage:
    JourneyStage)
    requires
        is_supplied(*flow, unpacked),
    ensures
        flow_goes(*flow, supplies, unpacked, sequence, stage),
        stage.sound(),
        stage is Travelling ==> stage->unpacked == unpacked,
        stage is Travelling && flow.phase is Downloading ==> stage->step is Downloading,
        stage is Deploying ==> flow.phase is Installing,
{
    match flow.next_act() {
        Some(FlowAct::Heading(text)) => ask(supplies, unpacked, Request::Heading(text)),
        Some(FlowAct::Detail(text)) => ask(supplies, unpacked, Request::Detail(text)),
        Some(FlowAct::Report(text)) => ask(supplies, unpacked, Request::Show(text)),
        Some(FlowAct::Authorize) => ask(supplies, unpacked, Request::Authorize),
        Some(FlowAct::Release) => JourneyStage::Travelling {
            supplies,
            unpacked,
            step: JourneyStep::Releasing,
        },
        Some(FlowAct::Archive(url)) => {
            let archive = download_private_archive(
                &supplies.paths,
                &url,
                supplies.process,
                sequence,
            );
            JourneyStage::Travelling { supplies, unpacked, step: JourneyStep::Downloading(archive) }
        },
        Some(FlowAct::Ssh) => {
            let Supplies { paths, home, user, running, process } = supplies;
            let setup = bootstrap_ssh(&home, user, process, sequence);
            let supplies = Supplies { paths, home, user: None, running, process };
            JourneyStage::Travelling { supplies, unpacked, step: JourneyStep::Connecting(setup) }
        },
        Some(FlowAct::Install) => match (&flow.phase, unpacked) {
            (FlowPhase::Installing { release, .. }, Some(Unpacked { root, owned })) => begin_deployment(
                release,
                supplies,
                root,
                owned,
                sequence,
            ),
            _ => JourneyStage::Over,
        },
        None => match unpacked {
            Some(Unpacked { root, owned }) => JourneyStage::Discarding(remove_owned_tree(&root, owned)),
            None => JourneyStage::Over,
        },
    }
}

/// Begins the way to a first installation.
pub fn begin_journey(supplies: Supplies, sequence: u64) -> (journey: Journey)
    ensures
        journey.sound(),
        journey.flow.home@ == supplies.home@,
        journey.flow.phase is Heading,
        flow_goes(journey.flow, supplies, None, sequence, journey.stage),
{
    let flow = install_not_installed_flow(&supplies.home);
    let stage = go_on(&flow, supplies, None, sequence);
    Journey { flow, stage }
}

impl JourneyStage {
    /// Whether the step that is done can be gone on with.
    pub open spec fn sound(&self) -> bool {
        match self {
            JourneyStage::Travelling { step, .. } => step.sound(),
            JourneyStage::Deploying(deployment) => deployment.stage.sound(),
            _ => true,
        }
    }
}

impl Journey {
    /// Whether the way can be gone on with: what it needs is there.
    pub open spec fn sound(&self) -> bool {
        &&& self.stage.sound()
        &&& self.stage is Travelling ==> is_supplied(self.flow, self.stage->unpacked)
        &&& self.stage is Travelling && self.flow.phase is Downloading ==> self.stage->step
            is Downloading
        &&& self.stage is Deploying ==> self.flow.phase is Installing
    }

    /// The request that the way waits for.
    pub open spec fn asks(&self) -> Ask {
        match self.stage {
            JourneyStage::Travelling { step, .. } => step.asks(),
            JourneyStage::Deploying(deployment) => deployment.asks(),
            JourneyStage::Discarding(removal) => removal.asks(),
            JourneyStage::Over => Ask::Nothing,
        }
    }

    /// What follows a reply.
    pub open spec fn follows(&self, reply: Reply, sequence: u64, next: Journey) -> bool {
        match self.stage {
            JourneyStage::Travelling { supplies, unpacked, step } => exists|
                landing: Landing,
            | #[trigger]
                step.follows(reply, landing) && match landing {
                    Landing::Going(later) => next.flow == self.flow && travels(
                        next.stage,
                        supplies,
                        unpacked,
                        later,
                    ),
                    Landing::Ended { answer, unpacked: added } => {
                        &&& next.flow.home == self.flow.home
                        &&& self.flow.follows(answer, next.flow.phase)
                        &&& flow_goes(
                            next.flow,
                            supplies,
                            if added is Some {
                                added
                            } else {
                                unpacked
                            },
                            sequence,
                            next.stage,
                        )
                    },
                },
            JourneyStage::Deploying(deployment) => exists|later: Deployment| #[trigger]
                deployment_goes(deployment, reply, sequence, later) && match later.stage {
                    Stage::Completed => next.stage is Over && next.flow.home == self.flow.home
                        && self.flow.follows(FlowReply::Done, next.flow.phase),
                    Stage::Failed(error) => next.stage is Over && next.flow.home == self.flow.home
                        && self.flow.follows(FlowReply::Failed(error), next.flow.phase),
                    _ => next.stage == JourneyStage::Deploying(later) && next.flow == self.flow,
                },
            JourneyStage::Discarding(removal) => exists|later: TreeRemoval| #[trigger]
                removal.follows(reply, later) && next.flow == self.flow && match later {
                    TreeRemoval::Completed => next.stage is Over,
                    TreeRemoval::Failed(_) => next.stage is Over,
                    _ => next.stage == JourneyStage::Discarding(later),
                },
            JourneyStage::Over => next == *self,
        }
    }

    pub fn request(&self) -> (request: Request)
        ensures
            request@ == self.asks(),
    {
        match &self.stage {
            JourneyStage::Travelling { step, .. } => step.request(),
            JourneyStage::Deploying(deployment) => deployment.request(),
            JourneyStage::Discarding(removal) => removal.request(),
            JourneyStage::Over => Request::Nothing,
        }
    }

    /// Goes on with a reply. `sequence` is a number for temporary names.
    pub fn advance(self, reply: Reply, sequence: u64) -> (next: Journey)
        requires
            self.sound(),
        ensures
            next.sound(),
            self.follows(reply, sequence, next),
    {
        let Journey { flow, stage } = self;
        match stage {
            JourneyStage::Travelling { supplies, unpacked, step } => {
                let landing = step.advance(reply);
                assert(step.follows(reply, landing));
                match landing {
                    Landing::Going(later) => Journey {
                        flow,
                        stage: JourneyStage::Travelling { supplies, unpacked, step: later },
                    },
                    Landing::Ended { answer, unpacked: added } => {
                        let held = if added.is_some() {
                            added
                        } else {
                            unpacked
                        };
                        let flow = flow.advance(answer);
                        let stage = go_on(&flow, supplies, held, sequence);
                        Journey { flow, stage }
                    },
                }
            },
            JourneyStage::Deploying(deployment) => {
                let later = deployment.advance(reply, sequence);
                assert(deployment_goes(deployment, reply, sequence, later));
                match later.stage {
                    Stage::Completed => Journey {
                        flow: flow.advance(FlowReply::Done),
                        stage: JourneyStage::Over,
                    },
                    Stage::Failed(error) => Journey {
                        flow: flow.advance(FlowReply::Failed(error)),
                        stage: JourneyStage::Over,
                    },
                    _ => Journey { flow, stage: JourneyStage::Deploying(later) },
                }
            },
            JourneyStage::Discarding(removal) => {
                let later = removal.advance(reply);
                assert(removal.follows(reply, later));
                match later {
                    TreeRemoval::Completed => Journey { flow, stage: JourneyStage::Over },
                    TreeRemoval::Failed(_) => Journey { flow, stage: JourneyStage::Over },
                    _ => Journey { flow, stage: JourneyStage::Discarding(later) },
                }
            },
            JourneyStage::Over => Journey { flow, stage: JourneyStage::Over },
        }
    }
}

/// What follows a reply to the installation.
pub open spec fn deployment_goes(
    deployment: Deployment,
    reply: Reply,
    sequence: u64,
    next: Deployment,
) -> bool {
    &&& next.place == deployment.place
    &&& next.root == deployment.root
    &&& next.owned == deployment.owned
    &&& next.stage.sound()
    &&& deployment.follows(reply, sequence, next.stage)
}

/// What was unpacked is never forgotten: the way is over at once only where nothing was,
/// and otherwise it is handed to the installation, which removes it in the end, or its
/// own removal begins, which looks for the very directory that was created.
pub proof fn nothing_unpacked_is_forgotten(
    journey: Journey,
    reply: Reply,
    sequence: u64,
    next: Journey,
)
    requires
        journey.follows(reply, sequence, next),
        journey.stage is Travelling,
        journey.stage->unpacked is Some,
        next.stage !is Travelling,
    ensures
        next.stage is Deploying || next.stage is Discarding,
        next.stage is Discarding ==> next.stage->Discarding_0 is Looking,
        next.stage is Discarding && journey.stage->step !is Downloading ==> {
            &&& next.stage->Discarding_0->Looking_path@ == journey.stage->unpacked->0.root@
            &&& next.stage->Discarding_0->owned == journey.stage->unpacked->0.owned
        },
        next.stage is Deploying && journey.stage->step !is Downloading ==> {
            &&& next.stage->Deploying_0.root@ == journey.stage->unpacked->0.root@
            &&& next.stage->Deploying_0.owned == journey.stage->unpacked->0.owned
        },
{
    let step = journey.stage->step;
    assert(forall|landing: Landing| #[trigger]
        step.follows(reply, landing) && landing is Ended && step !is Downloading
            ==> landing->unpacked is None);
}

/// What the directory of a download is known by, once it was looked at.
pub open spec fn known_by(phase: ArchivePhase) -> Option<PathIdentity> {
    match phase {
        ArchivePhase::Setting { owned } => Some(owned),
        ArchivePhase::Downloading { owned, .. } => Some(owned),
        ArchivePhase::Listing { owned } => Some(owned),
        ArchivePhase::Extracting { owned, .. } => Some(owned),
        ArchivePhase::Returning { owned, .. } => Some(owned),
        ArchivePhase::Completed(owned) => Some(owned),
        _ => None,
    }
}

/// A download keeps to its directory: the one that was created is the one that it goes
/// on with and that it hands on in the end, and it is known by what was found there
/// right after it was created.
pub proof fn a_download_keeps_to_its_directory(
    archive: PrivateArchive,
    reply: Reply,
    landing: Landing,
)
    requires
        archive.phase is Making ==> reply is Done,
        JourneyStep::Downloading(archive).follows(reply, landing),
    ensures
        landing matches Landing::Going(step) ==> {
            &&& step matches JourneyStep::Downloading(later) && later.root == archive.root
            &&& known_by(archive.phase) is Some && known_by(step->Downloading_0.phase) is Some
                ==> known_by(step->Downloading_0.phase) == known_by(archive.phase)
            &&& archive.phase is Inspecting && reply is Found ==> known_by(
                step->Downloading_0.phase,
            ) == Some(reply->Found_0.identity)
        },
        landing is Ended && landing->unpacked is Some ==> {
            &&& landing->unpacked->0.root == archive.root
            &&& known_by(archive.phase) == Some(landing->unpacked->0.owned)
        },
{
}

/// Everything is installed only once the key of the user was set up and what came of it
/// was shown, and then what is installed is what was unpacked.
pub proof fn installing_comes_last(journey: Journey, reply: Reply, sequence: u64, next: Journey)
    requires
        journey.sound(),
        journey.follows(reply, sequence, next),
        journey.stage is Travelling,
        next.stage is Deploying,
    ensures
        journey.flow.phase is Reporting,
        journey.stage->step is Asking ==> journey.stage->unpacked is Some && next.stage->Deploying_0.root@
            == journey.stage->unpacked->0.root@ && next.stage->Deploying_0.owned
            == journey.stage->unpacked->0.owned,
{
}

} // verus!
