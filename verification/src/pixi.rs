//! The package manager Pixi: its installation and its manifest.

use crate::bytes::{copy_bytes, text_bytes, views};
use crate::config::ResolvedPaths;
use crate::directories::INSTALL_DIRECTORY_MODE;
use crate::failure::{about, is_failure, message_at, reports, Failure, Words};
use crate::host::{add_bytes, no_bytes, pair_views, program_with, run_with_argument, Ask, FaultKind};
use crate::host::{FileKind, Program, ProgramView, Reply, Request};
use crate::paths::{join_text, under};
use crate::script::{add_step, bare_deed, bare_step, deed, no_steps, step, step_views, tells};
use crate::script::{unanswered, Check, Cleanup, Demand, Phase, Progress, Script, Step, StepView};
use crate::script::Tidy;
use crate::text::concat;
use crate::transaction::PathIdentity;
use vstd::prelude::*;
use vstd::utf8::encode_utf8;

verus! {

/// Where the installer lies.
pub const PIXI_INSTALLER_URL: &'static str = "https://pixi.sh/install.sh";

/// The shell that runs the installer.
pub const BASH_PATH: &'static str = "/usr/bin/bash";

/// The permissions of the manifest.
pub const PIXI_MANIFEST_MODE: u32 = 0o644;

// --------------------------------------------------
// Programs
// --------------------------------------------------

/// The variables that the installer must not see.
pub open spec fn installer_unset() -> Seq<Seq<u8>> {
    seq![
        encode_utf8("PIXI_BIN_DIR"@),
        encode_utf8("PIXI_VERSION"@),
        encode_utf8("PIXI_ARCH"@),
        encode_utf8("PIXI_DOWNLOAD_URL"@),
        encode_utf8("PIXI_CACHE_DIR"@),
        encode_utf8("RATTLER_CACHE_DIR"@),
        encode_utf8("NETRC"@),
        encode_utf8("TMP_DIR"@),
    ]
}

/// The variables that Pixi is told its place with.
pub open spec fn pixi_set(pixi_home: Seq<u8>) -> Seq<(Seq<u8>, Seq<u8>)> {
    seq![
        (encode_utf8("PIXI_HOME"@), pixi_home),
        (encode_utf8("PIXI_NO_PATH_UPDATE"@), encode_utf8("1"@)),
    ]
}

/// The installer.
pub open spec fn installer_program(pixi_home: Seq<u8>) -> ProgramView {
    ProgramView {
        executable: encode_utf8(BASH_PATH@),
        arguments: Seq::empty(),
        directory: None,
        set: pixi_set(pixi_home),
        unset: installer_unset(),
    }
}

/// The synchronization with the manifest.
pub open spec fn sync_program(pixi: Seq<u8>, pixi_home: Seq<u8>, home: Seq<u8>) -> ProgramView {
    ProgramView {
        executable: pixi,
        arguments: seq![encode_utf8("global"@), encode_utf8("sync"@)],
        directory: Some(home),
        set: pixi_set(pixi_home),
        unset: seq![
            encode_utf8("PIXI_BIN_DIR"@),
            encode_utf8("PIXI_CACHE_DIR"@),
            encode_utf8("RATTLER_CACHE_DIR"@),
        ],
    }
}

fn environment(pixi_home: &[u8]) -> (set: Vec<(Vec<u8>, Vec<u8>)>)
    ensures
        pair_views(set@) == pixi_set(pixi_home@),
{
    let mut set: Vec<(Vec<u8>, Vec<u8>)> = Vec::new();
    set.push((text_bytes("PIXI_HOME"), copy_bytes(pixi_home)));
    set.push((text_bytes("PIXI_NO_PATH_UPDATE"), text_bytes("1")));
    assert(pair_views(set@) =~= pixi_set(pixi_home@));
    set
}

/// The installer: told its place, and kept from what could lead it elsewhere.
pub fn pixi_installer_command(pixi_home: &[u8]) -> (program: Program)
    ensures
        program@ == installer_program(pixi_home@),
{
    let mut unset = no_bytes();
    add_bytes(&mut unset, text_bytes("PIXI_BIN_DIR"));
    add_bytes(&mut unset, text_bytes("PIXI_VERSION"));
    add_bytes(&mut unset, text_bytes("PIXI_ARCH"));
    add_bytes(&mut unset, text_bytes("PIXI_DOWNLOAD_URL"));
    add_bytes(&mut unset, text_bytes("PIXI_CACHE_DIR"));
    add_bytes(&mut unset, text_bytes("RATTLER_CACHE_DIR"));
    add_bytes(&mut unset, text_bytes("NETRC"));
    add_bytes(&mut unset, text_bytes("TMP_DIR"));
    assert(views(unset@) =~= installer_unset());
    Program {
        executable: text_bytes(BASH_PATH),
        arguments: no_bytes(),
        directory: None,
        set: environment(pixi_home),
        unset,
    }
}

/// The synchronization with the manifest.
pub fn pixi_sync_command(pixi: &[u8], pixi_home: &[u8], home: &[u8]) -> (program: Program)
    ensures
        program@ == sync_program(pixi@, pixi_home@, home@),
{
    let mut arguments = no_bytes();
    add_bytes(&mut arguments, text_bytes("global"));
    add_bytes(&mut arguments, text_bytes("sync"));
    let mut unset = no_bytes();
    add_bytes(&mut unset, text_bytes("PIXI_BIN_DIR"));
    add_bytes(&mut unset, text_bytes("PIXI_CACHE_DIR"));
    add_bytes(&mut unset, text_bytes("RATTLER_CACHE_DIR"));
    let program = Program {
        executable: copy_bytes(pixi),
        arguments,
        directory: Some(copy_bytes(home)),
        set: environment(pixi_home),
        unset,
    };
    assert(program@ =~= sync_program(pixi@, pixi_home@, home@));
    program
}

/// Why the synchronization has failed.
pub open spec fn sync_problem(reply: Reply) -> Option<Seq<char>> {
    match reply {
        Reply::Failed(fault) => Some(fault.text@),
        Reply::Exited { success, status, .. } => if success {
            None
        } else {
            Some("pixi global sync failed: "@ + status@)
        },
        _ => Some(unanswered()),
    }
}

/// Checks how the synchronization has ended.
pub fn sync_pixi(reply: Reply) -> (result: Result<(), Failure>)
    ensures
        match sync_problem(reply) {
            None => result is Ok,
            Some(words) => result is Err && result->Err_0.says(words),
        },
{
    match reply {
        Reply::Failed(fault) => Err(Failure::plain(&fault.text)),
        Reply::Exited { success, status, .. } => if success {
            Ok(())
        } else {
            Err(Failure::plain(&concat("pixi global sync failed: ", &status)))
        },
        _ => Err(Failure::plain("unexpected reply")),
    }
}

// --------------------------------------------------
// Steps
// --------------------------------------------------

/// The check of the source of the manifest.
pub open spec fn manifest_source_step(source: Seq<u8>) -> StepView {
    step(
        Ask::Inspect(source),
        Demand::Kind(FileKind::Regular),
        about("Pixi manifest source is unavailable: "@, source),
        about("Pixi manifest source must be a regular file: "@, source),
    )
}

/// The checks of what the installer has left, and the place of the manifest.
pub open spec fn check_steps(pixi: Seq<u8>, source: Seq<u8>, manifests: Seq<u8>) -> Seq<StepView> {
    seq![
        step(
            Ask::Inspect(pixi),
            Demand::Executable,
            about("Pixi binary is unavailable: "@, pixi),
            about("Pixi binary must be a regular executable file: "@, pixi),
        ),
        step(
            Ask::Capture(program_with(pixi, "--version"@)),
            Demand::Prints,
            about("failed to execute Pixi binary: "@, pixi),
            about("Pixi binary validation failed: "@, pixi),
        ),
        manifest_source_step(source),
        bare_deed(Ask::MakeManaged(manifests)),
    ]
}

/// The steps that place the manifest.
pub open spec fn manifest_steps(source: Seq<u8>, target: Seq<u8>) -> Seq<StepView> {
    seq![
        manifest_source_step(source),
        bare_deed(Ask::Open(source)),
        deed(
            Ask::CreateFile { path: target, mode: PIXI_MANIFEST_MODE },
            about("failed to create Pixi manifest: "@, target),
        ),
        bare_step(Ask::InspectOpen(target), Demand::Remember, unanswered()),
        bare_deed(Ask::SetOpenMode { path: target, mode: PIXI_MANIFEST_MODE }),
        bare_deed(Ask::CopyFrom { source, path: target }),
        bare_deed(Ask::SyncOpen(target)),
    ]
}

/// The check of the source of the manifest.
pub fn validate_pixi_manifest_source(source: &[u8]) -> (made: Step)
    ensures
        made@ == manifest_source_step(source@),
{
    Step::new(
        Request::Inspect(copy_bytes(source)),
        Check::Kind(FileKind::Regular),
        message_at("Pixi manifest source is unavailable: ", source),
        message_at("Pixi manifest source must be a regular file: ", source),
    )
}

fn check_installation(pixi: &[u8], source: &[u8], manifests: &[u8]) -> (script: Script)
    ensures
        script.begins(check_steps(pixi@, source@, manifests@), Tidy::Nothing),
{
    let mut steps = no_steps();
    add_step(
        &mut steps,
        Step::new(
            Request::Inspect(copy_bytes(pixi)),
            Check::Executable,
            message_at("Pixi binary is unavailable: ", pixi),
            message_at("Pixi binary must be a regular executable file: ", pixi),
        ),
    );
    add_step(
        &mut steps,
        Step::new(
            Request::Capture(run_with_argument(pixi, "--version")),
            Check::Prints,
            message_at("failed to execute Pixi binary: ", pixi),
            message_at("Pixi binary validation failed: ", pixi),
        ),
    );
    add_step(&mut steps, validate_pixi_manifest_source(source));
    add_step(&mut steps, Step::bare_deed(Request::MakeManaged(copy_bytes(manifests))));
    assert(step_views(steps@) =~= check_steps(pixi@, source@, manifests@));
    Script::new(steps, Cleanup::Nothing)
}

/// Places the manifest at a path that must be free. After a failure it is removed,
/// provided that it is still the file that was created.
pub fn place_pixi_manifest(source: &[u8], target: &[u8]) -> (script: Script)
    ensures
        script.begins(
            manifest_steps(source@, target@),
            Tidy::IfSame { inspect: Ask::Inspect(target@), remove: Ask::RemoveFile(target@) },
        ),
{
    let mut steps = no_steps();
    add_step(&mut steps, validate_pixi_manifest_source(source));
    add_step(&mut steps, Step::bare_deed(Request::Open(copy_bytes(source))));
    add_step(
        &mut steps,
        Step::deed(
            Request::CreateFile { path: copy_bytes(target), mode: PIXI_MANIFEST_MODE },
            message_at("failed to create Pixi manifest: ", target),
        ),
    );
    add_step(
        &mut steps,
        Step::bare(
            Request::InspectOpen(copy_bytes(target)),
            Check::Remember,
            "unexpected reply".to_owned(),
        ),
    );
    add_step(
        &mut steps,
        Step::bare_deed(Request::SetOpenMode { path: copy_bytes(target), mode: PIXI_MANIFEST_MODE }),
    );
    add_step(
        &mut steps,
        Step::bare_deed(Request::CopyFrom { source: copy_bytes(source), path: copy_bytes(target) }),
    );
    add_step(&mut steps, Step::bare_deed(Request::SyncOpen(copy_bytes(target))));
    assert(step_views(steps@) =~= manifest_steps(source@, target@));
    Script::new(
        steps,
        Cleanup::IfSame {
            inspect: Request::Inspect(copy_bytes(target)),
            remove: Request::RemoveFile(copy_bytes(target)),
        },
    )
}

// --------------------------------------------------
// The preparation
// --------------------------------------------------

/// How far the preparation has come.
#[derive(Debug)]
pub enum PixiPhase {
    /// The installer is downloaded.
    Fetching,
    /// The installer is read.
    Loading,
    /// The directory of Pixi is created.
    Making { installer: Vec<u8> },
    /// It is looked at.
    Inspecting { installer: Vec<u8> },
    /// Its permissions are set.
    Setting { installer: Vec<u8>, owned: PathIdentity },
    /// The installer runs.
    Installing { installer: Vec<u8>, owned: PathIdentity },
    /// What it has left is checked.
    Checking { script: Script, owned: PathIdentity },
    /// The manifest is placed.
    Placing { script: Script, owned: PathIdentity },
    /// After this failure to place the manifest, its place is looked at.
    Probing { owned: PathIdentity, failure: Failure },
    /// The directory is looked at once more.
    Identifying { owned: PathIdentity },
    /// After this failure the directory is looked at before it is removed.
    Returning { owned: PathIdentity, failure: Failure },
    /// After this failure the directory is removed.
    Removing { failure: Failure },
    /// Pixi is prepared; this is its directory.
    Completed(PathIdentity),
    Failed(Failure),
}

/// The preparation of Pixi.
#[derive(Debug)]
pub struct PixiSetup {
    pub pixi_home: Vec<u8>,
    /// The source of the manifest.
    pub source: Vec<u8>,
    pub phase: PixiPhase,
}

impl PixiSetup {
    /// Whether nothing was done yet.
    pub open spec fn begins(&self, pixi_home: Seq<u8>, core_root: Seq<u8>) -> bool {
        &&& self.pixi_home@ == pixi_home
        &&& self.source@ == under(core_root, "pixi/pixi-global.toml"@)
        &&& self.phase is Fetching
    }
}

/// Begins to prepare Pixi.
pub fn prepare_pixi(paths: &ResolvedPaths, core_root: &[u8]) -> (setup: PixiSetup)
    ensures
        setup.begins(paths.pixi_home@, core_root@),
{
    PixiSetup {
        pixi_home: copy_bytes(&paths.pixi_home),
        source: join_text(core_root, "pixi/pixi-global.toml"),
        phase: PixiPhase::Fetching,
    }
}

/// Why the installer has failed.
pub open spec fn installer_problem(reply: Reply) -> Option<(Seq<char>, Option<Seq<char>>)> {
    match reply {
        Reply::Failed(fault) => Some(("failed to execute Pixi installer"@, Some(fault.text@))),
        Reply::Exited { success, status, .. } => if success {
            None
        } else {
            Some(("Pixi installer failed: "@ + status@, None))
        },
        _ => Some((unanswered(), None)),
    }
}

fn installer_result(reply: Reply) -> (result: Result<(), Failure>)
    ensures
        match installer_problem(reply) {
            None => result is Ok,
            Some(words) => result is Err && is_failure(result->Err_0, words),
        },
{
    match reply {
        Reply::Failed(fault) => Err(
            Failure::caused("failed to execute Pixi installer", &fault.text),
        ),
        Reply::Exited { success, status, .. } => if success {
            Ok(())
        } else {
            Err(Failure::plain(&concat("Pixi installer failed: ", &status)))
        },
        _ => Err(Failure::plain("unexpected reply")),
    }
}

impl PixiSetup {
    /// The program of Pixi.
    pub open spec fn binary(&self) -> Seq<u8> {
        under(self.pixi_home@, "bin/pixi"@)
    }

    /// The directory of the manifest.
    pub open spec fn manifests(&self) -> Seq<u8> {
        under(self.pixi_home@, "manifests"@)
    }

    /// The manifest.
    pub open spec fn manifest(&self) -> Seq<u8> {
        under(under(self.pixi_home@, "manifests"@), "pixi-global.toml"@)
    }

    pub open spec fn asks(&self) -> Ask {
        match self.phase {
            PixiPhase::Fetching => Ask::Get(PIXI_INSTALLER_URL@),
            PixiPhase::Loading => Ask::ReadBody,
            PixiPhase::Making { .. } => Ask::MakeDirectory {
                path: self.pixi_home@,
                mode: INSTALL_DIRECTORY_MODE,
            },
            PixiPhase::Inspecting { .. } => Ask::Inspect(self.pixi_home@),
            PixiPhase::Setting { .. } => Ask::SetMode {
                path: self.pixi_home@,
                mode: INSTALL_DIRECTORY_MODE,
            },
            PixiPhase::Installing { installer, .. } => Ask::Feed {
                program: installer_program(self.pixi_home@),
                input: installer@,
            },
            PixiPhase::Checking { script, .. } => script.asks(),
            PixiPhase::Placing { script, .. } => script.asks(),
            PixiPhase::Probing { .. } => Ask::Inspect(self.manifest()),
            PixiPhase::Identifying { .. } => Ask::Inspect(self.pixi_home@),
            PixiPhase::Returning { .. } => Ask::Inspect(self.pixi_home@),
            PixiPhase::Removing { .. } => Ask::RemoveTree(self.pixi_home@),
            PixiPhase::Completed(_) => Ask::Nothing,
            PixiPhase::Failed(_) => Ask::Nothing,
        }
    }

    /// What the preparation does with a reply.
    pub open spec fn follows(&self, reply: Reply, next: PixiPhase) -> bool {
        match self.phase {
            PixiPhase::Fetching => match reply {
                Reply::Done => next is Loading,
                Reply::Failed(fault) => next is Failed && next->Failed_0.blames(
                    "failed to download Pixi installer: "@ + PIXI_INSTALLER_URL@,
                    fault.text@,
                ),
                _ => next is Failed && next->Failed_0.says(unanswered()),
            },
            PixiPhase::Loading => match reply {
                Reply::Contents(installer) => if installer@.len() == 0 {
                    next is Failed && next->Failed_0.says("Pixi installer script is empty"@)
                } else {
                    next == (PixiPhase::Making { installer })
                },
                Reply::Failed(fault) => next is Failed && next->Failed_0.blames(
                    "failed to read Pixi installer"@,
                    fault.text@,
                ),
                _ => next is Failed && next->Failed_0.says(unanswered()),
            },
            PixiPhase::Making { installer } => match reply {
                Reply::Done => next == (PixiPhase::Inspecting { installer }),
                Reply::Failed(fault) => next is Failed && next->Failed_0.blames(
                    about("failed to create PIXI_HOME: "@, self.pixi_home@),
                    fault.text@,
                ),
                _ => next is Failed && next->Failed_0.says(unanswered()),
            },
            PixiPhase::Inspecting { installer } => match reply {
                Reply::Found(entry) => next == (PixiPhase::Setting {
                    installer,
                    owned: entry.identity,
                }),
                Reply::Failed(fault) => next is Failed && next->Failed_0.blames(
                    about("failed to inspect PIXI_HOME: "@, self.pixi_home@),
                    fault.text@,
                ),
                _ => next is Failed && next->Failed_0.says(unanswered()),
            },
            PixiPhase::Setting { installer, owned } => match reply {
                Reply::Done => next == (PixiPhase::Installing { installer, owned }),
                Reply::Failed(fault) => next is Returning && next->Returning_owned == owned
                    && next->Returning_failure.blames(
                    about("failed to set PIXI_HOME permissions: "@, self.pixi_home@),
                    fault.text@,
                ),
                _ => next is Returning && next->Returning_owned == owned
                    && next->Returning_failure.says(unanswered()),
            },
            PixiPhase::Installing { owned, .. } => match installer_problem(reply) {
                Some(words) => next is Returning && next->Returning_owned == owned && is_failure(
                    next->Returning_failure,
                    words,
                ),
                None => next is Checking && next->Checking_owned == owned
                    && next->Checking_script.begins(
                    check_steps(self.binary(), self.source@, self.manifests()),
                    Tidy::Nothing,
                ),
            },
            PixiPhase::Checking { script, owned } => match script.after(reply).phase {
                Phase::Completed => next is Placing && next->Placing_owned == owned
                    && next->Placing_script.begins(
                    manifest_steps(self.source@, self.manifest()),
                    Tidy::IfSame {
                        inspect: Ask::Inspect(self.manifest()),
                        remove: Ask::RemoveFile(self.manifest()),
                    },
                ),
                Phase::Failed { step, fault } => next is Returning && next->Returning_owned == owned
                    && tells(step_views(script.steps@), step as int, fault, next->Returning_failure),
                _ => next == (PixiPhase::Checking { script: script.after(reply), owned }),
            },
            PixiPhase::Placing { script, owned } => match script.after(reply).phase {
                Phase::Completed => next == (PixiPhase::Identifying { owned }),
                Phase::Failed { step, fault } => next is Probing && next->Probing_owned == owned
                    && tells(step_views(script.steps@), step as int, fault, next->Probing_failure),
                _ => next == (PixiPhase::Placing { script: script.after(reply), owned }),
            },
            PixiPhase::Probing { owned, failure } => match reply {
                Reply::Found(_) => next == PixiPhase::Failed(failure),
                Reply::Failed(fault) => if fault.kind == FaultKind::NotFound {
                    next == (PixiPhase::Returning { owned, failure })
                } else {
                    next is Returning && next->Returning_owned == owned
                        && next->Returning_failure.says(fault.text@)
                },
                _ => next is Returning && next->Returning_owned == owned
                    && next->Returning_failure.says(unanswered()),
            },
            PixiPhase::Identifying { owned } => match reply {
                Reply::Found(entry) => next == PixiPhase::Completed(entry.identity),
                Reply::Failed(fault) => next is Returning && next->Returning_owned == owned
                    && next->Returning_failure.says(fault.text@),
                _ => next is Returning && next->Returning_owned == owned
                    && next->Returning_failure.says(unanswered()),
            },
            PixiPhase::Returning { owned, failure } => match reply {
                Reply::Found(entry) => if entry.identity == owned {
                    next == (PixiPhase::Removing { failure })
                } else {
                    next == PixiPhase::Failed(failure)
                },
                _ => next == PixiPhase::Failed(failure),
            },
            PixiPhase::Removing { failure } => next == PixiPhase::Failed(failure),
            PixiPhase::Completed(_) => next == self.phase,
            PixiPhase::Failed(_) => next == self.phase,
        }
    }

    pub fn request(&self) -> (request: Request)
        ensures
            request@ == self.asks(),
    {
        match &self.phase {
            PixiPhase::Fetching => Request::Get(PIXI_INSTALLER_URL.to_owned()),
            PixiPhase::Loading => Request::ReadBody,
            PixiPhase::Making { .. } => Request::MakeDirectory {
                path: copy_bytes(&self.pixi_home),
                mode: INSTALL_DIRECTORY_MODE,
            },
            PixiPhase::Inspecting { .. } => Request::Inspect(copy_bytes(&self.pixi_home)),
            PixiPhase::Setting { .. } => Request::SetMode {
                path: copy_bytes(&self.pixi_home),
                mode: INSTALL_DIRECTORY_MODE,
            },
            PixiPhase::Installing { installer, .. } => Request::Feed {
                program: pixi_installer_command(&self.pixi_home),
                input: copy_bytes(installer),
            },
            PixiPhase::Checking { script, .. } => script.wanted(),
            PixiPhase::Placing { script, .. } => script.wanted(),
            PixiPhase::Probing { .. } => Request::Inspect(
                join_text(&join_text(&self.pixi_home, "manifests"), "pixi-global.toml"),
            ),
            PixiPhase::Identifying { .. } => Request::Inspect(copy_bytes(&self.pixi_home)),
            PixiPhase::Returning { .. } => Request::Inspect(copy_bytes(&self.pixi_home)),
            PixiPhase::Removing { .. } => Request::RemoveTree(copy_bytes(&self.pixi_home)),
            PixiPhase::Completed(_) => Request::Nothing,
            PixiPhase::Failed(_) => Request::Nothing,
        }
    }

    /// Goes on with a reply.
    #[verifier::rlimit(40)]
    pub fn advance(self, reply: Reply) -> (next: PixiSetup)
        ensures
            next.pixi_home == self.pixi_home,
            next.source == self.source,
            self.follows(reply, next.phase),
    {
        let PixiSetup { pixi_home, source, phase } = self;
        let next = match phase {
            PixiPhase::Fetching => match reply {
                Reply::Done => PixiPhase::Loading,
                Reply::Failed(fault) => PixiPhase::Failed(
                    Failure::caused(
                        &concat("failed to download Pixi installer: ", PIXI_INSTALLER_URL),
                        &fault.text,
                    ),
                ),
                _ => PixiPhase::Failed(Failure::plain("unexpected reply")),
            },
            PixiPhase::Loading => match reply {
                Reply::Contents(installer) => if installer.len() == 0 {
                    PixiPhase::Failed(Failure::plain("Pixi installer script is empty"))
                } else {
                    PixiPhase::Making { installer }
                },
                Reply::Failed(fault) => PixiPhase::Failed(
                    Failure::caused("failed to read Pixi installer", &fault.text),
                ),
                _ => PixiPhase::Failed(Failure::plain("unexpected reply")),
            },
            PixiPhase::Making { installer } => match reply {
                Reply::Done => PixiPhase::Inspecting { installer },
                Reply::Failed(fault) => PixiPhase::Failed(
                    Failure::caused_at("failed to create PIXI_HOME: ", &pixi_home, &fault.text),
                ),
                _ => PixiPhase::Failed(Failure::plain("unexpected reply")),
            },
            PixiPhase::Inspecting { installer } => match reply {
                Reply::Found(entry) => PixiPhase::Setting { installer, owned: entry.identity },
                Reply::Failed(fault) => PixiPhase::Failed(
                    Failure::caused_at("failed to inspect PIXI_HOME: ", &pixi_home, &fault.text),
                ),
                _ => PixiPhase::Failed(Failure::plain("unexpected reply")),
            },
            PixiPhase::Setting { installer, owned } => match reply {
                Reply::Done => PixiPhase::Installing { installer, owned },
                Reply::Failed(fault) => PixiPhase::Returning {
                    owned,
                    failure: Failure::caused_at(
                        "failed to set PIXI_HOME permissions: ",
                        &pixi_home,
                        &fault.text,
                    ),
                },
                _ => PixiPhase::Returning { owned, failure: Failure::plain("unexpected reply") },
            },
            PixiPhase::Installing { owned, .. } => match installer_result(reply) {
                Err(failure) => PixiPhase::Returning { owned, failure },
                Ok(()) => PixiPhase::Checking {
                    script: check_installation(
                        &join_text(&pixi_home, "bin/pixi"),
                        &source,
                        &join_text(&pixi_home, "manifests"),
                    ),
                    owned,
                },
            },
            PixiPhase::Checking { script, owned } => match script.progress(reply) {
                Progress::Going(script) => PixiPhase::Checking { script, owned },
                Progress::Broken(failure) => PixiPhase::Returning { owned, failure },
                Progress::Completed => PixiPhase::Placing {
                    script: place_pixi_manifest(
                        &source,
                        &join_text(&join_text(&pixi_home, "manifests"), "pixi-global.toml"),
                    ),
                    owned,
                },
            },
            PixiPhase::Placing { script, owned } => match script.progress(reply) {
                Progress::Going(script) => PixiPhase::Placing { script, owned },
                Progress::Broken(failure) => PixiPhase::Probing { owned, failure },
                Progress::Completed => PixiPhase::Identifying { owned },
            },
            PixiPhase::Probing { owned, failure } => match reply {
                Reply::Found(_) => PixiPhase::Failed(failure),
                Reply::Failed(fault) => if fault.kind == FaultKind::NotFound {
                    PixiPhase::Returning { owned, failure }
                } else {
                    PixiPhase::Returning { owned, failure: Failure::plain(&fault.text) }
                },
                _ => PixiPhase::Returning { owned, failure: Failure::plain("unexpected reply") },
            },
            PixiPhase::Identifying { owned } => match reply {
                Reply::Found(entry) => PixiPhase::Completed(entry.identity),
                Reply::Failed(fault) => PixiPhase::Returning {
                    owned,
                    failure: Failure::plain(&fault.text),
                },
                _ => PixiPhase::Returning { owned, failure: Failure::plain("unexpected reply") },
            },
            PixiPhase::Returning { owned, failure } => match reply {
                Reply::Found(entry) => if entry.identity == owned {
                    PixiPhase::Removing { failure }
                } else {
                    PixiPhase::Failed(failure)
                },
                _ => PixiPhase::Failed(failure),
            },
            PixiPhase::Removing { failure } => PixiPhase::Failed(failure),
            PixiPhase::Completed(identity) => PixiPhase::Completed(identity),
            PixiPhase::Failed(failure) => PixiPhase::Failed(failure),
        };
        PixiSetup { pixi_home, source, phase: next }
    }
}

/// The directory of Pixi is removed only after a failure, only where it is still the
/// one that was created, and never where a manifest of someone else is in it.
pub proof fn only_the_own_directory_is_removed(setup: PixiSetup, reply: Reply, next: PixiPhase)
    requires
        setup.follows(reply, next),
    ensures
        next is Removing && !(setup.phase is Removing) ==> setup.phase is Returning && reply is Found
            && reply->Found_0.identity == setup.phase->Returning_owned,
        setup.phase is Probing && reply is Found ==> next == PixiPhase::Failed(
            setup.phase->Probing_failure,
        ),
        next is Returning && setup.phase is Setting ==> next->Returning_owned
            == setup.phase->Setting_owned,
{
}

// --------------------------------------------------
// The bootstrap
// --------------------------------------------------

/// How far the bootstrap of Pixi has come.
#[derive(Debug)]
pub enum PixiBootstrap {
    /// Pixi is prepared.
    Preparing { setup: PixiSetup, home: Vec<u8> },
    /// It is synchronized with its manifest.
    Syncing { pixi_home: Vec<u8>, home: Vec<u8>, identity: PathIdentity },
    /// Pixi can be used; this is its directory.
    Completed(PathIdentity),
    Failed(Failure),
}

/// Why the synchronization of a bootstrap has failed.
pub open spec fn bootstrap_problem(reply: Reply) -> Option<Words> {
    match reply {
        Reply::Failed(fault) => Some(("failed to execute pixi global sync"@, Some(fault.text@))),
        _ => match sync_problem(reply) {
            Some(words) => Some((words, None)),
            None => None,
        },
    }
}

fn bootstrap_result(reply: Reply) -> (result: Result<(), Failure>)
    ensures
        reports(result, bootstrap_problem(reply)),
{
    match reply {
        Reply::Failed(fault) => Err(
            Failure::caused("failed to execute pixi global sync", &fault.text),
        ),
        reply => sync_pixi(reply),
    }
}

/// Begins to install Pixi and what its manifest lists.
pub fn bootstrap_pixi(paths: &ResolvedPaths, core_root: &[u8], home: &[u8]) -> (bootstrap:
    PixiBootstrap)
    ensures
        bootstrap is Preparing,
        bootstrap->Preparing_home@ == home@,
        bootstrap->setup.begins(paths.pixi_home@, core_root@),
{
    PixiBootstrap::Preparing { setup: prepare_pixi(paths, core_root), home: copy_bytes(home) }
}

impl PixiBootstrap {
    pub open spec fn asks(&self) -> Ask {
        match self {
            PixiBootstrap::Preparing { setup, .. } => setup.asks(),
            PixiBootstrap::Syncing { pixi_home, home, .. } => Ask::Run(
                sync_program(under(pixi_home@, "bin/pixi"@), pixi_home@, home@),
            ),
            PixiBootstrap::Completed(_) => Ask::Nothing,
            PixiBootstrap::Failed(_) => Ask::Nothing,
        }
    }

    /// What the bootstrap does with a reply.
    pub open spec fn follows(&self, reply: Reply, next: PixiBootstrap) -> bool {
        match self {
            PixiBootstrap::Preparing { setup, home } => exists|phase: PixiPhase| #[trigger]
                setup.follows(reply, phase) && match phase {
                    PixiPhase::Completed(identity) => next == (PixiBootstrap::Syncing {
                        pixi_home: setup.pixi_home,
                        home: *home,
                        identity,
                    }),
                    PixiPhase::Failed(failure) => next == PixiBootstrap::Failed(failure),
                    _ => next == (PixiBootstrap::Preparing {
                        setup: PixiSetup {
                            pixi_home: setup.pixi_home,
                            source: setup.source,
                            phase,
                        },
                        home: *home,
                    }),
                },
            PixiBootstrap::Syncing { identity, .. } => match bootstrap_problem(reply) {
                None => next == PixiBootstrap::Completed(*identity),
                Some(words) => next is Failed && is_failure(next->Failed_0, words),
            },
            _ => next == *self,
        }
    }

    pub fn request(&self) -> (request: Request)
        ensures
            request@ == self.asks(),
    {
        match self {
            PixiBootstrap::Preparing { setup, .. } => setup.request(),
            PixiBootstrap::Syncing { pixi_home, home, .. } => Request::Run(
                pixi_sync_command(&join_text(pixi_home, "bin/pixi"), pixi_home, home),
            ),
            PixiBootstrap::Completed(_) => Request::Nothing,
            PixiBootstrap::Failed(_) => Request::Nothing,
        }
    }

    /// Goes on with a reply.
    pub fn advance(self, reply: Reply) -> (next: PixiBootstrap)
        ensures
            self.follows(reply, next),
    {
        match self {
            PixiBootstrap::Preparing { setup, home } => {
                let PixiSetup { pixi_home, source, phase } = setup.advance(reply);
                assert(setup.follows(reply, phase));
                match phase {
                    PixiPhase::Completed(identity) => PixiBootstrap::Syncing {
                        pixi_home,
                        home,
                        identity,
                    },
                    PixiPhase::Failed(failure) => PixiBootstrap::Failed(failure),
                    phase => PixiBootstrap::Preparing {
                        setup: PixiSetup { pixi_home, source, phase },
                        home,
                    },
                }
            },
            PixiBootstrap::Syncing { identity, .. } => match bootstrap_result(reply) {
                Ok(()) => PixiBootstrap::Completed(identity),
                Err(failure) => PixiBootstrap::Failed(failure),
            },
            other => other,
        }
    }
}

} // verus!
