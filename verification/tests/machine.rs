use std::collections::BTreeMap;

use eiyah::acts::Workplace;
use eiyah::archive::{
    check_listing, download_private_archive, extract_private_archive, inspect_archive,
    remove_owned_tree, validate_archive_entry, ArchivePhase, PrivateArchive, TreeRemoval, TAR_PATH,
};
use eiyah::arrival::{run_install, Arrival, ArrivalStage};
use eiyah::backup::{
    append_to_backup_index, backup_home_path, write_backup_index, AppendPhase, BackupMove,
    BackupPhase, BackupRollback, IndexAppend, IndexPhase, IndexWrite,
};
use eiyah::backup_index::{
    decode_backup_index_entry, encode_backup_index_entry, parse_backup_index, render_backup_index,
};
use eiyah::binary::{
    create_eiyah_public_entry, install_running_eiyah_binary, validate_source_binary, BinarySetup,
};
use eiyah::config::{
    create_initial_config, create_install_metadata, discover_install_metadata, parse_config,
    parse_install_metadata, save_config, save_install_metadata, set_show_cad_status, Config,
    ConfigChange, LoadError, ResolvedPaths,
};
use eiyah::deployment::{deploy, Stage};
use eiyah::directories::{
    create_backup_directories, create_install_directories, create_restore_directories,
    prepare_backup_root, DirectoryChain, ManagedDirectories,
};
use eiyah::doctor::{diagnose, diagnosis_survey};
use eiyah::dotfiles::{
    create_git_config_local, git_config_value, install_dotfiles, validate_stowed_cshrc, CopyPhase,
    DotfilesCopy, GitIdentity, IdentityPhase,
};
use eiyah::failure::Failure;
use eiyah::handoff::{run_show_cad_status_enabled, StatusQuery};
use eiyah::host::{Entry, Fault, FaultKind, FileKind, Program, Reply, Request};
use eiyah::install::{
    complete_install_transaction, install_not_installed_flow, settle, FlowAct, FlowPhase, FlowReply,
    InstallFlow,
};
use eiyah::installed::{load_installed_paths, Lookup};
use eiyah::journey::{begin_journey, JourneyStage, Supplies};
use eiyah::lock::{acquire, lock_place, Acquisition, LockReply, LockRequest};
use eiyah::pixi::{
    bootstrap_pixi, pixi_sync_command, place_pixi_manifest, prepare_pixi, sync_pixi,
    validate_pixi_manifest_source, PixiBootstrap, PixiPhase, PixiSetup, BASH_PATH,
    PIXI_INSTALLER_URL,
};
use eiyah::preflight::{check_host, install_preflight, HostConditions, Preflight};
use eiyah::private_release::{
    create_show_cad_status_entry, install_show_cad_status, PrivateReleaseAsset, PrivateReleaseInfo,
    PrivateReleaseResponse, StatusSetup, SHOW_CAD_STATUS_ASSET_NAME,
    SHOW_CAD_STATUS_CHECKSUM_ASSET_NAME,
};
use eiyah::release::{
    validate_release_version, Release, ReleaseAsset, BINARY_ASSET_NAME, CHECKSUM_ASSET_NAME,
};
use eiyah::removal::{remove_managed_path, ManagedRemovalKind};
use eiyah::restoration::{restore_home_backups, HomeRestore, RestorePhase};
use eiyah::restore::backup_restore_plan;
use eiyah::script::{Cleanup, Script};
use eiyah::ssh::{
    add_ssh_residual_warning, bootstrap_ssh, parse_public_key, replace_authorized_keys,
    write_ssh_setup, SshPhase, SshSetup, SshSetupResult, AUTHORIZED_KEYS_MODE,
};
use eiyah::state::{
    detect_seen_state, resolve_install_paths, route_install_state, state_survey, InstallRoute,
    InstallState, PathSearch,
};
use eiyah::storage::{atomic_save, create_initial_file, Save};
use eiyah::stow::{
    is_correct_stow_symlink, run_stow_package, stow_conflicts, stow_packages, ConflictPhase,
    ConflictScan, PackagePhase, PackageScan, StowPhase, StowRun,
};
use eiyah::survey::Survey;
use eiyah::system::{host_report, report_survey};
use eiyah::transaction::{
    Action, Move, MovePhase, PathIdentity, Publication, PublishPhase, Transaction,
};
use eiyah::ui::{detail, next_operation, write_error_report, write_operation, UserFacingError};
use eiyah::undo::{undo, Undo};
use eiyah::uninstall::{
    check_seen_preflight, encode_path, preflight_survey, unstow_managed_packages, UnlinkPhase,
    Unlinking,
};
use eiyah::update::{
    began_download, download_text, download_to_file, downloaded_text, run_update, update_locked,
    validate_eiyah_binary, Update, UpdatePhase, UpdateRun,
};
use eiyah::verify::{installation_survey, validate_seen_installation};
use eiyah::withdrawal::{run_uninstall_from_home, WithdrawalStage};

// --------------------------------------------------
// A machine made of a map
// --------------------------------------------------

#[derive(Clone)]
struct Node {
    kind: FileKind,
    mode: u32,
    inode: u64,
    data: Vec<u8>,
}

type Hook = Box<dyn FnMut(&mut World, &Request) -> Option<Reply>>;

struct World {
    nodes: BTreeMap<Vec<u8>, Node>,
    next_inode: u64,
    sequence: u64,
    open: Option<u64>,
    shown: String,
    warnings: Vec<String>,
    runs: Vec<Program>,
    asked: Vec<Request>,
    pages: BTreeMap<String, Vec<u8>>,
    body: Vec<u8>,
    hook: Option<Hook>,
}

fn bytes(text: &str) -> Vec<u8> {
    text.as_bytes().to_vec()
}

fn fault(kind: FaultKind, text: &str) -> Fault {
    Fault { kind, text: text.to_owned() }
}

fn missing() -> Fault {
    fault(FaultKind::NotFound, "No such file or directory (os error 2)")
}

/// What the reader of the settings has to say.
fn complaint(refused: bool) -> String {
    (if refused { "unknown field `speed`" } else { "" }).to_owned()
}

fn taken() -> Fault {
    fault(FaultKind::AlreadyExists, "File exists (os error 17)")
}

fn above(path: &[u8]) -> Vec<u8> {
    match path.iter().rposition(|byte| *byte == b'/') {
        Some(0) => b"/".to_vec(),
        Some(position) => path[..position].to_vec(),
        None => Vec::new(),
    }
}

fn is_below(path: &[u8], directory: &[u8]) -> bool {
    path.len() > directory.len() + 1
        && path.starts_with(directory)
        && path[directory.len()] == b'/'
}

fn failed(fault: Fault) -> Reply {
    Reply::Failed(fault)
}

fn from_failure(failure: &Failure) -> Reply {
    failed(fault(FaultKind::Other, &failure.full_text()))
}

fn ended(success: bool, output: &[u8]) -> Reply {
    Reply::Exited {
        success,
        status: (if success { "exit status: 0" } else { "exit status: 1" }).to_owned(),
        output: output.to_vec(),
        errors: Vec::new(),
    }
}

impl World {
    fn new() -> World {
        let mut world = World {
            nodes: BTreeMap::new(),
            next_inode: 1,
            sequence: 0,
            open: None,
            shown: String::new(),
            warnings: Vec::new(),
            runs: Vec::new(),
            asked: Vec::new(),
            pages: BTreeMap::new(),
            body: Vec::new(),
            hook: None,
        };
        world.put("/", FileKind::Directory, 0o755, b"");
        world
    }

    fn put_bytes(&mut self, path: &[u8], kind: FileKind, mode: u32, data: &[u8]) {
        let inode = self.next_inode;
        self.next_inode += 1;
        self.nodes.insert(path.to_vec(), Node { kind, mode, inode, data: data.to_vec() });
    }

    fn put(&mut self, path: &str, kind: FileKind, mode: u32, data: &[u8]) {
        self.put_bytes(path.as_bytes(), kind, mode, data);
    }

    fn directories(&mut self, path: &str) {
        let mut prefix = String::new();
        for name in path.split('/').filter(|name| !name.is_empty()) {
            prefix.push('/');
            prefix.push_str(name);
            if !self.nodes.contains_key(prefix.as_bytes()) {
                self.put(&prefix.clone(), FileKind::Directory, 0o755, b"");
            }
        }
    }

    fn file(&mut self, path: &str, data: &[u8]) {
        self.directories(std::str::from_utf8(&above(path.as_bytes())).unwrap());
        self.put(path, FileKind::Regular, 0o644, data);
    }

    fn program(&mut self, path: &str) {
        self.file(path, b"program");
        self.nodes.get_mut(path.as_bytes()).unwrap().mode = 0o755;
    }

    fn link(&mut self, path: &str, target: &str) {
        self.directories(std::str::from_utf8(&above(path.as_bytes())).unwrap());
        self.put(path, FileKind::Symlink, 0o777, target.as_bytes());
    }

    fn stands(&self, path: &str) -> bool {
        self.nodes.contains_key(path.as_bytes())
    }

    fn data(&self, path: &str) -> Vec<u8> {
        self.nodes.get(path.as_bytes()).map(|node| node.data.clone()).unwrap_or_default()
    }

    fn mode(&self, path: &str) -> u32 {
        self.nodes[path.as_bytes()].mode
    }

    fn kind(&self, path: &str) -> FileKind {
        self.nodes[path.as_bytes()].kind
    }

    fn identity(&self, path: &str) -> PathIdentity {
        PathIdentity { device: 1, inode: self.nodes[path.as_bytes()].inode }
    }

    fn remove(&mut self, path: &str) {
        let path = path.as_bytes();
        self.nodes.retain(|key, _| key != path && !is_below(key, path));
    }

    fn rename(&mut self, source: &str, destination: &str) {
        self.shift(source.as_bytes(), destination.as_bytes());
    }

    fn shift(&mut self, source: &[u8], destination: &[u8]) {
        let moved: Vec<(Vec<u8>, Node)> = self
            .nodes
            .iter()
            .filter(|(key, _)| *key == source || is_below(key, source))
            .map(|(key, node)| (key.clone(), node.clone()))
            .collect();
        self.nodes.retain(|key, _| key != destination && !is_below(key, destination));
        for (key, node) in moved {
            self.nodes.remove(&key);
            let mut path = destination.to_vec();
            path.extend_from_slice(&key[source.len()..]);
            self.nodes.insert(path, node);
        }
    }

    fn names(&self, path: &[u8]) -> Vec<Vec<u8>> {
        self.nodes
            .keys()
            .filter(|key| is_below(key, path) && above(key) == path)
            .map(|key| key[path.len() + 1..].to_vec())
            .collect()
    }

    fn inspect(&self, path: &[u8]) -> Result<Entry, Fault> {
        match self.nodes.get(path) {
            None => Err(missing()),
            Some(node) => Ok(Entry {
                kind: node.kind,
                mode: node.mode,
                identity: PathIdentity { device: 1, inode: node.inode },
            }),
        }
    }

    fn look(&self, path: &str) -> Result<Entry, Fault> {
        self.inspect(path.as_bytes())
    }

    fn read(&self, path: &[u8]) -> Result<Vec<u8>, Fault> {
        match self.nodes.get(path) {
            None => Err(missing()),
            Some(node) if node.kind == FileKind::Symlink => match self.nodes.get(&node.data) {
                Some(target) => Ok(target.data.clone()),
                None => Err(missing()),
            },
            Some(node) if node.kind == FileKind::Regular => Ok(node.data.clone()),
            Some(_) => Err(fault(FaultKind::Other, "Is a directory (os error 21)")),
        }
    }

    fn read_link(&self, path: &[u8]) -> Result<Vec<u8>, Fault> {
        match self.nodes.get(path) {
            None => Err(missing()),
            Some(node) if node.kind == FileKind::Symlink => Ok(node.data.clone()),
            Some(_) => Err(fault(FaultKind::InvalidArgument, "Invalid argument (os error 22)")),
        }
    }

    fn target_of(&self, path: &[u8]) -> Vec<u8> {
        self.read_link(path).unwrap_or_else(|_| path.to_vec())
    }

    fn make(&mut self, path: &[u8], kind: FileKind, mode: u32, data: &[u8]) -> Reply {
        if self.nodes.contains_key(path) {
            return failed(taken());
        }
        match self.nodes.get(&above(path)) {
            Some(node) if node.kind == FileKind::Directory => {}
            _ => return failed(missing()),
        }
        self.put_bytes(path, kind, mode, data);
        Reply::Done
    }

    fn opened(&mut self) -> Option<&mut Node> {
        let inode = self.open?;
        self.nodes.values_mut().find(|node| node.inode == inode)
    }

    /// Performs a request, and for a compound one everything that it is made of.
    fn perform(&mut self, request: Request) -> Reply {
        self.asked.push(request.copy());
        if let Some(mut hook) = self.hook.take() {
            let answer = hook(self, &request);
            if self.hook.is_none() {
                self.hook = Some(hook);
            }
            if let Some(reply) = answer {
                return reply;
            }
        }
        match request {
            Request::Inspect(path) => match self.inspect(&path) {
                Ok(entry) => Reply::Found(entry),
                Err(fault) => failed(fault),
            },
            Request::Nothing => Reply::Done,
            Request::InspectTarget(path) => match self.inspect(&self.target_of(&path)) {
                Ok(entry) => Reply::Found(entry),
                Err(fault) => failed(fault),
            },
            Request::InspectOpen(_) => match self.opened() {
                Some(node) => Reply::Found(Entry {
                    kind: node.kind,
                    mode: node.mode,
                    identity: PathIdentity { device: 1, inode: node.inode },
                }),
                None => failed(missing()),
            },
            Request::Open(path) => match self.read(&path) {
                Ok(_) => Reply::Done,
                Err(fault) => failed(fault),
            },
            Request::ReadOpened(path) | Request::Read(path) => match self.read(&path) {
                Ok(data) => Reply::Contents(data),
                Err(fault) => failed(fault),
            },
            Request::ReadConfig(path) => match self.read(&path) {
                Ok(contents) => {
                    let text = String::from_utf8_lossy(&contents).into_owned();
                    let complaint = complaint(matches!(
                        parse_config(&text),
                        Err(LoadError::Schema(_))
                    ));
                    Reply::Judged { contents, complaint }
                }
                Err(fault) => failed(fault),
            },
            Request::ReadMetadata(path) => match self.read(&path) {
                Ok(contents) => {
                    let text = String::from_utf8_lossy(&contents).into_owned();
                    let complaint = complaint(matches!(
                        parse_install_metadata(&text),
                        Err(LoadError::Schema(_))
                    ));
                    Reply::Judged { contents, complaint }
                }
                Err(fault) => failed(fault),
            },
            Request::ReadLink(path) => match self.read_link(&path) {
                Ok(target) => Reply::Contents(target),
                Err(fault) => failed(fault),
            },
            Request::CreateFile { path, mode } => {
                let reply = self.make(&path, FileKind::Regular, mode, b"");
                if matches!(reply, Reply::Done) {
                    self.open = Some(self.nodes[&path].inode);
                }
                reply
            }
            Request::SetMode { path, mode } => match self.nodes.get_mut(&path) {
                Some(node) => {
                    node.mode = mode;
                    Reply::Done
                }
                None => failed(missing()),
            },
            Request::SetOpenMode { mode, .. } => match self.opened() {
                Some(node) => {
                    node.mode = mode;
                    Reply::Done
                }
                None => Reply::Done,
            },
            Request::Write { contents, .. } => {
                if let Some(node) = self.opened() {
                    node.data.extend_from_slice(&contents);
                }
                Reply::Done
            }
            Request::CopyFrom { source, .. } => match self.read(&source) {
                Ok(data) => {
                    if let Some(node) = self.opened() {
                        node.data = data;
                    }
                    Reply::Done
                }
                Err(fault) => failed(fault),
            },
            Request::SyncOpen(_) | Request::Sync(_) | Request::Lock(_) | Request::CheckAccess(_) => {
                Reply::Done
            }
            Request::List(path) => match self.nodes.get(&path) {
                Some(node) if node.kind == FileKind::Directory => Reply::Names(self.names(&path)),
                _ => failed(missing()),
            },
            Request::MakeDirectory { path, mode } => {
                self.make(&path, FileKind::Directory, mode, b"")
            }
            Request::Symlink { target, path } => self.make(&path, FileKind::Symlink, 0o777, &target),
            Request::Link { source, destination } => {
                if self.nodes.contains_key(&destination) {
                    return failed(taken());
                }
                match self.nodes.get(&source) {
                    None => failed(missing()),
                    Some(node) => {
                        let node = node.clone();
                        self.nodes.insert(destination, node);
                        Reply::Done
                    }
                }
            }
            Request::Rename { source, destination } => {
                if !self.nodes.contains_key(&source) {
                    return failed(missing());
                }
                self.shift(&source, &destination);
                Reply::Done
            }
            Request::RenameNoReplace { source, destination } => {
                if !self.nodes.contains_key(&source) {
                    return failed(missing());
                }
                if self.nodes.contains_key(&destination) {
                    return failed(taken());
                }
                self.shift(&source, &destination);
                Reply::Done
            }
            Request::RemoveFile(path) => match self.nodes.get(&path) {
                Some(node) if node.kind != FileKind::Directory => {
                    self.nodes.remove(&path);
                    Reply::Done
                }
                Some(_) => failed(fault(FaultKind::Other, "Is a directory (os error 21)")),
                None => failed(missing()),
            },
            Request::RemoveDirectory(path) => {
                if !self.nodes.contains_key(&path) {
                    return failed(missing());
                }
                if !self.names(&path).is_empty() {
                    return failed(fault(FaultKind::Other, "Directory not empty (os error 39)"));
                }
                self.nodes.remove(&path);
                Reply::Done
            }
            Request::RemoveTree(path) => {
                if !self.nodes.contains_key(&path) {
                    return failed(missing());
                }
                self.nodes.retain(|key, _| *key != path && !is_below(key, &path));
                Reply::Done
            }
            Request::FirstHeading(text) => {
                self.shown.push_str(&write_operation(&text, false));
                Reply::Done
            }
            Request::Heading(text) => {
                self.shown.push_str(&next_operation(&text, false));
                Reply::Done
            }
            Request::Detail(text) => {
                self.shown.push_str(&detail(&text));
                Reply::Done
            }
            Request::Show(text) => {
                self.shown.push_str(&text);
                Reply::Done
            }
            Request::Warning(text) => {
                self.warnings.push(text);
                Reply::Done
            }
            Request::MakeManaged(path) => {
                let made = drive(
                    self,
                    create_install_directories(&path),
                    ManagedDirectories::request,
                    ManagedDirectories::advance,
                );
                finished(made.outcome())
            }
            Request::MakeBackup { state_home, path } => {
                self.chain(create_backup_directories(&state_home, &path))
            }
            Request::MakeRestore { home, path } => {
                self.chain(create_restore_directories(&home, &path))
            }
            Request::Move { source, destination } => {
                let motion =
                    drive(self, Move::new(source, destination), Move::request, Move::advance);
                match &motion.phase {
                    MovePhase::Moved => Reply::Done,
                    MovePhase::Failed(failure) => {
                        from_failure(&failure.explain(&motion.source, &motion.destination))
                    }
                    other => panic!("{other:?}"),
                }
            }
            Request::WriteIndex { path, entries } => {
                self.sequence += 1;
                match write_backup_index(&path, &entries, 7, self.sequence) {
                    Err(failure) => from_failure(&failure),
                    Ok(write) => {
                        let written = drive(self, write, IndexWrite::request, IndexWrite::advance);
                        match written.phase {
                            IndexPhase::Written { cleanup_error } => {
                                Reply::Published { cleanup_error }
                            }
                            IndexPhase::Failed(failure) => {
                                failed(fault(FaultKind::Other, &failure.text(&path)))
                            }
                            other => panic!("{other:?}"),
                        }
                    }
                }
            }
            Request::AppendIndex { path, entry } => match append_to_backup_index(&path, &entry) {
                Err(failure) => from_failure(&failure),
                Ok(append) => {
                    let added = drive(self, append, IndexAppend::request, IndexAppend::advance);
                    match added.phase {
                        AppendPhase::Written { cleanup_error } => Reply::Published { cleanup_error },
                        AppendPhase::Failed(failure) => from_failure(&failure),
                        other => panic!("{other:?}"),
                    }
                }
            },
            Request::Publish { temporary, destination, identity } => {
                let publication = drive(
                    self,
                    Publication::new(temporary, destination, identity),
                    Publication::request,
                    Publication::advance,
                );
                match publication.outcome() {
                    Some(Ok(published)) => {
                        Reply::Published { cleanup_error: published.cleanup_error }
                    }
                    Some(Err(failure)) => from_failure(&failure),
                    None => panic!("a publication has to end"),
                }
            }
            Request::SaveFile { path, contents } => {
                self.sequence += 1;
                let sequence = self.sequence;
                match self.save(atomic_save(&path, &contents, 7, sequence)) {
                    Ok(()) => Reply::Done,
                    Err(failure) => from_failure(&failure),
                }
            }
            Request::Run(program) | Request::Capture(program) => {
                self.runs.push(program);
                ended(true, b"")
            }
            Request::Feed { program, .. } => {
                self.runs.push(program);
                ended(true, b"")
            }
            Request::Get(url) | Request::GetPrivate(url) | Request::GetAsset(url) => match self.pages.get(&url) {
                Some(page) => {
                    self.body = page.clone();
                    Reply::Done
                }
                None => failed(fault(FaultKind::Other, "http status: 404")),
            },
            Request::SaveBody(_) => {
                let body = self.body.clone();
                if let Some(node) = self.opened() {
                    node.data = body;
                }
                Reply::Done
            }
            Request::ReadBody => Reply::Contents(self.body.clone()),
            Request::ReadText => Reply::Text(String::from_utf8_lossy(&self.body).into_owned()),
            other => panic!("nothing performs {other:?}"),
        }
    }

    fn chain(&mut self, chain: Result<DirectoryChain, Failure>) -> Reply {
        match chain {
            Err(failure) => from_failure(&failure),
            Ok(chain) => {
                let chain = drive(self, chain, DirectoryChain::request, DirectoryChain::advance);
                finished(chain.outcome())
            }
        }
    }

    fn save(&mut self, save: Save) -> Result<(), Failure> {
        let mut save = save;
        loop {
            if let Some(outcome) = save.script.outcome() {
                return outcome;
            }
            let request = save.script.wanted();
            let reply = self.perform(request);
            save = save.advance(reply);
        }
    }

    fn script(&mut self, script: Script) -> Result<(), Failure> {
        let done = drive(self, script, Script::wanted, Script::advance);
        done.outcome().expect("a script has to end")
    }
}

fn finished(outcome: Option<Result<(), Failure>>) -> Reply {
    match outcome {
        Some(Ok(())) => Reply::Done,
        Some(Err(failure)) => from_failure(&failure),
        None => panic!("the work has to end"),
    }
}

/// Runs a machine until it asks for nothing more.
fn drive<M>(
    world: &mut World,
    machine: M,
    request: impl Fn(&M) -> Request,
    advance: impl Fn(M, Reply) -> M,
) -> M {
    let mut machine = machine;
    for _ in 0..10_000 {
        let asked = request(&machine);
        if matches!(asked, Request::Nothing) {
            return machine;
        }
        let reply = world.perform(asked);
        machine = advance(machine, reply);
    }
    panic!("the machine does not end")
}

fn paths_below(root: &str) -> ResolvedPaths {
    ResolvedPaths::from_homes(
        bytes(&format!("{root}/config")),
        bytes(&format!("{root}/data")),
        bytes(&format!("{root}/state")),
        bytes(&format!("{root}/cache")),
    )
}

fn relative(path: &str) -> Vec<u8> {
    encode_backup_index_entry(path.as_bytes()).unwrap()
}

fn write_index(world: &mut World, path: &str, entries: &[Vec<u8>]) {
    match world.perform(Request::WriteIndex { path: bytes(path), entries: entries.to_vec() }) {
        Reply::Published { cleanup_error: None } => {}
        other => panic!("{other:?}"),
    }
}

// --------------------------------------------------
// Changes and their reversal
// --------------------------------------------------

/// Undoes everything that was recorded.
fn roll_back(world: &mut World, transaction: &mut Transaction) -> Result<(), Failure> {
    let mut rollback = transaction.rollback();
    while let Some(action) = rollback.next() {
        match drive(world, undo(action), Undo::request, Undo::advance) {
            Undo::Completed => {}
            Undo::Failed(failure) => rollback.failed(failure.message),
            other => panic!("{other:?}"),
        }
    }
    rollback.finish()
}

fn created(world: &World, path: &str) -> Action {
    Action::Created { path: bytes(path), identity: world.identity(path), recursive: false }
}

fn moved(from: &str, to: &str) -> Action {
    Action::Moved { from: bytes(from), to: bytes(to) }
}

fn stowed(package: &str) -> Action {
    Action::Stowed {
        package: package.to_owned(),
        executable: bytes("/opt/pixi/bin/stow"),
        dir: bytes("/home/tester/.dotfiles"),
        target: bytes("/home/tester"),
    }
}

#[test]
fn created_action_rolls_back_created_path() {
    let mut world = World::new();
    world.file("/t/created", b"created");
    let mut transaction = Transaction::new();
    transaction.record(created(&world, "/t/created"));
    roll_back(&mut world, &mut transaction).unwrap();
    assert!(!world.stands("/t/created"));
}

#[test]
fn created_action_rejects_identity_mismatch() {
    let mut world = World::new();
    world.file("/t/created", b"owned");
    let action = created(&world, "/t/created");
    world.file("/t/replacement", b"replacement");
    world.rename("/t/replacement", "/t/created");
    let mut transaction = Transaction::new();
    transaction.record(action);
    assert_eq!(
        roll_back(&mut world, &mut transaction).unwrap_err().full_text(),
        "rollback failed: created path identity changed: /t/created"
    );
    assert_eq!(world.data("/t/created"), b"replacement");
}

#[test]
fn moved_action_restores_original_path() {
    let mut world = World::new();
    world.file("/t/moved", b"original");
    let mut transaction = Transaction::new();
    transaction.record(moved("/t/original", "/t/moved"));
    roll_back(&mut world, &mut transaction).unwrap();
    assert_eq!(world.data("/t/original"), b"original");
    assert!(!world.stands("/t/moved"));
}

#[test]
fn backup_index_round_trips_relative_path_bytes() {
    let relative = b".config/\xff-file";
    let encoded = encode_backup_index_entry(relative).unwrap();
    assert!(encoded.iter().all(|byte| byte.is_ascii_lowercase() || byte.is_ascii_digit()));
    assert_eq!(decode_backup_index_entry(&encoded).unwrap(), relative);
    for invalid in ["", "/absolute", "a/../b"] {
        assert!(encode_backup_index_entry(invalid.as_bytes()).is_err());
    }
    assert!(decode_backup_index_entry(b"ABCDEF").is_err());
    assert!(decode_backup_index_entry(b"0").is_err());
    assert!(decode_backup_index_entry(b"7a00").is_err());
}

#[test]
fn indexes_are_read_back_as_they_were_written() {
    let entries = vec![relative(".cshrc"), relative(".config/other")];
    let (content, refusal) = render_backup_index(&entries);
    assert_eq!(refusal, None);
    assert_eq!(content, b"2e6373687263\n2e636f6e6669672f6f74686572\n");
    assert_eq!(parse_backup_index(&content).unwrap(), entries);
    assert_eq!(parse_backup_index(b"").unwrap(), Vec::<Vec<u8>>::new());
    assert!(parse_backup_index(b"2e6373687263").is_err());
    assert!(parse_backup_index(b"61\n61\n").is_err());
}

#[test]
fn preserves_replaced_backup_index_temporary_file() {
    let mut world = World::new();
    world.directories("/t");
    let mut replaced = false;
    world.hook = Some(Box::new(move |world, request| {
        if let Request::Inspect(path) = request {
            if !replaced && path.starts_with(b"/t/.index.tmp-") {
                replaced = true;
                let path = String::from_utf8(path.clone()).unwrap();
                world.remove(&path);
                world.file(&path, b"concurrent temporary");
            }
        }
        None
    }));
    let write = write_backup_index(b"/t/index", &vec![relative(".cshrc")], 7, 1).unwrap();
    let written = drive(&mut world, write, IndexWrite::request, IndexWrite::advance);
    assert!(matches!(written.phase, IndexPhase::Failed(_)));
    assert_eq!(world.data("/t/.index.tmp-7-1"), b"concurrent temporary");
    assert!(!world.stands("/t/index"));
}

#[test]
fn an_index_with_a_rejected_entry_is_taken_back() {
    let mut world = World::new();
    world.directories("/t");
    let entries = vec![relative(".cshrc"), bytes("zz"), bytes("")];
    let write = write_backup_index(b"/t/index", &entries, 7, 1).unwrap();
    let written = drive(&mut world, write, IndexWrite::request, IndexWrite::advance);
    match written.phase {
        IndexPhase::Failed(failure) => assert_eq!(
            failure.text(b"/t/index"),
            "backup index entry must be non-empty lowercase hexadecimal"
        ),
        other => panic!("{other:?}"),
    }
    assert!(matches!(&world.asked[0], Request::CreateFile { .. }));
    assert!(world.asked.iter().any(|request| matches!(
        request,
        Request::Write { contents, .. } if *contents == [relative(".cshrc"), bytes("\n")].concat()
    )));
    assert!(!world.stands("/t/.index.tmp-7-1") && !world.stands("/t/index"));

    let mut world = World::new();
    world.directories("/t");
    world.file("/t/.index.tmp-7-1", b"in the way");
    let write = write_backup_index(b"/t/index", &entries, 7, 1).unwrap();
    match drive(&mut world, write, IndexWrite::request, IndexWrite::advance).phase {
        IndexPhase::Failed(failure) => assert_eq!(failure.text(b"/t/index"), taken().text),
        other => panic!("{other:?}"),
    }
    assert_eq!(world.data("/t/.index.tmp-7-1"), b"in the way");
}

const HOME_FILE: &str = "/t/home/.cshrc";
const BACKUP_FILE: &str = "/t/state/backup/home/.cshrc";
const INDEX_FILE: &str = "/t/state/backup/index";

fn backed_up(world: &mut World, others: &[Vec<u8>]) -> Vec<u8> {
    world.directories("/t/home");
    world.file(BACKUP_FILE, b"original");
    let entry = relative(".cshrc");
    let mut entries = vec![entry.clone()];
    entries.extend_from_slice(others);
    write_index(world, INDEX_FILE, &entries);
    entry
}

fn undo_backup(world: &mut World, entry: Vec<u8>) -> Result<(), Failure> {
    let rollback = BackupRollback::new(
        bytes(HOME_FILE),
        bytes(BACKUP_FILE),
        bytes(INDEX_FILE),
        entry,
    );
    drive(world, rollback, BackupRollback::request, BackupRollback::advance).outcome().unwrap()
}

#[test]
fn backed_up_action_restores_path_and_updates_index() {
    let mut world = World::new();
    let other = relative(".config/other");
    let entry = backed_up(&mut world, &[other.clone()]);
    assert_eq!(world.mode(INDEX_FILE), 0o600);
    world.nodes.get_mut(INDEX_FILE.as_bytes()).unwrap().mode = 0o644;
    let mut transaction = Transaction::new();
    transaction.record(Action::BackedUp {
        from: bytes(HOME_FILE),
        to: bytes(BACKUP_FILE),
        index: bytes(INDEX_FILE),
        entry,
    });
    roll_back(&mut world, &mut transaction).unwrap();
    assert_eq!(world.data(HOME_FILE), b"original");
    assert!(!world.stands(BACKUP_FILE));
    assert_eq!(parse_backup_index(&world.data(INDEX_FILE)).unwrap(), vec![other]);
    assert_eq!(world.mode(INDEX_FILE), 0o600);
}

#[test]
fn backed_up_rollback_preserves_state_on_restore_failure() {
    let mut world = World::new();
    let entry = backed_up(&mut world, &[]);
    world.file(HOME_FILE, b"collision");
    assert!(undo_backup(&mut world, entry.clone()).is_err());
    assert_eq!(world.data(HOME_FILE), b"collision");
    assert_eq!(world.data(BACKUP_FILE), b"original");
    assert_eq!(parse_backup_index(&world.data(INDEX_FILE)).unwrap(), vec![entry]);
}

#[test]
fn backed_up_rollback_keeps_restored_path_after_index_failure() {
    let mut world = World::new();
    let entry = backed_up(&mut world, &[]);
    world.hook = Some(Box::new(|_, request| match request {
        Request::WriteIndex { .. } => {
            Some(failed(fault(FaultKind::Other, "injected index failure")))
        }
        _ => None,
    }));
    assert_eq!(
        undo_backup(&mut world, entry.clone()).unwrap_err().full_text(),
        "injected index failure"
    );
    assert_eq!(world.data(HOME_FILE), b"original");
    assert!(!world.stands(BACKUP_FILE));
    assert_eq!(parse_backup_index(&world.data(INDEX_FILE)).unwrap(), vec![entry]);
}

#[test]
fn backed_up_rollback_rejects_source_identity_change() {
    let mut world = World::new();
    let entry = backed_up(&mut world, &[]);
    let mut looks = 0;
    world.hook = Some(Box::new(move |world, request| {
        if let Request::Inspect(path) = request {
            if path == BACKUP_FILE.as_bytes() {
                looks += 1;
                if looks == 2 {
                    world.rename(BACKUP_FILE, "/t/original");
                    world.file(BACKUP_FILE, b"other owner");
                }
            }
        }
        None
    }));
    assert!(undo_backup(&mut world, entry.clone()).is_err());
    assert!(!world.stands(HOME_FILE));
    assert_eq!(world.data(BACKUP_FILE), b"other owner");
    assert_eq!(world.data("/t/original"), b"original");
    assert_eq!(parse_backup_index(&world.data(INDEX_FILE)).unwrap(), vec![entry]);
}

#[test]
fn stowed_action_uses_explicit_source_and_target_roots() {
    let mut world = World::new();
    let mut transaction = Transaction::new();
    transaction.record(stowed("zsh"));
    roll_back(&mut world, &mut transaction).unwrap();
    assert_eq!(world.runs.len(), 1);
    let command = &world.runs[0];
    assert_eq!(command.executable, b"/opt/pixi/bin/stow");
    assert_eq!(
        command.arguments,
        ["--delete", "--target", "/home/tester", "--dir", "/home/tester/.dotfiles", "zsh"]
            .map(bytes)
    );
    assert_eq!(command.directory.as_deref(), Some(&b"/home/tester/.dotfiles"[..]));
}

#[test]
fn rollback_uses_reverse_action_order() {
    let mut world = World::new();
    let mut transaction = Transaction::new();
    for package in ["first", "second", "third"] {
        transaction.record(stowed(package));
    }
    roll_back(&mut world, &mut transaction).unwrap();
    let packages: Vec<Vec<u8>> =
        world.runs.iter().map(|program| program.arguments[5].clone()).collect();
    assert_eq!(packages, ["third", "second", "first"].map(bytes));
}

#[test]
fn failed_operation_is_not_recorded() {
    let mut world = World::new();
    world.directories("/t");
    let operation = world.perform(Request::Rename {
        source: bytes("/t/missing"),
        destination: bytes("/t/destination"),
    });
    assert!(matches!(operation, Reply::Failed(_)));
    let mut transaction = Transaction::new();
    roll_back(&mut world, &mut transaction).unwrap();
    assert!(!world.stands("/t/destination"));
}

#[test]
fn moved_rollback_rejects_backup_overwrite() {
    let mut world = World::new();
    world.file("/t/original", b"new");
    world.file("/t/moved", b"backup");
    let mut transaction = Transaction::new();
    transaction.record(moved("/t/original", "/t/moved"));
    assert!(roll_back(&mut world, &mut transaction).is_err());
    assert_eq!(world.data("/t/original"), b"new");
    assert_eq!(world.data("/t/moved"), b"backup");
}

fn move_file(world: &mut World) -> MovePhase {
    let motion = Move::new(bytes("/t/source"), bytes("/t/destination"));
    drive(world, motion, Move::request, Move::advance).phase
}

#[test]
fn atomic_rename_rejects_destination_conflict() {
    let mut world = World::new();
    world.file("/t/source", b"source");
    world.file("/t/destination", b"destination");
    assert!(matches!(move_file(&mut world), MovePhase::Failed(_)));
    assert_eq!(world.data("/t/source"), b"source");
    assert_eq!(world.data("/t/destination"), b"destination");
}

fn publish(world: &mut World) -> Publication {
    let identity = world.identity("/t/temporary");
    let publication = Publication::new(bytes("/t/temporary"), bytes("/t/destination"), identity);
    drive(world, publication, Publication::request, Publication::advance)
}

#[test]
fn initial_publish_accepts_ambiguous_link_success() {
    let mut world = World::new();
    world.file("/t/temporary", b"complete");
    world.hook = Some(Box::new(|world, request| match request {
        Request::Link { source, destination } => {
            let node = world.nodes[source].clone();
            world.nodes.insert(destination.clone(), node);
            Some(failed(fault(FaultKind::Other, "Input/output error (os error 5)")))
        }
        _ => None,
    }));
    let published = publish(&mut world);
    assert_eq!(published.outcome().unwrap().unwrap().cleanup_error, None);
    assert_eq!(world.data("/t/destination"), b"complete");
    assert!(!world.stands("/t/temporary"));
}

#[test]
fn initial_publish_rejects_destination_collision() {
    let mut world = World::new();
    world.file("/t/temporary", b"ours");
    world.file("/t/destination", b"other");
    assert!(matches!(publish(&mut world).phase, PublishPhase::Failed(_)));
    assert_eq!(world.data("/t/destination"), b"other");
    assert!(!world.stands("/t/temporary"));
}

#[test]
fn initial_publish_preserves_replaced_temporary_after_success() {
    let mut world = World::new();
    world.file("/t/temporary", b"complete");
    world.hook = Some(Box::new(|world, request| match request {
        Request::Link { source, destination } => {
            let node = world.nodes[source].clone();
            world.nodes.insert(destination.clone(), node);
            world.rename("/t/temporary", "/t/original");
            world.file("/t/temporary", b"replacement");
            Some(Reply::Done)
        }
        _ => None,
    }));
    let published = publish(&mut world);
    assert_eq!(
        published.outcome().unwrap().unwrap().cleanup_error.as_deref(),
        Some("temporary file identity changed: /t/temporary")
    );
    assert_eq!(world.data("/t/destination"), b"complete");
    assert_eq!(world.data("/t/temporary"), b"replacement");
    assert_eq!(world.data("/t/original"), b"complete");
}

fn without_no_replace(world: &mut World) {
    world.hook = Some(Box::new(|_, request| match request {
        Request::RenameNoReplace { .. } => Some(failed(fault(
            FaultKind::InvalidArgument,
            "Invalid argument (os error 22)",
        ))),
        _ => None,
    }));
}

#[test]
fn move_falls_back_after_unsupported_rename() {
    let mut world = World::new();
    world.file("/t/source", b"source");
    without_no_replace(&mut world);
    assert!(matches!(move_file(&mut world), MovePhase::Moved));
    assert!(!world.stands("/t/source"));
    assert_eq!(world.data("/t/destination"), b"source");
}

#[test]
fn move_fallback_supports_arbitrary_path_types() {
    let mut world = World::new();
    world.file("/t/source/content", b"directory");
    without_no_replace(&mut world);
    assert!(matches!(move_file(&mut world), MovePhase::Moved));
    assert_eq!(world.data("/t/destination/content"), b"directory");

    let mut world = World::new();
    world.link("/t/source", "target");
    without_no_replace(&mut world);
    assert!(matches!(move_file(&mut world), MovePhase::Moved));
    assert_eq!(world.kind("/t/destination"), FileKind::Symlink);
    assert_eq!(world.data("/t/destination"), b"target");
}

#[test]
fn move_accepts_ambiguous_fallback_success() {
    let mut world = World::new();
    world.file("/t/source", b"source");
    world.hook = Some(Box::new(|world, request| match request {
        Request::RenameNoReplace { .. } => Some(failed(fault(FaultKind::InvalidArgument, "EINVAL"))),
        Request::Rename { .. } => {
            world.rename("/t/source", "/t/destination");
            Some(failed(fault(FaultKind::Other, "EIO")))
        }
        _ => None,
    }));
    assert!(matches!(move_file(&mut world), MovePhase::Moved));
    assert!(!world.stands("/t/source"));
    assert_eq!(world.data("/t/destination"), b"source");
}

#[test]
fn move_rejects_failed_and_unknown_fallback_states() {
    let mut world = World::new();
    world.file("/t/source", b"source");
    world.hook = Some(Box::new(|_, request| match request {
        Request::RenameNoReplace { .. } => Some(failed(fault(FaultKind::InvalidArgument, "EINVAL"))),
        Request::Rename { .. } => Some(failed(fault(FaultKind::Other, "EIO"))),
        _ => None,
    }));
    assert!(matches!(move_file(&mut world), MovePhase::Failed(_)));
    assert_eq!(world.data("/t/source"), b"source");
    assert!(!world.stands("/t/destination"));

    world.hook = Some(Box::new(|world, request| match request {
        Request::RenameNoReplace { .. } => Some(failed(fault(FaultKind::InvalidArgument, "EINVAL"))),
        Request::Rename { .. } => {
            world.rename("/t/source", "/t/destination");
            world.file("/t/source", b"replacement");
            Some(Reply::Done)
        }
        _ => None,
    }));
    assert!(matches!(move_file(&mut world), MovePhase::Failed(_)));
    assert_eq!(world.data("/t/source"), b"replacement");
    assert_eq!(world.data("/t/destination"), b"source");
}

#[test]
fn rollback_continues_after_an_undo_failure() {
    let mut world = World::new();
    world.file("/t/created", b"created");
    let mut transaction = Transaction::new();
    transaction.record(created(&world, "/t/created"));
    transaction.record(moved("/t/original", "/t/missing"));
    assert!(roll_back(&mut world, &mut transaction).is_err());
    assert!(!world.stands("/t/created"));
}

#[test]
fn committed_action_is_not_rolled_back() {
    let mut world = World::new();
    world.file("/t/created", b"created");
    let mut transaction = Transaction::new();
    transaction.record(created(&world, "/t/created"));
    transaction.commit();
    roll_back(&mut world, &mut transaction).unwrap();
    assert!(world.stands("/t/created"));
}

// --------------------------------------------------
// Backups
// --------------------------------------------------

#[test]
fn builds_validated_backup_restore_plan() {
    let entries: Vec<Vec<u8>> = ["z/file", "a", "b/file"].map(relative).to_vec();
    let plan = backup_restore_plan(&entries).unwrap();
    assert_eq!(plan, ["a", "b/file", "z/file"].map(bytes));

    let duplicate = relative("same");
    assert!(backup_restore_plan(&vec![duplicate.clone(), duplicate]).is_err());
    assert!(backup_restore_plan(&vec![relative("parent"), relative("parent/child")]).is_err());
}

fn back_up(world: &mut World, home: &str, state_home: &str, source: &str) -> BackupMove {
    let started =
        backup_home_path(home.as_bytes(), state_home.as_bytes(), source.as_bytes()).unwrap();
    drive(world, started, BackupMove::request, BackupMove::advance)
}

#[test]
fn a_backup_is_indexed_as_its_path_is_spelled() {
    let started = backup_home_path(b"/t/home", b"/t/state", b"/t/home/a//b").unwrap();
    assert_eq!(started.entry, Ok(relative("a//b")));
    assert_eq!(started.to, b"/t/state/eiyah/backup/home/a//b");
    let started = backup_home_path(b"/t/home", b"/t/state", b"/t/home//a/").unwrap();
    assert_eq!(started.entry, Ok(relative("a")));

    let mut world = World::new();
    world.file("/t/home/a/./b", b"original");
    let refused = back_up(&mut world, "/t/home", "/t/state", "/t/home/a/./b");
    assert!(refused.entry.is_err());
    assert!(matches!(refused.phase, BackupPhase::Failed(_)));
    assert_eq!(world.data("/t/home/a/./b"), b"original");
    assert!(!world.stands("/t/state"));
    assert!(backup_home_path(b"/t/home", b"/t/state", b"/t/home/../b").is_err());
}

#[test]
fn backs_up_home_paths_without_replacement() {
    let mut world = World::new();
    world.directories("/t/state/eiyah");
    world.file("/t/home/.config/tool", b"original");
    let backup = back_up(&mut world, "/t/home", "/t/state", "/t/home/.config/tool");
    assert!(matches!(backup.phase, BackupPhase::BackedUp { cleanup_error: None }));
    assert!(!world.stands("/t/home/.config/tool"));
    assert_eq!(world.data("/t/state/eiyah/backup/home/.config/tool"), b"original");
    assert_eq!(world.mode("/t/state/eiyah/backup"), 0o700);
    assert_eq!(
        parse_backup_index(&world.data("/t/state/eiyah/backup/index")).unwrap(),
        vec![relative(".config/tool")]
    );
    match backup.action() {
        Some(Action::BackedUp { from, entry, .. }) => {
            assert_eq!(from, b"/t/home/.config/tool");
            assert_eq!(entry, relative(".config/tool"));
        }
        other => panic!("{other:?}"),
    }

    world.file("/t/home/.config/tool", b"second");
    let again = back_up(&mut world, "/t/home", "/t/state", "/t/home/.config/tool");
    assert!(matches!(again.phase, BackupPhase::Failed(_)));
    assert_eq!(world.data("/t/home/.config/tool"), b"second");
    assert_eq!(world.data("/t/state/eiyah/backup/home/.config/tool"), b"original");

    let absent = back_up(&mut world, "/t/home", "/t/state", "/t/home/missing");
    assert!(matches!(absent.phase, BackupPhase::Absent));
    assert!(absent.action().is_none());
}

#[test]
fn restores_unindexed_backup_after_index_failure() {
    let mut world = World::new();
    world.directories("/t/state");
    world.file("/t/home/.cshrc", b"original");
    world.hook = Some(Box::new(|_, request| match request {
        Request::AppendIndex { .. } => {
            Some(failed(fault(FaultKind::Other, "injected index failure")))
        }
        _ => None,
    }));
    let backup = back_up(&mut world, "/t/home", "/t/state", "/t/home/.cshrc");
    assert!(backup.failure().unwrap().full_text().contains("injected index failure"));
    assert_eq!(world.data("/t/home/.cshrc"), b"original");
    assert!(!world.stands("/t/state/eiyah/backup/home/.cshrc"));
}

#[test]
fn rejects_symlink_backup_ancestor() {
    let mut world = World::new();
    world.directories("/t/state/eiyah");
    world.directories("/t/elsewhere");
    world.link("/t/state/eiyah/backup", "/t/elsewhere");
    world.file("/t/home/.cshrc", b"original");
    let backup = back_up(&mut world, "/t/home", "/t/state", "/t/home/.cshrc");
    assert!(matches!(backup.phase, BackupPhase::Failed(_)));
    assert_eq!(world.data("/t/home/.cshrc"), b"original");
}

#[test]
fn prepares_private_environment_backup_root_without_dotfiles() {
    let mut world = World::new();
    world.directories("/t/state");
    let reply = world.chain(prepare_backup_root(b"/t/state"));
    assert!(matches!(reply, Reply::Done));
    assert_eq!(world.kind("/t/state/eiyah/backup/home"), FileKind::Directory);
    assert_eq!(world.mode("/t/state/eiyah/backup/home"), 0o700);
}

const ROOT: &str = "/t/state/eiyah/backup/home";
const INDEX: &str = "/t/state/eiyah/backup/index";

fn backup_fixture(world: &mut World, entries: &[&str]) {
    world.directories("/t/home");
    world.directories(ROOT);
    let encoded: Vec<Vec<u8>> = entries.iter().map(|entry| relative(entry)).collect();
    write_index(world, INDEX, &encoded);
}

fn restore(world: &mut World) -> Result<(), Failure> {
    let restore = restore_home_backups(b"/t/state", b"/t/home");
    match drive(world, restore, HomeRestore::request, HomeRestore::advance).phase {
        RestorePhase::Completed => Ok(()),
        RestorePhase::Failed(failure) => Err(failure),
        other => panic!("{other:?}"),
    }
}

#[test]
fn accepts_missing_backup_index() {
    let mut world = World::new();
    world.directories("/t/home");
    restore(&mut world).unwrap();
    assert_eq!(world.kind("/t/home"), FileKind::Directory);
    assert_eq!(world.shown, "");
}

#[test]
fn rejects_invalid_backup_indexes_before_restore() {
    for content in [
        &b"zz\n"[..],
        b"2f6162736f6c757465\n",
        b"2e2e2f657363617065\n",
        b"76616c6964\n76616c6964\n",
        b"76616c6964\n7a00\n",
    ] {
        let mut world = World::new();
        world.directories("/t/home");
        world.directories(&format!("{ROOT}/valid"));
        world.file(INDEX, content);
        assert!(restore(&mut world).is_err());
        assert!(!world.stands("/t/home/valid"));
    }
}

#[test]
fn restores_all_supported_backup_types_and_cleans_scaffold() {
    let mut world = World::new();
    backup_fixture(&mut world, &[".config/tool/config", "saved-directory", "saved-link"]);
    let file = format!("{ROOT}/.config/tool/config");
    world.file(&file, b"configuration");
    world.nodes.get_mut(file.as_bytes()).unwrap().mode = 0o640;
    world.file(&format!("{ROOT}/saved-directory/content"), b"directory");
    world.link(&format!("{ROOT}/saved-link"), "target");

    restore(&mut world).unwrap();

    assert_eq!(world.data("/t/home/.config/tool/config"), b"configuration");
    assert_eq!(world.mode("/t/home/.config/tool/config"), 0o640);
    assert_eq!(world.data("/t/home/saved-directory/content"), b"directory");
    assert_eq!(world.data("/t/home/saved-link"), b"target");
    assert!(!world.stands(INDEX));
    assert!(!world.stands(ROOT));
    assert_eq!(world.kind("/t/state/eiyah/backup"), FileKind::Directory);
    assert_eq!(
        world.shown,
        "\n==> Restoring previous configuration\n/t/home/saved-directory\n/t/home/saved-link\n/t/home/.config/tool/config\n"
    );
}

#[test]
fn rejects_invalid_backup_restore_sources_and_destinations() {
    let mut world = World::new();
    backup_fixture(&mut world, &["missing"]);
    assert!(restore(&mut world).is_err());
    assert!(world.stands(INDEX));

    let mut world = World::new();
    backup_fixture(&mut world, &["socket"]);
    world.put(&format!("{ROOT}/socket"), FileKind::Other, 0o600, b"");
    assert_eq!(
        restore(&mut world).unwrap_err().full_text(),
        format!("failed to restore socket: backup source has unsupported type: {ROOT}/socket")
    );
    assert!(world.stands(INDEX));

    let mut world = World::new();
    backup_fixture(&mut world, &["collision"]);
    world.file(&format!("{ROOT}/collision"), b"backup");
    world.file("/t/home/collision", b"existing");
    assert!(restore(&mut world).is_err());
    assert_eq!(world.data("/t/home/collision"), b"existing");
    assert_eq!(world.data(&format!("{ROOT}/collision")), b"backup");
}

#[test]
fn validates_backup_restore_destination_parents() {
    let mut world = World::new();
    backup_fixture(&mut world, &[".config/tool/config"]);
    world.file(&format!("{ROOT}/.config/tool/config"), b"backup");
    world.directories("/t/redirect");
    world.link("/t/home/.config", "/t/redirect");
    assert!(restore(&mut world).is_err());
    assert!(!world.stands("/t/redirect/tool/config"));
    assert!(world.stands(INDEX));

    world.remove("/t/home/.config");
    restore(&mut world).unwrap();
    assert_eq!(world.data("/t/home/.config/tool/config"), b"backup");
    assert_eq!(world.mode("/t/home/.config/tool"), 0o755);
}

#[test]
fn preserves_racing_paths_during_backup_restore() {
    let mut world = World::new();
    backup_fixture(&mut world, &["racing"]);
    let source = format!("{ROOT}/racing");
    world.file(&source, b"backup");
    world.hook = Some(Box::new(|world, request| {
        if matches!(request, Request::RenameNoReplace { .. }) {
            world.file("/t/home/racing", b"other owner");
        }
        None
    }));
    assert!(restore(&mut world).is_err());
    assert_eq!(world.data("/t/home/racing"), b"other owner");
    assert_eq!(world.data(&source), b"backup");
    assert!(world.stands(INDEX));

    world.remove("/t/home/racing");
    let kept = source.clone();
    let mut looks = 0;
    world.hook = Some(Box::new(move |world, request| {
        if let Request::Inspect(path) = request {
            if *path == kept.as_bytes() {
                looks += 1;
                if looks == 2 {
                    world.rename(&kept, &format!("{ROOT}/original"));
                    world.file(&kept, b"replacement");
                }
            }
        }
        None
    }));
    assert!(restore(&mut world).is_err());
    assert_eq!(world.data(&source), b"replacement");
    assert_eq!(world.data(&format!("{ROOT}/original")), b"backup");
    assert!(!world.stands("/t/home/racing"));
}

#[test]
fn preserves_partial_restore_state_after_failure() {
    let mut world = World::new();
    backup_fixture(&mut world, &["a", "b", "c"]);
    for name in ["a", "b", "c"] {
        world.file(&format!("{ROOT}/{name}"), name.as_bytes());
    }
    world.file("/t/home/b", b"collision");
    let error = restore(&mut world).unwrap_err();
    assert!(error.full_text().starts_with("failed to restore b: "));
    assert_eq!(world.data("/t/home/a"), b"a");
    assert!(!world.stands(&format!("{ROOT}/a")));
    assert_eq!(world.data("/t/home/b"), b"collision");
    assert_eq!(world.data(&format!("{ROOT}/b")), b"b");
    assert_eq!(world.data(&format!("{ROOT}/c")), b"c");
    assert!(world.stands(INDEX));
}

#[test]
fn preserves_non_empty_backup_state_during_scaffold_cleanup() {
    let mut world = World::new();
    backup_fixture(&mut world, &[]);
    world.file(&format!("{ROOT}/unindexed"), b"preserve");
    world.directories(&format!("{ROOT}/empty/inner"));
    restore(&mut world).unwrap();
    assert!(!world.stands(INDEX));
    assert_eq!(world.data(&format!("{ROOT}/unindexed")), b"preserve");
    assert!(!world.stands(&format!("{ROOT}/empty")));

    write_index(&mut world, INDEX, &[]);
    world.link(&format!("{ROOT}/link"), "unindexed");
    assert_eq!(
        restore(&mut world).unwrap_err().full_text(),
        format!("backup scaffold contains a symlink: {ROOT}/link")
    );
    assert!(!world.stands(INDEX));
    assert_eq!(world.kind(&format!("{ROOT}/link")), FileKind::Symlink);
}

#[test]
fn preserves_replaced_backup_index_after_restore() {
    let mut world = World::new();
    backup_fixture(&mut world, &["restored"]);
    world.file(&format!("{ROOT}/restored"), b"backup");
    let mut looks = 0;
    world.hook = Some(Box::new(move |world, request| {
        if let Request::Inspect(path) = request {
            if path == INDEX.as_bytes() {
                looks += 1;
                if looks == 3 {
                    world.rename(INDEX, "/t/original-index");
                    world.file(INDEX, b"other owner");
                }
            }
        }
        None
    }));
    assert_eq!(
        restore(&mut world).unwrap_err().full_text(),
        format!("backup index identity changed: {INDEX}")
    );
    assert_eq!(world.data("/t/home/restored"), b"backup");
    assert_eq!(world.data(INDEX), b"other owner");
    assert!(world.stands("/t/original-index"));
}

// --------------------------------------------------
// Removal
// --------------------------------------------------

fn remove_managed(world: &mut World, path: &str, kind: ManagedRemovalKind) -> Result<(), Failure> {
    world.script(remove_managed_path(path.as_bytes(), &kind))
}

fn exact(target: &str) -> ManagedRemovalKind {
    ManagedRemovalKind::ExactSymlink(bytes(target))
}

#[test]
fn encodes_cleanup_plan_path_bytes() {
    assert_eq!(encode_path(&[b'/', 0xff]), b"2fff");
}

#[test]
fn removes_only_expected_show_cad_status_entry() {
    let mut world = World::new();
    let entry = "/t/home/.local/bin/show-cad-status";
    let target = "/t/data/eiyah/bin/show-cad-status";
    world.link(entry, target);
    remove_managed(&mut world, entry, exact(target)).unwrap();
    assert!(!world.stands(entry));
    remove_managed(&mut world, entry, exact(target)).unwrap();

    world.link(entry, "/t/data/eiyah/bin/other");
    assert!(remove_managed(&mut world, entry, exact(target)).is_err());
    assert_eq!(world.kind(entry), FileKind::Symlink);

    world.link(entry, "relative/target");
    assert_eq!(
        remove_managed(&mut world, entry, exact("relative/target")).unwrap_err().full_text(),
        format!("invalid managed symlink: {entry}")
    );
    assert_eq!(world.kind(entry), FileKind::Symlink);
}

#[test]
fn preserves_replaced_managed_path_during_removal() {
    let mut world = World::new();
    world.file("/t/managed", b"original");
    let mut looks = 0;
    world.hook = Some(Box::new(move |world, request| {
        if matches!(request, Request::Inspect(_)) {
            looks += 1;
            if looks == 2 {
                world.rename("/t/managed", "/t/original");
                world.file("/t/managed", b"other owner");
            }
        }
        None
    }));
    let error = remove_managed(&mut world, "/t/managed", ManagedRemovalKind::RegularFile).unwrap_err();
    assert!(error.full_text().contains("identity changed"));
    assert_eq!(world.data("/t/managed"), b"other owner");
    assert_eq!(world.data("/t/original"), b"original");
}

#[test]
fn rejects_wrong_managed_removal_types() {
    let mut world = World::new();
    world.file("/t/file", b"file");
    world.directories("/t/tree");
    assert!(remove_managed(&mut world, "/t/file", ManagedRemovalKind::Directory).is_err());
    assert!(remove_managed(&mut world, "/t/tree", ManagedRemovalKind::RegularFile).is_err());
    assert_eq!(world.kind("/t/file"), FileKind::Regular);
    assert_eq!(world.kind("/t/tree"), FileKind::Directory);
}

#[test]
fn cleans_only_eiyah_cache_namespace() {
    let mut world = World::new();
    world.file("/t/cache/eiyah/downloads/archive", b"archive");
    world.directories("/t/cache/other");
    remove_managed(&mut world, "/t/cache/eiyah", ManagedRemovalKind::Directory).unwrap();
    assert!(!world.stands("/t/cache/eiyah"));
    assert!(world.stands("/t/cache/other"));
    remove_managed(&mut world, "/t/cache/eiyah", ManagedRemovalKind::Directory).unwrap();

    world.link("/t/cache/eiyah", "/t/cache/other");
    assert!(remove_managed(&mut world, "/t/cache/eiyah", ManagedRemovalKind::Directory).is_err());
    assert_eq!(world.kind("/t/cache/eiyah"), FileKind::Symlink);
}

#[test]
fn preserves_replaced_managed_directory_during_removal() {
    let mut world = World::new();
    world.file("/t/managed/owned", b"owned");
    let mut looks = 0;
    world.hook = Some(Box::new(move |world, request| {
        if matches!(request, Request::Inspect(_)) {
            looks += 1;
            if looks == 2 {
                world.rename("/t/managed", "/t/original");
                world.file("/t/managed/other", b"other owner");
            }
        }
        None
    }));
    let error = remove_managed(&mut world, "/t/managed", ManagedRemovalKind::Directory).unwrap_err();
    assert!(error.full_text().contains("identity changed"));
    assert_eq!(world.data("/t/managed/other"), b"other owner");
    assert_eq!(world.data("/t/original/owned"), b"owned");
}

#[test]
fn unstows_all_managed_packages_in_reverse_order() {
    let mut world = World::new();
    let paths = paths_below("/t");
    world.program("/t/data/eiyah/pixi/bin/stow");
    for package in ["git", "tcsh", "zsh"] {
        world.directories(&format!("/t/home/.dotfiles/{package}"));
    }
    world.hook = Some(Box::new(|world, request| match request {
        Request::Run(program) => {
            world.runs.push(program.copy());
            Some(Reply::Exited {
                success: false,
                status: (if program.arguments[5] == b"zsh" { "signal: 9 (SIGKILL)" } else { "exit status: 1" })
                    .to_owned(),
                output: Vec::new(),
                errors: Vec::new(),
            })
        }
        _ => None,
    }));
    let started = unstow_managed_packages(&paths, b"/t/home");
    let done = drive(&mut world, started, Unlinking::request, Unlinking::advance);
    match done.phase {
        UnlinkPhase::Failed(failure) => assert_eq!(
            failure.full_text(),
            "failed to unstow managed packages: zsh: signal: 9 (SIGKILL); tcsh: exit status: 1; git: exit status: 1"
        ),
        other => panic!("{other:?}"),
    }
    let visited: Vec<Vec<u8>> = world.runs.iter().map(|run| run.arguments[5].clone()).collect();
    assert_eq!(visited, ["zsh", "tcsh", "git"].map(bytes));
    let first = &world.runs[0];
    assert_eq!(first.executable, b"/t/data/eiyah/pixi/bin/stow");
    assert_eq!(first.directory.as_deref(), Some(&b"/t/home/.dotfiles"[..]));
    assert_eq!(
        first.arguments[..5],
        ["--delete", "--target", "/t/home", "--dir", "/t/home/.dotfiles"].map(bytes)
    );
    assert!(world.stands("/t/home/.dotfiles"));

    world.remove("/t/data/eiyah/pixi/bin/stow");
    let runs = world.runs.len();
    let started = unstow_managed_packages(&paths, b"/t/home");
    let done = drive(&mut world, started, Unlinking::request, Unlinking::advance);
    assert!(matches!(done.phase, UnlinkPhase::Failed(_)));
    assert_eq!(world.runs.len(), runs);
}

fn uninstall_fixture(world: &mut World) {
    let paths = paths_below("/t");
    installed_fixture(world, &paths, "/t/home");
    world.program("/t/data/eiyah/bin/show-cad-status");
    world.link("/t/home/.local/bin/show-cad-status", "/t/data/eiyah/bin/show-cad-status");
    world.file("/t/config/eiyah/config.toml", b"show-cad-status = true\n");
    world.directories("/t/home/.dotfiles/tcsh");
    world.program("/t/data/eiyah/pixi/bin/stow");
    backup_fixture(world, &[".cshrc"]);
    world.file(&format!("{ROOT}/.cshrc"), b"restored");
    world.file("/t/cache/eiyah/downloads/archive", b"cache");
    world.file("/t/state/eiyah/lock", b"");
    world.shown.clear();
}

fn removal_preflight(world: &mut World, home: &str) -> Result<(), Failure> {
    let paths = paths_below("/t");
    let started = preflight_survey(&paths, home.as_bytes());
    let seen = drive(world, started, Survey::request, Survey::advance);
    check_seen_preflight(&paths, home.as_bytes(), seen)
}

/// Removes the installation below `/t`.
fn uninstall(world: &mut World, plan: &str) -> Result<(), Failure> {
    let mut withdrawal = run_uninstall_from_home(b"/t/home", plan.as_bytes());
    for _ in 0..10_000 {
        match withdrawal.stage {
            WithdrawalStage::Completed => return Ok(()),
            WithdrawalStage::Failed(failure) => return Err(failure),
            _ => {}
        }
        let reply = world.perform(withdrawal.request());
        withdrawal = withdrawal.advance(reply);
    }
    panic!("the removal does not end")
}

#[test]
fn validates_uninstall_preflight_without_modification() {
    let mut world = World::new();
    world.directories("/t/home/.dotfiles/tcsh");
    world.program("/t/data/eiyah/pixi/bin/stow");
    assert!(removal_preflight(&mut world, "/t/home").is_ok());

    world.link("/t/state/eiyah/backup", "/t/elsewhere");
    assert_eq!(
        removal_preflight(&mut world, "/t/home").unwrap_err().full_text(),
        "backup directory must be a non-symlink directory: /t/state/eiyah/backup"
    );
    assert_eq!(
        removal_preflight(&mut world, "home").unwrap_err().full_text(),
        "HOME must be an absolute non-empty path"
    );
    assert!(world.asked.iter().all(|request| matches!(request, Request::Inspect(_))));
}

#[test]
fn uninstalls_managed_environment_and_preserves_final_cleanup_targets() {
    let mut world = World::new();
    uninstall_fixture(&mut world);
    uninstall(&mut world, "/t/uninstall-cleanup-plan").unwrap();
    assert_eq!(
        world.shown,
        "\n==> Unlinking configuration files\n\n==> Removing show-cad-status\n/t/home/.local/bin/show-cad-status\n\n==> Removing Eiyah configuration\n/t/config/eiyah/config.toml\n/t/home/.dotfiles\n\n==> Removing Pixi environment\n/t/data/eiyah/pixi\n\n==> Restoring previous configuration\n/t/home/.cshrc\n"
    );
    assert_eq!(world.data("/t/home/.cshrc"), b"restored");
    assert_eq!(world.kind("/t/data/eiyah/bin/eiyah"), FileKind::Regular);
    assert_eq!(world.kind("/t/home/.local/bin/eiyah"), FileKind::Symlink);
    assert_eq!(world.kind("/t/state/eiyah"), FileKind::Directory);
    assert_eq!(world.kind("/t/state/eiyah/lock"), FileKind::Regular);
    assert!(!world.stands("/t/cache/eiyah"));
    let mut expected = Vec::new();
    for (key, path) in [
        ("eiyah-binary=", "/t/data/eiyah/bin/eiyah"),
        ("eiyah-entry=", "/t/home/.local/bin/eiyah"),
        ("state-root=", "/t/state/eiyah"),
        ("lock=", "/t/state/eiyah/lock"),
    ] {
        expected.extend_from_slice(key.as_bytes());
        expected.extend_from_slice(&encode_path(path.as_bytes()));
        expected.push(b'\n');
    }
    assert_eq!(world.data("/t/uninstall-cleanup-plan"), expected);
    assert_eq!(world.mode("/t/uninstall-cleanup-plan"), 0o600);
}

#[test]
fn removes_managed_content_in_eiyah_namespaces() {
    let mut world = World::new();
    uninstall_fixture(&mut world);
    world.directories("/t/home/.ssh");
    uninstall(&mut world, "/t/plan").unwrap();
    for path in [
        "/t/data/eiyah/bin/show-cad-status",
        "/t/config/eiyah/config.toml",
        "/t/home/.dotfiles",
        "/t/data/eiyah/pixi",
        "/t/data/eiyah/install.toml",
    ] {
        assert!(!world.stands(path), "{path}");
    }
    assert!(world.stands("/t/data/eiyah/bin/eiyah"));
    assert!(world.stands("/t/data/eiyah"));
    assert!(world.stands("/t/state/eiyah/backup"));
    assert!(world.stands("/t/home/.ssh"));
}

#[test]
fn preserves_cache_when_uninstall_validation_fails() {
    let mut world = World::new();
    uninstall_fixture(&mut world);
    world.remove("/t/data/eiyah/bin/eiyah");
    assert!(uninstall(&mut world, "/t/uninstall-cleanup-plan").is_err());
    assert_eq!(world.kind("/t/cache/eiyah/downloads/archive"), FileKind::Regular);
    assert_eq!(world.data("/t/home/.cshrc"), b"restored");
    assert_eq!(world.kind("/t/state/eiyah/lock"), FileKind::Regular);
}

#[test]
fn rejects_invalid_cleanup_plan_before_uninstall() {
    let mut world = World::new();
    uninstall_fixture(&mut world);
    world.file("/t/existing-plan", b"other owner");
    assert!(uninstall(&mut world, "relative-plan").is_err());
    assert!(uninstall(&mut world, "/t/existing-plan").is_err());
    assert!(uninstall(&mut world, "/").is_err());
    assert_eq!(world.data("/t/existing-plan"), b"other owner");
    assert_eq!(world.kind("/t/home/.dotfiles"), FileKind::Directory);
    assert_eq!(world.kind("/t/data/eiyah/pixi"), FileKind::Directory);
}

#[test]
fn the_removal_takes_the_lock_before_anything_else() {
    let mut world = World::new();
    uninstall_fixture(&mut world);
    world.asked.clear();
    uninstall(&mut world, "/t/plan").unwrap();
    let lock = world.asked.iter().position(|request| matches!(request, Request::Lock(_))).unwrap();
    assert!(world.asked[..lock]
        .iter()
        .all(|request| matches!(request, Request::ReadLink(_) | Request::ReadMetadata(_))));
    assert!(matches!(&world.asked[lock + 1], Request::Inspect(path) if path.ends_with(b".dotfiles")));
}

#[test]
fn a_removal_that_may_not_begin_removes_nothing() {
    let mut world = World::new();
    uninstall_fixture(&mut world);
    world.remove("/t/data/eiyah/pixi/bin/stow");
    let before: Vec<Vec<u8>> = world.nodes.keys().cloned().collect();
    assert!(uninstall(&mut world, "/t/plan").is_err());
    assert_eq!(world.nodes.keys().cloned().collect::<Vec<Vec<u8>>>(), before);

    world.hook = Some(Box::new(|_, request| match request {
        Request::Lock(_) => Some(failed(fault(FaultKind::Other, "another operation is running"))),
        _ => None,
    }));
    assert_eq!(
        uninstall(&mut world, "/t/plan").unwrap_err().full_text(),
        "another operation is running"
    );
    assert_eq!(world.nodes.keys().cloned().collect::<Vec<Vec<u8>>>(), before);
}

#[test]
fn a_survey_asks_for_each_place_once() {
    let mut world = World::new();
    uninstall_fixture(&mut world);
    world.asked.clear();
    let started = preflight_survey(&paths_below("/t"), b"/t/home");
    let seen = drive(&mut world, started, Survey::request, Survey::advance);
    assert_eq!(world.asked.len(), 5);
    assert_eq!(seen.replies.len(), 5);
    let again = seen.advance(Reply::Done);
    assert_eq!(again.replies.len(), 5);
    assert!(check_seen_preflight(
        &paths_below("/t"),
        b"/t/home",
        preflight_survey(&paths_below("/t"), b"/t/home")
    )
    .is_err());
}

// --------------------------------------------------
// The state of an installation
// --------------------------------------------------

fn installed_fixture(world: &mut World, paths: &ResolvedPaths, home: &str) {
    let prefix = String::from_utf8(paths.eiyah_prefix.clone()).unwrap();
    world.program(&format!("{prefix}/bin/eiyah"));
    world.link(&format!("{home}/.local/bin/eiyah"), &format!("{prefix}/bin/eiyah"));
    let save = save_install_metadata(paths, 7, 1).unwrap();
    world.save(save).unwrap();
}

fn state(world: &mut World, paths: &ResolvedPaths, entry: &str) -> InstallState {
    let started = state_survey(paths, entry.as_bytes());
    let seen = drive(world, started, Survey::request, Survey::advance);
    detect_seen_state(paths, entry.as_bytes(), seen).unwrap()
}

#[test]
fn install_detects_not_installed_state() {
    let mut world = World::new();
    let paths = paths_below("/t");
    assert_eq!(state(&mut world, &paths, "/t/home/.local/bin/eiyah"), InstallState::NotInstalled);
}

#[test]
fn install_detects_installed_state() {
    let mut world = World::new();
    let paths = paths_below("/t");
    installed_fixture(&mut world, &paths, "/t/home");
    assert_eq!(state(&mut world, &paths, "/t/home/.local/bin/eiyah"), InstallState::Installed);
}

#[test]
fn install_detects_partial_state() {
    let mut world = World::new();
    let paths = paths_below("/t");
    world.file("/t/data/eiyah/install.toml", b"invalid");
    assert_eq!(state(&mut world, &paths, "/t/missing-entry"), InstallState::Partial);
}

#[test]
fn install_detects_non_regular_metadata_as_partial() {
    let mut world = World::new();
    let paths = paths_below("/t");
    installed_fixture(&mut world, &paths, "/t/home");
    world.rename("/t/data/eiyah/install.toml", "/t/moved.toml");
    world.link("/t/data/eiyah/install.toml", "/t/moved.toml");
    assert_eq!(state(&mut world, &paths, "/t/home/.local/bin/eiyah"), InstallState::Partial);
    world.remove("/t/data/eiyah/install.toml");
    world.directories("/t/data/eiyah/install.toml");
    assert_eq!(state(&mut world, &paths, "/t/home/.local/bin/eiyah"), InstallState::Partial);
}

#[test]
fn install_detects_invalid_public_symlinks_as_partial() {
    for target in ["/t/data/eiyah/bin/other", "relative/bin/eiyah"] {
        let mut world = World::new();
        let paths = paths_below("/t");
        installed_fixture(&mut world, &paths, "/t/home");
        world.link("/t/home/.local/bin/eiyah", target);
        assert_eq!(state(&mut world, &paths, "/t/home/.local/bin/eiyah"), InstallState::Partial);
    }
}

#[test]
fn install_detects_invalid_or_mismatched_metadata_as_partial() {
    let mut world = World::new();
    let paths = paths_below("/t");
    installed_fixture(&mut world, &paths, "/t/home");
    world.file("/t/data/eiyah/install.toml", b"invalid");
    assert_eq!(state(&mut world, &paths, "/t/home/.local/bin/eiyah"), InstallState::Partial);
    world.file(
        "/t/data/eiyah/install.toml",
        b"config-home = \"/o\"\ndata-home = \"/other\"\nstate-home = \"/o\"\ncache-home = \"/o\"\n",
    );
    assert_eq!(state(&mut world, &paths, "/t/home/.local/bin/eiyah"), InstallState::Partial);
}

fn environment(root: &str) -> eiyah::config::Environment {
    eiyah::config::Environment {
        home: Some(bytes("/t/home")),
        config_home: Some(bytes(&format!("{root}/config"))),
        data_home: Some(bytes(&format!("{root}/data"))),
        state_home: Some(bytes(&format!("{root}/state"))),
        cache_home: Some(bytes(&format!("{root}/cache"))),
    }
}

fn resolve(world: &mut World, root: &str) -> Result<ResolvedPaths, Failure> {
    let started = resolve_install_paths(b"/t/home", environment(root));
    match drive(world, started, PathSearch::request, PathSearch::advance) {
        PathSearch::Found(paths) => Ok(paths),
        PathSearch::Failed(failure) => Err(failure),
        other => panic!("{other:?}"),
    }
}

#[test]
fn routes_installed_operation_with_metadata_paths_after_xdg_change() {
    let mut world = World::new();
    let installed = paths_below("/t/installed");
    installed_fixture(&mut world, &installed, "/t/home");
    let selected = resolve(&mut world, "/t/changed-xdg").unwrap();
    assert!(selected.same_as(&installed));
    let found = state(&mut world, &selected, "/t/home/.local/bin/eiyah");
    assert_eq!(found, InstallState::Installed);
    assert!(matches!(route_install_state(found).locked(Ok(())), InstallRoute::Updating));
}

#[test]
fn resolves_environment_paths_only_for_initial_install() {
    let mut world = World::new();
    world.directories("/t/home");
    let selected = resolve(&mut world, "/t/environment").unwrap();
    assert!(selected.same_as(&paths_below("/t/environment")));
    assert_eq!(
        state(&mut world, &selected, "/t/home/.local/bin/eiyah"),
        InstallState::NotInstalled
    );
}

#[test]
fn rejects_invalid_existing_public_entry_as_partial_install() {
    let mut world = World::new();
    world.file("/t/home/.local/bin/eiyah", b"not a symlink");
    assert_eq!(
        resolve(&mut world, "/t/environment").unwrap_err().full_text(),
        "existing Eiyah installation is incomplete: Eiyah command link is missing or invalid: /t/home/.local/bin/eiyah"
    );
}

#[test]
fn routes_install_state_inside_existing_lock() {
    let route = route_install_state(InstallState::Installed);
    assert!(matches!(route, InstallRoute::Locking { .. }));
    assert!(matches!(route.locked(Ok(())), InstallRoute::Updating));

    for (locked_state, installs) in
        [(InstallState::NotInstalled, true), (InstallState::Installed, false)]
    {
        let route = route_install_state(InstallState::NotInstalled);
        assert!(matches!(route, InstallRoute::Locking { .. }));
        let route = route.locked(Ok(()));
        assert!(matches!(route, InstallRoute::Detecting));
        let route = route.detected(Ok(locked_state));
        assert_eq!(matches!(route, InstallRoute::Installing), installs);
        assert_eq!(matches!(route, InstallRoute::Updating), !installs);
    }

    let route = route_install_state(InstallState::NotInstalled).locked(Ok(()));
    assert!(matches!(route.detected(Ok(InstallState::Partial)), InstallRoute::Failed(_)));
    assert!(matches!(route_install_state(InstallState::Partial), InstallRoute::Failed(_)));
}

/// A host that everything can be installed on.
fn good_host() -> World {
    let mut world = World::new();
    for path in ["/t/home", "/t/config", "/t/data", "/t/state", "/t/cache"] {
        world.directories(path);
    }
    world.file("/etc/os-release", b"ID=almalinux\nVERSION_ID=8.10\nPRETTY_NAME=\"AlmaLinux 8.10\"\n");
    world.program(BASH_PATH);
    world.program(TAR_PATH);
    world.program("/t/running");
    world.file("/t/tmp/core/pixi/pixi-global.toml", b"version = 1\n");
    world.file("/t/tmp/core/dotfiles/tcsh/.cshrc", b"cshrc");
    world.directories("/t/tmp/core/dotfiles/git/.config/git");
    world.pages.insert(PIXI_INSTALLER_URL.to_owned(), b"#!/usr/bin/bash\n".to_vec());
    world.pages.insert(format!("{ASSETS}/101"), b"abc".to_vec());
    put_checksum(&mut world, &format!("{ABC}  {SHOW_CAD_STATUS_ASSET_NAME}\n"));
    world.hook = Some(Box::new(|world, request| run_program(world, request)));
    world
}

/// What the programs of a good host do.
fn run_program(world: &mut World, request: &Request) -> Option<Reply> {
    let program = match request {
        Request::Run(program) | Request::Capture(program) | Request::Feed { program, .. } => program,
        _ => return None,
    };
    world.runs.push(program.copy());
    let name = String::from_utf8(program.executable.clone()).unwrap();
    let argument = |position: usize| {
        program.arguments.get(position).map(|text| String::from_utf8_lossy(text).into_owned())
    };
    let first = argument(0).unwrap_or_default();
    Some(match (name.rsplit('/').next().unwrap(), first.as_str()) {
        ("getconf", _) => ended(true, b"glibc 2.28\n"),
        ("uname", "-r") => ended(true, b"4.18.0\n"),
        ("uname", _) => ended(true, b"x86_64\n"),
        ("curl", _) => ended(true, b"curl 7.61.1 (x86_64)\nProtocols: https\n"),
        ("ssh", _) => ended(true, b""),
        ("ssh-keygen", "-t") => {
            world.file(&ssh_file("id_ed25519"), b"private");
            world.file(&ssh_file("id_ed25519.pub"), b"ssh-ed25519 AAAA generated\n");
            ended(true, b"")
        }
        ("ssh-keygen", _) => ended(false, b""),
        ("tar", "-tvzf") => ended(true, LISTING.as_bytes()),
        ("tar", _) => {
            let target = program.arguments.iter().find(|text| text.ends_with(b"/core")).unwrap();
            let target = String::from_utf8(target.clone()).unwrap();
            world.file(&format!("{target}/pixi/pixi-global.toml"), b"version = 1\n");
            world.file(&format!("{target}/dotfiles/tcsh/.cshrc"), b"cshrc");
            world.directories(&format!("{target}/dotfiles/git/.config/git"));
            ended(true, b"")
        }
        ("bash", "--version") => ended(true, b"GNU bash, version 4.4.20\n"),
        ("bash", _) => {
            world.program(&format!("{PIXI}/bin/pixi"));
            ended(true, b"")
        }
        ("pixi", "global") => {
            world.program(&format!("{PIXI}/bin/stow"));
            world.program(&format!("{PIXI}/bin/zsh"));
            ended(true, b"")
        }
        ("pixi", _) => ended(true, b"pixi 0.50.0\n"),
        ("zsh", _) => ended(true, b"zsh 5.9\n"),
        ("git", _) => ended(true, b"tester\n"),
        ("stow", "--delete") => {
            if argument(5).as_deref() == Some("tcsh") {
                world.remove("/t/home/.cshrc");
            }
            ended(true, b"")
        }
        ("stow", _) => {
            if argument(4).as_deref() == Some("tcsh") {
                world.link("/t/home/.cshrc", ".dotfiles/tcsh/.cshrc");
            }
            ended(true, b"")
        }
        (other, _) => panic!("nothing runs {other}"),
    })
}

/// Lets requests come back with this instead.
fn answer_first(world: &mut World, mut answer: impl FnMut(&mut World, &Request) -> Option<Reply> + 'static) {
    world.hook = Some(Box::new(move |world, request| match answer(world, request) {
        Some(reply) => Some(reply),
        None => run_program(world, request),
    }));
}

fn arrive(world: &mut World, version: &str) -> ArrivalStage {
    let started = run_install(b"/t/home", environment("/t"), "x86_64".to_owned());
    drive(world, started, Arrival::request, |arrival, reply| arrival.advance(version, reply)).stage
}

#[test]
fn displays_existing_install_before_update() {
    let mut world = good_host();
    installed_fixture(&mut world, &paths_below("/t"), "/t/home");
    world.shown.clear();
    answer_first(&mut world, |_, request| match request {
        Request::FetchRelease => Some(Reply::Release(public_release("1.0.0"))),
        _ => None,
    });
    assert!(matches!(arrive(&mut world, "1.0.0"), ArrivalStage::Completed));
    assert_eq!(
        world.shown,
        "\n==> Eiyah is already installed\n\n==> Checking for Eiyah updates\nCurrent: 1.0.0\nLatest:  1.0.0\n\nEiyah is already up to date.\n"
    );
}

#[test]
fn a_release_that_is_not_known_ends_the_update() {
    for (kind, message) in [
        (FaultKind::Other, "failed to fetch latest Eiyah release: trouble"),
        (FaultKind::InvalidData, "failed to parse latest Eiyah release response: trouble"),
    ] {
        let mut world = good_host();
        installed_fixture(&mut world, &paths_below("/t"), "/t/home");
        answer_first(&mut world, move |_, request| match request {
            Request::FetchRelease => Some(failed(fault(kind, "trouble"))),
            _ => None,
        });
        match arrive(&mut world, "1.0.0") {
            ArrivalStage::Failed(error) => assert_eq!(error.message, message),
            other => panic!("{other:?}"),
        }
    }
}

#[test]
fn a_first_installation_is_let_in_under_the_lock() {
    let mut world = good_host();
    match arrive(&mut world, "1.0.0") {
        ArrivalStage::Ready(paths) => assert!(paths.same_as(&paths_below("/t"))),
        other => panic!("{other:?}"),
    }
    let lock = world.asked.iter().position(|request| matches!(request, Request::Lock(_))).unwrap();
    let looks = |requests: &[Request]| {
        requests
            .iter()
            .filter(|request| {
                matches!(request, Request::Inspect(path) if path.as_slice() == BINARY.as_bytes())
            })
            .count()
    };
    assert_eq!(looks(&world.asked[..lock]), 1);
    assert_eq!(looks(&world.asked[lock..]), 1);
}

#[test]
fn an_installation_that_appears_before_the_lock_is_updated() {
    let mut world = good_host();
    answer_first(&mut world, |world, request| match request {
        Request::Lock(_) => {
            installed_fixture(world, &paths_below("/t"), "/t/home");
            Some(Reply::Done)
        }
        Request::FetchRelease => Some(Reply::Release(public_release("1.0.0"))),
        _ => None,
    });
    assert!(matches!(arrive(&mut world, "1.0.0"), ArrivalStage::Completed));
    assert!(world.shown.contains("Eiyah is already installed"));
}

#[test]
fn an_incomplete_installation_is_not_touched() {
    let mut world = good_host();
    world.program(BINARY);
    match arrive(&mut world, "1.0.0") {
        ArrivalStage::Failed(error) => assert_eq!(
            error.message,
            "existing Eiyah installation is incomplete: required files are missing or invalid"
        ),
        other => panic!("{other:?}"),
    }
    assert!(asks_for_no_lock(&world));
}

#[test]
fn a_host_that_is_not_supported_is_turned_away() {
    let mut world = good_host();
    world.file("/etc/os-release", b"ID=debian\nVERSION_ID=12\n");
    match arrive(&mut world, "1.0.0") {
        ArrivalStage::Failed(error) => assert_eq!(error.message, "Eiyah requires AlmaLinux 8.x"),
        other => panic!("{other:?}"),
    }
    let mut world = good_host();
    answer_first(&mut world, |_, request| match request {
        Request::Lock(_) => Some(failed(fault(FaultKind::Other, "another operation is running"))),
        _ => None,
    });
    match arrive(&mut world, "1.0.0") {
        ArrivalStage::Failed(error) => assert_eq!(error.message, "another operation is running"),
        other => panic!("{other:?}"),
    }
}

fn look_up(world: &mut World, home: &str) -> Result<ResolvedPaths, Failure> {
    drive(world, load_installed_paths(home.as_bytes()), Lookup::request, Lookup::advance)
        .outcome()
        .unwrap()
}

#[test]
fn loads_uninstall_paths_from_installed_metadata() {
    let mut world = World::new();
    let paths = paths_below("/t/installed");
    installed_fixture(&mut world, &paths, "/t/home");
    assert!(look_up(&mut world, "/t/home").unwrap().same_as(&paths));
    assert!(look_up(&mut world, "/t/nowhere").is_err());
}

// --------------------------------------------------
// Files
// --------------------------------------------------

#[test]
fn atomic_save_creates_and_replaces_regular_files_with_mode_0600() {
    let mut world = World::new();
    world.directories("/t");
    for (value, sequence) in [(true, 1), (false, 2)] {
        let save = save_config(b"/t/config.toml", &Config { show_cad_status: value }, 7, sequence);
        world.save(save.unwrap()).unwrap();
        assert_eq!(world.mode("/t/config.toml"), 0o600);
        assert_eq!(world.data("/t/config.toml"), format!("show-cad-status = {value}\n").as_bytes());
    }
    assert_eq!(world.names(b"/t"), vec![bytes("config.toml")]);
}

#[test]
fn atomic_save_rejects_symlinks_directories_and_missing_parents() {
    let mut world = World::new();
    world.directories("/t/directory");
    world.file("/t/real", b"real");
    world.link("/t/link", "/t/real");
    assert!(world.save(atomic_save(b"/t/link", b"new", 7, 1)).is_err());
    assert!(world.save(atomic_save(b"/t/directory", b"new", 7, 2)).is_err());
    assert!(world.save(atomic_save(b"/t/missing/file", b"new", 7, 3)).is_err());
    assert_eq!(world.data("/t/real"), b"real");
    assert_eq!(world.kind("/t/directory"), FileKind::Directory);
}

#[test]
fn taken_temporary_names_are_passed_over() {
    let mut world = World::new();
    world.file("/t/.config.toml.tmp-7-1", b"other");
    let save = atomic_save(b"/t/config.toml", b"new", 7, 1);
    world.save(save).unwrap();
    assert_eq!(world.data("/t/config.toml"), b"new");
}

#[test]
fn install_metadata_saves_only_the_four_home_paths() {
    let mut world = World::new();
    world.directories("/t/data/eiyah");
    let paths = paths_below("/t");
    let save = save_install_metadata(&paths, 7, 1).unwrap();
    world.save(save).unwrap();
    let text = String::from_utf8(world.data("/t/data/eiyah/install.toml")).unwrap();
    assert_eq!(
        text,
        "config-home = \"/t/config\"\ndata-home = \"/t/data\"\nstate-home = \"/t/state\"\ncache-home = \"/t/cache\"\n"
    );
}

#[test]
fn creates_initial_install_metadata_without_replacement() {
    let mut world = World::new();
    world.directories("/t/data/eiyah");
    let paths = paths_below("/t");
    world.save(create_install_metadata(&paths, 7, 1).unwrap()).unwrap();
    assert_eq!(world.mode("/t/data/eiyah/install.toml"), 0o600);
    let before = world.data("/t/data/eiyah/install.toml");
    assert!(world.save(create_install_metadata(&paths, 7, 2).unwrap()).is_err());
    assert_eq!(world.data("/t/data/eiyah/install.toml"), before);
}

#[test]
fn preserves_install_metadata_created_during_commit_race() {
    let mut world = World::new();
    world.directories("/t/data/eiyah");
    world.hook = Some(Box::new(|world, request| {
        if matches!(request, Request::Link { .. } | Request::RenameNoReplace { .. }) {
            world.file("/t/data/eiyah/install.toml", b"concurrent");
        }
        None
    }));
    assert!(world.save(create_install_metadata(&paths_below("/t"), 7, 1).unwrap()).is_err());
    assert_eq!(world.data("/t/data/eiyah/install.toml"), b"concurrent");
    assert_eq!(world.names(b"/t/data/eiyah"), vec![bytes("install.toml")]);
}

#[test]
fn creates_initial_config_without_replacement() {
    let mut world = World::new();
    world.directories("/t/config/eiyah");
    let paths = paths_below("/t");
    world.save(create_initial_config(&paths, 7, 1).unwrap()).unwrap();
    assert_eq!(world.data("/t/config/eiyah/config.toml"), b"show-cad-status = true\n");
    assert_eq!(world.mode("/t/config/eiyah/config.toml"), 0o600);
    world.file("/t/config/eiyah/config.toml", b"existing");
    assert!(world.save(create_initial_config(&paths, 7, 2).unwrap()).is_err());
    assert_eq!(world.data("/t/config/eiyah/config.toml"), b"existing");
}

#[test]
fn preserves_initial_config_created_during_race() {
    let mut world = World::new();
    world.directories("/t/config/eiyah");
    world.hook = Some(Box::new(|world, request| {
        if matches!(request, Request::Link { .. } | Request::RenameNoReplace { .. }) {
            world.file("/t/config/eiyah/config.toml", b"concurrent");
        }
        None
    }));
    let save = create_initial_file(b"/t/config/eiyah/config.toml", b"ours", 7, 1);
    assert!(world.save(save).is_err());
    assert_eq!(world.data("/t/config/eiyah/config.toml"), b"concurrent");
}

#[test]
fn updates_show_cad_status_through_installed_metadata_and_lock() {
    let mut world = World::new();
    let paths = paths_below("/t");
    world.file("/t/config/eiyah/config.toml", b"show-cad-status = true\n");
    let change = set_show_cad_status(&paths, false);
    let done = drive(&mut world, change, ConfigChange::request, ConfigChange::advance);
    done.outcome().unwrap().unwrap();
    assert_eq!(world.data("/t/config/eiyah/config.toml"), b"show-cad-status = false\n");
    assert!(matches!(&world.asked[0], Request::Lock(path) if *path == b"/t/state"));
}

#[test]
fn hides_config_save_implementation_details() {
    let mut world = World::new();
    let paths = paths_below("/t");
    world.file("/t/config/eiyah/config.toml", b"show-cad-status = true\n");
    world.hook = Some(Box::new(|_, request| match request {
        Request::SaveFile { .. } => Some(failed(fault(FaultKind::Other, "temporary trouble"))),
        _ => None,
    }));
    let change = set_show_cad_status(&paths, false);
    let done = drive(&mut world, change, ConfigChange::request, ConfigChange::advance);
    let words = done.outcome().unwrap().unwrap_err().full_text();
    assert!(!words.contains("temporary trouble"));
    assert!(words.contains("/t/config/eiyah/config.toml"));
}

// --------------------------------------------------
// Directories
// --------------------------------------------------

fn make_managed(world: &mut World, path: &str) -> ManagedDirectories {
    drive(
        world,
        create_install_directories(path.as_bytes()),
        ManagedDirectories::request,
        ManagedDirectories::advance,
    )
}

#[test]
fn install_creates_and_reuses_install_directories() {
    let mut world = World::new();
    world.directories("/t");
    let made = make_managed(&mut world, "/t/one/two");
    made.outcome().unwrap().unwrap();
    assert_eq!(made.created(), vec![bytes("/t/one"), bytes("/t/one/two")]);
    assert_eq!(world.mode("/t/one/two"), 0o755);
    world.nodes.get_mut(&b"/t/one/two"[..]).unwrap().mode = 0o750;
    let again = make_managed(&mut world, "/t/one/two");
    again.outcome().unwrap().unwrap();
    assert!(again.created().is_empty());
    assert_eq!(world.mode("/t/one/two"), 0o750);
}

#[test]
fn install_rejects_invalid_install_directory_paths() {
    let mut world = World::new();
    world.file("/t/file", b"file");
    world.link("/t/link", "/t");
    assert!(make_managed(&mut world, "/t/file").outcome().unwrap().is_err());
    assert!(make_managed(&mut world, "/t/link").outcome().unwrap().is_err());
    assert_eq!(world.data("/t/file"), b"file");
}

#[test]
fn directories_are_removed_again_when_one_cannot_be_made() {
    let mut world = World::new();
    world.directories("/t");
    world.hook = Some(Box::new(|_, request| match request {
        Request::MakeDirectory { path, .. } if path.as_slice() == b"/t/one/two/three" => {
            Some(failed(fault(FaultKind::Other, "No space left on device (os error 28)")))
        }
        _ => None,
    }));
    let made = make_managed(&mut world, "/t/one/two/three");
    assert!(made.outcome().unwrap().is_err());
    assert!(!world.stands("/t/one"));
}

// --------------------------------------------------
// What is shown of the keys
// --------------------------------------------------

#[test]
fn displays_ssh_setup_variants() {
    let cases = [
        (
            SshSetupResult::ExistingAuthorized,
            "Using existing SSH key: /home/tester/.ssh/id_ed25519\nSSH key is already authorized.\n",
        ),
        (
            SshSetupResult::CreatedPublic { authorization_added: true },
            "Using existing SSH key: /home/tester/.ssh/id_ed25519\nCreated: /home/tester/.ssh/id_ed25519.pub\nAdded SSH key to: /home/tester/.ssh/authorized_keys\n",
        ),
        (
            SshSetupResult::CreatedPublic { authorization_added: false },
            "Using existing SSH key: /home/tester/.ssh/id_ed25519\nCreated: /home/tester/.ssh/id_ed25519.pub\nSSH key is already authorized.\n",
        ),
        (
            SshSetupResult::Generated { authorization_added: true },
            "Generated ED25519 SSH key: /home/tester/.ssh/id_ed25519\nAdded SSH key to: /home/tester/.ssh/authorized_keys\n",
        ),
        (
            SshSetupResult::Generated { authorization_added: false },
            "Generated ED25519 SSH key: /home/tester/.ssh/id_ed25519\nSSH key is already authorized.\n",
        ),
        (
            SshSetupResult::ExistingAuthorizedAdded,
            "Using existing SSH key: /home/tester/.ssh/id_ed25519\nAdded SSH key to: /home/tester/.ssh/authorized_keys\n",
        ),
    ];
    for (result, expected) in cases {
        assert_eq!(write_ssh_setup(b"/home/tester", result), expected);
    }
}

#[test]
fn reports_ssh_residual_state_after_output_failure() {
    let output_failed = UserFacingError::from_failure(&Failure::plain("output failed"));
    let error = add_ssh_residual_warning(
        Err(output_failed),
        SshSetupResult::Generated { authorization_added: true },
    )
    .unwrap_err();
    assert_eq!(
        write_error_report(&error, false),
        "Error: output failed\nWarning: SSH changes made during setup were not reverted.\n"
    );
    let unchanged = add_ssh_residual_warning(
        Err(UserFacingError::from_failure(&Failure::plain("output failed"))),
        SshSetupResult::ExistingAuthorized,
    )
    .unwrap_err();
    assert_eq!(write_error_report(&unchanged, false), "Error: output failed\n");
}

/// The way to the installation, with a key of the user that was set up like this.
fn reporting(ssh: SshSetupResult) -> InstallFlow {
    let mut flow = install_not_installed_flow(b"/t/home");
    while !matches!(flow.phase, FlowPhase::Reporting { .. }) {
        let reply = match flow.next_act() {
            Some(FlowAct::Release) => FlowReply::Released(private_info()),
            Some(FlowAct::Ssh) => FlowReply::Ready(ssh),
            Some(_) => FlowReply::Done,
            None => panic!("the way has ended"),
        };
        flow = flow.advance(reply);
    }
    flow
}

#[test]
fn a_report_that_cannot_be_shown_tells_what_stays() {
    let cases = [
        (
            SshSetupResult::Generated { authorization_added: true },
            "Error: output failed\nWarning: SSH changes made during setup were not reverted.\n",
        ),
        (SshSetupResult::ExistingAuthorized, "Error: output failed\n"),
    ];
    for (ssh, report) in cases {
        let flow = reporting(ssh);
        assert!(matches!(flow.next_act(), Some(FlowAct::Report(_))));
        let output_failed = UserFacingError::from_failure(&Failure::plain("output failed"));
        match flow.advance(FlowReply::Failed(output_failed)).phase {
            FlowPhase::Failed(error) => assert_eq!(write_error_report(&error, false), report),
            other => panic!("{other:?}"),
        }
    }
}

// --------------------------------------------------
// Keys
// --------------------------------------------------

const SSH: &str = "/t/home/.ssh";

fn setup_ssh(world: &mut World, user: Option<&[u8]>) -> Result<SshSetupResult, Failure> {
    let started = bootstrap_ssh(b"/t/home", user.map(|name| name.to_vec()), 7, 1);
    match drive(world, started, SshSetup::request, SshSetup::advance).phase {
        SshPhase::Completed(result) => Ok(result),
        SshPhase::Failed(failure) => Err(failure),
        other => panic!("{other:?}"),
    }
}

/// Lets every program answer with this output.
fn programs_print(world: &mut World, output: &'static [u8]) {
    world.hook = Some(Box::new(move |world, request| match request {
        Request::Run(program) | Request::Capture(program) => {
            world.runs.push(program.copy());
            Some(ended(true, output))
        }
        _ => None,
    }));
}

fn ssh_file(name: &str) -> String {
    format!("{SSH}/{name}")
}

#[test]
fn install_reuses_matching_ssh_key_pair() {
    let mut world = World::new();
    world.file(&ssh_file("id_ed25519"), b"private");
    world.file(&ssh_file("id_ed25519.pub"), b"ssh-ed25519 AAAA existing-comment\n");
    let authorized = b"  ssh-ed25519   AAAA other-comment  \n";
    world.file(&ssh_file("authorized_keys"), authorized);
    programs_print(&mut world, b"ssh-ed25519 AAAA derived\n");
    let result = setup_ssh(&mut world, Some(b"user")).unwrap();
    assert!(matches!(result, SshSetupResult::ExistingAuthorized));
    assert!(!result.changed());
    assert_eq!(world.runs[0].arguments, ["-y", "-f", "/t/home/.ssh/id_ed25519"].map(bytes));
    assert_eq!(world.data(&ssh_file("authorized_keys")), authorized);
}

#[test]
fn install_derives_missing_ssh_public_key() {
    let mut world = World::new();
    world.file(&ssh_file("id_ed25519"), b"private");
    programs_print(&mut world, b" ssh-ed25519 AAAA derived-comment \n");
    let result = setup_ssh(&mut world, Some(b"user")).unwrap();
    assert!(matches!(result, SshSetupResult::CreatedPublic { authorization_added: true }));
    assert_eq!(world.data(&ssh_file("id_ed25519.pub")), b"ssh-ed25519 AAAA derived-comment\n");
    assert_eq!(world.mode(&ssh_file("id_ed25519.pub")), 0o644);
    assert_eq!(world.data(&ssh_file("authorized_keys")), b"ssh-ed25519 AAAA derived-comment\n");
    assert_eq!(world.mode(&ssh_file("authorized_keys")), 0o600);
}

#[test]
fn derives_public_key_without_duplicate_authorization() {
    let mut world = World::new();
    world.file(&ssh_file("id_ed25519"), b"private");
    world.file(&ssh_file("authorized_keys"), b"ssh-ed25519 AAAA existing-comment\n");
    programs_print(&mut world, b"ssh-ed25519 AAAA derived-comment\n");
    let result = setup_ssh(&mut world, Some(b"user")).unwrap();
    assert!(matches!(result, SshSetupResult::CreatedPublic { authorization_added: false }));
    assert_eq!(world.data(&ssh_file("authorized_keys")), b"ssh-ed25519 AAAA existing-comment\n");
}

/// Lets the key generator create these files.
fn generator_creates(world: &mut World, public: &'static [u8], success: bool) {
    world.hook = Some(Box::new(move |world, request| match request {
        Request::Run(program) | Request::Capture(program) => {
            world.runs.push(program.copy());
            world.file(&ssh_file("id_ed25519"), b"private");
            world.file(&ssh_file("id_ed25519.pub"), public);
            Some(ended(success, b""))
        }
        _ => None,
    }));
}

#[test]
fn install_generates_new_ssh_key_pair() {
    let mut world = World::new();
    world.directories("/t/home");
    generator_creates(&mut world, b"ssh-ed25519 AAAA generated\n", true);
    let result = setup_ssh(&mut world, Some(&[b'u', 0x80])).unwrap();
    assert!(matches!(result, SshSetupResult::Generated { authorization_added: true }));
    let mut expected: Vec<Vec<u8>> =
        ["-t", "ed25519", "-f", "/t/home/.ssh/id_ed25519", "-N", "", "-C"].map(bytes).to_vec();
    expected.push(vec![b'u', 0x80, b'@', b'c', b'a', b'd']);
    assert_eq!(world.runs[0].arguments, expected);
    assert_eq!(world.mode(SSH), 0o700);
    assert_eq!(world.mode(&ssh_file("id_ed25519")), 0o600);
    assert_eq!(world.mode(&ssh_file("id_ed25519.pub")), 0o644);
}

#[test]
fn install_rejects_invalid_ssh_key_state() {
    let mut world = World::new();
    world.file(&ssh_file("id_ed25519.pub"), b"ssh-ed25519 AAAA public\n");
    assert!(setup_ssh(&mut world, Some(b"user")).is_err());
    assert!(world.runs.is_empty());

    world.file(&ssh_file("id_ed25519"), b"private");
    programs_print(&mut world, b"ssh-ed25519 BBBB derived\n");
    assert!(setup_ssh(&mut world, Some(b"user")).is_err());
}

#[test]
fn install_rejects_invalid_ssh_bootstrap_inputs() {
    let mut world = World::new();
    world.directories("/t/home");
    assert!(setup_ssh(&mut world, None).is_err());
    assert!(world.runs.is_empty());

    let mut world = World::new();
    world.link(SSH, "/t/elsewhere");
    assert!(setup_ssh(&mut world, Some(b"user")).is_err());

    for content in [&b""[..], b"ssh-ed25519", b"ssh-ed25519 AAAA\nsecond BBBB"] {
        assert!(parse_public_key(content).is_err());
    }
}

#[test]
fn install_cleans_invalid_generated_ssh_key_pair() {
    let mut world = World::new();
    world.directories("/t/home");
    generator_creates(&mut world, b"partial", true);
    assert!(setup_ssh(&mut world, Some(b"user")).is_err());
    assert!(!world.stands(&ssh_file("id_ed25519")));
    assert!(!world.stands(&ssh_file("id_ed25519.pub")));
}

#[test]
fn install_preserves_unowned_keys_after_ssh_keygen_failure() {
    let mut world = World::new();
    world.directories("/t/home");
    generator_creates(&mut world, b"ssh-ed25519 AAAA concurrent\n", false);
    assert!(setup_ssh(&mut world, Some(b"user")).is_err());
    assert_eq!(world.data(&ssh_file("id_ed25519")), b"private");
    assert_eq!(world.data(&ssh_file("id_ed25519.pub")), b"ssh-ed25519 AAAA concurrent\n");
}

#[test]
fn install_preserves_colliding_authorized_keys_temporary_file() {
    let mut world = World::new();
    world.file("/t/existing-temporary", b"unowned temporary");
    let key = parse_public_key(b"ssh-ed25519 AAAA key").unwrap();
    let script = replace_authorized_keys(
        b"/t/authorized_keys",
        b"/t/existing-temporary",
        b"",
        &key,
        AUTHORIZED_KEYS_MODE,
    );
    assert!(world.script(script).is_err());
    assert_eq!(world.data("/t/existing-temporary"), b"unowned temporary");
    assert!(!world.stands("/t/authorized_keys"));
}

#[test]
fn install_appends_ssh_authorized_key_atomically() {
    let mut world = World::new();
    world.file(&ssh_file("id_ed25519"), b"private");
    world.file(&ssh_file("id_ed25519.pub"), b"ssh-ed25519 AAAA public\n");
    world.file(&ssh_file("authorized_keys"), b"unrelated-\xff-line");
    world.nodes.get_mut(ssh_file("authorized_keys").as_bytes()).unwrap().mode = 0o640;
    programs_print(&mut world, b"ssh-ed25519 AAAA\n");
    let result = setup_ssh(&mut world, Some(b"user")).unwrap();
    assert!(matches!(result, SshSetupResult::ExistingAuthorizedAdded));
    assert_eq!(
        world.data(&ssh_file("authorized_keys")),
        b"unrelated-\xff-line\nssh-ed25519 AAAA public\n"
    );
    assert_eq!(world.mode(&ssh_file("authorized_keys")), 0o640);
    assert_eq!(world.names(SSH.as_bytes()).len(), 3);
}

// --------------------------------------------------
// The program
// --------------------------------------------------

#[test]
fn install_validates_eiyah_install_source() {
    let check = |world: &mut World, path: &str| {
        let reply = world.perform(Request::Inspect(bytes(path)));
        validate_source_binary(path.as_bytes(), reply)
    };
    let mut world = World::new();
    world.file("/t/source", b"binary");
    assert!(check(&mut world, "/t/source").is_err());
    world.program("/t/source");
    check(&mut world, "/t/source").unwrap();
    world.link("/t/source-link", "/t/source");
    assert!(check(&mut world, "/t/source-link").is_err());
    assert!(check(&mut world, "/t").is_err());
}

fn place_binary(world: &mut World) -> Result<(), Failure> {
    let started = install_running_eiyah_binary(&paths_below("/t"), b"/t/source-eiyah");
    match drive(world, started, BinarySetup::request, BinarySetup::advance) {
        BinarySetup::Completed => Ok(()),
        BinarySetup::Failed(failure) => Err(failure),
        other => panic!("{other:?}"),
    }
}

#[test]
fn the_running_program_is_looked_at_once() {
    let mut world = World::new();
    world.directories("/t/data/eiyah/bin");
    let told = |world: &mut World| place_binary(world).unwrap_err().full_text();
    assert!(told(&mut world).starts_with("failed to inspect Eiyah binary: /t/source-eiyah: "));
    world.link("/t/source-eiyah", "/t/elsewhere");
    assert_eq!(told(&mut world), "Eiyah binary must be a regular file: /t/source-eiyah");
    world.remove("/t/source-eiyah");
    world.file("/t/source-eiyah", b"program");
    assert_eq!(told(&mut world), "Eiyah binary must be executable: /t/source-eiyah");
    assert!(!world.stands("/t/data/eiyah/bin/eiyah"));
    world.program("/t/source-eiyah");
    world.asked.clear();
    place_binary(&mut world).unwrap();
    let looks = world.asked.iter().filter(|request| {
        matches!(request, Request::Inspect(path) if path.as_slice() == b"/t/source-eiyah")
    });
    assert_eq!(looks.count(), 1);
}

#[test]
fn install_installs_eiyah_binary_without_replacement() {
    let mut world = World::new();
    world.directories("/t/data/eiyah/bin");
    world.program("/t/source-eiyah");
    place_binary(&mut world).unwrap();
    assert_eq!(world.data("/t/data/eiyah/bin/eiyah"), b"program");
    assert_eq!(world.mode("/t/data/eiyah/bin/eiyah"), 0o755);
    assert!(place_binary(&mut world).is_err());
    assert_eq!(world.data("/t/data/eiyah/bin/eiyah"), b"program");
}

#[test]
fn install_cleans_partial_eiyah_binary_after_copy_failure() {
    let mut world = World::new();
    world.directories("/t/data/eiyah/bin");
    world.program("/t/source-eiyah");
    world.hook = Some(Box::new(|_, request| match request {
        Request::CopyFrom { .. } => Some(failed(fault(FaultKind::Other, "injected copy failure"))),
        _ => None,
    }));
    assert!(place_binary(&mut world).is_err());
    assert!(!world.stands("/t/data/eiyah/bin/eiyah"));
    assert_eq!(world.data("/t/source-eiyah"), b"program");
}

#[test]
fn install_preserves_replaced_eiyah_target_after_copy_failure() {
    let mut world = World::new();
    world.directories("/t/data/eiyah/bin");
    world.program("/t/source-eiyah");
    world.hook = Some(Box::new(|world, request| match request {
        Request::CopyFrom { .. } => {
            world.remove("/t/data/eiyah/bin/eiyah");
            world.file("/t/data/eiyah/bin/eiyah", b"concurrent target");
            Some(failed(fault(FaultKind::Other, "injected copy failure")))
        }
        _ => None,
    }));
    assert!(place_binary(&mut world).is_err());
    assert_eq!(world.data("/t/data/eiyah/bin/eiyah"), b"concurrent target");
}

fn make_entry(world: &mut World) -> Result<(), Failure> {
    let step = create_eiyah_public_entry(&paths_below("/t"), b"/t/home").unwrap();
    world.script(Script::new(vec![step], Cleanup::Nothing))
}

#[test]
fn install_creates_absolute_eiyah_public_entry() {
    let mut world = World::new();
    world.directories("/t/home/.local/bin");
    make_entry(&mut world).unwrap();
    assert_eq!(world.data("/t/home/.local/bin/eiyah"), b"/t/data/eiyah/bin/eiyah");
}

#[test]
fn install_preserves_existing_eiyah_public_entry() {
    let mut world = World::new();
    world.file("/t/home/.local/bin/eiyah", b"concurrent entry");
    assert!(make_entry(&mut world).is_err());
    assert_eq!(world.data("/t/home/.local/bin/eiyah"), b"concurrent entry");
}

#[test]
fn install_preserves_directory_created_during_install_race() {
    let mut world = World::new();
    world.directories("/t");
    let mut raced = false;
    world.hook = Some(Box::new(move |world, request| {
        if matches!(request, Request::MakeDirectory { .. }) && !raced {
            raced = true;
            world.put("/t/managed", FileKind::Directory, 0o700, b"");
        }
        None
    }));
    let made = make_managed(&mut world, "/t/managed");
    made.outcome().unwrap().unwrap();
    assert!(made.created().is_empty());
    assert_eq!(world.mode("/t/managed"), 0o700);
}

// --------------------------------------------------
// Pixi
// --------------------------------------------------

const PIXI: &str = "/t/data/eiyah/pixi";

fn pixi_world() -> World {
    let mut world = World::new();
    world.directories("/t/data/eiyah");
    world.directories("/t/home");
    world.file("/t/core/pixi/pixi-global.toml", b"version = 1\n");
    world.pages.insert(PIXI_INSTALLER_URL.to_owned(), b"#!/usr/bin/bash\n".to_vec());
    world
}

/// Lets the installer create Pixi and the synchronization end like this.
fn pixi_programs(world: &mut World, installs: bool, syncs: bool) {
    world.hook = Some(Box::new(move |world, request| match request {
        Request::Feed { program, .. } => {
            world.runs.push(program.copy());
            if installs {
                world.program(&format!("{PIXI}/bin/pixi"));
            }
            Some(ended(installs, b""))
        }
        Request::Run(program) | Request::Capture(program) => {
            world.runs.push(program.copy());
            if program.arguments[0] == b"--version" {
                Some(ended(true, b"pixi 0.50.0\n"))
            } else {
                Some(ended(syncs, b""))
            }
        }
        _ => None,
    }));
}

fn bootstrap(world: &mut World) -> Result<PathIdentity, Failure> {
    let started = bootstrap_pixi(&paths_below("/t"), b"/t/core", b"/t/home");
    match drive(world, started, PixiBootstrap::request, PixiBootstrap::advance) {
        PixiBootstrap::Completed(identity) => Ok(identity),
        PixiBootstrap::Failed(failure) => Err(failure),
        other => panic!("{other:?}"),
    }
}

fn setting(program: &Program, name: &str) -> Option<Vec<u8>> {
    program.set.iter().find(|(key, _)| *key == name.as_bytes()).map(|(_, value)| value.clone())
}

#[test]
fn install_bootstraps_pixi_with_canonical_commands_and_manifest() {
    let mut world = pixi_world();
    pixi_programs(&mut world, true, true);
    let identity = bootstrap(&mut world).unwrap();
    assert_eq!(identity, world.identity(PIXI));
    let installer = &world.runs[0];
    assert_eq!(installer.executable, BASH_PATH.as_bytes());
    assert_eq!(setting(installer, "PIXI_HOME"), Some(bytes(PIXI)));
    assert_eq!(setting(installer, "PIXI_NO_PATH_UPDATE"), Some(bytes("1")));
    for name in [
        "PIXI_BIN_DIR",
        "PIXI_VERSION",
        "PIXI_ARCH",
        "PIXI_DOWNLOAD_URL",
        "PIXI_CACHE_DIR",
        "RATTLER_CACHE_DIR",
        "NETRC",
        "TMP_DIR",
    ] {
        assert!(installer.unset.contains(&bytes(name)), "{name}");
    }
    assert_eq!(world.runs[1].executable, bytes(&format!("{PIXI}/bin/pixi")));
    assert_eq!(world.runs[1].arguments, ["--version"].map(bytes));
    let sync = &world.runs[2];
    assert_eq!(sync.executable, bytes(&format!("{PIXI}/bin/pixi")));
    assert_eq!(sync.arguments, ["global", "sync"].map(bytes));
    assert_eq!(sync.directory.as_deref(), Some(&b"/t/home"[..]));
    assert_eq!(setting(sync, "PIXI_HOME"), Some(bytes(PIXI)));
    assert_eq!(setting(sync, "PIXI_NO_PATH_UPDATE"), Some(bytes("1")));
    for name in ["PIXI_BIN_DIR", "PIXI_CACHE_DIR", "RATTLER_CACHE_DIR"] {
        assert!(sync.unset.contains(&bytes(name)), "{name}");
    }
    let manifest = format!("{PIXI}/manifests/pixi-global.toml");
    assert_eq!(world.data(&manifest), b"version = 1\n");
    assert_eq!(world.mode(&manifest), 0o644);
    assert_eq!(world.mode(&format!("{PIXI}/manifests")), 0o755);
    assert_eq!(world.mode(PIXI), 0o755);
}

#[test]
fn install_preserves_pixi_home_created_during_race() {
    let mut world = pixi_world();
    world.hook = Some(Box::new(|world, request| {
        if matches!(request, Request::MakeDirectory { .. }) {
            world.put(PIXI, FileKind::Directory, 0o700, b"");
        }
        None
    }));
    assert!(bootstrap(&mut world).is_err());
    assert_eq!(world.mode(PIXI), 0o700);
    assert!(world.runs.is_empty());
}

#[test]
fn an_installer_that_is_cut_off_is_not_run() {
    for (nth, message) in [
        (0, format!("failed to download Pixi installer: {PIXI_INSTALLER_URL}: cut off")),
        (1, "failed to read Pixi installer: cut off".to_owned()),
    ] {
        let mut world = pixi_world();
        world.hook = Some(Box::new(move |_, request| match (nth, request) {
            (0, Request::Get(_)) | (1, Request::ReadBody) => {
                Some(failed(fault(FaultKind::Other, "cut off")))
            }
            _ => None,
        }));
        assert_eq!(bootstrap(&mut world).unwrap_err().full_text(), message);
        assert!(!world.stands(PIXI) && world.runs.is_empty());
    }
}

#[test]
fn install_rejects_invalid_pixi_installer_without_leaving_home() {
    let mut world = pixi_world();
    world.pages.insert(PIXI_INSTALLER_URL.to_owned(), Vec::new());
    assert!(bootstrap(&mut world).is_err());
    assert!(!world.stands(PIXI));

    let mut world = pixi_world();
    world.hook = Some(Box::new(|_, request| match request {
        Request::Feed { .. } => Some(failed(fault(FaultKind::Other, "injected spawn failure"))),
        _ => None,
    }));
    assert!(bootstrap(&mut world).is_err());
    assert!(!world.stands(PIXI));
}

#[test]
fn install_applies_pixi_cleanup_boundary_at_global_sync() {
    let mut world = pixi_world();
    pixi_programs(&mut world, false, true);
    assert!(bootstrap(&mut world).is_err());
    assert!(!world.stands(PIXI));

    let mut world = pixi_world();
    pixi_programs(&mut world, true, false);
    assert!(bootstrap(&mut world).is_err());
    assert_eq!(world.kind(PIXI), FileKind::Directory);
    assert!(world.stands(&format!("{PIXI}/manifests/pixi-global.toml")));
}

#[test]
fn a_synchronization_that_cannot_start_is_told() {
    let mut world = pixi_world();
    world.hook = Some(Box::new(|world, request| match request {
        Request::Feed { .. } => {
            world.program(&format!("{PIXI}/bin/pixi"));
            Some(ended(true, b""))
        }
        Request::Run(program) | Request::Capture(program) => {
            if program.arguments[0] == b"--version" {
                Some(ended(true, b"pixi 0.50.0\n"))
            } else {
                Some(failed(fault(FaultKind::Other, "no memory")))
            }
        }
        _ => None,
    }));
    assert_eq!(
        bootstrap(&mut world).unwrap_err().full_text(),
        "failed to execute pixi global sync: no memory"
    );
    assert_eq!(
        sync_pixi(failed(fault(FaultKind::Other, "no memory"))).unwrap_err().full_text(),
        "no memory"
    );
}

#[test]
fn install_rejects_invalid_pixi_binary_and_manifest_source() {
    let mut world = pixi_world();
    world.hook = Some(Box::new(|world, request| match request {
        Request::Feed { .. } => {
            world.file(&format!("{PIXI}/bin/pixi"), b"no program");
            Some(ended(true, b""))
        }
        _ => None,
    }));
    assert!(bootstrap(&mut world).is_err());
    assert!(!world.stands(PIXI));

    let check = |world: &mut World, path: &str| {
        let step = validate_pixi_manifest_source(path.as_bytes());
        world.script(Script::new(vec![step], Cleanup::Nothing))
    };
    let mut world = World::new();
    world.file("/t/manifest", b"version = 1\n");
    check(&mut world, "/t/manifest").unwrap();
    assert!(check(&mut world, "/t/missing-manifest").is_err());
    world.link("/t/manifest-link", "/t/manifest");
    assert!(check(&mut world, "/t/manifest-link").is_err());
}

#[test]
fn install_preserves_existing_pixi_manifest_and_cleans_partial_copy() {
    let mut world = World::new();
    world.file("/t/source.toml", b"version = 1\n");
    world.file("/t/target.toml", b"concurrent manifest");
    assert!(world.script(place_pixi_manifest(b"/t/source.toml", b"/t/target.toml")).is_err());
    assert_eq!(world.data("/t/target.toml"), b"concurrent manifest");

    world.remove("/t/target.toml");
    world.hook = Some(Box::new(|_, request| match request {
        Request::CopyFrom { .. } => Some(failed(fault(FaultKind::Other, "injected copy failure"))),
        _ => None,
    }));
    assert!(world.script(place_pixi_manifest(b"/t/source.toml", b"/t/target.toml")).is_err());
    assert!(!world.stands("/t/target.toml"));
    assert_eq!(world.data("/t/source.toml"), b"version = 1\n");

    let mut world = pixi_world();
    let raced = format!("{PIXI}/manifests/pixi-global.toml");
    let place = raced.clone();
    world.hook = Some(Box::new(move |world, request| match request {
        Request::Feed { .. } => {
            world.program(&format!("{PIXI}/bin/pixi"));
            world.file(&place, b"concurrent manifest");
            Some(ended(true, b""))
        }
        Request::Capture(_) | Request::Run(_) => Some(ended(true, b"pixi 0.50.0\n")),
        _ => None,
    }));
    assert!(bootstrap(&mut world).is_err());
    assert_eq!(world.data(&raced), b"concurrent manifest");
}

#[test]
fn cleans_prepared_pixi_home_when_identity_capture_fails() {
    let mut world = pixi_world();
    let mut placed = false;
    world.hook = Some(Box::new(move |world, request| match request {
        Request::Feed { .. } => {
            world.program(&format!("{PIXI}/bin/pixi"));
            Some(ended(true, b""))
        }
        Request::Capture(_) | Request::Run(_) => Some(ended(true, b"pixi 0.50.0\n")),
        Request::CopyFrom { .. } => {
            placed = true;
            None
        }
        Request::Inspect(path) if placed && path.as_slice() == PIXI.as_bytes() => {
            placed = false;
            Some(failed(fault(FaultKind::Other, "injected identity failure")))
        }
        _ => None,
    }));
    let started = prepare_pixi(&paths_below("/t"), b"/t/core");
    let done = drive(&mut world, started, PixiSetup::request, PixiSetup::advance);
    assert!(matches!(done.phase, PixiPhase::Failed(_)));
    assert!(!world.stands(PIXI));
}

// --------------------------------------------------
// Dotfiles and their links
// --------------------------------------------------

fn copy_dotfiles(world: &mut World) -> Result<(), Failure> {
    let started = install_dotfiles(b"/t/core", b"/t/home");
    match drive(world, started, DotfilesCopy::request, DotfilesCopy::advance).phase {
        CopyPhase::Completed => Ok(()),
        CopyPhase::Failed(failure) => Err(failure),
        other => panic!("{other:?}"),
    }
}

#[test]
fn installs_private_dotfiles_tree() {
    let mut world = World::new();
    world.directories("/t/home");
    world.file("/t/core/dotfiles/git/config", b"git config");
    world.nodes.get_mut(&b"/t/core/dotfiles/git/config"[..]).unwrap().mode = 0o640;
    world.link("/t/core/dotfiles/git/config-link", "config");
    copy_dotfiles(&mut world).unwrap();
    assert_eq!(world.data("/t/home/.dotfiles/git/config"), b"git config");
    assert_eq!(world.mode("/t/home/.dotfiles/git/config"), 0o640);
    assert_eq!(world.kind("/t/home/.dotfiles/git/config-link"), FileKind::Symlink);
    assert_eq!(world.data("/t/home/.dotfiles/git/config-link"), b"config");
    assert_eq!(world.data("/t/core/dotfiles/git/config"), b"git config");
}

#[test]
fn preserves_dotfiles_entry_created_during_copy_race() {
    let mut world = World::new();
    world.directories("/t/home");
    world.file("/t/core/dotfiles/git/config", b"source");
    world.hook = Some(Box::new(|world, request| {
        if let Request::CreateFile { path, .. } = request {
            if path.as_slice() == b"/t/home/.dotfiles/git/config" {
                world.file("/t/home/.dotfiles/git/config", b"concurrent");
            }
        }
        None
    }));
    assert!(copy_dotfiles(&mut world).is_err());
    assert_eq!(world.data("/t/home/.dotfiles/git/config"), b"concurrent");
}

#[test]
fn a_failed_copy_leaves_nothing_behind() {
    let mut world = World::new();
    world.directories("/t/home");
    world.file("/t/core/dotfiles/a/one", b"one");
    world.file("/t/core/dotfiles/b/two", b"two");
    world.hook = Some(Box::new(|_, request| match request {
        Request::CopyFrom { source, .. } if source.ends_with(b"/two") => {
            Some(failed(fault(FaultKind::Other, "injected copy failure")))
        }
        _ => None,
    }));
    assert!(copy_dotfiles(&mut world).is_err());
    assert!(!world.stands("/t/home/.dotfiles"));
}

fn git_identity(world: &mut World) -> Result<(), Failure> {
    let started = create_git_config_local(b"/t/dotfiles");
    match drive(world, started, GitIdentity::request, GitIdentity::advance).phase {
        IdentityPhase::Completed => Ok(()),
        IdentityPhase::Failed(failure) => Err(failure),
        other => panic!("{other:?}"),
    }
}

#[test]
fn creates_generated_git_config_local() {
    let target = "/t/dotfiles/git/.config/git/config.local";
    let mut world = World::new();
    world.directories("/t/dotfiles/git/.config/git");
    world.hook = Some(Box::new(|_, request| match request {
        Request::Run(program) | Request::Capture(program) => {
            if program.arguments.contains(&bytes("user.name")) {
                Some(ended(true, b"Example User\n"))
            } else {
                assert!(program.arguments.contains(&bytes("user.email")));
                Some(ended(true, b"user@example.com\n"))
            }
        }
        _ => None,
    }));
    git_identity(&mut world).unwrap();
    assert_eq!(
        world.data(target),
        b"[user]\n    name = Example User\n    email = user@example.com\n"
    );
    assert_eq!(world.mode(target), 0o600);

    world.remove(target);
    programs_print(&mut world, b"\n");
    assert!(git_identity(&mut world).is_err());
    assert!(!world.stands(target));
}

fn packages(world: &mut World, dotfiles: &str) -> Result<Vec<Vec<u8>>, Failure> {
    let started = stow_packages(&paths_below("/t"), dotfiles.as_bytes());
    match drive(world, started, PackageScan::request, PackageScan::advance).phase {
        PackagePhase::Completed(found) => Ok(found),
        PackagePhase::Failed(failure) => Err(failure),
        other => panic!("{other:?}"),
    }
}

#[test]
fn enumerates_stow_packages_in_stable_order() {
    let mut world = World::new();
    world.program(&format!("{PIXI}/bin/stow"));
    world.directories("/t/dotfiles/zsh");
    world.directories("/t/dotfiles/git");
    world.file("/t/dotfiles/README", b"ignored");
    world.link("/t/dotfiles/linked-package", "git");
    assert_eq!(packages(&mut world, "/t/dotfiles").unwrap(), ["git", "zsh"].map(bytes));
    world.directories("/t/empty");
    assert_eq!(
        packages(&mut world, "/t/empty").unwrap_err().full_text(),
        "dotfiles contains no Stow packages"
    );
}

fn conflicts(world: &mut World, names: &[&str]) -> Vec<Vec<u8>> {
    let packages: Vec<Vec<u8>> = names.iter().map(|name| bytes(name)).collect();
    let started = stow_conflicts(b"/t/home/.dotfiles", b"/t/home", &packages);
    let done = drive(world, started, ConflictScan::request, ConflictScan::advance);
    assert!(matches!(done.phase, ConflictPhase::Completed), "{done:?}");
    done.conflicts
}

#[test]
fn detects_stow_conflicts_and_correct_links() {
    let mut world = World::new();
    world.file("/t/home/.dotfiles/git/.config/git/config", b"source");
    world.file("/t/home/.dotfiles/tcsh/.cshrc", b"source");
    world.link("/t/home/.config/git/config", "../../.dotfiles/git/.config/git/config");
    world.file("/t/home/.cshrc", b"existing");
    assert_eq!(conflicts(&mut world, &["git", "tcsh"]), vec![bytes("/t/home/.cshrc")]);
    world.directories("/t/state");
    let moved = back_up(&mut world, "/t/home", "/t/state", "/t/home/.cshrc");
    assert_eq!(moved.to, b"/t/state/eiyah/backup/home/.cshrc");
    world.link("/t/home/.cshrc", ".dotfiles/tcsh/.cshrc");
    validate_stowed_cshrc(
        b"/t/home/.dotfiles",
        b"/t/home",
        world.look("/t/home/.cshrc"),
        world.read_link(b"/t/home/.cshrc"),
    )
    .unwrap();
    assert!(is_correct_stow_symlink(
        b"/t/home/.config/git/config",
        b"../../.dotfiles/git/.config/git/config",
        b"/t/home/.dotfiles/git/.config/git/config",
    ));
}

fn link_package(world: &mut World, package: &str) -> Result<(), Failure> {
    let started = run_stow_package(&paths_below("/t"), b"/t/home", package.as_bytes());
    match drive(world, started, StowRun::request, StowRun::advance).phase {
        StowPhase::Completed => Ok(()),
        StowPhase::Failed(failure) => Err(failure),
        other => panic!("{other:?}"),
    }
}

#[test]
fn runs_stow_with_canonical_command() {
    let mut world = World::new();
    world.program(&format!("{PIXI}/bin/stow"));
    world.directories("/t/home/.dotfiles");
    link_package(&mut world, "git").unwrap();
    assert_eq!(world.runs.len(), 1);
    assert_eq!(world.runs[0].executable, bytes(&format!("{PIXI}/bin/stow")));
    assert_eq!(world.runs[0].directory.as_deref(), Some(&b"/t/home/.dotfiles"[..]));
    assert_eq!(
        world.runs[0].arguments,
        ["--target", "/t/home", "--dir", "/t/home/.dotfiles", "git"].map(bytes)
    );
    world.hook = Some(Box::new(|_, request| match request {
        Request::Run(_) => Some(ended(false, b"")),
        _ => None,
    }));
    assert!(link_package(&mut world, "git").is_err());
}

#[test]
fn keeps_original_stow_failure_primary_when_cleanup_fails() {
    let mut world = World::new();
    world.program(&format!("{PIXI}/bin/stow"));
    world.directories("/t/home/.dotfiles");
    world.hook = Some(Box::new(|_, request| match request {
        Request::Run(_) => Some(ended(false, b"")),
        _ => None,
    }));
    let message = link_package(&mut world, "git").unwrap_err().full_text();
    assert!(message.starts_with("Stow failed:"), "{message}");
    assert!(message.contains("failed Stow cleanup:"), "{message}");
}

// --------------------------------------------------
// The archive
// --------------------------------------------------

#[test]
fn validates_private_archive_entry_paths() {
    let top = Some(validate_archive_entry(b"root/dotfiles/config", &None).unwrap());
    assert_eq!(top.as_deref(), Some(&b"root"[..]));
    assert!(validate_archive_entry(b"root/pixi/manifest", &top).is_ok());
    assert!(validate_archive_entry(b"other/file", &top).is_err());
    assert!(validate_archive_entry(b"/absolute", &None).is_err());
    assert!(validate_archive_entry(b"root/../outside", &None).is_err());
    assert!(validate_archive_entry(b"", &None).is_err());
}

const LISTING: &str = "drwxr-xr-x root/root 0 2026-01-01 00:00 release-root/\n-rw-r--r-- root/root 7 2026-01-01 00:00 release-root/dotfiles/config\n";

#[test]
fn inspects_private_archive_listings() {
    assert_eq!(check_listing(LISTING).unwrap(), b"release-root");
    assert_eq!(inspect_archive(ended(true, LISTING.as_bytes())).unwrap(), b"release-root");
    let link = format!(
        "{LISTING}lrwxrwxrwx root/root 0 2026-01-01 00:00 release-root/dotfiles/link -> config\n"
    );
    assert!(check_listing(&link).is_err());
    assert!(check_listing("").is_err());
    assert!(inspect_archive(ended(false, LISTING.as_bytes())).is_err());
}

fn archive_world(listing: &'static str) -> World {
    let mut world = World::new();
    world.directories("/t/cache");
    world.pages.insert("https://example.com/archive".to_owned(), b"archive".to_vec());
    world.hook = Some(Box::new(move |world, request| match request {
        Request::Run(program) | Request::Capture(program) => {
            world.runs.push(program.copy());
            Some(ended(true, listing.as_bytes()))
        }
        _ => None,
    }));
    world
}

fn download(world: &mut World) -> PrivateArchive {
    let started =
        download_private_archive(&paths_below("/t"), "https://example.com/archive", 7, 1);
    drive(world, started, PrivateArchive::request, PrivateArchive::advance)
}

#[test]
fn archives_are_downloaded_checked_and_unpacked() {
    let mut world = archive_world(LISTING);
    let archive = download(&mut world);
    let owned = match archive.phase {
        ArchivePhase::Completed(owned) => owned,
        other => panic!("{other:?}"),
    };
    assert_eq!(world.runs.len(), 2);
    let root = String::from_utf8(archive.root.clone()).unwrap();
    assert!(world.stands(&root));
    let removal = remove_owned_tree(&archive.root, owned);
    let removed = drive(&mut world, removal, TreeRemoval::request, TreeRemoval::advance);
    assert!(matches!(removed, TreeRemoval::Completed));
    assert!(!world.stands(&root));
}

#[test]
fn refused_archives_are_not_unpacked() {
    let mut world = archive_world("-rw-r--r-- root/root 7 2026-01-01 00:00 ../outside\n");
    let archive = download(&mut world);
    assert!(matches!(archive.phase, ArchivePhase::Failed(_)));
    assert_eq!(world.runs.len(), 1);
    assert!(!world.stands(&String::from_utf8(archive.root).unwrap()));
}

// --------------------------------------------------
// The status program
// --------------------------------------------------

/// The SHA-256 digest of `abc`.
const ABC: &str = "ba7816bf8f01cfea414140de5dae2223b00361a396177a9cb410ff61f20015ad";

const ASSETS: &str = "https://api.github.com/repos/su-ito-lab/eiyah-core/releases/assets";

fn put_checksum(world: &mut World, contents: &str) {
    world.pages.insert(format!("{ASSETS}/102"), contents.as_bytes().to_vec());
}

fn place_status(world: &mut World) -> Result<(), Failure> {
    let started = install_show_cad_status(&paths_below("/t"), 101, 102);
    match drive(world, started, StatusSetup::request, StatusSetup::advance) {
        StatusSetup::Completed => Ok(()),
        StatusSetup::Failed(failure) => Err(failure),
        other => panic!("{other:?}"),
    }
}

fn status_world(contents: &[u8]) -> World {
    let mut world = World::new();
    put_checksum(&mut world, &format!("{ABC}  {SHOW_CAD_STATUS_ASSET_NAME}\n"));
    world.directories("/t/data/eiyah/bin");
    world.pages.insert(format!("{ASSETS}/101"), contents.to_vec());
    world
}

#[test]
fn installs_show_cad_status_and_public_entry() {
    let paths = paths_below("/t");
    let mut world = status_world(b"abc");
    place_status(&mut world).unwrap();
    let target = "/t/data/eiyah/bin/show-cad-status";
    assert_eq!(world.data(target), b"abc");
    assert_eq!(world.mode(target), 0o755);

    world.directories("/t/home/.local/bin");
    let entry = create_show_cad_status_entry(&paths, b"/t/home").unwrap();
    assert!(matches!(world.perform(entry), Reply::Done));
    assert_eq!(world.data("/t/home/.local/bin/show-cad-status"), target.as_bytes());
    let again = create_show_cad_status_entry(&paths, b"/t/home").unwrap();
    assert!(matches!(world.perform(again), Reply::Failed(_)));
}

#[test]
fn cleans_failed_show_cad_status_installation() {
    let mut world = status_world(b"other");
    assert!(place_status(&mut world).is_err());
    assert!(!world.stands("/t/data/eiyah/bin/show-cad-status"));

    let mut world = status_world(b"abc");
    world.hook = Some(Box::new(|_, request| match request {
        Request::SaveBody(_) => Some(failed(fault(FaultKind::Other, "injected download failure"))),
        _ => None,
    }));
    assert_eq!(
        place_status(&mut world).unwrap_err().full_text(),
        "injected download failure"
    );
    assert!(!world.stands("/t/data/eiyah/bin/show-cad-status"));

    let mut world = status_world(b"abc");
    put_checksum(&mut world, "invalid\n");
    assert_eq!(
        place_status(&mut world).unwrap_err().full_text(),
        "invalid show-cad-status checksum format"
    );
    assert!(!world.stands("/t/data/eiyah/bin/show-cad-status"));
}

// --------------------------------------------------
// Updates
// --------------------------------------------------

const BINARY: &str = "/t/data/eiyah/bin/eiyah";
const CANDIDATE: &str = "/t/data/eiyah/bin/.eiyah.new";

fn public_release(version: &str) -> Release {
    let asset = |name: &str| ReleaseAsset {
        name: name.to_owned(),
        browser_download_url: format!("https://example.com/{name}"),
    };
    Release {
        tag_name: format!("v{version}"),
        draft: false,
        prerelease: false,
        assets: vec![asset(BINARY_ASSET_NAME), asset(CHECKSUM_ASSET_NAME)],
    }
}

/// Programs say the version of the release, first the candidate and then the program.
fn update_world(first: &'static str, second: &'static str) -> World {
    let mut world = World::new();
    world.program(BINARY);
    world.pages.insert(format!("https://example.com/{BINARY_ASSET_NAME}"), b"abc".to_vec());
    world.pages.insert(
        format!("https://example.com/{CHECKSUM_ASSET_NAME}"),
        format!("{ABC}  {BINARY_ASSET_NAME}\n").into_bytes(),
    );
    world.hook = Some(Box::new(move |world, request| match request {
        Request::Run(program) | Request::Capture(program) => {
            world.runs.push(program.copy());
            let version = if program.executable == CANDIDATE.as_bytes() { first } else { second };
            Some(ended(true, format!("eiyah {version}\n").as_bytes()))
        }
        _ => None,
    }));
    world
}

fn run_locked(world: &mut World, release: Release) -> Result<(), UserFacingError> {
    let started = update_locked(&paths_below("/t"), false, "1.0.0", release).unwrap();
    match drive(world, started, Update::request, Update::advance).phase {
        UpdatePhase::Completed => Ok(()),
        UpdatePhase::Failed(error) => Err(error),
        other => panic!("{other:?}"),
    }
}

#[test]
fn update_replaces_installed_binary_atomically() {
    let mut world = update_world("1.0.1", "1.0.1");
    run_locked(&mut world, public_release("1.0.1")).unwrap();
    assert_eq!(
        world.shown,
        format!("==> Checking for Eiyah updates\nCurrent: 1.0.0\nLatest:  1.0.1\n\n==> Downloading Eiyah 1.0.1\nhttps://example.com/{BINARY_ASSET_NAME}\n\n==> Verifying Eiyah download\nSHA-256: verified\n\n==> Updating Eiyah\n{BINARY}\n\n==> Eiyah updated to 1.0.1\n")
    );
    assert_eq!(world.data(BINARY), b"abc");
    assert_eq!(world.mode(BINARY), 0o755);
    assert!(!world.stands(CANDIDATE));
}

#[test]
fn update_keeps_new_binary_after_post_update_validation_failure() {
    let mut world = update_world("1.0.1", "1.0.0");
    let error = run_locked(&mut world, public_release("1.0.1")).unwrap_err();
    assert_eq!(
        write_error_report(&error, false),
        "Error: Eiyah validation failed after updating to 1.0.1.\nWarning: Eiyah 1.0.1 is already installed and was not reverted.\n"
    );
    assert_eq!(world.data(BINARY), b"abc");
    assert!(!world.stands(CANDIDATE));
}

#[test]
fn update_cleans_candidate_after_update_failure() {
    let mut world = update_world("1.0.0", "1.0.0");
    assert!(run_locked(&mut world, public_release("1.0.1")).is_err());
    assert_eq!(world.data(BINARY), b"program");
    assert!(!world.stands(CANDIDATE));

    let mut world = update_world("1.0.1", "1.0.1");
    world.pages.insert(format!("https://example.com/{BINARY_ASSET_NAME}"), b"other".to_vec());
    assert!(run_locked(&mut world, public_release("1.0.1")).is_err());
    assert_eq!(world.data(BINARY), b"program");
    assert!(!world.stands(CANDIDATE));
}

#[test]
fn an_update_tells_where_its_download_broke_off() {
    let sum = format!("https://example.com/{CHECKSUM_ASSET_NAME}");
    for (step, message) in [
        ("get", format!("failed to download {sum}: cut off")),
        ("text", format!("failed to read {sum}: cut off")),
        ("open", format!("failed to open candidate {CANDIDATE}: cut off")),
        ("read", "cut off".to_owned()),
    ] {
        let mut world = update_world("1.0.1", "1.0.1");
        let checksum_url = sum.clone();
        answer_first(&mut world, move |_, request| match (step, request) {
            ("get", Request::Get(url)) if *url == checksum_url => {
                Some(failed(fault(FaultKind::Other, "cut off")))
            }
            ("text", Request::ReadText)
            | ("open", Request::Open(_))
            | ("read", Request::ReadOpened(_)) => Some(failed(fault(FaultKind::Other, "cut off"))),
            _ => None,
        });
        let error = run_locked(&mut world, public_release("1.0.1")).unwrap_err();
        assert_eq!(error.message, message);
        assert_eq!(world.data(BINARY), b"program");
        assert!(!world.stands(CANDIDATE));
    }

    let mut world = update_world("1.0.1", "1.0.1");
    world.pages.insert(sum, b"nothing".to_vec());
    let error = run_locked(&mut world, public_release("1.0.1")).unwrap_err();
    assert_eq!(error.message, "invalid checksum file format");
}

#[test]
fn bytes_that_are_no_text_are_told_by_their_place() {
    const PROBLEM: &str = "invalid utf-8 sequence of 1 bytes from index 2";
    let broken = [b'a', b'b', 0xff, b'c'];
    assert_eq!(inspect_archive(ended(true, &broken)).unwrap_err().full_text(), PROBLEM);
    assert_eq!(
        git_config_value("user.name", ended(true, &broken)).unwrap_err().full_text(),
        PROBLEM
    );
    let seen = HostConditions { glibc: Ok((true, broken.to_vec())), ..good_conditions() };
    assert_eq!(check_host(b"/t/home", &seen).unwrap_err().full_text(), PROBLEM);
    assert_eq!(
        validate_eiyah_binary(b"/t/eiyah", "1.0.0", ended(true, &broken)).unwrap_err().full_text(),
        format!("Eiyah version output is not valid UTF-8: {PROBLEM}")
    );
}

#[test]
fn update_skips_same_or_older_release() {
    let mut world = update_world("1.0.0", "1.0.0");
    let same = Release {
        tag_name: "v1.0.0".to_owned(),
        draft: false,
        prerelease: false,
        assets: Vec::new(),
    };
    run_locked(&mut world, same).unwrap();
    assert_eq!(
        world.shown,
        "==> Checking for Eiyah updates\nCurrent: 1.0.0\nLatest:  1.0.0\n\nEiyah is already up to date.\n"
    );
    let older = Release {
        tag_name: "v0.0.0".to_owned(),
        draft: false,
        prerelease: false,
        assets: Vec::new(),
    };
    run_locked(&mut world, older).unwrap();
    assert!(world.runs.is_empty());
    assert_eq!(world.data(BINARY), b"program");
}

fn asks_for_no_lock(world: &World) -> bool {
    !world.asked.iter().any(|request| matches!(request, Request::Lock(_)))
}

#[test]
fn update_update_locked_core_reuses_existing_lock() {
    let mut world = update_world("1.0.0", "1.0.0");
    let older = Release {
        tag_name: "v0.0.0".to_owned(),
        draft: false,
        prerelease: false,
        assets: Vec::new(),
    };
    run_locked(&mut world, older).unwrap();
    assert!(asks_for_no_lock(&world));
}

#[test]
fn install_update_locked_core_reuses_existing_lock() {
    let mut world = update_world("1.0.1", "1.0.1");
    run_locked(&mut world, public_release("1.0.1")).unwrap();
    assert!(asks_for_no_lock(&world));
}

#[test]
fn update_prepares_candidate_path_safely() {
    let mut world = update_world("1.0.1", "1.0.1");
    world.file(CANDIDATE, b"stale");
    run_locked(&mut world, public_release("1.0.1")).unwrap();
    assert_eq!(world.data(BINARY), b"abc");

    let mut world = update_world("1.0.1", "1.0.1");
    world.link(CANDIDATE, "/t/target");
    assert!(run_locked(&mut world, public_release("1.0.1")).is_err());
    assert_eq!(world.kind(CANDIDATE), FileKind::Symlink);
    assert_eq!(world.data(BINARY), b"program");
}

#[test]
fn reports_invalid_update_installation_information() {
    let mut world = World::new();
    installed_fixture(&mut world, &paths_below("/t"), "/t/home");
    world.file("/t/data/eiyah/install.toml", b"invalid");
    let lookup = drive(&mut world, load_installed_paths(b"/t/home"), Lookup::request, Lookup::advance);
    let message = lookup.outcome_for_update().unwrap().unwrap_err().full_text();
    assert!(message.starts_with("installation information is missing or invalid:"));
    assert!(!message.contains("metadata"));
}

#[test]
fn a_whole_update_takes_the_lock_first() {
    let mut world = update_world("1.0.1", "1.0.1");
    installed_fixture(&mut world, &paths_below("/t"), "/t/home");
    world.asked.clear();
    let mut inner = world.hook.take().unwrap();
    world.hook = Some(Box::new(move |world, request| match request {
        Request::FetchRelease => Some(Reply::Release(public_release("1.0.1"))),
        _ => inner(world, request),
    }));
    let done = drive(&mut world, run_update(b"/t/home"), UpdateRun::request, |run, reply| {
        run.advance("1.0.0", reply)
    });
    assert!(matches!(done, UpdateRun::Completed), "{done:?}");
    assert_eq!(world.data(BINARY), b"abc");
    let lock = world.asked.iter().position(|request| matches!(request, Request::Lock(_))).unwrap();
    let release =
        world.asked.iter().position(|request| matches!(request, Request::FetchRelease)).unwrap();
    assert!(lock < release);
}

// --------------------------------------------------
// The lock
// --------------------------------------------------

/// Takes a lock on a system that keeps exclusive locks.
fn take_lock(locked: &mut Vec<Vec<u8>>, state_home: &[u8]) -> (Vec<LockRequest>, Acquisition) {
    let mut asked = Vec::new();
    let mut acquisition = acquire(state_home);
    loop {
        let request = acquisition.request();
        let reply = match &request {
            LockRequest::Nothing => return (asked, acquisition),
            LockRequest::TryLock(path) if locked.contains(path) => LockReply::Busy,
            LockRequest::TryLock(path) => {
                locked.push(path.clone());
                LockReply::Done
            }
            _ => LockReply::Done,
        };
        asked.push(request);
        acquisition = acquisition.advance(reply);
    }
}

#[test]
fn lock_guard_acquires_expected_lock() {
    let place = lock_place(b"/t/state").unwrap();
    assert_eq!(place.directory, b"/t/state/eiyah");
    assert_eq!(place.file, b"/t/state/eiyah/lock");
    let mut locked = Vec::new();
    let (asked, acquisition) = take_lock(&mut locked, b"/t/state");
    assert!(matches!(acquisition, Acquisition::Held(_)));
    assert_eq!(locked, [bytes("/t/state/eiyah/lock")]);
    assert_eq!(asked.len(), 3);
    assert!(matches!(&asked[0], LockRequest::MakeDirectory(path) if path == b"/t/state/eiyah"));
    assert!(matches!(
        &asked[1],
        LockRequest::OpenFile { path, mode: 0o600 } if path == b"/t/state/eiyah/lock"
    ));
}

#[test]
fn lock_guard_rejects_duplicate_lock() {
    let mut locked = Vec::new();
    let guard = match take_lock(&mut locked, b"/t/state").1 {
        Acquisition::Held(guard) => guard,
        other => panic!("{other:?}"),
    };
    match take_lock(&mut locked, b"/t/state").1 {
        Acquisition::Failed(failure) => {
            assert_eq!(failure.full_text(), "another Eiyah operation is already running.");
        }
        other => panic!("{other:?}"),
    }
    locked.retain(|path| *path != guard.file);
    assert!(matches!(take_lock(&mut locked, b"/t/state").1, Acquisition::Held(_)));
}

#[test]
fn a_lock_needs_a_state_directory_from_the_root() {
    for (state_home, message) in [
        ("", "state home must not be empty"),
        ("state", "state home must be an absolute path: state"),
    ] {
        let (asked, acquisition) = take_lock(&mut Vec::new(), state_home.as_bytes());
        assert!(asked.is_empty());
        match acquisition {
            Acquisition::Failed(failure) => assert_eq!(failure.full_text(), message),
            other => panic!("{other:?}"),
        }
        assert_eq!(lock_place(state_home.as_bytes()).unwrap_err().full_text(), message);
    }
}

#[test]
fn a_lock_that_cannot_be_tried_is_not_held() {
    for steps in 0..3 {
        let mut acquisition = acquire(b"/t/state");
        for _ in 0..steps {
            acquisition = acquisition.advance(LockReply::Done);
        }
        match acquisition.advance(LockReply::Failed(fault(FaultKind::Other, "no locks"))) {
            Acquisition::Failed(failure) => assert_eq!(failure.full_text(), "no locks"),
            other => panic!("{other:?}"),
        }
    }
}

#[test]
fn reports_show_cad_status_config_state() {
    let query = |world: &mut World| {
        let started = run_show_cad_status_enabled(b"/t/home");
        drive(world, started, StatusQuery::request, StatusQuery::advance)
    };
    let mut world = World::new();
    installed_fixture(&mut world, &paths_below("/t"), "/t/home");
    world.file("/t/config/eiyah/config.toml", b"show-cad-status = true\n");
    assert!(matches!(query(&mut world), StatusQuery::Answered(true)));
    world.file("/t/config/eiyah/config.toml", b"show-cad-status = false\n");
    assert!(matches!(query(&mut world), StatusQuery::Answered(false)));
    world.file("/t/config/eiyah/config.toml", b"invalid");
    assert!(matches!(query(&mut world), StatusQuery::Failed(_)));
}

#[test]
fn settings_that_mean_nothing_are_told_by_their_reader() {
    let told = |world: &mut World| {
        let started = run_show_cad_status_enabled(b"/t/home");
        match drive(world, started, StatusQuery::request, StatusQuery::advance) {
            StatusQuery::Failed(failure) => failure.full_text(),
            other => panic!("{other:?}"),
        }
    };
    let mut world = World::new();
    installed_fixture(&mut world, &paths_below("/t"), "/t/home");
    world.file("/t/config/eiyah/config.toml", b"speed = 1\n");
    assert_eq!(
        told(&mut world),
        "failed to parse config: /t/config/eiyah/config.toml: unknown field `speed`"
    );
    world.file("/t/data/eiyah/install.toml", b"speed = 1\n");
    assert_eq!(
        told(&mut world),
        "failed to parse installation metadata: /t/data/eiyah/install.toml: unknown field `speed`"
    );
}

// --------------------------------------------------
// Conditions
// --------------------------------------------------

fn good_conditions() -> HostConditions {
    let program = || {
        Ok(Entry {
            kind: FileKind::Regular,
            mode: 0o755,
            identity: PathIdentity { device: 1, inode: 9 },
        })
    };
    HostConditions {
        os_release: Ok(bytes("ID=\"almalinux\"\nVERSION_ID=\"8.10\"\n")),
        architecture: "x86_64".to_owned(),
        glibc: Ok((true, bytes("glibc 2.28\n"))),
        curl: true,
        ssh: true,
        ssh_keygen: true,
        bash: program(),
        tar: program(),
    }
}

#[test]
fn the_host_has_to_be_supported() {
    check_host(b"/t/home", &good_conditions()).unwrap();
    let cases: [(&str, fn(&mut HostConditions)); 5] = [
        ("Eiyah requires AlmaLinux 8.x", |seen| {
            seen.os_release = Ok(bytes("ID=almalinux\nVERSION_ID=9.1\n"))
        }),
        ("Eiyah requires x86_64", |seen| seen.architecture = "aarch64".to_owned()),
        ("Eiyah requires glibc >= 2.28", |seen| seen.glibc = Ok((true, bytes("glibc 2.17\n")))),
        ("required command is unavailable: curl", |seen| seen.curl = false),
        ("required command is unavailable: ssh-keygen", |seen| seen.ssh_keygen = false),
    ];
    for (message, spoil) in cases {
        let mut seen = good_conditions();
        spoil(&mut seen);
        assert_eq!(check_host(b"/t/home", &seen).unwrap_err().full_text(), message);
    }
    assert!(check_host(b"home", &good_conditions()).is_err());
}

#[test]
fn managed_places_have_to_be_writable() {
    let mut world = World::new();
    world.directories("/t/home");
    let paths = paths_below("/t/home");
    let started = install_preflight(&paths, b"/t/home", &good_conditions());
    let done = drive(&mut world, started, Preflight::request, Preflight::advance);
    assert!(matches!(done, Preflight::Completed), "{done:?}");

    world.hook = Some(Box::new(|_, request| match request {
        Request::CheckAccess(_) => {
            Some(failed(fault(FaultKind::Other, "Permission denied (os error 13)")))
        }
        _ => None,
    }));
    let started = install_preflight(&paths, b"/t/home", &good_conditions());
    let done = drive(&mut world, started, Preflight::request, Preflight::advance);
    assert!(matches!(done, Preflight::Failed(_)));
}

// --------------------------------------------------
// The installation
// --------------------------------------------------

fn private_info() -> PrivateReleaseInfo {
    PrivateReleaseInfo {
        tag_name: "v1.2.3".to_owned(),
        archive_url: "https://example.com/configuration.tar.gz".to_owned(),
        show_cad_status_asset_id: 101,
        show_cad_status_checksum_asset_id: 102,
    }
}

fn workplace() -> Workplace {
    Workplace {
        paths: paths_below("/t"),
        home: bytes("/t/home"),
        core_root: bytes("/t/tmp/core"),
        release: private_info(),
        running: Ok(bytes("/t/running")),
        process: 7,
    }
}

/// Installs everything below `/t`.
fn install(world: &mut World) -> Result<(), UserFacingError> {
    let owned = world.identity("/t/tmp");
    let mut deployment = deploy(workplace(), bytes("/t/tmp"), owned, 100);
    for number in 101..10_000 {
        match deployment.stage {
            Stage::Completed => return Ok(()),
            Stage::Failed(error) => return Err(error),
            _ => {}
        }
        let reply = world.perform(deployment.request());
        deployment = deployment.advance(reply, number);
    }
    panic!("the installation does not end")
}

fn seen_installation(world: &mut World) -> Result<(), Failure> {
    let paths = paths_below("/t");
    let started = installation_survey(&paths, b"/t/home");
    let seen = drive(world, started, Survey::request, Survey::advance);
    validate_seen_installation(&paths, b"/t/home", seen)
}

#[test]
fn displays_initial_install_transcript() {
    let mut world = good_host();
    install(&mut world).unwrap();
    assert_eq!(
        world.shown,
        "\n==> Installing Eiyah\n/t/home/.local/bin/eiyah\n\n==> Installing Pixi\n/t/data/eiyah/pixi\n\n==> Syncing packages\n\n==> Configuring shell and Git\n/t/home/.dotfiles\nInstalling dotfiles.\nLinking configuration files.\n\n==> Installing show-cad-status\nv1.2.3\nhttps://api.github.com/repos/su-ito-lab/eiyah-core/releases/assets/101\n/t/home/.local/bin/show-cad-status\n\n==> Verifying show-cad-status download\nSHA-256: verified\n\n==> Creating Eiyah config\n/t/config/eiyah/config.toml\n\n==> Verifying installation\n\n==> Eiyah installation complete\n"
    );
    assert!(!world.stands("/t/tmp"));
    assert!(world.warnings.is_empty());
}

#[test]
fn validates_completed_installation() {
    let mut world = good_host();
    install(&mut world).unwrap();
    seen_installation(&mut world).unwrap();
    world.file("/t/config/eiyah/config.toml", b"show-cad-status = false\n");
    assert_eq!(
        seen_installation(&mut world).unwrap_err().full_text(),
        "initial config must enable show-cad-status"
    );
}

#[test]
fn what_was_installed_can_be_removed_again() {
    let mut world = good_host();
    world.file("/t/home/.cshrc", b"mine");
    let before: Vec<Vec<u8>> = world.names(b"/t/home");
    install(&mut world).unwrap();
    assert_eq!(world.kind("/t/home/.cshrc"), FileKind::Symlink);
    assert_eq!(world.data("/t/state/eiyah/backup/home/.cshrc"), b"mine");
    world.file("/t/state/eiyah/lock", b"");
    uninstall(&mut world, "/t/plan").unwrap();
    assert_eq!(world.data("/t/home/.cshrc"), b"mine");
    let after: Vec<Vec<u8>> = world.names(b"/t/home");
    assert!(before.iter().all(|name| after.contains(name)));
    assert!(!world.stands(PIXI) && !world.stands("/t/home/.dotfiles"));
}

#[test]
fn a_failed_installation_is_undone_completely() {
    let mut world = good_host();
    world.file("/t/home/.cshrc", b"mine");
    let before: Vec<Vec<u8>> =
        world.nodes.keys().filter(|path| !path.starts_with(b"/t/tmp")).cloned().collect();
    answer_first(&mut world, |_, request| match request {
        Request::ReadConfig(path) if path.as_slice() == b"/t/config/eiyah/config.toml" => {
            Some(failed(fault(FaultKind::Other, "injected failure")))
        }
        _ => None,
    });
    let error = install(&mut world).unwrap_err();
    assert!(error.message.contains("injected failure"), "{}", error.message);
    assert!(error.warnings.is_empty(), "{:?}", error.warnings);
    assert_eq!(world.data("/t/home/.cshrc"), b"mine");
    for path in before {
        assert!(world.nodes.contains_key(&path), "{}", String::from_utf8_lossy(&path));
    }
    for path in [BINARY, PIXI, "/t/home/.dotfiles", "/t/config/eiyah", "/t/home/.local", "/t/tmp"] {
        assert!(!world.stands(path), "{path}");
    }
}

#[test]
fn what_cannot_be_undone_is_told() {
    let mut world = good_host();
    answer_first(&mut world, |_, request| match request {
        Request::Run(program) if program.executable.ends_with(b"/stow") => {
            Some(ended(false, b""))
        }
        Request::RemoveTree(path) if path.as_slice() == b"/t/tmp" => {
            Some(failed(fault(FaultKind::Other, "busy")))
        }
        Request::RemoveFile(path) if path.as_slice() == BINARY.as_bytes() => {
            Some(failed(fault(FaultKind::Other, "busy")))
        }
        _ => None,
    });
    let error = install(&mut world).unwrap_err();
    assert_eq!(
        error.warnings,
        [
            "Eiyah could not fully restore the previous system state.",
            "failed to remove temporary files: busy",
        ]
    );
    assert!(!world.stands(PIXI));
    assert!(world.stands(BINARY));
}

fn removals(world: &World, path: &str) -> usize {
    let asked = |request: &&Request| {
        matches!(request, Request::RemoveTree(found) if found.as_slice() == path.as_bytes())
    };
    world.asked.iter().filter(asked).count()
}

#[test]
fn temporary_files_are_removed_at_the_second_attempt() {
    let mut world = good_host();
    let mut attempts = 0;
    answer_first(&mut world, move |_, request| match request {
        Request::RemoveTree(path) if path.as_slice() == b"/t/tmp" => {
            attempts += 1;
            (attempts == 1).then_some(failed(fault(FaultKind::Other, "busy")))
        }
        _ => None,
    });
    install(&mut world).unwrap();
    assert_eq!(world.warnings, ["failed to remove temporary files: busy"]);
    assert!(!world.stands("/t/tmp"));
    assert_eq!(removals(&world, "/t/tmp"), 2);

    let mut world = good_host();
    install(&mut world).unwrap();
    assert!(world.warnings.is_empty());
    assert_eq!(removals(&world, "/t/tmp"), 1);
}

#[test]
fn temporary_files_that_stay_are_only_a_warning() {
    let mut world = good_host();
    answer_first(&mut world, |_, request| match request {
        Request::RemoveTree(path) if path.as_slice() == b"/t/tmp" => {
            Some(failed(fault(FaultKind::Other, "busy")))
        }
        _ => None,
    });
    install(&mut world).unwrap();
    assert_eq!(world.warnings, ["failed to remove temporary files: busy"]);
    assert_eq!(removals(&world, "/t/tmp"), 2);
    seen_installation(&mut world).unwrap();
}

#[test]
fn the_program_that_runs_has_to_be_known() {
    let mut world = good_host();
    let owned = world.identity("/t/tmp");
    let place = Workplace { running: Err("no such process".to_owned()), ..workplace() };
    let mut deployment = deploy(place, bytes("/t/tmp"), owned, 100);
    let error = loop {
        match deployment.stage {
            Stage::Failed(error) => break error,
            Stage::Completed => panic!("nothing was installed"),
            _ => {}
        }
        let reply = world.perform(deployment.request());
        deployment = deployment.advance(reply, 101);
    };
    assert_eq!(error.message, "failed to resolve running Eiyah executable: no such process");
    assert!(!world.stands("/t/data/eiyah") && !world.stands("/t/tmp"));
}

fn private_release() -> PrivateReleaseResponse {
    let asset = |name: &str, id: u64| PrivateReleaseAsset { name: name.to_owned(), id };
    PrivateReleaseResponse {
        tag_name: "v1.2.3".to_owned(),
        draft: false,
        prerelease: false,
        assets: vec![
            asset(SHOW_CAD_STATUS_ASSET_NAME, 101),
            asset(SHOW_CAD_STATUS_CHECKSUM_ASSET_NAME, 102),
        ],
    }
}

fn travel(world: &mut World) -> FlowPhase {
    let supplies = Supplies {
        paths: paths_below("/t"),
        home: bytes("/t/home"),
        user: Some(bytes("tester")),
        running: Ok(bytes("/t/running")),
        process: 7,
    };
    let mut journey = begin_journey(supplies, 100);
    for number in 101..10_000 {
        if matches!(journey.stage, JourneyStage::Over) {
            return journey.flow.phase;
        }
        let reply = world.perform(journey.request());
        journey = journey.advance(reply, number);
    }
    panic!("the way does not end")
}

const TARBALL: &str = "https://api.github.com/repos/su-ito-lab/eiyah-core/tarball/v1.2.3";

#[test]
fn the_way_ends_with_everything_installed() {
    let mut world = good_host();
    world.remove("/t/tmp");
    world.pages.insert(TARBALL.to_owned(), b"archive".to_vec());
    answer_first(&mut world, |_, request| match request {
        Request::Authorize => Some(Reply::Done),
        Request::FetchPrivateRelease => Some(Reply::PrivateRelease(private_release())),
        _ => None,
    });
    assert!(matches!(travel(&mut world), FlowPhase::Completed));
    let opening = format!(
        "\n==> Authorizing with GitHub\nAuthorization complete.\n\n==> Downloading configuration\nv1.2.3\n{TARBALL}\n\n==> Extracting configuration\n\n==> Setting up SSH\nGenerated ED25519 SSH key"
    );
    assert_eq!(&world.shown[..opening.len()], opening);
    assert!(world.shown.ends_with("\n==> Eiyah installation complete\n"));
    seen_installation(&mut world).unwrap();
    assert!(world.names(b"/t/state/eiyah/tmp").is_empty());
}

#[test]
fn a_way_that_fails_leaves_nothing_unpacked() {
    let mut world = good_host();
    world.pages.insert(TARBALL.to_owned(), b"archive".to_vec());
    answer_first(&mut world, |_, request| match request {
        Request::Authorize => Some(Reply::Done),
        Request::FetchPrivateRelease => Some(Reply::PrivateRelease(private_release())),
        Request::Run(program) | Request::Capture(program)
            if program.executable.ends_with(b"ssh-keygen") =>
        {
            Some(failed(fault(FaultKind::Other, "injected failure")))
        }
        _ => None,
    });
    match travel(&mut world) {
        FlowPhase::Failed(error) => assert!(error.message.contains("injected failure")),
        other => panic!("{other:?}"),
    }
    assert!(world.stands("/t/state/eiyah/tmp"));
    assert!(world.names(b"/t/state/eiyah/tmp").is_empty());
    assert!(!world.stands(BINARY));
}

#[test]
fn a_directory_of_someone_else_is_left_alone_on_the_way() {
    for breaks in [false, true] {
        let mut world = good_host();
        world.pages.insert(TARBALL.to_owned(), b"archive".to_vec());
        let mut met: Option<String> = None;
        answer_first(&mut world, move |world, request| match request {
            Request::Authorize => Some(Reply::Done),
            Request::FetchPrivateRelease => Some(Reply::PrivateRelease(private_release())),
            Request::MakeDirectory { path, .. }
                if met.is_none() && path.starts_with(b"/t/state/eiyah/tmp/install-7-") =>
            {
                let path = String::from_utf8(path.clone()).unwrap();
                world.file(&format!("{path}/theirs"), b"theirs");
                met = Some(path);
                None
            }
            Request::Run(program) | Request::Capture(program)
                if breaks && program.executable.ends_with(b"ssh-keygen") =>
            {
                Some(failed(fault(FaultKind::Other, "injected failure")))
            }
            _ => None,
        });
        assert_eq!(matches!(travel(&mut world), FlowPhase::Completed), !breaks);
        let left = world.names(b"/t/state/eiyah/tmp");
        assert_eq!(left.len(), 1);
        let left = String::from_utf8(left[0].clone()).unwrap();
        assert_eq!(world.data(&format!("/t/state/eiyah/tmp/{left}/theirs")), b"theirs");
    }
}

#[test]
fn a_configuration_that_is_not_known_ends_the_way() {
    for (kind, message) in [
        (FaultKind::Other, "failed to fetch latest configuration release: trouble"),
        (FaultKind::InvalidData, "failed to parse latest configuration release response: trouble"),
    ] {
        let mut world = good_host();
        answer_first(&mut world, move |_, request| match request {
            Request::Authorize => Some(Reply::Done),
            Request::FetchPrivateRelease => Some(failed(fault(kind, "trouble"))),
            _ => None,
        });
        match travel(&mut world) {
            FlowPhase::Failed(error) => assert_eq!(error.message, message),
            other => panic!("{other:?}"),
        }
    }
    let mut world = good_host();
    answer_first(&mut world, |_, request| match request {
        Request::Authorize => Some(failed(fault(FaultKind::Other, "access was denied"))),
        _ => None,
    });
    match travel(&mut world) {
        FlowPhase::Failed(error) => assert_eq!(error.message, "access was denied"),
        other => panic!("{other:?}"),
    }
}

#[test]
fn a_host_reports_what_its_programs_say() {
    let mut world = good_host();
    install(&mut world).unwrap();
    let paths = paths_below("/t");
    let seen = drive(&mut world, report_survey(&paths), Survey::request, Survey::advance);
    let report = host_report(Some(bytes("/bin/tcsh")), seen).unwrap();
    assert_eq!(report.pixi.as_deref(), Some("pixi 0.50.0"));
    assert_eq!(report.zsh.as_deref(), Some("zsh 5.9"));
    assert_eq!(report.login_shell.as_deref(), Some("/bin/tcsh"));
    assert_eq!(report.bash.as_deref(), Some("GNU bash, version 4.4.20"));
    assert_eq!(report.curl.as_deref(), Some("curl 7.61.1 (x86_64)"));
    assert_eq!(report.os.as_deref(), Some("AlmaLinux 8.10"));
    assert_eq!(report.kernel.as_deref(), Some("4.18.0"));
    assert_eq!(report.architecture.as_deref(), Some("x86_64"));
    assert_eq!(report.host_glibc.as_deref(), Some("glibc 2.28"));
    assert!(host_report(None, report_survey(&paths)).is_none());
}

#[test]
fn a_new_installation_is_healthy() {
    let mut world = good_host();
    install(&mut world).unwrap();
    let (home, paths) = (bytes("/t/home"), paths_below("/t"));
    let examine = |world: &mut World| {
        let started = diagnosis_survey(&Some(home.clone()), &Some(paths.clone()));
        let seen = drive(world, started, Survey::request, Survey::advance);
        diagnose(Ok(home.clone()), Ok(paths.clone()), Some(bytes("/bin/tcsh")), seen).unwrap()
    };
    assert_eq!(examine(&mut world), Vec::<String>::new());
    world.remove("/t/home/.dotfiles");
    assert_eq!(examine(&mut world).len(), 1);
    let seen = drive(&mut world, diagnosis_survey(&None, &None), Survey::request, Survey::advance);
    let issues = diagnose(Err("HOME is not set".to_owned()), Err(String::new()), None, seen).unwrap();
    assert_eq!(issues[0], "HOME is unavailable: HOME is not set");
}

#[test]
fn rolls_back_actions_before_archive_cleanup_on_install_failure() {
    let mut world = World::new();
    world.file("/t/managed/artifact", b"artifact");
    let mut transaction = Transaction::new();
    transaction.record(created(&world, "/t/managed"));
    transaction.record(created(&world, "/t/managed/artifact"));
    let rollback = roll_back(&mut world, &mut transaction);
    assert!(!world.stands("/t/managed"));
    let error = complete_install_transaction(
        Err(Failure::plain("install validation failed")),
        rollback,
        Ok(()),
    )
    .unwrap_err();
    assert_eq!(write_error_report(&error, false), "Error: install validation failed\n");
}

#[test]
fn rolls_back_prior_stow_package_after_later_failure() {
    let mut world = World::new();
    let mut transaction = Transaction::new();
    transaction.record(stowed("git"));
    roll_back(&mut world, &mut transaction).unwrap();
    assert_eq!(world.runs[0].arguments[5], b"git");
}

#[test]
fn applies_validation_commit_and_cleanup_boundaries() {
    let mut world = World::new();
    world.file("/t/committed", b"committed");
    let mut transaction = Transaction::new();
    transaction.record(created(&world, "/t/committed"));
    assert!(settle(&mut transaction, true).is_none());
    roll_back(&mut world, &mut transaction).unwrap();
    assert!(world.stands("/t/committed"));
    let warning =
        complete_install_transaction(Ok(()), Ok(()), Err(Failure::plain("archive cleanup failed")))
            .unwrap();
    assert_eq!(
        warning.as_deref(),
        Some("failed to remove temporary files: archive cleanup failed")
    );
}

#[test]
fn reports_install_residual_state() {
    let mut world = World::new();
    world.file("/t/replaced", b"owned");
    let mut transaction = Transaction::new();
    transaction.record(created(&world, "/t/replaced"));
    world.rename("/t/replaced", "/t/original");
    world.file("/t/replaced", b"replacement");
    let rollback = roll_back(&mut world, &mut transaction);
    let result = match complete_install_transaction(
        Err(Failure::plain("installation failed")),
        rollback,
        Ok(()),
    ) {
        Ok(_) => Ok(()),
        Err(error) => Err(error),
    };
    let error =
        add_ssh_residual_warning(result, SshSetupResult::Generated { authorization_added: true })
            .unwrap_err();
    assert_eq!(
        write_error_report(&error, false),
        "Error: installation failed\nWarning: Eiyah could not fully restore the previous system state.\nWarning: SSH changes made during setup were not reverted.\n"
    );
}

#[test]
fn rolls_back_backup_after_detail_output_failure() {
    let mut world = good_host();
    world.file("/t/home/.dotfiles/mine", b"original");
    answer_first(&mut world, |_, request| match request {
        Request::Detail(text) if text.starts_with("Backed up: ") => {
            Some(failed(fault(FaultKind::Other, "output failed")))
        }
        _ => None,
    });
    assert_eq!(install(&mut world).unwrap_err().message, "output failed");
    assert_eq!(world.data("/t/home/.dotfiles/mine"), b"original");
    assert!(!world.stands("/t/state/eiyah/backup/home/.dotfiles"));
    assert_eq!(parse_backup_index(&world.data(INDEX)).unwrap(), Vec::<Vec<u8>>::new());
}

#[test]
fn the_way_to_the_installation_keeps_its_order() {
    let mut flow = install_not_installed_flow(b"/home/tester");
    let mut seen = Vec::new();
    loop {
        let reply = match flow.next_act() {
            None => break,
            Some(FlowAct::Heading(text)) | Some(FlowAct::Detail(text)) => {
                seen.push(text);
                FlowReply::Done
            }
            Some(FlowAct::Authorize) => {
                seen.push("authorize".to_owned());
                FlowReply::Done
            }
            Some(FlowAct::Release) => FlowReply::Released(private_info()),
            Some(FlowAct::Archive(url)) => {
                seen.push(format!("archive {url}"));
                FlowReply::Done
            }
            Some(FlowAct::Ssh) => {
                FlowReply::Ready(SshSetupResult::Generated { authorization_added: true })
            }
            Some(FlowAct::Report(text)) => {
                assert!(text.starts_with("Generated ED25519 SSH key"));
                FlowReply::Done
            }
            Some(FlowAct::Install) => FlowReply::Failed(UserFacingError::from_failure(
                &Failure::plain("installation failed"),
            )),
        };
        flow = flow.advance(reply);
    }
    assert_eq!(
        seen,
        [
            "Authorizing with GitHub",
            "authorize",
            "Authorization complete.",
            "Downloading configuration",
            "v1.2.3",
            "https://example.com/configuration.tar.gz",
            "archive https://example.com/configuration.tar.gz",
            "Setting up SSH",
        ]
    );
    match flow.phase {
        FlowPhase::Failed(error) => assert_eq!(
            write_error_report(&error, false),
            "Error: installation failed\nWarning: SSH changes made during setup were not reverted.\n"
        ),
        other => panic!("{other:?}"),
    }
}

#[test]
fn rolls_back_prepared_pixi_after_sync_failure() {
    let mut world = pixi_world();
    pixi_programs(&mut world, true, false);
    let started = prepare_pixi(&paths_below("/t"), b"/t/core");
    let setup = drive(&mut world, started, PixiSetup::request, PixiSetup::advance);
    let identity = match setup.phase {
        PixiPhase::Completed(identity) => identity,
        other => panic!("{other:?}"),
    };
    let mut transaction = Transaction::new();
    transaction.record(Action::Created { path: bytes(PIXI), identity, recursive: true });
    let program = pixi_sync_command(&bytes("/t/pixi"), PIXI.as_bytes(), b"/t/home");
    let synced = sync_pixi(world.perform(Request::Run(program)));
    assert!(synced.is_err());
    let rollback = roll_back(&mut world, &mut transaction);
    assert!(!world.stands(PIXI));
    let error = complete_install_transaction(synced, rollback, Ok(())).unwrap_err();
    assert!(error.message.starts_with("pixi global sync failed"));
}

#[test]
fn inspects_and_extracts_private_archive() {
    let mut world = World::new();
    world.directories("/t");
    world.hook = Some(Box::new(|world, request| match request {
        Request::Run(program) => {
            world.runs.push(program.copy());
            world.file("/t/core/dotfiles/config", b"content");
            Some(ended(true, b""))
        }
        _ => None,
    }));
    assert_eq!(inspect_archive(ended(true, LISTING.as_bytes())).unwrap(), b"release-root");
    world.script(extract_private_archive(b"/t/valid.tar.gz", b"/t/core")).unwrap();
    assert_eq!(world.data("/t/core/dotfiles/config"), b"content");
    assert_eq!(world.mode("/t/core"), 0o700);
    assert_eq!(world.runs[0].executable, TAR_PATH.as_bytes());
    assert_eq!(
        world.runs[0].arguments,
        [
            "-xzf",
            "/t/valid.tar.gz",
            "-C",
            "/t/core",
            "--strip-components=1",
            "--no-same-owner",
            "--no-same-permissions",
        ]
        .map(bytes)
    );
    let with_link = format!(
        "{LISTING}lrwxrwxrwx root/root 0 2026-01-01 00:00 release-root/dotfiles/link -> config\n"
    );
    assert!(inspect_archive(ended(true, with_link.as_bytes())).is_err());
}

#[test]
fn discover_install_metadata_accepts_normal_and_broken_symlinks() {
    let mut world = World::new();
    world.program("/t/prefix/bin/eiyah");
    world.link("/t/normal-eiyah", "/t/prefix/bin/eiyah");
    world.link("/t/broken-eiyah", "/t/broken-prefix/bin/eiyah");
    for (entry, metadata) in [
        ("/t/normal-eiyah", "/t/prefix/install.toml"),
        ("/t/broken-eiyah", "/t/broken-prefix/install.toml"),
    ] {
        let entry = entry.as_bytes();
        let found = discover_install_metadata(entry, world.read_link(entry)).unwrap();
        assert_eq!(found, metadata.as_bytes());
    }
}

#[test]
fn discover_install_metadata_rejects_invalid_entry_points() {
    let mut world = World::new();
    world.file("/t/regular", b"not a symlink");
    world.link("/t/relative", "prefix/bin/eiyah");
    world.link("/t/wrong-shape", "/t/prefix/eiyah");
    for entry in ["/t/missing", "/t/regular", "/t/relative", "/t/wrong-shape"] {
        let entry = entry.as_bytes();
        assert!(discover_install_metadata(entry, world.read_link(entry)).is_err());
    }
}

#[test]
fn preserves_replaced_install_metadata_temporary_file() {
    let mut world = World::new();
    world.directories("/t/data/eiyah");
    let mut temporary = Vec::new();
    world.hook = Some(Box::new(move |world, request| {
        match request {
            Request::CreateFile { path, .. } => temporary = path.clone(),
            Request::SyncOpen(_) => {
                let name = String::from_utf8(temporary.clone()).unwrap();
                world.remove(&name);
                world.file(&name, b"concurrent temporary");
            }
            _ => {}
        }
        None
    }));
    let save = create_install_metadata(&paths_below("/t"), 7, 1).unwrap();
    assert!(world.save(save).is_err());
    assert!(!world.stands("/t/data/eiyah/install.toml"));
    let names = world.names(b"/t/data/eiyah");
    assert_eq!(names.len(), 1);
    let kept = format!("/t/data/eiyah/{}", String::from_utf8(names[0].clone()).unwrap());
    assert_eq!(world.data(&kept), b"concurrent temporary");
}

#[test]
fn install_skips_same_or_older_release() {
    for version in ["1.0.0", "0.9.9"] {
        let mut world = update_world("1.0.0", "1.0.0");
        run_locked(&mut world, public_release(version)).unwrap();
        assert!(world.runs.is_empty());
        assert_eq!(world.data(BINARY), b"program");
        assert!(!world.stands(CANDIDATE));
    }
}

#[test]
fn install_rejects_unstable_release_response() {
    for (draft, prerelease) in [(true, false), (false, true)] {
        let release =
            Release { tag_name: "v1.2.3".to_owned(), draft, prerelease, assets: Vec::new() };
        assert!(validate_release_version(&release).is_err());
    }
}

#[test]
fn downloads_need_a_secure_address() {
    assert!(download_text("http://example.com/sum").is_err());
    assert!(matches!(
        download_text("https://example.com/sum").unwrap(),
        Request::Get(url) if url == "https://example.com/sum"
    ));
    assert_eq!(
        download_to_file("ftp://example.com/binary", b"/t/binary").unwrap_err().full_text(),
        "Release asset URL must use HTTPS: ftp://example.com/binary"
    );
    assert_eq!(
        began_download("https://example.com/sum", failed(fault(FaultKind::Other, "no route")))
            .unwrap_err()
            .full_text(),
        "failed to download https://example.com/sum: no route"
    );
    assert!(began_download("https://example.com/sum", Reply::Done).is_ok());
    assert_eq!(
        downloaded_text("https://example.com/sum", failed(fault(FaultKind::Other, "cut off")))
            .unwrap_err()
            .full_text(),
        "failed to read https://example.com/sum: cut off"
    );
    assert_eq!(
        downloaded_text("https://example.com/sum", Reply::Text("text".to_owned())).unwrap(),
        "text"
    );
}

#[test]
fn a_kept_installation_is_found_again() {
    let mut world = World::new();
    let paths = paths_below("/t");
    installed_fixture(&mut world, &paths, "/t/home");
    let lookup =
        drive(&mut world, load_installed_paths(b"/t/home"), Lookup::request, Lookup::advance);
    let found = lookup.outcome().unwrap().unwrap();
    assert!(found.same_as(&paths));
    assert_eq!(found.pixi_home, paths.pixi_home);
}
