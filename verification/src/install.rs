//! The first installation, step by step.

use crate::bytes::{copy_bytes, views};
use crate::config::ResolvedPaths;
use crate::failure::{about, message_at, Failure};
use crate::host::copy_all;
use crate::paths::{has_parent, join_text, parent, parent_of, under};
use crate::private_release::{asset_address, private_asset_url, PrivateReleaseInfo};
use crate::script::unanswered;
use crate::ssh::{add_ssh_residual_warning, setup_report, write_ssh_setup, SshSetupResult};
use crate::text::{add_text, concat, lossy_text, show_bytes, texts};
use crate::transaction::{Action, PathIdentity, Rollback, Transaction};
use crate::ui::{plain_error, UserFacingError};
use vstd::prelude::*;

verus! {

/// What the installation does through operations of its own.
#[derive(Clone, Copy, Debug, PartialEq, Eq, Structural)]
pub enum Job {
    /// The running program is copied.
    Binary,
    /// The command is linked to it.
    Entry,
    /// Pixi is synchronized with its manifest.
    Sync,
    /// The configuration is looked at.
    Source,
    /// The directory of the backup is created.
    BackupRoot,
    /// The dotfiles are copied.
    Dotfiles,
    /// The identity of the user is written.
    Git,
    /// The start file of the shell is looked at.
    Cshrc,
    /// The status program is downloaded.
    Status,
    /// Its command is linked to it.
    StatusEntry,
    /// The installation is checked.
    Verify,
}

/// A file that is published.
#[derive(Clone, Copy, Debug, PartialEq, Eq, Structural)]
pub enum Publishing {
    Metadata,
    Config,
}

/// A step of the installation.
#[derive(Debug)]
pub enum Act {
    Heading(String),
    Detail(String),
    Warning(String),
    /// Directories are created.
    Directories(Vec<u8>),
    /// What stands at this path is recorded as created.
    Record { path: Vec<u8>, recursive: bool },
    Do(Job),
    Publish { what: Publishing, path: Vec<u8> },
    /// Pixi is prepared.
    Pixi,
    /// An entry is moved into the backup, where there is one.
    Backup(Vec<u8>),
    /// The packages are searched for.
    Packages,
    /// What stands in the way of these packages is searched for.
    Conflicts(Vec<Vec<u8>>),
    /// A package is linked.
    Stow(Vec<u8>),
    /// The installation cannot go on.
    Refuse(String),
}

/// A step of the installation.
pub enum Deed {
    Heading(Seq<char>),
    Detail(Seq<char>),
    Warning(Seq<char>),
    Directories(Seq<u8>),
    Record { path: Seq<u8>, recursive: bool },
    Do(Job),
    Publish { what: Publishing, path: Seq<u8> },
    Pixi,
    Backup(Seq<u8>),
    Packages,
    Conflicts(Seq<Seq<u8>>),
    Stow(Seq<u8>),
    Refuse(Seq<char>),
}

impl View for Act {
    type V = Deed;

    open spec fn view(&self) -> Deed {
        match self {
            Act::Heading(text) => Deed::Heading(text@),
            Act::Detail(text) => Deed::Detail(text@),
            Act::Warning(text) => Deed::Warning(text@),
            Act::Directories(path) => Deed::Directories(path@),
            Act::Record { path, recursive } => Deed::Record { path: path@, recursive: *recursive },
            Act::Do(job) => Deed::Do(*job),
            Act::Publish { what, path } => Deed::Publish { what: *what, path: path@ },
            Act::Pixi => Deed::Pixi,
            Act::Backup(path) => Deed::Backup(path@),
            Act::Packages => Deed::Packages,
            Act::Conflicts(packages) => Deed::Conflicts(views(packages@)),
            Act::Stow(package) => Deed::Stow(package@),
            Act::Refuse(words) => Deed::Refuse(words@),
        }
    }
}

/// The steps, in order.
pub open spec fn deeds(acts: Seq<Act>) -> Seq<Deed> {
    acts.map_values(|act: Act| act@)
}

/// What was moved into the backup.
#[derive(Debug)]
pub struct BackupRecord {
    pub from: Vec<u8>,
    pub to: Vec<u8>,
    pub index: Vec<u8>,
    pub entry: Vec<u8>,
    /// Why temporary files are still there.
    pub cleanup_error: Option<String>,
}

/// What a step came back with.
#[derive(Debug)]
pub enum StepReply {
    Done,
    /// These directories were created.
    Made(Vec<Vec<u8>>),
    /// This stands there.
    Found(PathIdentity),
    /// A file was published; why temporary files are still there.
    Published(Option<String>),
    /// This was moved into the backup.
    Moved(Option<BackupRecord>),
    /// These were found.
    Names(Vec<Vec<u8>>),
    Failed(Failure),
}

/// A change that was recorded.
pub enum Change {
    Created { path: Seq<u8>, identity: PathIdentity, recursive: bool },
    Moved { from: Seq<u8>, to: Seq<u8> },
    BackedUp { from: Seq<u8>, to: Seq<u8>, index: Seq<u8>, entry: Seq<u8> },
    Stowed { package: Seq<char>, executable: Seq<u8>, dir: Seq<u8>, target: Seq<u8> },
}

/// What a recorded change holds.
pub open spec fn change_of(action: Action) -> Change {
    match action {
        Action::Created { path, identity, recursive } => Change::Created {
            path: path@,
            identity,
            recursive,
        },
        Action::Moved { from, to } => Change::Moved { from: from@, to: to@ },
        Action::BackedUp { from, to, index, entry } => Change::BackedUp {
            from: from@,
            to: to@,
            index: index@,
            entry: entry@,
        },
        Action::Stowed { package, executable, dir, target } => Change::Stowed {
            package: package@,
            executable: executable@,
            dir: dir@,
            target: target@,
        },
    }
}

/// What recorded changes hold, in order.
pub open spec fn changes_of(actions: Seq<Action>) -> Seq<Change> {
    actions.map_values(|action: Action| change_of(action))
}

// --------------------------------------------------
// The plan
// --------------------------------------------------

/// The steps up to the program itself.
pub open spec fn program_plan(paths: ResolvedPaths, home: Seq<u8>) -> Seq<Deed> {
    let prefix = paths.eiyah_prefix@;
    let entry = under(home, ".local/bin/eiyah"@);
    seq![
        Deed::Directories(prefix),
        Deed::Directories(under(prefix, "bin"@)),
        Deed::Directories(under(home, ".local/bin"@)),
        Deed::Heading("Installing Eiyah"@),
        Deed::Detail(lossy_text(entry)),
        Deed::Do(Job::Binary),
        Deed::Record { path: under(prefix, "bin/eiyah"@), recursive: false },
        Deed::Do(Job::Entry),
        Deed::Record { path: entry, recursive: false },
        Deed::Publish { what: Publishing::Metadata, path: under(prefix, "install.toml"@) },
    ]
}

/// The steps for Pixi and the dotfiles.
pub open spec fn environment_plan(paths: ResolvedPaths, home: Seq<u8>) -> Seq<Deed> {
    let dotfiles = under(home, ".dotfiles"@);
    seq![
        Deed::Heading("Installing Pixi"@),
        Deed::Detail(lossy_text(paths.pixi_home@)),
        Deed::Pixi,
        Deed::Heading("Syncing packages"@),
        Deed::Do(Job::Sync),
        Deed::Heading("Configuring shell and Git"@),
        Deed::Detail(lossy_text(dotfiles)),
        Deed::Do(Job::Source),
        Deed::Do(Job::BackupRoot),
        Deed::Backup(dotfiles),
        Deed::Do(Job::Dotfiles),
        Deed::Detail("Installing dotfiles."@),
        Deed::Record { path: dotfiles, recursive: true },
        Deed::Do(Job::Git),
        Deed::Packages,
        Deed::Do(Job::Cshrc),
    ]
}

/// The steps for the status program.
pub open spec fn status_plan(paths: ResolvedPaths, home: Seq<u8>, release: PrivateReleaseInfo) -> Seq<
    Deed,
> {
    let entry = under(home, ".local/bin/show-cad-status"@);
    seq![
        Deed::Heading("Installing show-cad-status"@),
        Deed::Detail(release.tag_name@),
        Deed::Detail(asset_address(release.show_cad_status_asset_id)),
        Deed::Detail(lossy_text(entry)),
        Deed::Do(Job::Status),
        Deed::Heading("Verifying show-cad-status download"@),
        Deed::Detail("SHA-256: verified"@),
        Deed::Record {
            path: under(paths.eiyah_prefix@, "bin/show-cad-status"@),
            recursive: false,
        },
        Deed::Do(Job::StatusEntry),
        Deed::Record { path: entry, recursive: false },
    ]
}

/// The steps for the settings of the user, and the end.
pub open spec fn closing_plan(paths: ResolvedPaths) -> Seq<Deed> {
    let config = paths.eiyah_config@;
    seq![
        if has_parent(config) {
            Deed::Directories(parent_of(config))
        } else {
            Deed::Refuse("config path has no parent"@)
        },
        Deed::Heading("Creating Eiyah config"@),
        Deed::Detail(lossy_text(config)),
        Deed::Publish { what: Publishing::Config, path: config },
        Deed::Heading("Verifying installation"@),
        Deed::Do(Job::Verify),
        Deed::Heading("Eiyah installation complete"@),
    ]
}

/// All steps that are known from the beginning, in order.
pub open spec fn install_plan(paths: ResolvedPaths, home: Seq<u8>, release: PrivateReleaseInfo) -> Seq<
    Deed,
> {
    program_plan(paths, home) + environment_plan(paths, home) + status_plan(paths, home, release)
        + closing_plan(paths)
}

fn add_act(acts: &mut Vec<Act>, act: Act)
    ensures
        deeds(final(acts)@) == deeds(old(acts)@).push(act@),
        final(acts)@ == old(acts)@.push(act),
{
    acts.push(act);
    assert(deeds(acts@) =~= deeds(old(acts)@).push(act@));
}

fn no_acts() -> (acts: Vec<Act>)
    ensures
        deeds(acts@) == Seq::<Deed>::empty(),
        acts@.len() == 0,
{
    let acts: Vec<Act> = Vec::new();
    assert(deeds(acts@) =~= Seq::<Deed>::empty());
    acts
}

fn add_program_part(acts: &mut Vec<Act>, paths: &ResolvedPaths, home: &[u8])
    ensures
        deeds(final(acts)@) == deeds(old(acts)@) + program_plan(*paths, home@),
{
    let prefix = &paths.eiyah_prefix;
    let entry = join_text(home, ".local/bin/eiyah");
    add_act(acts, Act::Directories(copy_bytes(prefix)));
    add_act(acts, Act::Directories(join_text(prefix, "bin")));
    add_act(acts, Act::Directories(join_text(home, ".local/bin")));
    add_act(acts, Act::Heading("Installing Eiyah".to_owned()));
    add_act(acts, Act::Detail(show_bytes(&entry)));
    add_act(acts, Act::Do(Job::Binary));
    add_act(acts, Act::Record { path: join_text(prefix, "bin/eiyah"), recursive: false });
    add_act(acts, Act::Do(Job::Entry));
    add_act(acts, Act::Record { path: entry, recursive: false });
    add_act(
        acts,
        Act::Publish { what: Publishing::Metadata, path: join_text(prefix, "install.toml") },
    );
    assert(deeds(acts@) =~= deeds(old(acts)@) + program_plan(*paths, home@));
}

fn add_environment_part(acts: &mut Vec<Act>, paths: &ResolvedPaths, home: &[u8])
    ensures
        deeds(final(acts)@) == deeds(old(acts)@) + environment_plan(*paths, home@),
{
    let dotfiles = join_text(home, ".dotfiles");
    add_act(acts, Act::Heading("Installing Pixi".to_owned()));
    add_act(acts, Act::Detail(show_bytes(&paths.pixi_home)));
    add_act(acts, Act::Pixi);
    add_act(acts, Act::Heading("Syncing packages".to_owned()));
    add_act(acts, Act::Do(Job::Sync));
    add_act(acts, Act::Heading("Configuring shell and Git".to_owned()));
    add_act(acts, Act::Detail(show_bytes(&dotfiles)));
    add_act(acts, Act::Do(Job::Source));
    add_act(acts, Act::Do(Job::BackupRoot));
    add_act(acts, Act::Backup(copy_bytes(&dotfiles)));
    add_act(acts, Act::Do(Job::Dotfiles));
    add_act(acts, Act::Detail("Installing dotfiles.".to_owned()));
    add_act(acts, Act::Record { path: dotfiles, recursive: true });
    add_act(acts, Act::Do(Job::Git));
    add_act(acts, Act::Packages);
    add_act(acts, Act::Do(Job::Cshrc));
    assert(deeds(acts@) =~= deeds(old(acts)@) + environment_plan(*paths, home@));
}

fn add_status_part(
    acts: &mut Vec<Act>,
    paths: &ResolvedPaths,
    home: &[u8],
    release: &PrivateReleaseInfo,
)
    ensures
        deeds(final(acts)@) == deeds(old(acts)@) + status_plan(*paths, home@, *release),
{
    let entry = join_text(home, ".local/bin/show-cad-status");
    add_act(acts, Act::Heading("Installing show-cad-status".to_owned()));
    add_act(acts, Act::Detail(release.tag_name.clone()));
    add_act(acts, Act::Detail(private_asset_url(release.show_cad_status_asset_id)));
    add_act(acts, Act::Detail(show_bytes(&entry)));
    add_act(acts, Act::Do(Job::Status));
    add_act(acts, Act::Heading("Verifying show-cad-status download".to_owned()));
    add_act(acts, Act::Detail("SHA-256: verified".to_owned()));
    add_act(
        acts,
        Act::Record {
            path: join_text(&paths.eiyah_prefix, "bin/show-cad-status"),
            recursive: false,
        },
    );
    add_act(acts, Act::Do(Job::StatusEntry));
    add_act(acts, Act::Record { path: entry, recursive: false });
    assert(deeds(acts@) =~= deeds(old(acts)@) + status_plan(*paths, home@, *release));
}

fn add_closing_part(acts: &mut Vec<Act>, paths: &ResolvedPaths)
    ensures
        deeds(final(acts)@) == deeds(old(acts)@) + closing_plan(*paths),
{
    match parent(&paths.eiyah_config) {
        Some(above) => add_act(acts, Act::Directories(above)),
        None => add_act(acts, Act::Refuse("config path has no parent".to_owned())),
    }
    add_act(acts, Act::Heading("Creating Eiyah config".to_owned()));
    add_act(acts, Act::Detail(show_bytes(&paths.eiyah_config)));
    add_act(
        acts,
        Act::Publish { what: Publishing::Config, path: copy_bytes(&paths.eiyah_config) },
    );
    add_act(acts, Act::Heading("Verifying installation".to_owned()));
    add_act(acts, Act::Do(Job::Verify));
    add_act(acts, Act::Heading("Eiyah installation complete".to_owned()));
    assert(deeds(acts@) =~= deeds(old(acts)@) + closing_plan(*paths));
}

// --------------------------------------------------
// The installation
// --------------------------------------------------

/// How far the installation has come.
#[derive(Debug)]
pub enum InstallPhase {
    Working,
    Completed,
    Failed(Failure),
}

/// The installation: the steps that are left, the next one last, and what was recorded
/// so far.
#[derive(Debug)]
pub struct Installation {
    pub home: Vec<u8>,
    pub pixi_home: Vec<u8>,
    pub acts: Vec<Act>,
    pub transaction: Transaction,
    pub phase: InstallPhase,
}

/// How far the installation has come.
pub enum Standing {
    Working,
    Completed,
    Failed(Seq<char>),
}

/// The state of the installation.
pub struct Progression {
    pub home: Seq<u8>,
    pub pixi_home: Seq<u8>,
    /// The steps that are left, in order.
    pub queue: Seq<Deed>,
    /// What was recorded, in order.
    pub changes: Seq<Change>,
    pub standing: Standing,
}

impl View for Installation {
    type V = Progression;

    open spec fn view(&self) -> Progression {
        Progression {
            home: self.home@,
            pixi_home: self.pixi_home@,
            queue: deeds(self.acts@).reverse(),
            changes: changes_of(self.transaction@),
            standing: match self.phase {
                InstallPhase::Working => Standing::Working,
                InstallPhase::Completed => Standing::Completed,
                InstallPhase::Failed(failure) => Standing::Failed(failure.line()),
            },
        }
    }
}

/// The steps that record directories as created.
pub open spec fn record_deeds(paths: Seq<Seq<u8>>) -> Seq<Deed> {
    paths.map_values(|path: Seq<u8>| Deed::Record { path, recursive: false })
}

/// The steps that move entries into the backup.
pub open spec fn backup_deeds(paths: Seq<Seq<u8>>) -> Seq<Deed> {
    paths.map_values(|path: Seq<u8>| Deed::Backup(path))
}

/// The steps that link packages.
pub open spec fn stow_deeds(packages: Seq<Seq<u8>>) -> Seq<Deed> {
    packages.map_values(|package: Seq<u8>| Deed::Stow(package))
}

/// The warning that temporary files are still there.
pub open spec fn leftover_deeds(error: Option<String>) -> Seq<Deed> {
    match error {
        Some(error) => seq![Deed::Warning("failed to remove temporary files: "@ + error@)],
        None => Seq::empty(),
    }
}

impl Progression {
    /// The next step.
    pub open spec fn next(self) -> Option<Deed> {
        if self.standing is Working && self.queue.len() > 0 {
            Some(self.queue[0])
        } else {
            None
        }
    }

    /// The installation goes on with these steps before those that are left.
    pub open spec fn goes_on(self, first: Seq<Deed>) -> Progression {
        let queue = first + self.queue.drop_first();
        Progression {
            queue,
            standing: if queue.len() == 0 {
                Standing::Completed
            } else {
                Standing::Working
            },
            ..self
        }
    }

    /// A change is recorded.
    pub open spec fn recorded(self, change: Change) -> Progression {
        Progression { changes: self.changes.push(change), ..self }
    }

    pub open spec fn failed(self, words: Seq<char>) -> Progression {
        Progression { standing: Standing::Failed(words), ..self }
    }

    /// The installation after what its next step came back with. What was created is
    /// recorded before anything else is done, and a failure ends the installation with
    /// everything recorded that was made.
    pub open spec fn after(self, reply: StepReply) -> Progression {
        match self.next() {
            None => self,
            Some(deed) => match (deed, reply) {
                (Deed::Refuse(words), _) => self.failed(words),
                (_, StepReply::Failed(failure)) => self.failed(failure.line()),
                (Deed::Heading(_), StepReply::Done) | (Deed::Detail(_), StepReply::Done) | (
                    Deed::Warning(_),
                    StepReply::Done,
                ) | (Deed::Do(_), StepReply::Done) => self.goes_on(Seq::empty()),
                (Deed::Directories(_), StepReply::Made(paths)) => self.goes_on(
                    record_deeds(views(paths@)),
                ),
                (Deed::Record { path, recursive }, StepReply::Found(identity)) => self.recorded(
                    Change::Created { path, identity, recursive },
                ).goes_on(Seq::empty()),
                (Deed::Publish { path, .. }, StepReply::Published(error)) => self.goes_on(
                    seq![Deed::Record { path, recursive: false }] + leftover_deeds(error),
                ),
                (Deed::Pixi, StepReply::Found(identity)) => self.recorded(
                    Change::Created { path: self.pixi_home, identity, recursive: true },
                ).goes_on(Seq::empty()),
                (Deed::Backup(_), StepReply::Moved(None)) => self.goes_on(Seq::empty()),
                (Deed::Backup(_), StepReply::Moved(Some(record))) => self.recorded(
                    Change::BackedUp {
                        from: record.from@,
                        to: record.to@,
                        index: record.index@,
                        entry: record.entry@,
                    },
                ).goes_on(
                    seq![Deed::Detail(about("Backed up: "@, record.from@))] + leftover_deeds(
                        record.cleanup_error,
                    ),
                ),
                (Deed::Packages, StepReply::Names(packages)) => self.goes_on(
                    seq![
                        Deed::Conflicts(views(packages@)),
                        Deed::Detail("Linking configuration files."@),
                    ] + stow_deeds(views(packages@)),
                ),
                (Deed::Conflicts(_), StepReply::Names(conflicts)) => self.goes_on(
                    backup_deeds(views(conflicts@)),
                ),
                (Deed::Stow(package), StepReply::Done) => self.recorded(
                    Change::Stowed {
                        package: lossy_text(package),
                        executable: under(self.pixi_home, "bin/stow"@),
                        dir: under(self.home, ".dotfiles"@),
                        target: self.home,
                    },
                ).goes_on(Seq::empty()),
                _ => self.failed(unanswered()),
            },
        }
    }
}

/// Turns the order of steps round.
fn turn_round(acts: Vec<Act>) -> (turned: Vec<Act>)
    ensures
        turned@ == acts@.reverse(),
        deeds(turned@) == deeds(acts@).reverse(),
{
    let mut acts = acts;
    let ghost all = acts@;
    let mut turned: Vec<Act> = Vec::new();
    assert(turned@ + acts@.reverse() =~= all.reverse());
    while acts.len() > 0
        invariant
            turned@ + acts@.reverse() == all.reverse(),
        decreases acts@.len(),
    {
        let ghost before = acts@;
        let ghost done = turned@;
        match acts.pop() {
            Some(act) => {
                turned.push(act);
                assert(before.reverse() =~= seq![act] + acts@.reverse());
                assert(turned@ + acts@.reverse() =~= done + before.reverse());
            },
            None => {},
        }
    }
    assert(turned@ =~= all.reverse());
    assert(deeds(turned@) =~= deeds(all).reverse());
    turned
}

/// Begins the installation.
pub fn install_not_installed(paths: &ResolvedPaths, home: &[u8], release: &PrivateReleaseInfo) -> (
installation: Installation)
    ensures
        installation@ == (Progression {
            home: home@,
            pixi_home: paths.pixi_home@,
            queue: install_plan(*paths, home@, *release),
            changes: Seq::empty(),
            standing: Standing::Working,
        }),
{
    let mut acts = no_acts();
    add_program_part(&mut acts, paths, home);
    add_environment_part(&mut acts, paths, home);
    add_status_part(&mut acts, paths, home, release);
    add_closing_part(&mut acts, paths);
    let ghost plan = deeds(acts@);
    assert(plan =~= install_plan(*paths, home@, *release));
    let acts = turn_round(acts);
    let transaction = Transaction::new();
    assert(changes_of(transaction@) =~= Seq::<Change>::empty());
    assert(plan.reverse().reverse() =~= plan);
    Installation {
        home: copy_bytes(home),
        pixi_home: copy_bytes(&paths.pixi_home),
        acts,
        transaction,
        phase: InstallPhase::Working,
    }
}

/// What is done with each of several paths.
#[derive(Clone, Copy, PartialEq, Eq, Structural)]
enum Repeated {
    Record,
    Backup,
    Stow,
}

/// Steps for each of these paths.
fn acts_for(paths: &Vec<Vec<u8>>, kind: Repeated) -> (acts: Vec<Act>)
    ensures
        kind == Repeated::Record ==> deeds(acts@) == record_deeds(views(paths@)),
        kind == Repeated::Backup ==> deeds(acts@) == backup_deeds(views(paths@)),
        kind == Repeated::Stow ==> deeds(acts@) == stow_deeds(views(paths@)),
{
    let mut acts = no_acts();
    let ghost all = views(paths@);
    let mut index: usize = 0;
    while index < paths.len()
        invariant
            index <= paths.len(),
            all == views(paths@),
            all.len() == paths@.len(),
            kind == Repeated::Record ==> deeds(acts@) =~= record_deeds(all.take(index as int)),
            kind == Repeated::Backup ==> deeds(acts@) =~= backup_deeds(all.take(index as int)),
            kind == Repeated::Stow ==> deeds(acts@) =~= stow_deeds(all.take(index as int)),
        decreases paths.len() - index,
    {
        let path = copy_bytes(&paths[index]);
        assert(all.take(index + 1) =~= all.take(index as int).push(path@));
        let act = match kind {
            Repeated::Record => Act::Record { path, recursive: false },
            Repeated::Backup => Act::Backup(path),
            Repeated::Stow => Act::Stow(path),
        };
        add_act(&mut acts, act);
        index = index + 1;
    }
    assert(all.take(index as int) =~= all);
    acts
}

fn add_leftover(acts: &mut Vec<Act>, error: &Option<String>)
    ensures
        deeds(final(acts)@) == deeds(old(acts)@) + leftover_deeds(*error),
{
    match error {
        Some(error) => {
            add_act(acts, Act::Warning(concat("failed to remove temporary files: ", error)));
            assert(deeds(acts@) =~= deeds(old(acts)@) + leftover_deeds(Some(*error)));
        },
        None => {
            assert(deeds(acts@) =~= deeds(old(acts)@) + leftover_deeds(None));
        },
    }
}

impl Installation {
    /// The next step.
    pub fn next_act(&self) -> (act: Option<&Act>)
        ensures
            match act {
                Some(act) => self@.next() == Some(act@),
                None => self@.next() is None,
            },
    {
        let ghost queue = self@.queue;
        assert(queue.len() == self.acts@.len());
        match &self.phase {
            InstallPhase::Working => {
                if self.acts.len() == 0 {
                    return None;
                }
                let act = &self.acts[self.acts.len() - 1];
                assert(queue[0] == act@);
                Some(act)
            },
            _ => None,
        }
    }

    /// The next step is taken out, and these steps come before those that are left.
    fn go_on(self, first: Vec<Act>) -> (next: Installation)
        requires
            self.acts@.len() > 0,
        ensures
            next@ == self@.goes_on(deeds(first@)),
    {
        let ghost queue = self@.queue;
        let ghost before = self.acts@;
        let Installation { home, pixi_home, acts, transaction, phase } = self;
        let mut acts = acts;
        acts.pop();
        let mut added = turn_round(first);
        let ghost rest = acts@;
        acts.append(&mut added);
        proof {
            assert(acts@ =~= rest + first@.reverse());
            assert(deeds(acts@).reverse() =~= deeds(first@) + deeds(before).reverse().drop_first());
            assert(deeds(acts@).reverse().len() == acts@.len());
        }
        let phase = if acts.len() == 0 {
            InstallPhase::Completed
        } else {
            InstallPhase::Working
        };
        Installation { home, pixi_home, acts, transaction, phase }
    }

    fn record(self, action: Action) -> (next: Installation)
        ensures
            next@ == self@.recorded(change_of(action)),
            next.acts == self.acts,
    {
        let Installation { home, pixi_home, acts, transaction, phase } = self;
        let mut transaction = transaction;
        let ghost before = transaction@;
        transaction.record(action);
        assert(changes_of(transaction@) =~= changes_of(before).push(change_of(action)));
        Installation { home, pixi_home, acts, transaction, phase }
    }

    fn fail(self, failure: Failure) -> (next: Installation)
        ensures
            next@ == self@.failed(failure.line()),
    {
        Installation {
            home: self.home,
            pixi_home: self.pixi_home,
            acts: self.acts,
            transaction: self.transaction,
            phase: InstallPhase::Failed(failure),
        }
    }

    /// Goes on with what the next step came back with.
    #[verifier::rlimit(80)]
    pub fn advance(self, reply: StepReply) -> (next: Installation)
        ensures
            next@ == self@.after(reply),
    {
        let ghost state = self@;
        assert(state.queue.len() == self.acts@.len());
        match &self.phase {
            InstallPhase::Working => {},
            _ => {
                return self;
            },
        }
        if self.acts.len() == 0 {
            return self;
        }
        let act = &self.acts[self.acts.len() - 1];
        assert(state.queue[0] == act@);
        let ghost deed = act@;
        match act {
            Act::Refuse(words) => {
                let failure = Failure::plain(words);
                return self.fail(failure);
            },
            _ => {},
        }
        match reply {
            StepReply::Failed(failure) => self.fail(failure),
            StepReply::Done => match act {
                Act::Heading(_) => self.go_on(no_acts()),
                Act::Detail(_) => self.go_on(no_acts()),
                Act::Warning(_) => self.go_on(no_acts()),
                Act::Do(_) => self.go_on(no_acts()),
                Act::Stow(package) => {
                    let action = Action::Stowed {
                        package: show_bytes(package),
                        executable: join_text(&self.pixi_home, "bin/stow"),
                        dir: join_text(&self.home, ".dotfiles"),
                        target: copy_bytes(&self.home),
                    };
                    self.record(action).go_on(no_acts())
                },
                _ => self.fail(Failure::plain("unexpected reply")),
            },
            StepReply::Made(paths) => match act {
                Act::Directories(_) => self.go_on(acts_for(&paths, Repeated::Record)),
                _ => self.fail(Failure::plain("unexpected reply")),
            },
            StepReply::Found(identity) => match act {
                Act::Record { path, recursive } => {
                    let action = Action::Created {
                        path: copy_bytes(path),
                        identity,
                        recursive: *recursive,
                    };
                    self.record(action).go_on(no_acts())
                },
                Act::Pixi => {
                    let action = Action::Created {
                        path: copy_bytes(&self.pixi_home),
                        identity,
                        recursive: true,
                    };
                    self.record(action).go_on(no_acts())
                },
                _ => self.fail(Failure::plain("unexpected reply")),
            },
            StepReply::Published(error) => match act {
                Act::Publish { path, .. } => {
                    let mut first = no_acts();
                    add_act(&mut first, Act::Record { path: copy_bytes(path), recursive: false });
                    add_leftover(&mut first, &error);
                    assert(deeds(first@) =~= seq![
                        Deed::Record { path: path@, recursive: false },
                    ] + leftover_deeds(error));
                    self.go_on(first)
                },
                _ => self.fail(Failure::plain("unexpected reply")),
            },
            StepReply::Moved(moved) => match act {
                Act::Backup(_) => match moved {
                    None => self.go_on(no_acts()),
                    Some(record) => {
                        let BackupRecord { from, to, index, entry, cleanup_error } = record;
                        let mut first = no_acts();
                        add_act(
                            &mut first,
                            Act::Detail(message_at("Backed up: ", &from)),
                        );
                        add_leftover(&mut first, &cleanup_error);
                        assert(deeds(first@) =~= seq![
                            Deed::Detail(about("Backed up: "@, from@)),
                        ] + leftover_deeds(cleanup_error));
                        self.record(Action::BackedUp { from, to, index, entry }).go_on(first)
                    },
                },
                _ => self.fail(Failure::plain("unexpected reply")),
            },
            StepReply::Names(names) => match act {
                Act::Packages => {
                    let mut first = no_acts();
                    let mut links = acts_for(&names, Repeated::Stow);
                    let ghost stows = links@;
                    add_act(&mut first, Act::Conflicts(copy_all(&names)));
                    add_act(&mut first, Act::Detail("Linking configuration files.".to_owned()));
                    let ghost begun = first@;
                    first.append(&mut links);
                    assert(deeds(first@) =~= deeds(begun) + deeds(stows));
                    assert(deeds(first@) =~= seq![
                        Deed::Conflicts(views(names@)),
                        Deed::Detail("Linking configuration files."@),
                    ] + stow_deeds(views(names@)));
                    self.go_on(first)
                },
                Act::Conflicts(_) => self.go_on(acts_for(&names, Repeated::Backup)),
                _ => self.fail(Failure::plain("unexpected reply")),
            },
        }
    }
}

/// What was recorded stays recorded, whatever happens later, and at most one change is
/// recorded at a time; a failure keeps everything that was recorded.
pub proof fn what_was_made_stays_recorded(state: Progression, reply: StepReply)
    ensures
        state.changes.is_prefix_of(state.after(reply).changes),
        state.after(reply).changes.len() <= state.changes.len() + 1,
        state.after(reply).standing is Failed ==> state.after(reply).changes == state.changes,
{
}

/// Directories that were created are recorded before anything else is done, each with
/// what stands there.
pub proof fn created_directories_are_recorded(state: Progression, paths: Vec<Vec<u8>>)
    requires
        state.next() is Some,
        state.next()->0 is Directories,
    ensures
        state.after(StepReply::Made(paths)).queue == record_deeds(views(paths@))
            + state.queue.drop_first(),
        forall|i: int|
            0 <= i < paths@.len() ==> #[trigger] record_deeds(views(paths@))[i] == (Deed::Record {
                path: paths@[i]@,
                recursive: false,
            }),
{
}

/// The installation is complete only when no step is left.
pub proof fn a_complete_installation_has_done_everything(state: Progression, reply: StepReply)
    requires
        state.standing is Working,
        state.queue.len() > 0,
    ensures
        state.after(reply).standing is Completed ==> state.after(reply).queue.len() == 0,
        state.after(reply).standing is Working ==> state.after(reply).queue.len() > 0,
{
}

// --------------------------------------------------
// The end
// --------------------------------------------------

/// Keeps what was recorded where the installation has succeeded; otherwise gives back
/// what has to be undone, the latest change first.
pub fn settle(transaction: &mut Transaction, succeeded: bool) -> (rollback: Option<Rollback>)
    ensures
        final(transaction)@.len() == 0,
        succeeded ==> rollback is None,
        !succeeded ==> rollback is Some && rollback->0.pending() == old(transaction)@.reverse()
            && rollback->0.errors().len() == 0,
{
    if succeeded {
        transaction.commit();
        None
    } else {
        Some(transaction.rollback())
    }
}

/// The warnings behind a failed installation.
pub open spec fn install_warnings(rollback: Result<(), Failure>, cleanup: Result<(), Failure>) -> Seq<
    Seq<char>,
> {
    (if rollback is Err {
        seq!["Eiyah could not fully restore the previous system state."@]
    } else {
        Seq::empty()
    }) + (match cleanup {
        Err(failure) => seq!["failed to remove temporary files: "@ + failure.line()],
        Ok(()) => Seq::empty(),
    })
}

/// Whether this came of the installation: a success, perhaps with a warning, or its
/// error, with warnings of what could not be undone.
pub open spec fn completed_with(
    install: Result<(), Failure>,
    rollback: Result<(), Failure>,
    cleanup: Result<(), Failure>,
    result: Result<Option<String>, UserFacingError>,
) -> bool {
    match install {
        Ok(()) => match cleanup {
            Ok(()) => result == Ok::<Option<String>, UserFacingError>(None),
            Err(failure) => result is Ok && result->Ok_0 is Some && result->Ok_0->0@
                == "failed to remove temporary files: "@ + failure.line(),
        },
        Err(failure) => {
            &&& result is Err
            &&& result->Err_0.message@ == failure.line()
            &&& texts(result->Err_0.warnings@) == install_warnings(rollback, cleanup)
            &&& result->Err_0.hints@.len() == 0
        },
    }
}

/// What came of the installation. The temporary files are removed either way.
pub fn complete_install_transaction(
    install: Result<(), Failure>,
    rollback: Result<(), Failure>,
    cleanup: Result<(), Failure>,
) -> (result: Result<Option<String>, UserFacingError>)
    ensures
        completed_with(install, rollback, cleanup, result),
{
    match install {
        Ok(()) => match cleanup {
            Ok(()) => Ok(None),
            Err(failure) => Ok(
                Some(concat("failed to remove temporary files: ", &failure.full_text())),
            ),
        },
        Err(failure) => {
            let mut warnings: Vec<String> = Vec::new();
            assert(texts(warnings@) =~= Seq::<Seq<char>>::empty());
            if rollback.is_err() {
                add_text(
                    &mut warnings,
                    "Eiyah could not fully restore the previous system state.".to_owned(),
                );
            }
            match &cleanup {
                Ok(()) => {},
                Err(left) => add_text(
                    &mut warnings,
                    concat("failed to remove temporary files: ", &left.full_text()),
                ),
            }
            assert(texts(warnings@) =~= install_warnings(rollback, cleanup));
            Err(UserFacingError { message: failure.full_text(), warnings, hints: Vec::new() })
        },
    }
}

// --------------------------------------------------
// What comes before
// --------------------------------------------------

/// A step on the way to the installation.
#[derive(Debug)]
pub enum FlowAct {
    Heading(String),
    Detail(String),
    /// The user authorizes the program.
    Authorize,
    /// The latest configuration is asked for.
    Release,
    /// The configuration is downloaded from this address.
    Archive(String),
    /// The key of the user is set up.
    Ssh,
    /// What came of it is shown.
    Report(String),
    /// The environment is installed.
    Install,
}

/// A step on the way to the installation.
pub enum FlowDeed {
    Heading(Seq<char>),
    Detail(Seq<char>),
    Authorize,
    Release,
    Archive(Seq<char>),
    Ssh,
    Report(Seq<char>),
    Install,
}

impl View for FlowAct {
    type V = FlowDeed;

    open spec fn view(&self) -> FlowDeed {
        match self {
            FlowAct::Heading(text) => FlowDeed::Heading(text@),
            FlowAct::Detail(text) => FlowDeed::Detail(text@),
            FlowAct::Authorize => FlowDeed::Authorize,
            FlowAct::Release => FlowDeed::Release,
            FlowAct::Archive(url) => FlowDeed::Archive(url@),
            FlowAct::Ssh => FlowDeed::Ssh,
            FlowAct::Report(text) => FlowDeed::Report(text@),
            FlowAct::Install => FlowDeed::Install,
        }
    }
}

/// What such a step came back with.
#[derive(Debug)]
pub enum FlowReply {
    Done,
    Released(PrivateReleaseInfo),
    Ready(SshSetupResult),
    Failed(UserFacingError),
}

/// How far the way to the installation has come.
#[derive(Debug)]
pub enum FlowPhase {
    /// The program is authorized.
    Heading,
    Authorizing,
    Authorized,
    /// The latest configuration is asked for.
    Releasing,
    /// The configuration is announced and downloaded.
    Announcing(PrivateReleaseInfo),
    Tagging(PrivateReleaseInfo),
    Locating(PrivateReleaseInfo),
    Downloading(PrivateReleaseInfo),
    /// The key of the user is set up.
    Preparing(PrivateReleaseInfo),
    Connecting(PrivateReleaseInfo),
    Reporting { release: PrivateReleaseInfo, ssh: SshSetupResult },
    /// The environment is installed.
    Installing { release: PrivateReleaseInfo, ssh: SshSetupResult },
    Completed,
    Failed(UserFacingError),
}

/// The way to the installation.
#[derive(Debug)]
pub struct InstallFlow {
    pub home: Vec<u8>,
    pub phase: FlowPhase,
}

/// Begins the way to the installation.
pub fn install_not_installed_flow(home: &[u8]) -> (flow: InstallFlow)
    ensures
        flow.home@ == home@,
        flow.phase is Heading,
{
    InstallFlow { home: copy_bytes(home), phase: FlowPhase::Heading }
}

impl InstallFlow {
    pub open spec fn next(&self) -> Option<FlowDeed> {
        match self.phase {
            FlowPhase::Heading => Some(FlowDeed::Heading("Authorizing with GitHub"@)),
            FlowPhase::Authorizing => Some(FlowDeed::Authorize),
            FlowPhase::Authorized => Some(FlowDeed::Detail("Authorization complete."@)),
            FlowPhase::Releasing => Some(FlowDeed::Release),
            FlowPhase::Announcing(_) => Some(FlowDeed::Heading("Downloading configuration"@)),
            FlowPhase::Tagging(release) => Some(FlowDeed::Detail(release.tag_name@)),
            FlowPhase::Locating(release) => Some(FlowDeed::Detail(release.archive_url@)),
            FlowPhase::Downloading(release) => Some(FlowDeed::Archive(release.archive_url@)),
            FlowPhase::Preparing(_) => Some(FlowDeed::Heading("Setting up SSH"@)),
            FlowPhase::Connecting(_) => Some(FlowDeed::Ssh),
            FlowPhase::Reporting { ssh, .. } => Some(
                FlowDeed::Report(setup_report(self.home@, ssh)),
            ),
            FlowPhase::Installing { .. } => Some(FlowDeed::Install),
            FlowPhase::Completed => None,
            FlowPhase::Failed(_) => None,
        }
    }

    /// Whether an error was reported: once the key of the user was set up, with the
    /// warning that this stays.
    pub open spec fn reported(&self, error: UserFacingError, next: FlowPhase) -> bool {
        let changed = match self.phase {
            FlowPhase::Reporting { ssh, .. } => ssh.has_changed(),
            FlowPhase::Installing { ssh, .. } => ssh.has_changed(),
            _ => false,
        };
        if changed {
            &&& next is Failed
            &&& next->Failed_0.message == error.message
            &&& next->Failed_0.warnings@.len() == error.warnings@.len() + 1
            &&& next->Failed_0.warnings@.drop_last() == error.warnings@
            &&& next->Failed_0.warnings@.last()@
                == "SSH changes made during setup were not reverted."@
            &&& next->Failed_0.hints == error.hints
        } else {
            next == FlowPhase::Failed(error)
        }
    }

    /// What follows a reply. The steps come one after the other, and the first one that
    /// fails ends the way.
    pub open spec fn follows(&self, reply: FlowReply, next: FlowPhase) -> bool {
        match (self.phase, reply) {
            (FlowPhase::Completed, _) | (FlowPhase::Failed(_), _) => next == self.phase,
            (_, FlowReply::Failed(error)) => self.reported(error, next),
            (FlowPhase::Heading, FlowReply::Done) => next is Authorizing,
            (FlowPhase::Authorizing, FlowReply::Done) => next is Authorized,
            (FlowPhase::Authorized, FlowReply::Done) => next is Releasing,
            (FlowPhase::Releasing, FlowReply::Released(release)) => next
                == FlowPhase::Announcing(release),
            (FlowPhase::Announcing(release), FlowReply::Done) => next
                == FlowPhase::Tagging(release),
            (FlowPhase::Tagging(release), FlowReply::Done) => next == FlowPhase::Locating(release),
            (FlowPhase::Locating(release), FlowReply::Done) => next
                == FlowPhase::Downloading(release),
            (FlowPhase::Downloading(release), FlowReply::Done) => next
                == FlowPhase::Preparing(release),
            (FlowPhase::Preparing(release), FlowReply::Done) => next
                == FlowPhase::Connecting(release),
            (FlowPhase::Connecting(release), FlowReply::Ready(ssh)) => next
                == (FlowPhase::Reporting { release, ssh }),
            (FlowPhase::Reporting { release, ssh }, FlowReply::Done) => next
                == (FlowPhase::Installing { release, ssh }),
            (FlowPhase::Installing { .. }, FlowReply::Done) => next is Completed,
            _ => next is Failed && plain_error(next->Failed_0, unanswered()),
        }
    }

    /// The next step.
    pub fn next_act(&self) -> (act: Option<FlowAct>)
        ensures
            match act {
                Some(act) => self.next() == Some(act@),
                None => self.next() is None,
            },
    {
        match &self.phase {
            FlowPhase::Heading => Some(FlowAct::Heading("Authorizing with GitHub".to_owned())),
            FlowPhase::Authorizing => Some(FlowAct::Authorize),
            FlowPhase::Authorized => Some(FlowAct::Detail("Authorization complete.".to_owned())),
            FlowPhase::Releasing => Some(FlowAct::Release),
            FlowPhase::Announcing(_) => Some(
                FlowAct::Heading("Downloading configuration".to_owned()),
            ),
            FlowPhase::Tagging(release) => Some(FlowAct::Detail(release.tag_name.clone())),
            FlowPhase::Locating(release) => Some(FlowAct::Detail(release.archive_url.clone())),
            FlowPhase::Downloading(release) => Some(FlowAct::Archive(release.archive_url.clone())),
            FlowPhase::Preparing(_) => Some(FlowAct::Heading("Setting up SSH".to_owned())),
            FlowPhase::Connecting(_) => Some(FlowAct::Ssh),
            FlowPhase::Reporting { ssh, .. } => Some(
                FlowAct::Report(write_ssh_setup(&self.home, *ssh)),
            ),
            FlowPhase::Installing { .. } => Some(FlowAct::Install),
            FlowPhase::Completed => None,
            FlowPhase::Failed(_) => None,
        }
    }

    /// Goes on with a reply.
    pub fn advance(self, reply: FlowReply) -> (next: InstallFlow)
        ensures
            next.home == self.home,
            self.follows(reply, next.phase),
    {
        let InstallFlow { home, phase } = self;
        let next = match reply {
            FlowReply::Failed(error) => match phase {
                FlowPhase::Completed => FlowPhase::Completed,
                FlowPhase::Failed(earlier) => FlowPhase::Failed(earlier),
                FlowPhase::Reporting { ssh, .. } => warned(error, ssh),
                FlowPhase::Installing { ssh, .. } => warned(error, ssh),
                _ => FlowPhase::Failed(error),
            },
            FlowReply::Done => match phase {
                FlowPhase::Heading => FlowPhase::Authorizing,
                FlowPhase::Authorizing => FlowPhase::Authorized,
                FlowPhase::Authorized => FlowPhase::Releasing,
                FlowPhase::Announcing(release) => FlowPhase::Tagging(release),
                FlowPhase::Tagging(release) => FlowPhase::Locating(release),
                FlowPhase::Locating(release) => FlowPhase::Downloading(release),
                FlowPhase::Downloading(release) => FlowPhase::Preparing(release),
                FlowPhase::Preparing(release) => FlowPhase::Connecting(release),
                FlowPhase::Reporting { release, ssh } => FlowPhase::Installing { release, ssh },
                FlowPhase::Installing { .. } => FlowPhase::Completed,
                FlowPhase::Completed => FlowPhase::Completed,
                FlowPhase::Failed(error) => FlowPhase::Failed(error),
                FlowPhase::Releasing => unexpected(),
                FlowPhase::Connecting(_) => unexpected(),
            },
            FlowReply::Released(release) => match phase {
                FlowPhase::Releasing => FlowPhase::Announcing(release),
                FlowPhase::Completed => FlowPhase::Completed,
                FlowPhase::Failed(error) => FlowPhase::Failed(error),
                _ => unexpected(),
            },
            FlowReply::Ready(ssh) => match phase {
                FlowPhase::Connecting(release) => FlowPhase::Reporting { release, ssh },
                FlowPhase::Completed => FlowPhase::Completed,
                FlowPhase::Failed(error) => FlowPhase::Failed(error),
                _ => unexpected(),
            },
        };
        InstallFlow { home, phase: next }
    }
}

fn unexpected() -> (phase: FlowPhase)
    ensures
        phase is Failed,
        plain_error(phase->Failed_0, unanswered()),
{
    FlowPhase::Failed(UserFacingError::from_failure(&Failure::plain("unexpected reply")))
}

fn warned(error: UserFacingError, ssh: SshSetupResult) -> (phase: FlowPhase)
    ensures
        phase is Failed,
        ssh.has_changed() ==> {
            &&& phase->Failed_0.message == error.message
            &&& phase->Failed_0.warnings@.len() == error.warnings@.len() + 1
            &&& phase->Failed_0.warnings@.drop_last() == error.warnings@
            &&& phase->Failed_0.warnings@.last()@
                == "SSH changes made during setup were not reverted."@
            &&& phase->Failed_0.hints == error.hints
        },
        !ssh.has_changed() ==> phase->Failed_0 == error,
{
    match add_ssh_residual_warning(Err(error), ssh) {
        Err(error) => FlowPhase::Failed(error),
        Ok(()) => FlowPhase::Completed,
    }
}

/// A failure behind a setup that has changed something always says that the changes
/// stay; the environment is installed only once everything before has succeeded.
pub proof fn residual_changes_are_told(flow: InstallFlow, reply: FlowReply, next: FlowPhase)
    requires
        flow.follows(reply, next),
    ensures
        (flow.phase is Installing && flow.phase->Installing_ssh.has_changed() && reply is Failed) ==> {
            &&& next is Failed
            &&& next->Failed_0.warnings@.len() > 0
            &&& next->Failed_0.warnings@.last()@
                == "SSH changes made during setup were not reverted."@
        },
        next is Installing && !(flow.phase is Installing) ==> flow.phase is Reporting && reply
            is Done,
        next is Completed && !(flow.phase is Completed) ==> flow.phase is Installing && reply
            is Done,
{
}

/// Whether this reply to this deed has changed the system.
pub open spec fn has_changed_something(deed: Deed, reply: StepReply) -> bool {
    match reply {
        StepReply::Found(_) => deed is Record || deed is Pixi,
        StepReply::Moved(moved) => deed is Backup && moved is Some,
        StepReply::Done => deed is Stow,
        _ => false,
    }
}

/// Every change is recorded, and nothing else is: what was created with its identity,
/// what was backed up with where it came from and where it went, and what was linked.
pub proof fn every_change_is_recorded(state: Progression, reply: StepReply)
    requires
        state.next() is Some,
    ensures
        ({
            let deed = state.next()->0;
            let after = state.after(reply);
            let last = after.changes.last();
            &&& has_changed_something(deed, reply) ==> after.changes.len() == state.changes.len() + 1
            &&& !has_changed_something(deed, reply) ==> after.changes == state.changes
            &&& has_changed_something(deed, reply) && deed is Record ==> last == (Change::Created {
                path: deed->Record_path,
                identity: reply->Found_0,
                recursive: deed->recursive,
            })
            &&& has_changed_something(deed, reply) && deed is Pixi ==> last == (Change::Created {
                path: state.pixi_home,
                identity: reply->Found_0,
                recursive: true,
            })
            &&& has_changed_something(deed, reply) && deed is Backup ==> {
                let moved = reply->Moved_0->0;
                last == (Change::BackedUp {
                    from: moved.from@,
                    to: moved.to@,
                    index: moved.index@,
                    entry: moved.entry@,
                })
            }
            &&& has_changed_something(deed, reply) && deed is Stow ==> last is Stowed
                && last->Stowed_package == lossy_text(deed->Stow_0) && last->target == state.home
        }),
{
}

/// The packages are searched for conflicts before they are linked, every conflict that
/// was found is backed up next, and every package is linked behind them.
pub proof fn conflicts_are_backed_up_before_packages_are_linked(
    state: Progression,
    names: Vec<Vec<u8>>,
)
    requires
        state.next() is Some,
        state.next()->0 is Packages || state.next()->0 is Conflicts,
    ensures
        ({
            let after = state.after(StepReply::Names(names)).queue;
            let count = names@.len();
            let rest = state.queue.skip(1);
            &&& state.next()->0 is Packages ==> {
                &&& after.len() == count + 2 + rest.len()
                &&& after[0] == Deed::Conflicts(views(names@))
                &&& forall|i: int| 0 <= i < count ==> after[i + 2] == Deed::Stow(#[trigger] names@[i]@)
                &&& after.skip(count as int + 2) == rest
            }
            &&& state.next()->0 is Conflicts ==> {
                &&& after.len() == count + rest.len()
                &&& forall|i: int| 0 <= i < count ==> after[i] == Deed::Backup(#[trigger] names@[i]@)
                &&& after.skip(count as int) == rest
            }
        }),
{
    let after = state.after(StepReply::Names(names)).queue;
    let count = names@.len();
    let rest = state.queue.skip(1);
    assert(state.queue.drop_first() =~= rest);
    if state.next()->0 is Packages {
        assert(after.skip(count as int + 2) =~= rest);
    } else {
        assert(after.skip(count as int) =~= rest);
    }
}

/// Whether the plan does this job and records the path right behind it.
pub open spec fn records_behind(plan: Seq<Deed>, job: Job, path: Seq<u8>, place: int) -> bool {
    &&& 0 <= place < plan.len() - 1
    &&& plan[place] == Deed::Do(job)
    &&& plan[place + 1] == (Deed::Record { path, recursive: false })
}

/// The program and its link, and show-cad-status and its link, are recorded as soon as
/// they are there; the old dotfiles are backed up before the new ones are copied, which
/// are recorded before anything is linked; and the installation is checked at the end.
pub proof fn the_plan_records_what_it_makes(
    paths: ResolvedPaths,
    home: Seq<u8>,
    release: PrivateReleaseInfo,
)
    ensures
        ({
            let plan = install_plan(paths, home, release);
            let prefix = paths.eiyah_prefix@;
            &&& records_behind(plan, Job::Binary, under(prefix, "bin/eiyah"@), 5)
            &&& records_behind(plan, Job::Entry, under(home, ".local/bin/eiyah"@), 7)
            &&& plan[18] == Deed::Do(Job::BackupRoot)
            &&& plan[19] == Deed::Backup(under(home, ".dotfiles"@))
            &&& plan[20] == Deed::Do(Job::Dotfiles)
            &&& plan[22] == (Deed::Record { path: under(home, ".dotfiles"@), recursive: true })
            &&& plan[24] == Deed::Packages
            &&& records_behind(
                plan,
                Job::StatusEntry,
                under(home, ".local/bin/show-cad-status"@),
                34,
            )
            &&& plan[30] == Deed::Do(Job::Status)
            &&& plan[33] == (Deed::Record {
                path: under(prefix, "bin/show-cad-status"@),
                recursive: false,
            })
            &&& plan[plan.len() - 2] == Deed::Do(Job::Verify)
            &&& plan[plan.len() - 1] is Heading
        }),
{
}

/// An installation has succeeded exactly where its work was done, whatever became of the
/// temporary files; after a failure it is told where the system could not be restored
/// and where temporary files are left.
pub proof fn an_installation_succeeds_exactly_if_its_work_was_done(
    install: Result<(), Failure>,
    rollback: Result<(), Failure>,
    cleanup: Result<(), Failure>,
    result: Result<Option<String>, UserFacingError>,
)
    requires
        completed_with(install, rollback, cleanup, result),
    ensures
        result is Ok <==> install is Ok,
        install is Ok ==> (result->Ok_0 is Some <==> cleanup is Err),
        install is Err ==> {
            let told = texts(result->Err_0.warnings@);
            &&& result->Err_0.message@ == install->Err_0.line()
            &&& rollback is Err ==> told.contains(
                "Eiyah could not fully restore the previous system state."@,
            )
            &&& cleanup is Err ==> told.contains(
                "failed to remove temporary files: "@ + cleanup->Err_0.line(),
            )
            &&& rollback is Ok && cleanup is Ok ==> told.len() == 0
        },
{
    if install is Err {
        let told = texts(result->Err_0.warnings@);
        if rollback is Err {
            assert(told[0] == "Eiyah could not fully restore the previous system state."@);
        }
        if cleanup is Err {
            assert(told[told.len() - 1] == "failed to remove temporary files: "@
                + cleanup->Err_0.line());
        }
    }
}

/// The way to an installation goes on exactly where the step that it is at was done: the
/// authorization before the release, the download before the keys, and the installation
/// last.
pub proof fn the_way_goes_on_exactly_if(flow: InstallFlow, reply: FlowReply, next: FlowPhase)
    requires
        flow.follows(reply, next),
    ensures
        flow.phase is Heading ==> (next is Authorizing <==> reply is Done),
        flow.phase is Authorizing ==> (next is Authorized <==> reply is Done),
        flow.phase is Authorized ==> (next is Releasing <==> reply is Done),
        flow.phase is Releasing ==> (next is Announcing <==> reply is Released),
        flow.phase is Releasing && next is Announcing ==> next->Announcing_0 == reply->Released_0,
        flow.phase is Announcing ==> (next is Tagging <==> reply is Done),
        flow.phase is Tagging ==> (next is Locating <==> reply is Done),
        flow.phase is Locating ==> (next is Downloading <==> reply is Done),
        flow.phase is Downloading ==> (next is Preparing <==> reply is Done),
        flow.phase is Preparing ==> (next is Connecting <==> reply is Done),
        flow.phase is Connecting ==> (next is Reporting <==> reply is Ready),
        flow.phase is Connecting && next is Reporting ==> next->Reporting_ssh == reply->Ready_0,
        flow.phase is Reporting ==> (next is Installing <==> reply is Done),
        flow.phase is Reporting && next is Installing ==> next->Installing_ssh
            == flow.phase->Reporting_ssh && next->Installing_release
            == flow.phase->Reporting_release,
        flow.phase is Installing ==> (next is Completed <==> reply is Done),
        reply is Failed && !(flow.phase is Completed) && !(flow.phase is Failed)
            ==> next is Failed && next->Failed_0.message == reply->Failed_0.message,
{
}

} // verus!
