//! The dotfiles: their copy in the home directory, and the identity of the user.

use crate::bytes::{copy_bytes, text_bytes, views};
use crate::checks::{directory_problem, validate_non_symlink_directory};
use crate::directories::INSTALL_DIRECTORY_MODE;
use crate::failure::{about, earlier, first_failure, message_at, reports, Failure, Words};
use crate::host::{add_bytes, no_bytes, plain_program, Ask, Entry, Fault, FileKind, Program};
use crate::host::{ProgramView, Reply, Request};
use crate::paths::{join_text, under};
use crate::script::{add_step, bare_deed, bare_step, no_steps, step_views, tells, unanswered, Check};
use crate::script::{Cleanup, Demand, Phase, Progress, Script, Step, StepView, Tidy};
use crate::stow::{add_visits, errands, is_correct_stow_symlink, leads_to_source, visits, Errand};
use crate::stow::Task;
use crate::survey::{add_request, asked_of, no_requests, shows_bytes, shows_entry, take_bytes};
use crate::survey::{take_entry, Survey};
use crate::text::{chars_of, concat, read_utf8, text_of, utf8_problem};
use crate::transaction::PathIdentity;
use vstd::prelude::*;
use vstd::utf8::{decode_utf8, encode_utf8, valid_utf8};

verus! {

// --------------------------------------------------
// The copy
// --------------------------------------------------

/// An entry that the copy has created.
#[derive(Debug)]
pub struct Created {
    pub path: Vec<u8>,
    pub identity: PathIdentity,
    pub directory: bool,
}

/// An entry that the copy has created.
pub struct Made {
    pub path: Seq<u8>,
    pub identity: PathIdentity,
    pub directory: bool,
}

impl View for Created {
    type V = Made;

    open spec fn view(&self) -> Made {
        Made { path: self.path@, identity: self.identity, directory: self.directory }
    }
}

/// The entries that the copy has created, in order.
pub open spec fn made(created: Seq<Created>) -> Seq<Made> {
    created.map_values(|item: Created| item@)
}

/// What is done with an entry next.
#[derive(Clone, Copy, Debug, PartialEq, Eq, Structural)]
pub enum CopyStep {
    /// The entry is looked at.
    Look,
    /// A directory is created, looked at, and given its permissions.
    MakeDirectory,
    KnowDirectory,
    SetDirectory,
    /// A file is opened; its copy is created, looked at, filled, given its permissions,
    /// and flushed.
    Open,
    Create,
    KnowFile,
    Copy,
    SetFile,
    Sync,
    /// A link is read, and its copy is looked at.
    ReadLink,
    KnowLink,
}

/// How far the copy has come.
#[derive(Debug)]
pub enum CopyPhase {
    /// The configuration is looked at.
    Core,
    /// The dotfiles in it are looked at.
    Origin,
    /// The directory for the copy is created, looked at, and given its permissions.
    MakingRoot,
    KnowingRoot,
    SettingRoot,
    /// A directory is listed.
    Listing { source: Vec<u8>, target: Vec<u8> },
    /// An entry is copied.
    Entry { source: Vec<u8>, target: Vec<u8>, mode: u32, step: CopyStep },
    /// A link is created.
    Linking { source: Vec<u8>, target: Vec<u8>, link: Vec<u8> },
    /// After this failure the last entry that was created is looked at.
    Undoing { failure: Failure },
    /// After this failure the last entry that was created is removed.
    Erasing { failure: Failure },
    Completed,
    Failed(Failure),
}

/// How far the copy has come.
pub enum CopyStage {
    Core,
    Origin,
    MakingRoot,
    KnowingRoot,
    SettingRoot,
    Listing { source: Seq<u8>, target: Seq<u8> },
    Entry { source: Seq<u8>, target: Seq<u8>, mode: u32, step: CopyStep },
    Linking { source: Seq<u8>, target: Seq<u8>, link: Seq<u8> },
    Undoing { words: Seq<char> },
    Erasing { words: Seq<char> },
    Completed,
    Failed(Seq<char>),
}

impl View for CopyPhase {
    type V = CopyStage;

    open spec fn view(&self) -> CopyStage {
        match self {
            CopyPhase::Core => CopyStage::Core,
            CopyPhase::Origin => CopyStage::Origin,
            CopyPhase::MakingRoot => CopyStage::MakingRoot,
            CopyPhase::KnowingRoot => CopyStage::KnowingRoot,
            CopyPhase::SettingRoot => CopyStage::SettingRoot,
            CopyPhase::Listing { source, target } => CopyStage::Listing {
                source: source@,
                target: target@,
            },
            CopyPhase::Entry { source, target, mode, step } => CopyStage::Entry {
                source: source@,
                target: target@,
                mode: *mode,
                step: *step,
            },
            CopyPhase::Linking { source, target, link } => CopyStage::Linking {
                source: source@,
                target: target@,
                link: link@,
            },
            CopyPhase::Undoing { failure } => CopyStage::Undoing { words: failure.line() },
            CopyPhase::Erasing { failure } => CopyStage::Erasing { words: failure.line() },
            CopyPhase::Completed => CopyStage::Completed,
            CopyPhase::Failed(failure) => CopyStage::Failed(failure.line()),
        }
    }
}

/// The copy of the dotfiles.
#[derive(Debug)]
pub struct DotfilesCopy {
    pub core: Vec<u8>,
    pub source: Vec<u8>,
    pub target: Vec<u8>,
    pub pending: Vec<Task>,
    pub created: Vec<Created>,
    pub phase: CopyPhase,
}

/// The state of the copy.
pub struct CopyState {
    pub core: Seq<u8>,
    pub source: Seq<u8>,
    pub target: Seq<u8>,
    pub pending: Seq<Errand>,
    pub created: Seq<Made>,
    pub stage: CopyStage,
}

impl View for DotfilesCopy {
    type V = CopyState;

    open spec fn view(&self) -> CopyState {
        CopyState {
            core: self.core@,
            source: self.source@,
            target: self.target@,
            pending: errands(self.pending@),
            created: made(self.created@),
            stage: self.phase@,
        }
    }
}

impl CopyState {
    /// The copy goes on with what is still to be copied.
    pub open spec fn resumed(self) -> CopyState {
        if self.pending.len() == 0 {
            CopyState { stage: CopyStage::Completed, ..self }
        } else {
            CopyState {
                pending: self.pending.drop_last(),
                stage: match self.pending.last() {
                    Errand::List { source, target } => CopyStage::Listing { source, target },
                    Errand::Visit { source, target } => CopyStage::Entry {
                        source,
                        target,
                        mode: 0,
                        step: CopyStep::Look,
                    },
                },
                ..self
            }
        }
    }

    /// The copy has failed: what it has created is taken away again, the last entry
    /// first.
    pub open spec fn undone(self, words: Seq<char>) -> CopyState {
        CopyState {
            stage: if self.created.len() == 0 {
                CopyStage::Failed(words)
            } else {
                CopyStage::Undoing { words }
            },
            ..self
        }
    }

    /// The last entry that was created is dealt with.
    pub open spec fn forgotten(self, words: Seq<char>) -> CopyState {
        if self.created.len() == 0 {
            self.undone(words)
        } else {
            CopyState { created: self.created.drop_last(), ..self }.undone(words)
        }
    }

    /// An entry was created.
    pub open spec fn recorded(self, path: Seq<u8>, entry: Entry, directory: bool) -> CopyState {
        CopyState {
            created: self.created.push(Made { path, identity: entry.identity, directory }),
            ..self
        }
    }

    /// The entry is at this step.
    pub open spec fn at(self, source: Seq<u8>, target: Seq<u8>, mode: u32, step: CopyStep) -> CopyState {
        CopyState { stage: CopyStage::Entry { source, target, mode, step }, ..self }
    }

    pub open spec fn asks(self) -> Ask {
        match self.stage {
            CopyStage::Core => Ask::Inspect(self.core),
            CopyStage::Origin => Ask::Inspect(self.source),
            CopyStage::MakingRoot => Ask::MakeDirectory {
                path: self.target,
                mode: INSTALL_DIRECTORY_MODE,
            },
            CopyStage::KnowingRoot => Ask::Inspect(self.target),
            CopyStage::SettingRoot => Ask::SetMode {
                path: self.target,
                mode: INSTALL_DIRECTORY_MODE,
            },
            CopyStage::Listing { source, .. } => Ask::List(source),
            CopyStage::Entry { source, target, mode, step } => match step {
                CopyStep::Look => Ask::Inspect(source),
                CopyStep::MakeDirectory => Ask::MakeDirectory { path: target, mode },
                CopyStep::KnowDirectory => Ask::Inspect(target),
                CopyStep::SetDirectory => Ask::SetMode { path: target, mode },
                CopyStep::Open => Ask::Open(source),
                CopyStep::Create => Ask::CreateFile { path: target, mode },
                CopyStep::KnowFile => Ask::InspectOpen(target),
                CopyStep::Copy => Ask::CopyFrom { source, path: target },
                CopyStep::SetFile => Ask::SetOpenMode { path: target, mode },
                CopyStep::Sync => Ask::SyncOpen(target),
                CopyStep::ReadLink => Ask::ReadLink(source),
                CopyStep::KnowLink => Ask::Inspect(target),
            },
            CopyStage::Linking { target, link, .. } => Ask::Symlink { target: link, path: target },
            CopyStage::Undoing { .. } => if self.created.len() == 0 {
                Ask::Nothing
            } else {
                Ask::Inspect(self.created.last().path)
            },
            CopyStage::Erasing { .. } => if self.created.len() == 0 {
                Ask::Nothing
            } else if self.created.last().directory {
                Ask::RemoveDirectory(self.created.last().path)
            } else {
                Ask::RemoveFile(self.created.last().path)
            },
            CopyStage::Completed => Ask::Nothing,
            CopyStage::Failed(_) => Ask::Nothing,
        }
    }

    /// The copy after a reply to a step of an entry.
    pub open spec fn after_step(
        self,
        source: Seq<u8>,
        target: Seq<u8>,
        mode: u32,
        step: CopyStep,
        reply: Reply,
    ) -> CopyState {
        match (step, reply) {
            (_, Reply::Failed(fault)) => self.undone(fault.text@),
            (CopyStep::Look, Reply::Found(entry)) => match entry.kind {
                FileKind::Directory => self.at(
                    source,
                    target,
                    entry.mode & 0o7777,
                    CopyStep::MakeDirectory,
                ),
                FileKind::Regular => self.at(source, target, entry.mode & 0o7777, CopyStep::Open),
                FileKind::Symlink => self.at(
                    source,
                    target,
                    entry.mode & 0o7777,
                    CopyStep::ReadLink,
                ),
                FileKind::Other => self.undone(
                    about("unsupported dotfiles source type: "@, source),
                ),
            },
            (CopyStep::MakeDirectory, Reply::Done) => self.at(
                source,
                target,
                mode,
                CopyStep::KnowDirectory,
            ),
            (CopyStep::KnowDirectory, Reply::Found(entry)) => self.recorded(target, entry, true).at(
                source,
                target,
                mode,
                CopyStep::SetDirectory,
            ),
            (CopyStep::SetDirectory, Reply::Done) => CopyState {
                stage: CopyStage::Listing { source, target },
                ..self
            },
            (CopyStep::Open, Reply::Done) => self.at(source, target, mode, CopyStep::Create),
            (CopyStep::Create, Reply::Done) => self.at(source, target, mode, CopyStep::KnowFile),
            (CopyStep::KnowFile, Reply::Found(entry)) => self.recorded(target, entry, false).at(
                source,
                target,
                mode,
                CopyStep::Copy,
            ),
            (CopyStep::Copy, Reply::Done) => self.at(source, target, mode, CopyStep::SetFile),
            (CopyStep::SetFile, Reply::Done) => self.at(source, target, mode, CopyStep::Sync),
            (CopyStep::Sync, Reply::Done) => self.resumed(),
            (CopyStep::ReadLink, Reply::Contents(link)) => CopyState {
                stage: CopyStage::Linking { source, target, link: link@ },
                ..self
            },
            (CopyStep::KnowLink, Reply::Found(entry)) => self.recorded(
                target,
                entry,
                false,
            ).resumed(),
            _ => self.undone(unanswered()),
        }
    }

    /// The copy after a reply.
    pub open spec fn after(self, reply: Reply) -> CopyState {
        match self.stage {
            CopyStage::Core => match reply {
                Reply::Found(entry) => if entry.kind == FileKind::Directory {
                    CopyState { stage: CopyStage::Origin, ..self }
                } else {
                    self.undone(
                        about("configuration must be a non-symlink directory: "@, self.core),
                    )
                },
                Reply::Failed(fault) => self.undone(
                    about("configuration is unavailable: "@, self.core) + ": "@ + fault.text@,
                ),
                _ => self.undone(unanswered()),
            },
            CopyStage::Origin => match reply {
                Reply::Found(entry) => if entry.kind == FileKind::Directory {
                    CopyState { stage: CopyStage::MakingRoot, ..self }
                } else {
                    self.undone(about("dotfiles must be a non-symlink directory: "@, self.source))
                },
                Reply::Failed(fault) => self.undone(
                    about("dotfiles is unavailable: "@, self.source) + ": "@ + fault.text@,
                ),
                _ => self.undone(unanswered()),
            },
            CopyStage::MakingRoot => match reply {
                Reply::Done => CopyState { stage: CopyStage::KnowingRoot, ..self },
                Reply::Failed(fault) => self.undone(fault.text@),
                _ => self.undone(unanswered()),
            },
            CopyStage::KnowingRoot => match reply {
                Reply::Found(entry) => CopyState {
                    stage: CopyStage::SettingRoot,
                    ..self.recorded(self.target, entry, true)
                },
                Reply::Failed(fault) => self.undone(fault.text@),
                _ => self.undone(unanswered()),
            },
            CopyStage::SettingRoot => match reply {
                Reply::Done => CopyState {
                    stage: CopyStage::Listing { source: self.source, target: self.target },
                    ..self
                },
                Reply::Failed(fault) => self.undone(fault.text@),
                _ => self.undone(unanswered()),
            },
            CopyStage::Listing { source, target } => match reply {
                Reply::Names(names) => CopyState {
                    pending: self.pending + visits(source, target, views(names@)),
                    ..self
                }.resumed(),
                Reply::Failed(fault) => self.undone(fault.text@),
                _ => self.undone(unanswered()),
            },
            CopyStage::Entry { source, target, mode, step } => self.after_step(
                source,
                target,
                mode,
                step,
                reply,
            ),
            CopyStage::Linking { source, target, link } => match reply {
                Reply::Done => self.at(source, target, 0, CopyStep::KnowLink),
                Reply::Failed(fault) => self.undone(fault.text@),
                _ => self.undone(unanswered()),
            },
            CopyStage::Undoing { words } => match reply {
                Reply::Found(entry) => if self.created.len() > 0 && entry.identity
                    == self.created.last().identity {
                    CopyState { stage: CopyStage::Erasing { words }, ..self }
                } else {
                    self.forgotten(words)
                },
                _ => self.forgotten(words),
            },
            CopyStage::Erasing { words } => self.forgotten(words),
            CopyStage::Completed => self,
            CopyStage::Failed(_) => self,
        }
    }
}

/// What is wrong with the configuration that the dotfiles come from.
pub open spec fn source_problem(
    core_root: Seq<u8>,
    root: Result<Entry, Fault>,
    dotfiles: Result<Entry, Fault>,
) -> Option<Words> {
    earlier(
        directory_problem(core_root, "configuration"@, root),
        directory_problem(under(core_root, "dotfiles"@), "dotfiles"@, dotfiles),
    )
}

/// Checks that the configuration and the dotfiles in it are there.
pub fn validate_private_source(
    core_root: &[u8],
    root: &Result<Entry, Fault>,
    dotfiles: &Result<Entry, Fault>,
) -> (result: Result<(), Failure>)
    ensures
        reports(result, source_problem(core_root@, *root, *dotfiles)),
{
    let source = join_text(core_root, "dotfiles");
    first_failure(
        validate_non_symlink_directory(core_root, "configuration", root),
        validate_non_symlink_directory(&source, "dotfiles", dotfiles),
    )
}

/// Looks at the configuration and the dotfiles in it.
pub fn source_survey(core_root: &[u8]) -> (survey: Survey)
    ensures
        survey.begins(
            seq![Ask::Inspect(core_root@), Ask::Inspect(under(core_root@, "dotfiles"@))],
        ),
{
    let mut requests = no_requests();
    add_request(&mut requests, Request::Inspect(copy_bytes(core_root)));
    add_request(&mut requests, Request::Inspect(join_text(core_root, "dotfiles")));
    assert(asked_of(requests@) =~= seq![
        Ask::Inspect(core_root@),
        Ask::Inspect(under(core_root@, "dotfiles"@)),
    ]);
    Survey::new(requests)
}

/// Whether this is what is said of the configuration by what was seen.
pub open spec fn source_judged(
    core_root: Seq<u8>,
    replies: Seq<Reply>,
    result: Result<(), Failure>,
) -> bool {
    if replies.len() == 2 {
        exists|root: Result<Entry, Fault>, dotfiles: Result<Entry, Fault>| #[trigger]
            shows_entry(replies[0], root) && #[trigger] shows_entry(replies[1], dotfiles)
                && reports(result, source_problem(core_root, root, dotfiles))
    } else {
        result is Err && result->Err_0.says(unanswered())
    }
}

/// Checks the configuration by what was seen.
pub fn validate_seen_source(core_root: &[u8], survey: Survey) -> (result: Result<(), Failure>)
    ensures
        source_judged(core_root@, survey.replies@, result),
{
    if survey.replies.len() != 2 {
        return Err(Failure::plain("unexpected reply"));
    }
    let mut replies = survey.replies;
    let dotfiles = take_entry(&mut replies);
    let root = take_entry(&mut replies);
    assert(shows_entry(survey.replies@[0], root) && shows_entry(survey.replies@[1], dotfiles));
    validate_private_source(core_root, &root, &dotfiles)
}

/// A copy that has not begun.
pub open spec fn fresh_copy(core_root: Seq<u8>, home: Seq<u8>) -> CopyState {
    CopyState {
        core: core_root,
        source: under(core_root, "dotfiles"@),
        target: under(home, ".dotfiles"@),
        pending: Seq::empty(),
        created: Seq::empty(),
        stage: CopyStage::Core,
    }
}

/// Begins to copy the dotfiles of the configuration to the home directory.
pub fn install_dotfiles(core_root: &[u8], home: &[u8]) -> (copy: DotfilesCopy)
    ensures
        copy@ == fresh_copy(core_root@, home@),
{
    let copy = DotfilesCopy {
        core: copy_bytes(core_root),
        source: join_text(core_root, "dotfiles"),
        target: join_text(home, ".dotfiles"),
        pending: Vec::new(),
        created: Vec::new(),
        phase: CopyPhase::Core,
    };
    assert(copy@.pending =~= Seq::empty());
    assert(copy@.created =~= Seq::empty());
    copy
}

impl DotfilesCopy {
    pub fn request(&self) -> (request: Request)
        ensures
            request@ == self@.asks(),
    {
        assert(made(self.created@).len() == self.created@.len());
        match &self.phase {
            CopyPhase::Core => Request::Inspect(copy_bytes(&self.core)),
            CopyPhase::Origin => Request::Inspect(copy_bytes(&self.source)),
            CopyPhase::MakingRoot => Request::MakeDirectory {
                path: copy_bytes(&self.target),
                mode: INSTALL_DIRECTORY_MODE,
            },
            CopyPhase::KnowingRoot => Request::Inspect(copy_bytes(&self.target)),
            CopyPhase::SettingRoot => Request::SetMode {
                path: copy_bytes(&self.target),
                mode: INSTALL_DIRECTORY_MODE,
            },
            CopyPhase::Listing { source, .. } => Request::List(copy_bytes(source)),
            CopyPhase::Entry { source, target, mode, step } => match step {
                CopyStep::Look => Request::Inspect(copy_bytes(source)),
                CopyStep::MakeDirectory => Request::MakeDirectory {
                    path: copy_bytes(target),
                    mode: *mode,
                },
                CopyStep::KnowDirectory => Request::Inspect(copy_bytes(target)),
                CopyStep::SetDirectory => Request::SetMode { path: copy_bytes(target), mode: *mode },
                CopyStep::Open => Request::Open(copy_bytes(source)),
                CopyStep::Create => Request::CreateFile { path: copy_bytes(target), mode: *mode },
                CopyStep::KnowFile => Request::InspectOpen(copy_bytes(target)),
                CopyStep::Copy => Request::CopyFrom {
                    source: copy_bytes(source),
                    path: copy_bytes(target),
                },
                CopyStep::SetFile => Request::SetOpenMode { path: copy_bytes(target), mode: *mode },
                CopyStep::Sync => Request::SyncOpen(copy_bytes(target)),
                CopyStep::ReadLink => Request::ReadLink(copy_bytes(source)),
                CopyStep::KnowLink => Request::Inspect(copy_bytes(target)),
            },
            CopyPhase::Linking { target, link, .. } => Request::Symlink {
                target: copy_bytes(link),
                path: copy_bytes(target),
            },
            CopyPhase::Undoing { .. } => {
                if self.created.len() == 0 {
                    return Request::Nothing;
                }
                let last = &self.created[self.created.len() - 1];
                assert(made(self.created@).last() == last@);
                Request::Inspect(copy_bytes(&last.path))
            },
            CopyPhase::Erasing { .. } => {
                if self.created.len() == 0 {
                    return Request::Nothing;
                }
                let last = &self.created[self.created.len() - 1];
                assert(made(self.created@).last() == last@);
                if last.directory {
                    Request::RemoveDirectory(copy_bytes(&last.path))
                } else {
                    Request::RemoveFile(copy_bytes(&last.path))
                }
            },
            CopyPhase::Completed => Request::Nothing,
            CopyPhase::Failed(_) => Request::Nothing,
        }
    }

    /// The copy at another phase.
    fn turned(self, phase: CopyPhase) -> (next: DotfilesCopy)
        ensures
            next@ == (CopyState { stage: phase@, ..self@ }),
    {
        DotfilesCopy {
            core: self.core,
            source: self.source,
            target: self.target,
            pending: self.pending,
            created: self.created,
            phase,
        }
    }

    fn undo(self, failure: Failure) -> (next: DotfilesCopy)
        ensures
            next@ == self@.undone(failure.line()),
    {
        assert(made(self.created@).len() == self.created@.len());
        if self.created.len() == 0 {
            self.turned(CopyPhase::Failed(failure))
        } else {
            self.turned(CopyPhase::Undoing { failure })
        }
    }

    fn refuse(self, words: &str) -> (next: DotfilesCopy)
        ensures
            next@ == self@.undone(words@),
    {
        self.undo(Failure::plain(words))
    }

    fn forget(self, failure: Failure) -> (next: DotfilesCopy)
        ensures
            next@ == self@.forgotten(failure.line()),
    {
        let ghost before = self@;
        let DotfilesCopy { core, source, target, pending, created, phase } = self;
        let mut created = created;
        let ghost all = created@;
        assert(made(all).len() == all.len());
        if created.len() > 0 {
            created.pop();
            assert(made(created@) =~= made(all).drop_last());
        }
        let rest = DotfilesCopy { core, source, target, pending, created, phase };
        rest.undo(failure)
    }

    fn record(self, path: &[u8], entry: &Entry, directory: bool) -> (next: DotfilesCopy)
        ensures
            next@ == self@.recorded(path@, *entry, directory),
    {
        let DotfilesCopy { core, source, target, pending, created, phase } = self;
        let mut created = created;
        let ghost before = created@;
        let item = Created { path: copy_bytes(path), identity: entry.identity, directory };
        created.push(item);
        assert(made(created@) =~= made(before).push(item@));
        DotfilesCopy { core, source, target, pending, created, phase }
    }

    fn resume(self) -> (next: DotfilesCopy)
        ensures
            next@ == self@.resumed(),
    {
        let DotfilesCopy { core, source, target, pending, created, phase } = self;
        let mut pending = pending;
        let ghost before = pending@;
        match pending.pop() {
            None => {
                assert(errands(before) =~= Seq::<Errand>::empty());
                DotfilesCopy {
                    core,
                    source,
                    target,
                    pending,
                    created,
                    phase: CopyPhase::Completed,
                }
            },
            Some(task) => {
                assert(errands(pending@) =~= errands(before).drop_last());
                assert(errands(before).last() == task@);
                let phase = match task {
                    Task::List { source, target } => CopyPhase::Listing { source, target },
                    Task::Visit { source, target } => CopyPhase::Entry {
                        source,
                        target,
                        mode: 0,
                        step: CopyStep::Look,
                    },
                };
                DotfilesCopy { core, source, target, pending, created, phase }
            },
        }
    }

    /// Goes on with a reply to a step of an entry.
    #[verifier::rlimit(40)]
    fn advance_step(
        self,
        source: Vec<u8>,
        target: Vec<u8>,
        mode: u32,
        step: CopyStep,
        reply: Reply,
    ) -> (next: DotfilesCopy)
        ensures
            next@ == self@.after_step(source@, target@, mode, step, reply),
    {
        match reply {
            Reply::Failed(fault) => self.refuse(&fault.text),
            Reply::Done => match step {
                CopyStep::MakeDirectory => self.turned(
                    CopyPhase::Entry { source, target, mode, step: CopyStep::KnowDirectory },
                ),
                CopyStep::SetDirectory => self.turned(CopyPhase::Listing { source, target }),
                CopyStep::Open => self.turned(
                    CopyPhase::Entry { source, target, mode, step: CopyStep::Create },
                ),
                CopyStep::Create => self.turned(
                    CopyPhase::Entry { source, target, mode, step: CopyStep::KnowFile },
                ),
                CopyStep::Copy => self.turned(
                    CopyPhase::Entry { source, target, mode, step: CopyStep::SetFile },
                ),
                CopyStep::SetFile => self.turned(
                    CopyPhase::Entry { source, target, mode, step: CopyStep::Sync },
                ),
                CopyStep::Sync => self.resume(),
                _ => self.refuse("unexpected reply"),
            },
            Reply::Found(entry) => match step {
                CopyStep::Look => match entry.kind {
                    FileKind::Directory => self.turned(
                        CopyPhase::Entry {
                            source,
                            target,
                            mode: entry.mode & 0o7777,
                            step: CopyStep::MakeDirectory,
                        },
                    ),
                    FileKind::Regular => self.turned(
                        CopyPhase::Entry {
                            source,
                            target,
                            mode: entry.mode & 0o7777,
                            step: CopyStep::Open,
                        },
                    ),
                    FileKind::Symlink => self.turned(
                        CopyPhase::Entry {
                            source,
                            target,
                            mode: entry.mode & 0o7777,
                            step: CopyStep::ReadLink,
                        },
                    ),
                    FileKind::Other => self.refuse(
                        &message_at("unsupported dotfiles source type: ", &source),
                    ),
                },
                CopyStep::KnowDirectory => self.record(&target, &entry, true).turned(
                    CopyPhase::Entry { source, target, mode, step: CopyStep::SetDirectory },
                ),
                CopyStep::KnowFile => self.record(&target, &entry, false).turned(
                    CopyPhase::Entry { source, target, mode, step: CopyStep::Copy },
                ),
                CopyStep::KnowLink => self.record(&target, &entry, false).resume(),
                _ => self.refuse("unexpected reply"),
            },
            Reply::Contents(link) => match step {
                CopyStep::ReadLink => self.turned(CopyPhase::Linking { source, target, link }),
                _ => self.refuse("unexpected reply"),
            },
            _ => self.refuse("unexpected reply"),
        }
    }

    /// Goes on with a reply.
    #[verifier::rlimit(60)]
    pub fn advance(self, reply: Reply) -> (next: DotfilesCopy)
        ensures
            next@ == self@.after(reply),
    {
        let ghost state = self@;
        let DotfilesCopy { core, source, target, pending, created, phase } = self;
        assert(made(created@).len() == created@.len());
        let rest = DotfilesCopy {
            core: copy_bytes(&core),
            source: copy_bytes(&source),
            target: copy_bytes(&target),
            pending,
            created,
            phase: CopyPhase::Completed,
        };
        match phase {
            CopyPhase::Core => match reply {
                Reply::Found(entry) => if entry.kind == FileKind::Directory {
                    rest.turned(CopyPhase::Origin)
                } else {
                    rest.refuse(
                        &message_at("configuration must be a non-symlink directory: ", &core),
                    )
                },
                Reply::Failed(fault) => rest.undo(
                    Failure::caused_at("configuration is unavailable: ", &core, &fault.text),
                ),
                _ => rest.refuse("unexpected reply"),
            },
            CopyPhase::Origin => match reply {
                Reply::Found(entry) => if entry.kind == FileKind::Directory {
                    rest.turned(CopyPhase::MakingRoot)
                } else {
                    rest.refuse(&message_at("dotfiles must be a non-symlink directory: ", &source))
                },
                Reply::Failed(fault) => rest.undo(
                    Failure::caused_at("dotfiles is unavailable: ", &source, &fault.text),
                ),
                _ => rest.refuse("unexpected reply"),
            },
            CopyPhase::MakingRoot => match reply {
                Reply::Done => rest.turned(CopyPhase::KnowingRoot),
                Reply::Failed(fault) => rest.refuse(&fault.text),
                _ => rest.refuse("unexpected reply"),
            },
            CopyPhase::KnowingRoot => match reply {
                Reply::Found(entry) => rest.record(&target, &entry, true).turned(
                    CopyPhase::SettingRoot,
                ),
                Reply::Failed(fault) => rest.refuse(&fault.text),
                _ => rest.refuse("unexpected reply"),
            },
            CopyPhase::SettingRoot => match reply {
                Reply::Done => rest.turned(CopyPhase::Listing { source, target }),
                Reply::Failed(fault) => rest.refuse(&fault.text),
                _ => rest.refuse("unexpected reply"),
            },
            CopyPhase::Listing { source, target } => match reply {
                Reply::Names(names) => {
                    let mut pending = rest.pending;
                    add_visits(&mut pending, &source, &target, &names);
                    let longer = DotfilesCopy {
                        core: rest.core,
                        source: rest.source,
                        target: rest.target,
                        pending,
                        created: rest.created,
                        phase: CopyPhase::Completed,
                    };
                    longer.resume()
                },
                Reply::Failed(fault) => rest.refuse(&fault.text),
                _ => rest.refuse("unexpected reply"),
            },
            CopyPhase::Entry { source, target, mode, step } => rest.advance_step(
                source,
                target,
                mode,
                step,
                reply,
            ),
            CopyPhase::Linking { source, target, .. } => match reply {
                Reply::Done => rest.turned(
                    CopyPhase::Entry { source, target, mode: 0, step: CopyStep::KnowLink },
                ),
                Reply::Failed(fault) => rest.refuse(&fault.text),
                _ => rest.refuse("unexpected reply"),
            },
            CopyPhase::Undoing { failure } => match reply {
                Reply::Found(entry) => {
                    let mut same = false;
                    if rest.created.len() > 0 {
                        let last = &rest.created[rest.created.len() - 1];
                        assert(made(rest.created@).last() == last@);
                        same = last.identity == entry.identity;
                    }
                    if same {
                        rest.turned(CopyPhase::Erasing { failure })
                    } else {
                        rest.forget(failure)
                    }
                },
                _ => rest.forget(failure),
            },
            CopyPhase::Erasing { failure } => rest.forget(failure),
            CopyPhase::Completed => rest,
            CopyPhase::Failed(failure) => rest.turned(CopyPhase::Failed(failure)),
        }
    }
}

/// What the copy removes after a failure is what it has created: an entry is removed
/// only where an inspection has just found the one that was recorded, and what is
/// recorded is what stood at the place of the copy right after it was made.
pub proof fn the_copy_removes_what_it_created(state: CopyState, reply: Reply)
    ensures
        ({
            let next = state.after(reply);
            &&& next.stage is Erasing && !(state.stage is Erasing) ==> state.stage is Undoing
                && state.created.len() > 0 && next.created == state.created && reply is Found
                && reply->Found_0.identity == state.created.last().identity
            &&& next.created.len() > state.created.len() ==> reply is Found && next.created
                == state.created.push(next.created.last()) && next.created.last().identity
                == reply->Found_0.identity && (state.asks() == Ask::Inspect(
                next.created.last().path,
            ) || state.asks() == Ask::InspectOpen(next.created.last().path))
            &&& next.created.len() < state.created.len() ==> (state.stage is Undoing
                || state.stage is Erasing) && next.created == state.created.drop_last()
        }),
{
}

/// A copy that is complete has nothing left to be copied, and a failure is reported
/// only once everything that was created has been dealt with.
pub proof fn the_copy_ends_clean(state: CopyState, reply: Reply)
    requires
        !(state.stage is Completed),
        !(state.stage is Failed),
    ensures
        state.after(reply).stage is Completed ==> state.after(reply).pending.len() == 0,
        state.after(reply).stage is Failed ==> state.after(reply).created.len() == 0,
{
}

// --------------------------------------------------
// The identity of the user
// --------------------------------------------------

/// The permissions of the file with the identity of the user.
pub const GIT_CONFIG_LOCAL_MODE: u32 = 0o600;

/// The program that tells a setting of Git.
pub open spec fn git_program(key: Seq<char>) -> ProgramView {
    plain_program(
        encode_utf8("git"@),
        seq![encode_utf8("config"@), encode_utf8("--global"@), encode_utf8(key)],
    )
}

fn git_command(key: &str) -> (program: Program)
    ensures
        program@ == git_program(key@),
{
    let mut arguments = no_bytes();
    add_bytes(&mut arguments, text_bytes("config"));
    add_bytes(&mut arguments, text_bytes("--global"));
    add_bytes(&mut arguments, text_bytes(key));
    assert(views(arguments@) =~= seq![
        encode_utf8("config"@),
        encode_utf8("--global"@),
        encode_utf8(key@),
    ]);
    Program::plain(text_bytes("git"), arguments)
}

/// A text without the line breaks behind it.
pub open spec fn without_breaks(text: Seq<char>) -> Seq<char>
    decreases text.len(),
{
    if text.len() > 0 && (text.last() == '\r' || text.last() == '\n') {
        without_breaks(text.drop_last())
    } else {
        text
    }
}

/// The value of a setting of Git, or why there is none.
pub open spec fn git_value(key: Seq<char>, reply: Reply) -> Result<Seq<char>, Seq<char>> {
    match reply {
        Reply::Failed(fault) => Err(fault.text@),
        Reply::Exited { success, output, .. } => if !success {
            Err("git config --global "@ + key + " failed"@)
        } else if !valid_utf8(output@) {
            Err(utf8_problem(output@))
        } else if without_breaks(decode_utf8(output@)).len() == 0 {
            Err("git config --global "@ + key + " is empty"@)
        } else {
            Ok(without_breaks(decode_utf8(output@)))
        },
        _ => Err(unanswered()),
    }
}

fn about_key(key: &str, words: &str) -> (failure: Failure)
    ensures
        failure.says("git config --global "@ + key@ + words@),
{
    let mut message = concat("git config --global ", key);
    message.append(words);
    Failure::plain(&message)
}

/// The value of a setting of Git.
pub fn git_config_value(key: &str, reply: Reply) -> (result: Result<String, Failure>)
    ensures
        match git_value(key@, reply) {
            Ok(value) => result is Ok && result->Ok_0@ == value,
            Err(words) => result is Err && result->Err_0.says(words),
        },
{
    let output = match reply {
        Reply::Failed(fault) => {
            return Err(Failure::plain(&fault.text));
        },
        Reply::Exited { success, output, .. } => {
            if !success {
                return Err(about_key(key, " failed"));
            }
            output
        },
        _ => {
            return Err(Failure::plain("unexpected reply"));
        },
    };
    let text = match read_utf8(&output) {
        Err(problem) => {
            return Err(Failure::plain(&problem));
        },
        Ok(text) => text,
    };
    match strip_breaks(&text) {
        None => Err(about_key(key, " is empty")),
        Some(value) => Ok(value),
    }
}

/// A text without the line breaks behind it; nothing where it is empty.
fn strip_breaks(text: &str) -> (value: Option<String>)
    ensures
        without_breaks(text@).len() == 0 ==> value is None,
        without_breaks(text@).len() > 0 ==> value is Some && value->0@ == without_breaks(text@),
{
    let chars = chars_of(text);
    let mut end: usize = chars.len();
    assert(chars@.take(end as int) =~= chars@);
    while end > 0 && (chars[end - 1] == '\r' || chars[end - 1] == '\n')
        invariant
            end <= chars.len(),
            without_breaks(chars@) == without_breaks(chars@.take(end as int)),
        decreases end,
    {
        assert(chars@.take(end as int).last() == chars@[end - 1]);
        assert(chars@.take(end as int).drop_last() =~= chars@.take(end - 1));
        end = end - 1;
    }
    if end == 0 {
        return None;
    }
    assert(chars@.take(end as int).last() == chars@[end - 1]);
    let value = vstd::slice::slice_subrange(chars.as_slice(), 0, end);
    assert(value@ =~= chars@.take(end as int));
    Some(text_of(value))
}

/// The file with the identity of the user.
pub open spec fn identity_text(name: Seq<char>, email: Seq<char>) -> Seq<char> {
    "[user]\n    name = "@ + name + "\n    email = "@ + email + "\n"@
}

/// The steps that write the file with the identity of the user.
pub open spec fn identity_steps(path: Seq<u8>, contents: Seq<u8>) -> Seq<StepView> {
    seq![
        bare_deed(Ask::CreateFile { path, mode: GIT_CONFIG_LOCAL_MODE }),
        bare_step(Ask::InspectOpen(path), Demand::Remember, unanswered()),
        bare_deed(Ask::SetOpenMode { path, mode: GIT_CONFIG_LOCAL_MODE }),
        bare_deed(Ask::Write { path, contents }),
        bare_deed(Ask::SyncOpen(path)),
    ]
}

fn write_identity(path: &[u8], name: &str, email: &str) -> (script: Script)
    ensures
        script.begins(
            identity_steps(path@, encode_utf8(identity_text(name@, email@))),
            Tidy::IfSame { inspect: Ask::Inspect(path@), remove: Ask::RemoveFile(path@) },
        ),
{
    let mut text = concat("[user]\n    name = ", name);
    text.append("\n    email = ");
    text.append(email);
    text.append("\n");
    let mut steps = no_steps();
    add_step(
        &mut steps,
        Step::bare_deed(
            Request::CreateFile { path: copy_bytes(path), mode: GIT_CONFIG_LOCAL_MODE },
        ),
    );
    add_step(
        &mut steps,
        Step::bare(
            Request::InspectOpen(copy_bytes(path)),
            Check::Remember,
            "unexpected reply".to_owned(),
        ),
    );
    add_step(
        &mut steps,
        Step::bare_deed(
            Request::SetOpenMode { path: copy_bytes(path), mode: GIT_CONFIG_LOCAL_MODE },
        ),
    );
    add_step(
        &mut steps,
        Step::bare_deed(Request::Write { path: copy_bytes(path), contents: text_bytes(&text) }),
    );
    add_step(&mut steps, Step::bare_deed(Request::SyncOpen(copy_bytes(path))));
    assert(step_views(steps@) =~= identity_steps(
        path@,
        encode_utf8(identity_text(name@, email@)),
    ));
    Script::new(
        steps,
        Cleanup::IfSame {
            inspect: Request::Inspect(copy_bytes(path)),
            remove: Request::RemoveFile(copy_bytes(path)),
        },
    )
}

/// How far the identity of the user has come.
#[derive(Debug)]
pub enum IdentityPhase {
    /// The name is asked for.
    Name,
    /// The address is asked for.
    Email { name: String },
    /// Both are written.
    Writing(Script),
    Completed,
    Failed(Failure),
}

/// The file with the identity of the user.
#[derive(Debug)]
pub struct GitIdentity {
    pub path: Vec<u8>,
    pub phase: IdentityPhase,
}

/// Begins to write the file with the identity of the user into the dotfiles.
pub fn create_git_config_local(dotfiles: &[u8]) -> (identity: GitIdentity)
    ensures
        identity.begins(dotfiles@),
{
    GitIdentity {
        path: join_text(dotfiles, "git/.config/git/config.local"),
        phase: IdentityPhase::Name,
    }
}

impl GitIdentity {
    /// Whether nothing was done yet.
    pub open spec fn begins(&self, dotfiles: Seq<u8>) -> bool {
        &&& self.path@ == under(dotfiles, "git/.config/git/config.local"@)
        &&& self.phase is Name
    }

    pub open spec fn asks(&self) -> Ask {
        match self.phase {
            IdentityPhase::Name => Ask::Capture(git_program("user.name"@)),
            IdentityPhase::Email { .. } => Ask::Capture(git_program("user.email"@)),
            IdentityPhase::Writing(script) => script.asks(),
            IdentityPhase::Completed => Ask::Nothing,
            IdentityPhase::Failed(_) => Ask::Nothing,
        }
    }

    /// What follows a reply.
    pub open spec fn follows(&self, reply: Reply, next: IdentityPhase) -> bool {
        match self.phase {
            IdentityPhase::Name => match git_value("user.name"@, reply) {
                Ok(name) => next is Email && next->name@ == name,
                Err(words) => next is Failed && next->Failed_0.says(words),
            },
            IdentityPhase::Email { name } => match git_value("user.email"@, reply) {
                Ok(email) => next is Writing && next->Writing_0.begins(
                    identity_steps(self.path@, encode_utf8(identity_text(name@, email))),
                    Tidy::IfSame {
                        inspect: Ask::Inspect(self.path@),
                        remove: Ask::RemoveFile(self.path@),
                    },
                ),
                Err(words) => next is Failed && next->Failed_0.says(words),
            },
            IdentityPhase::Writing(script) => match script.after(reply).phase {
                Phase::Completed => next is Completed,
                Phase::Failed { step, fault } => next is Failed && tells(
                    step_views(script.steps@),
                    step as int,
                    fault,
                    next->Failed_0,
                ),
                _ => next == IdentityPhase::Writing(script.after(reply)),
            },
            _ => next == self.phase,
        }
    }

    pub fn request(&self) -> (request: Request)
        ensures
            request@ == self.asks(),
    {
        match &self.phase {
            IdentityPhase::Name => Request::Capture(git_command("user.name")),
            IdentityPhase::Email { .. } => Request::Capture(git_command("user.email")),
            IdentityPhase::Writing(script) => script.wanted(),
            IdentityPhase::Completed => Request::Nothing,
            IdentityPhase::Failed(_) => Request::Nothing,
        }
    }

    /// Goes on with a reply.
    pub fn advance(self, reply: Reply) -> (next: GitIdentity)
        ensures
            next.path == self.path,
            self.follows(reply, next.phase),
    {
        let GitIdentity { path, phase } = self;
        let next = match phase {
            IdentityPhase::Name => match git_config_value("user.name", reply) {
                Ok(name) => IdentityPhase::Email { name },
                Err(failure) => IdentityPhase::Failed(failure),
            },
            IdentityPhase::Email { name } => match git_config_value("user.email", reply) {
                Ok(email) => IdentityPhase::Writing(write_identity(&path, &name, &email)),
                Err(failure) => IdentityPhase::Failed(failure),
            },
            IdentityPhase::Writing(script) => match script.progress(reply) {
                Progress::Going(script) => IdentityPhase::Writing(script),
                Progress::Completed => IdentityPhase::Completed,
                Progress::Broken(failure) => IdentityPhase::Failed(failure),
            },
            IdentityPhase::Completed => IdentityPhase::Completed,
            IdentityPhase::Failed(failure) => IdentityPhase::Failed(failure),
        };
        GitIdentity { path, phase: next }
    }
}

// --------------------------------------------------
// The link of the shell
// --------------------------------------------------

/// What is wrong where the start file of the shell has to be a link into the dotfiles.
pub open spec fn cshrc_problem(
    dotfiles: Seq<u8>,
    home: Seq<u8>,
    found: Result<Entry, Fault>,
    link: Result<Vec<u8>, Fault>,
) -> Option<Words> {
    let unlinked = Some((".cshrc is not linked to the installed dotfiles source"@, None));
    match found {
        Err(fault) => Some((fault.text@, None)),
        Ok(entry) => if entry.kind != FileKind::Symlink {
            unlinked
        } else {
            match link {
                Err(fault) => Some((fault.text@, None)),
                Ok(link) => if leads_to_source(
                    under(home, ".cshrc"@),
                    link@,
                    under(dotfiles, "tcsh/.cshrc"@),
                ) {
                    None
                } else {
                    unlinked
                },
            }
        },
    }
}

/// Checks that the start file of the shell is a link into the dotfiles.
pub fn validate_stowed_cshrc(
    dotfiles: &[u8],
    home: &[u8],
    found: Result<Entry, Fault>,
    link: Result<Vec<u8>, Fault>,
) -> (result: Result<(), Failure>)
    ensures
        reports(result, cshrc_problem(dotfiles@, home@, found, link)),
{
    let entry = match found {
        Err(fault) => {
            return Err(Failure::plain(&fault.text));
        },
        Ok(entry) => entry,
    };
    if entry.kind != FileKind::Symlink {
        return Err(Failure::plain(".cshrc is not linked to the installed dotfiles source"));
    }
    let link = match link {
        Err(fault) => {
            return Err(Failure::plain(&fault.text));
        },
        Ok(link) => link,
    };
    let source = join_text(dotfiles, "tcsh/.cshrc");
    let target = join_text(home, ".cshrc");
    if is_correct_stow_symlink(&target, &link, &source) {
        Ok(())
    } else {
        Err(Failure::plain(".cshrc is not linked to the installed dotfiles source"))
    }
}

/// Looks at the start file of the shell.
pub fn cshrc_survey(home: &[u8]) -> (survey: Survey)
    ensures
        survey.begins(
            seq![Ask::Inspect(under(home@, ".cshrc"@)), Ask::ReadLink(under(home@, ".cshrc"@))],
        ),
{
    let mut requests = no_requests();
    add_request(&mut requests, Request::Inspect(join_text(home, ".cshrc")));
    add_request(&mut requests, Request::ReadLink(join_text(home, ".cshrc")));
    assert(asked_of(requests@) =~= seq![
        Ask::Inspect(under(home@, ".cshrc"@)),
        Ask::ReadLink(under(home@, ".cshrc"@)),
    ]);
    Survey::new(requests)
}

/// Whether this is what is said of the start file of the shell by what was seen.
pub open spec fn cshrc_judged(
    dotfiles: Seq<u8>,
    home: Seq<u8>,
    replies: Seq<Reply>,
    result: Result<(), Failure>,
) -> bool {
    if replies.len() == 2 {
        exists|found: Result<Entry, Fault>, link: Result<Vec<u8>, Fault>| #[trigger]
            shows_entry(replies[0], found) && #[trigger] shows_bytes(replies[1], link)
                && reports(result, cshrc_problem(dotfiles, home, found, link))
    } else {
        result is Err && result->Err_0.says(unanswered())
    }
}

/// Checks the start file of the shell by what was seen.
pub fn validate_seen_cshrc(dotfiles: &[u8], home: &[u8], survey: Survey) -> (result: Result<
    (),
    Failure,
>)
    ensures
        cshrc_judged(dotfiles@, home@, survey.replies@, result),
{
    if survey.replies.len() != 2 {
        return Err(Failure::plain("unexpected reply"));
    }
    let mut replies = survey.replies;
    let link = take_bytes(&mut replies);
    let found = take_entry(&mut replies);
    assert(shows_entry(survey.replies@[0], found) && shows_bytes(survey.replies@[1], link));
    validate_stowed_cshrc(dotfiles, home, found, link)
}

} // verus!
