//! What the installer asks of the machine it runs on, and what comes back.

use crate::bytes::{copy_bytes, text_bytes, views};
use crate::private_release::PrivateReleaseResponse;
use crate::release::Release;
use crate::transaction::PathIdentity;
use vstd::prelude::*;
use vstd::utf8::encode_utf8;

verus! {

/// The type of a file system entry.
#[derive(Clone, Copy, Debug, PartialEq, Eq, Structural)]
pub enum FileKind {
    Regular,
    Directory,
    Symlink,
    Other,
}

/// A file system entry as an inspection shows it.
#[derive(Clone, Copy, Debug, PartialEq, Eq, Structural)]
pub struct Entry {
    pub kind: FileKind,
    /// The permission bits.
    pub mode: u32,
    /// Which entry it is.
    pub identity: PathIdentity,
}

/// The classes of system errors that make a difference.
#[derive(Clone, Copy, Debug, PartialEq, Eq, Structural)]
pub enum FaultKind {
    NotFound,
    AlreadyExists,
    /// The system call rejected an argument (`EINVAL`).
    InvalidArgument,
    /// A path or another input was rejected before the system call.
    InvalidInput,
    /// What was read is malformed.
    InvalidData,
    /// A program has ended without success; the words are its status.
    Ended,
    Other,
}

/// A system error.
#[derive(Debug)]
pub struct Fault {
    pub kind: FaultKind,
    /// The error in words.
    pub text: String,
}

/// A program to be run.
#[derive(Debug)]
pub struct Program {
    pub executable: Vec<u8>,
    pub arguments: Vec<Vec<u8>>,
    /// The working directory, where it is not the present one.
    pub directory: Option<Vec<u8>>,
    /// Environment variables to be set, each with its value.
    pub set: Vec<(Vec<u8>, Vec<u8>)>,
    /// Environment variables to be removed.
    pub unset: Vec<Vec<u8>>,
}

/// What a program is run with.
#[verifier::ext_equal]
pub struct ProgramView {
    pub executable: Seq<u8>,
    pub arguments: Seq<Seq<u8>>,
    pub directory: Option<Seq<u8>>,
    pub set: Seq<(Seq<u8>, Seq<u8>)>,
    pub unset: Seq<Seq<u8>>,
}

/// What pairs of byte strings hold.
pub open spec fn pair_views(pairs: Seq<(Vec<u8>, Vec<u8>)>) -> Seq<(Seq<u8>, Seq<u8>)> {
    pairs.map_values(|pair: (Vec<u8>, Vec<u8>)| (pair.0@, pair.1@))
}

impl View for Program {
    type V = ProgramView;

    open spec fn view(&self) -> ProgramView {
        ProgramView {
            executable: self.executable@,
            arguments: views(self.arguments@),
            directory: match self.directory {
                Some(path) => Some(path@),
                None => None,
            },
            set: pair_views(self.set@),
            unset: views(self.unset@),
        }
    }
}

/// A program run with arguments, in the present directory and environment.
pub open spec fn plain_program(executable: Seq<u8>, arguments: Seq<Seq<u8>>) -> ProgramView {
    ProgramView {
        executable,
        arguments,
        directory: None,
        set: Seq::empty(),
        unset: Seq::empty(),
    }
}

/// Adds a byte string to a list.
pub fn add_bytes(list: &mut Vec<Vec<u8>>, item: Vec<u8>)
    ensures
        views(final(list)@) == views(old(list)@).push(item@),
        final(list)@ == old(list)@.push(item),
{
    list.push(item);
    assert(views(list@) =~= views(old(list)@).push(item@));
}

/// An empty list of byte strings.
pub fn no_bytes() -> (list: Vec<Vec<u8>>)
    ensures
        views(list@) == Seq::<Seq<u8>>::empty(),
        list@.len() == 0,
{
    let list: Vec<Vec<u8>> = Vec::new();
    assert(views(list@) =~= Seq::<Seq<u8>>::empty());
    list
}

impl Program {
    /// A program run with arguments, in the present directory and environment.
    pub fn plain(executable: Vec<u8>, arguments: Vec<Vec<u8>>) -> (program: Program)
        ensures
            program@ == plain_program(executable@, views(arguments@)),
    {
        let program = Program {
            executable,
            arguments,
            directory: None,
            set: Vec::new(),
            unset: Vec::new(),
        };
        assert(program@ =~= plain_program(executable@, views(arguments@)));
        program
    }
}

/// A program run with one argument.
pub open spec fn program_with(executable: Seq<u8>, argument: Seq<char>) -> ProgramView {
    plain_program(executable, seq![encode_utf8(argument)])
}

/// A program run with one argument.
pub fn run_with_argument(executable: &[u8], argument: &str) -> (program: Program)
    ensures
        program@ == program_with(executable@, argument@),
{
    let mut arguments = no_bytes();
    add_bytes(&mut arguments, text_bytes(argument));
    assert(views(arguments@) =~= seq![encode_utf8(argument@)]);
    Program::plain(copy_bytes(executable), arguments)
}

/// A request to the machine. Inspections do not follow symbolic links where nothing
/// else is said.
#[derive(Debug)]
pub enum Request {
    /// Nothing is left to be done.
    Nothing,
    /// Inspect the entry at a path.
    Inspect(Vec<u8>),
    /// Inspect what a path leads to, behind any links.
    InspectTarget(Vec<u8>),
    /// Inspect the file that was created last and is still open.
    InspectOpen(Vec<u8>),
    /// Open a file for reading.
    Open(Vec<u8>),
    /// Read the file that was opened for reading last.
    ReadOpened(Vec<u8>),
    /// Read a file.
    Read(Vec<u8>),
    /// Read the settings of the user, and have them judged as such.
    ReadConfig(Vec<u8>),
    /// Read what is kept with an installation, and have it judged as such.
    ReadMetadata(Vec<u8>),
    /// Read the target of a symbolic link.
    ReadLink(Vec<u8>),
    /// Create a file that must not exist and open it for writing.
    CreateFile { path: Vec<u8>, mode: u32 },
    /// Set the permission bits of an entry.
    SetMode { path: Vec<u8>, mode: u32 },
    /// Set the permission bits of the open file.
    SetOpenMode { path: Vec<u8>, mode: u32 },
    /// Write to the open file.
    Write { path: Vec<u8>, contents: Vec<u8> },
    /// Copy a file into the open file.
    CopyFrom { source: Vec<u8>, path: Vec<u8> },
    /// Begin to download what lies at a public address.
    Get(String),
    /// Begin to download what lies at an address of the private repository.
    GetPrivate(String),
    /// Begin to download a file of a release of the private repository.
    GetAsset(String),
    /// Copy what is being downloaded into the open file.
    SaveBody(Vec<u8>),
    /// Read what is being downloaded.
    ReadBody,
    /// Read what is being downloaded as text.
    ReadText,
    /// Ask for the latest public release.
    FetchRelease,
    /// Let the user authorize the program for the private repository.
    Authorize,
    /// Ask for the latest release of the private repository.
    FetchPrivateRelease,
    /// List the names in a directory.
    List(Vec<u8>),
    /// Check that a directory can be entered and written to.
    CheckAccess(Vec<u8>),
    /// Show the heading of an operation, as the first output.
    FirstHeading(String),
    /// Show the heading of an operation behind an empty line.
    Heading(String),
    /// Show a line of detail.
    Detail(String),
    /// Show text as it is.
    Show(String),
    /// Show a warning.
    Warning(String),
    /// Flush the open file to the disk.
    SyncOpen(Vec<u8>),
    /// Flush a file to the disk.
    Sync(Vec<u8>),
    /// Create a directory that must not exist.
    MakeDirectory { path: Vec<u8>, mode: u32 },
    /// Create the directories of a managed path.
    MakeManaged(Vec<u8>),
    /// Create the directories of a backup below the state directory.
    MakeBackup { state_home: Vec<u8>, path: Vec<u8> },
    /// Create the directories of a restored entry below the home directory.
    MakeRestore { home: Vec<u8>, path: Vec<u8> },
    /// Create a symbolic link.
    Symlink { target: Vec<u8>, path: Vec<u8> },
    /// Give a file a second name that must not exist.
    Link { source: Vec<u8>, destination: Vec<u8> },
    /// Rename an entry; what stands at the destination is replaced.
    Rename { source: Vec<u8>, destination: Vec<u8> },
    /// Rename an entry; nothing may stand at the destination.
    RenameNoReplace { source: Vec<u8>, destination: Vec<u8> },
    /// Remove an entry that is not a directory.
    RemoveFile(Vec<u8>),
    /// Remove an empty directory.
    RemoveDirectory(Vec<u8>),
    /// Remove a directory and everything below it.
    RemoveTree(Vec<u8>),
    /// Move an entry to a place that must be free.
    Move { source: Vec<u8>, destination: Vec<u8> },
    /// Write a backup index.
    WriteIndex { path: Vec<u8>, entries: Vec<Vec<u8>> },
    /// Add an entry to a backup index.
    AppendIndex { path: Vec<u8>, entry: Vec<u8> },
    /// Publish a finished temporary file under a name that must be free.
    Publish { temporary: Vec<u8>, destination: Vec<u8>, identity: PathIdentity },
    /// Take the lock of the state directory.
    Lock(Vec<u8>),
    /// Save a file as a whole.
    SaveFile { path: Vec<u8>, contents: Vec<u8> },
    /// Run a program with nothing on its input, its output shown.
    Run(Program),
    /// Run a program and take its output.
    Capture(Program),
    /// Run a program with the given input.
    Feed { program: Program, input: Vec<u8> },
}

/// What a request is made of.
pub enum Ask {
    Nothing,
    Inspect(Seq<u8>),
    InspectTarget(Seq<u8>),
    InspectOpen(Seq<u8>),
    Open(Seq<u8>),
    ReadOpened(Seq<u8>),
    Read(Seq<u8>),
    ReadConfig(Seq<u8>),
    ReadMetadata(Seq<u8>),
    ReadLink(Seq<u8>),
    CreateFile { path: Seq<u8>, mode: u32 },
    SetMode { path: Seq<u8>, mode: u32 },
    SetOpenMode { path: Seq<u8>, mode: u32 },
    Write { path: Seq<u8>, contents: Seq<u8> },
    CopyFrom { source: Seq<u8>, path: Seq<u8> },
    Get(Seq<char>),
    GetPrivate(Seq<char>),
    GetAsset(Seq<char>),
    SaveBody(Seq<u8>),
    ReadBody,
    ReadText,
    FetchRelease,
    Authorize,
    FetchPrivateRelease,
    List(Seq<u8>),
    CheckAccess(Seq<u8>),
    FirstHeading(Seq<char>),
    Heading(Seq<char>),
    Detail(Seq<char>),
    Show(Seq<char>),
    Warning(Seq<char>),
    SyncOpen(Seq<u8>),
    Sync(Seq<u8>),
    MakeDirectory { path: Seq<u8>, mode: u32 },
    MakeManaged(Seq<u8>),
    MakeBackup { state_home: Seq<u8>, path: Seq<u8> },
    MakeRestore { home: Seq<u8>, path: Seq<u8> },
    Symlink { target: Seq<u8>, path: Seq<u8> },
    Link { source: Seq<u8>, destination: Seq<u8> },
    Rename { source: Seq<u8>, destination: Seq<u8> },
    RenameNoReplace { source: Seq<u8>, destination: Seq<u8> },
    RemoveFile(Seq<u8>),
    RemoveDirectory(Seq<u8>),
    RemoveTree(Seq<u8>),
    Move { source: Seq<u8>, destination: Seq<u8> },
    WriteIndex { path: Seq<u8>, entries: Seq<Seq<u8>> },
    AppendIndex { path: Seq<u8>, entry: Seq<u8> },
    Publish { temporary: Seq<u8>, destination: Seq<u8>, identity: PathIdentity },
    Lock(Seq<u8>),
    SaveFile { path: Seq<u8>, contents: Seq<u8> },
    Run(ProgramView),
    Capture(ProgramView),
    Feed { program: ProgramView, input: Seq<u8> },
}

impl View for Request {
    type V = Ask;

    open spec fn view(&self) -> Ask {
        match self {
            Request::Nothing => Ask::Nothing,
            Request::Inspect(path) => Ask::Inspect(path@),
            Request::InspectTarget(path) => Ask::InspectTarget(path@),
            Request::InspectOpen(path) => Ask::InspectOpen(path@),
            Request::Open(path) => Ask::Open(path@),
            Request::ReadOpened(path) => Ask::ReadOpened(path@),
            Request::Read(path) => Ask::Read(path@),
            Request::ReadConfig(path) => Ask::ReadConfig(path@),
            Request::ReadMetadata(path) => Ask::ReadMetadata(path@),
            Request::ReadLink(path) => Ask::ReadLink(path@),
            Request::CreateFile { path, mode } => Ask::CreateFile { path: path@, mode: *mode },
            Request::SetMode { path, mode } => Ask::SetMode { path: path@, mode: *mode },
            Request::SetOpenMode { path, mode } => Ask::SetOpenMode { path: path@, mode: *mode },
            Request::Write { path, contents } => Ask::Write { path: path@, contents: contents@ },
            Request::CopyFrom { source, path } => Ask::CopyFrom { source: source@, path: path@ },
            Request::Get(url) => Ask::Get(url@),
            Request::GetPrivate(url) => Ask::GetPrivate(url@),
            Request::GetAsset(url) => Ask::GetAsset(url@),
            Request::SaveBody(path) => Ask::SaveBody(path@),
            Request::ReadBody => Ask::ReadBody,
            Request::ReadText => Ask::ReadText,
            Request::FetchRelease => Ask::FetchRelease,
            Request::Authorize => Ask::Authorize,
            Request::FetchPrivateRelease => Ask::FetchPrivateRelease,
            Request::List(path) => Ask::List(path@),
            Request::CheckAccess(path) => Ask::CheckAccess(path@),
            Request::FirstHeading(text) => Ask::FirstHeading(text@),
            Request::Heading(text) => Ask::Heading(text@),
            Request::Detail(text) => Ask::Detail(text@),
            Request::Show(text) => Ask::Show(text@),
            Request::Warning(text) => Ask::Warning(text@),
            Request::SyncOpen(path) => Ask::SyncOpen(path@),
            Request::Sync(path) => Ask::Sync(path@),
            Request::MakeDirectory { path, mode } => Ask::MakeDirectory { path: path@, mode: *mode },
            Request::MakeManaged(path) => Ask::MakeManaged(path@),
            Request::MakeBackup { state_home, path } => Ask::MakeBackup {
                state_home: state_home@,
                path: path@,
            },
            Request::MakeRestore { home, path } => Ask::MakeRestore { home: home@, path: path@ },
            Request::Symlink { target, path } => Ask::Symlink { target: target@, path: path@ },
            Request::Link { source, destination } => Ask::Link {
                source: source@,
                destination: destination@,
            },
            Request::Rename { source, destination } => Ask::Rename {
                source: source@,
                destination: destination@,
            },
            Request::RenameNoReplace { source, destination } => Ask::RenameNoReplace {
                source: source@,
                destination: destination@,
            },
            Request::RemoveFile(path) => Ask::RemoveFile(path@),
            Request::RemoveDirectory(path) => Ask::RemoveDirectory(path@),
            Request::RemoveTree(path) => Ask::RemoveTree(path@),
            Request::Move { source, destination } => Ask::Move {
                source: source@,
                destination: destination@,
            },
            Request::WriteIndex { path, entries } => Ask::WriteIndex {
                path: path@,
                entries: views(entries@),
            },
            Request::AppendIndex { path, entry } => Ask::AppendIndex { path: path@, entry: entry@ },
            Request::Publish { temporary, destination, identity } => Ask::Publish {
                temporary: temporary@,
                destination: destination@,
                identity: *identity,
            },
            Request::Lock(state_home) => Ask::Lock(state_home@),
            Request::SaveFile { path, contents } => Ask::SaveFile {
                path: path@,
                contents: contents@,
            },
            Request::Run(program) => Ask::Run(program@),
            Request::Capture(program) => Ask::Capture(program@),
            Request::Feed { program, input } => Ask::Feed { program: program@, input: input@ },
        }
    }
}

/// A copy of a list of byte strings.
pub fn copy_all(items: &Vec<Vec<u8>>) -> (copy: Vec<Vec<u8>>)
    ensures
        views(copy@) == views(items@),
{
    let mut copy: Vec<Vec<u8>> = Vec::new();
    let mut index: usize = 0;
    while index < items.len()
        invariant
            index <= items.len(),
            views(copy@) =~= views(items@).take(index as int),
        decreases items.len() - index,
    {
        let item = copy_bytes(&items[index]);
        let ghost before = copy@;
        copy.push(item);
        assert(views(copy@) =~= views(before).push(item@));
        index = index + 1;
        assert(views(items@).take(index as int) =~= views(items@).take(index - 1).push(
            views(items@)[index - 1],
        ));
    }
    assert(views(items@).take(index as int) =~= views(items@));
    copy
}

impl Program {
    /// The same program once more.
    pub fn copy(&self) -> (copy: Program)
        ensures
            copy@ == self@,
    {
        let mut set: Vec<(Vec<u8>, Vec<u8>)> = Vec::new();
        let mut index: usize = 0;
        while index < self.set.len()
            invariant
                index <= self.set.len(),
                pair_views(set@) =~= pair_views(self.set@).take(index as int),
            decreases self.set.len() - index,
        {
            let pair = &self.set[index];
            let first = copy_bytes(&pair.0);
            let second = copy_bytes(&pair.1);
            let ghost before = set@;
            set.push((first, second));
            assert(pair_views(set@) =~= pair_views(before).push((first@, second@)));
            index = index + 1;
            assert(pair_views(self.set@).take(index as int) =~= pair_views(self.set@).take(
                index - 1,
            ).push(pair_views(self.set@)[index - 1]));
        }
        assert(pair_views(self.set@).take(index as int) =~= pair_views(self.set@));
        let directory = match &self.directory {
            Some(path) => Some(copy_bytes(path)),
            None => None,
        };
        let copy = Program {
            executable: copy_bytes(&self.executable),
            arguments: copy_all(&self.arguments),
            directory,
            set,
            unset: copy_all(&self.unset),
        };
        assert(copy@ =~= self@);
        copy
    }
}

impl Request {
    /// The same request once more.
    pub fn copy(&self) -> (copy: Request)
        ensures
            copy@ == self@,
    {
        match self {
            Request::Nothing => Request::Nothing,
            Request::Inspect(value) => Request::Inspect(copy_bytes(value)),
            Request::InspectTarget(value) => Request::InspectTarget(copy_bytes(value)),
            Request::InspectOpen(value) => Request::InspectOpen(copy_bytes(value)),
            Request::Open(value) => Request::Open(copy_bytes(value)),
            Request::ReadOpened(value) => Request::ReadOpened(copy_bytes(value)),
            Request::Read(value) => Request::Read(copy_bytes(value)),
            Request::ReadConfig(value) => Request::ReadConfig(copy_bytes(value)),
            Request::ReadMetadata(value) => Request::ReadMetadata(copy_bytes(value)),
            Request::ReadLink(value) => Request::ReadLink(copy_bytes(value)),
            Request::CreateFile { path, mode } => Request::CreateFile {
                path: copy_bytes(path),
                mode: *mode,
            },
            Request::SetMode { path, mode } => Request::SetMode {
                path: copy_bytes(path),
                mode: *mode,
            },
            Request::SetOpenMode { path, mode } => Request::SetOpenMode {
                path: copy_bytes(path),
                mode: *mode,
            },
            Request::Write { path, contents } => Request::Write {
                path: copy_bytes(path),
                contents: copy_bytes(contents),
            },
            Request::CopyFrom { source, path } => Request::CopyFrom {
                source: copy_bytes(source),
                path: copy_bytes(path),
            },
            Request::Get(value) => Request::Get(value.clone()),
            Request::GetPrivate(value) => Request::GetPrivate(value.clone()),
            Request::GetAsset(value) => Request::GetAsset(value.clone()),
            Request::SaveBody(value) => Request::SaveBody(copy_bytes(value)),
            Request::ReadBody => Request::ReadBody,
            Request::ReadText => Request::ReadText,
            Request::FetchRelease => Request::FetchRelease,
            Request::Authorize => Request::Authorize,
            Request::FetchPrivateRelease => Request::FetchPrivateRelease,
            Request::List(value) => Request::List(copy_bytes(value)),
            Request::CheckAccess(value) => Request::CheckAccess(copy_bytes(value)),
            Request::FirstHeading(value) => Request::FirstHeading(value.clone()),
            Request::Heading(value) => Request::Heading(value.clone()),
            Request::Detail(value) => Request::Detail(value.clone()),
            Request::Show(text) => Request::Show(text.clone()),
            Request::Warning(value) => Request::Warning(value.clone()),
            Request::SyncOpen(value) => Request::SyncOpen(copy_bytes(value)),
            Request::Sync(value) => Request::Sync(copy_bytes(value)),
            Request::MakeDirectory { path, mode } => Request::MakeDirectory {
                path: copy_bytes(path),
                mode: *mode,
            },
            Request::MakeManaged(value) => Request::MakeManaged(copy_bytes(value)),
            Request::MakeBackup { state_home, path } => Request::MakeBackup {
                state_home: copy_bytes(state_home),
                path: copy_bytes(path),
            },
            Request::MakeRestore { home, path } => Request::MakeRestore {
                home: copy_bytes(home),
                path: copy_bytes(path),
            },
            Request::Symlink { target, path } => Request::Symlink {
                target: copy_bytes(target),
                path: copy_bytes(path),
            },
            Request::Link { source, destination } => Request::Link {
                source: copy_bytes(source),
                destination: copy_bytes(destination),
            },
            Request::Rename { source, destination } => Request::Rename {
                source: copy_bytes(source),
                destination: copy_bytes(destination),
            },
            Request::RenameNoReplace { source, destination } => Request::RenameNoReplace {
                source: copy_bytes(source),
                destination: copy_bytes(destination),
            },
            Request::RemoveFile(value) => Request::RemoveFile(copy_bytes(value)),
            Request::RemoveDirectory(value) => Request::RemoveDirectory(copy_bytes(value)),
            Request::RemoveTree(value) => Request::RemoveTree(copy_bytes(value)),
            Request::Move { source, destination } => Request::Move {
                source: copy_bytes(source),
                destination: copy_bytes(destination),
            },
            Request::WriteIndex { path, entries } => Request::WriteIndex {
                path: copy_bytes(path),
                entries: copy_all(entries),
            },
            Request::AppendIndex { path, entry } => Request::AppendIndex {
                path: copy_bytes(path),
                entry: copy_bytes(entry),
            },
            Request::Publish { temporary, destination, identity } => Request::Publish {
                temporary: copy_bytes(temporary),
                destination: copy_bytes(destination),
                identity: *identity,
            },
            Request::Lock(value) => Request::Lock(copy_bytes(value)),
            Request::SaveFile { path, contents } => Request::SaveFile {
                path: copy_bytes(path),
                contents: copy_bytes(contents),
            },
            Request::Run(value) => Request::Run(value.copy()),
            Request::Capture(value) => Request::Capture(value.copy()),
            Request::Feed { program, input } => Request::Feed {
                program: program.copy(),
                input: copy_bytes(input),
            },
        }
    }
}

/// What a request came back with.
#[derive(Debug)]
pub enum Reply {
    /// It was done.
    Done,
    /// The entry that was inspected.
    Found(Entry),
    /// What was read.
    Contents(Vec<u8>),
    /// What was read as text.
    Text(String),
    /// What was read, and what a reader that knows the settings has to say against it;
    /// empty where that is nothing.
    Judged { contents: Vec<u8>, complaint: String },
    /// The names in a directory.
    Names(Vec<Vec<u8>>),
    /// A release as the server describes it.
    Release(Release),
    /// A release of the private repository as the server describes it.
    PrivateRelease(PrivateReleaseResponse),
    /// A file was published; what is said where its temporary file is still there.
    Published { cleanup_error: Option<String> },
    /// How a program ended.
    Exited {
        success: bool,
        /// The status in words.
        status: String,
        output: Vec<u8>,
        errors: Vec<u8>,
    },
    /// It failed.
    Failed(Fault),
}

/// The file that was read and judged.
pub open spec fn judged_reply(reply: Reply) -> Option<Result<Vec<u8>, Fault>> {
    match reply {
        Reply::Judged { contents, .. } => Some(Ok(contents)),
        Reply::Failed(fault) => Some(Err(fault)),
        _ => None,
    }
}

/// What was said against the file that was read.
pub open spec fn complaint_of(reply: Reply) -> Seq<char> {
    match reply {
        Reply::Judged { complaint, .. } => complaint@,
        _ => ""@,
    }
}

/// The file that was read and judged, and what was said against it.
pub fn judged_contents(reply: Reply) -> (judged: (Option<Result<Vec<u8>, Fault>>, String))
    ensures
        judged.0 == judged_reply(reply),
        judged.1@ == complaint_of(reply),
{
    match reply {
        Reply::Judged { contents, complaint } => (Some(Ok(contents)), complaint),
        Reply::Failed(fault) => (Some(Err(fault)), "".to_owned()),
        _ => (None, "".to_owned()),
    }
}

/// Whether one of the execute bits is set.
pub open spec fn executable_mode(mode: u32) -> bool {
    mode & 0o111 != 0
}

/// Whether the entry is a regular file that can be executed.
pub open spec fn is_program(entry: Entry) -> bool {
    entry.kind == FileKind::Regular && executable_mode(entry.mode)
}

/// Whether the entry is a regular file that can be executed.
pub fn is_executable(entry: &Entry) -> (yes: bool)
    ensures
        yes == is_program(*entry),
{
    entry.kind == FileKind::Regular && entry.mode & 0o111 != 0
}

} // verus!
