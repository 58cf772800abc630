//! Moving what is in the way out of the home directory, and back.

use crate::backup_index::{append_backup_index_entry, backup_path_problem};
use crate::backup_index::{decode_backup_index_entry, encode_backup_index_entry, entry_path};
use crate::backup_index::{index_entries, occurrences, others, parse_backup_index};
use crate::backup_index::{remove_backup_index_entry, render_backup_index, rendered_index};
use crate::backup_index::{AppendError, BackupPathError, EntryError, IndexError};
use crate::bytes::{copy_bytes, hex_encoded, views};
use crate::failure::{about, message_at, Failure};
use crate::host::{copy_all, Ask, Fault, FaultKind, FileKind, Reply, Request};
use crate::paths::{components, components_of, has_parent, join, join_text, joined, parent};
use crate::paths::{parent_of, part_views, rest_of, strip_prefix_bytes, under, Component};
use crate::text::{decimal, decimal_text};
use crate::transaction::{Action, PathIdentity};
use vstd::prelude::*;

verus! {

/// The permission bits of a backup index.
pub const BACKUP_INDEX_MODE: u32 = 0o600;

// --------------------------------------------------
// Writing an index
// --------------------------------------------------

/// The name of the temporary file from which an index is put in place.
pub open spec fn index_temporary_name(process: u64, sequence: u64) -> Seq<char> {
    ".index.tmp-"@ + decimal(process as nat) + "-"@ + decimal(sequence as nat)
}

/// Why an index was not written.
#[derive(Debug)]
pub enum IndexWriteFailure {
    /// A request failed.
    Host(Fault),
    /// An entry of the index is rejected.
    Entry(EntryError),
    /// Another entry has taken the place of the temporary file.
    Replaced,
    /// What stands at the path of the index is not a regular file.
    NotRegular,
    /// A reply did not answer the request.
    Unanswered,
}

/// How far the writing of an index has come.
#[derive(Debug)]
pub enum IndexPhase {
    Create,
    InspectOpen,
    SetMode { created: PathIdentity },
    Write { created: PathIdentity },
    Sync { created: PathIdentity },
    InspectTemporary { created: PathIdentity },
    InspectIndex { created: PathIdentity },
    /// An index stands there and is replaced.
    Replace { created: PathIdentity },
    /// No index stands there; the first one is published.
    Publish { created: PathIdentity },
    /// The temporary file is inspected before it is removed.
    Tidy { created: PathIdentity, failure: IndexWriteFailure },
    Remove { failure: IndexWriteFailure },
    Written { cleanup_error: Option<String> },
    Failed(IndexWriteFailure),
}

/// The writing of an index.
#[derive(Debug)]
pub struct IndexWrite {
    pub path: Vec<u8>,
    pub temporary: Vec<u8>,
    /// The entries up to the first rejected one.
    pub content: Vec<u8>,
    /// What rejects an entry.
    pub refusal: Option<EntryError>,
    pub phase: IndexPhase,
}

/// What follows a request that only has to succeed.
pub open spec fn index_done(created: PathIdentity, reply: Reply, next: IndexPhase) -> IndexPhase {
    match reply {
        Reply::Done => next,
        Reply::Failed(fault) => IndexPhase::Tidy { created, failure: IndexWriteFailure::Host(fault) },
        _ => IndexPhase::Tidy { created, failure: IndexWriteFailure::Unanswered },
    }
}

/// What follows once the entries up to the first rejected one were written.
pub open spec fn index_written(created: PathIdentity, refusal: Option<EntryError>) -> IndexPhase {
    match refusal {
        None => IndexPhase::Sync { created },
        Some(error) => IndexPhase::Tidy { created, failure: IndexWriteFailure::Entry(error) },
    }
}

/// The phase that follows a reply.
pub open spec fn index_next(
    refusal: Option<EntryError>,
    phase: IndexPhase,
    reply: Reply,
) -> IndexPhase {
    match phase {
        IndexPhase::Create => match reply {
            Reply::Done => IndexPhase::InspectOpen,
            Reply::Failed(fault) => IndexPhase::Failed(IndexWriteFailure::Host(fault)),
            _ => IndexPhase::Failed(IndexWriteFailure::Unanswered),
        },
        IndexPhase::InspectOpen => match reply {
            Reply::Found(entry) => IndexPhase::SetMode { created: entry.identity },
            Reply::Failed(fault) => IndexPhase::Failed(IndexWriteFailure::Host(fault)),
            _ => IndexPhase::Failed(IndexWriteFailure::Unanswered),
        },
        IndexPhase::SetMode { created } => index_done(created, reply, IndexPhase::Write { created }),
        IndexPhase::Write { created } => index_done(created, reply, index_written(created, refusal)),
        IndexPhase::Sync { created } => index_done(
            created,
            reply,
            IndexPhase::InspectTemporary { created },
        ),
        IndexPhase::InspectTemporary { created } => match reply {
            Reply::Found(entry) => if entry.identity == created {
                IndexPhase::InspectIndex { created }
            } else {
                IndexPhase::Tidy { created, failure: IndexWriteFailure::Replaced }
            },
            Reply::Failed(fault) => IndexPhase::Tidy {
                created,
                failure: IndexWriteFailure::Host(fault),
            },
            _ => IndexPhase::Tidy { created, failure: IndexWriteFailure::Unanswered },
        },
        IndexPhase::InspectIndex { created } => match reply {
            Reply::Found(entry) => if entry.kind == FileKind::Regular {
                IndexPhase::Replace { created }
            } else {
                IndexPhase::Tidy { created, failure: IndexWriteFailure::NotRegular }
            },
            Reply::Failed(fault) => if fault.kind == FaultKind::NotFound {
                IndexPhase::Publish { created }
            } else {
                IndexPhase::Tidy { created, failure: IndexWriteFailure::Host(fault) }
            },
            _ => IndexPhase::Tidy { created, failure: IndexWriteFailure::Unanswered },
        },
        IndexPhase::Replace { created } => index_done(
            created,
            reply,
            IndexPhase::Written { cleanup_error: None },
        ),
        IndexPhase::Publish { created } => match reply {
            Reply::Published { cleanup_error } => IndexPhase::Written { cleanup_error },
            Reply::Failed(fault) => IndexPhase::Tidy {
                created,
                failure: IndexWriteFailure::Host(fault),
            },
            _ => IndexPhase::Tidy { created, failure: IndexWriteFailure::Unanswered },
        },
        IndexPhase::Tidy { created, failure } => match reply {
            Reply::Found(entry) => if entry.identity == created {
                IndexPhase::Remove { failure }
            } else {
                IndexPhase::Failed(failure)
            },
            _ => IndexPhase::Failed(failure),
        },
        IndexPhase::Remove { failure } => IndexPhase::Failed(failure),
        IndexPhase::Written { cleanup_error } => IndexPhase::Written { cleanup_error },
        IndexPhase::Failed(failure) => IndexPhase::Failed(failure),
    }
}

fn go_on(created: PathIdentity, reply: Reply, next: IndexPhase) -> (phase: IndexPhase)
    ensures
        phase == index_done(created, reply, next),
{
    match reply {
        Reply::Done => next,
        Reply::Failed(fault) => IndexPhase::Tidy { created, failure: IndexWriteFailure::Host(fault) },
        _ => IndexPhase::Tidy { created, failure: IndexWriteFailure::Unanswered },
    }
}

/// Prepares the writing of an index with the given entries.
pub fn write_backup_index(
    path: &[u8],
    entries: &Vec<Vec<u8>>,
    process: u64,
    sequence: u64,
) -> (result: Result<IndexWrite, Failure>)
    ensures
        !has_parent(path@) ==> result is Err && result->Err_0.says("backup index has no parent"@),
        has_parent(path@) ==> result is Ok && {
            let write = result->Ok_0;
            &&& write.path@ == path@
            &&& write.temporary@ == under(
                parent_of(path@),
                index_temporary_name(process, sequence),
            )
            &&& rendered_index(views(entries@), write.content@, write.refusal)
            &&& write.phase == IndexPhase::Create
        },
{
    let directory = match parent(path) {
        None => {
            return Err(Failure::plain("backup index has no parent"));
        },
        Some(directory) => directory,
    };
    let (content, refusal) = render_backup_index(entries);
    let mut name = ".index.tmp-".to_owned();
    name.append(&decimal_text(process));
    name.append("-");
    name.append(&decimal_text(sequence));
    let temporary = join_text(&directory, &name);
    Ok(IndexWrite { path: copy_bytes(path), temporary, content, refusal, phase: IndexPhase::Create })
}

impl IndexWrite {
    /// The request that the writing waits for.
    pub open spec fn asks(&self) -> Ask {
        let temporary = self.temporary@;
        match self.phase {
            IndexPhase::Create => Ask::CreateFile { path: temporary, mode: BACKUP_INDEX_MODE },
            IndexPhase::InspectOpen => Ask::InspectOpen(temporary),
            IndexPhase::SetMode { .. } => Ask::SetOpenMode {
                path: temporary,
                mode: BACKUP_INDEX_MODE,
            },
            IndexPhase::Write { .. } => Ask::Write { path: temporary, contents: self.content@ },
            IndexPhase::Sync { .. } => Ask::SyncOpen(temporary),
            IndexPhase::InspectTemporary { .. } => Ask::Inspect(temporary),
            IndexPhase::InspectIndex { .. } => Ask::Inspect(self.path@),
            IndexPhase::Replace { .. } => Ask::Rename {
                source: temporary,
                destination: self.path@,
            },
            IndexPhase::Publish { created } => Ask::Publish {
                temporary,
                destination: self.path@,
                identity: created,
            },
            IndexPhase::Tidy { .. } => Ask::Inspect(temporary),
            IndexPhase::Remove { .. } => Ask::RemoveFile(temporary),
            IndexPhase::Written { .. } => Ask::Nothing,
            IndexPhase::Failed(_) => Ask::Nothing,
        }
    }

    /// The request that the writing waits for.
    pub fn request(&self) -> (request: Request)
        ensures
            request@ == self.asks(),
    {
        let temporary = copy_bytes(&self.temporary);
        match &self.phase {
            IndexPhase::Create => Request::CreateFile { path: temporary, mode: BACKUP_INDEX_MODE },
            IndexPhase::InspectOpen => Request::InspectOpen(temporary),
            IndexPhase::SetMode { .. } => Request::SetOpenMode {
                path: temporary,
                mode: BACKUP_INDEX_MODE,
            },
            IndexPhase::Write { .. } => Request::Write {
                path: temporary,
                contents: copy_bytes(&self.content),
            },
            IndexPhase::Sync { .. } => Request::SyncOpen(temporary),
            IndexPhase::InspectTemporary { .. } => Request::Inspect(temporary),
            IndexPhase::InspectIndex { .. } => Request::Inspect(copy_bytes(&self.path)),
            IndexPhase::Replace { .. } => Request::Rename {
                source: temporary,
                destination: copy_bytes(&self.path),
            },
            IndexPhase::Publish { created } => Request::Publish {
                temporary,
                destination: copy_bytes(&self.path),
                identity: *created,
            },
            IndexPhase::Tidy { .. } => Request::Inspect(temporary),
            IndexPhase::Remove { .. } => Request::RemoveFile(temporary),
            IndexPhase::Written { .. } => Request::Nothing,
            IndexPhase::Failed(_) => Request::Nothing,
        }
    }

    /// Goes on with the reply to the request.
    pub fn advance(self, reply: Reply) -> (next: IndexWrite)
        ensures
            next.path == self.path,
            next.temporary == self.temporary,
            next.content == self.content,
            next.refusal == self.refusal,
            next.phase == index_next(self.refusal, self.phase, reply),
    {
        let phase = match self.phase {
            IndexPhase::Create => match reply {
                Reply::Done => IndexPhase::InspectOpen,
                Reply::Failed(fault) => IndexPhase::Failed(IndexWriteFailure::Host(fault)),
                _ => IndexPhase::Failed(IndexWriteFailure::Unanswered),
            },
            IndexPhase::InspectOpen => match reply {
                Reply::Found(entry) => IndexPhase::SetMode { created: entry.identity },
                Reply::Failed(fault) => IndexPhase::Failed(IndexWriteFailure::Host(fault)),
                _ => IndexPhase::Failed(IndexWriteFailure::Unanswered),
            },
            IndexPhase::SetMode { created } => go_on(created, reply, IndexPhase::Write { created }),
            IndexPhase::Write { created } => {
                let next = match self.refusal {
                    None => IndexPhase::Sync { created },
                    Some(error) => IndexPhase::Tidy {
                        created,
                        failure: IndexWriteFailure::Entry(error),
                    },
                };
                go_on(created, reply, next)
            },
            IndexPhase::Sync { created } => go_on(
                created,
                reply,
                IndexPhase::InspectTemporary { created },
            ),
            IndexPhase::InspectTemporary { created } => match reply {
                Reply::Found(entry) => if entry.identity == created {
                    IndexPhase::InspectIndex { created }
                } else {
                    IndexPhase::Tidy { created, failure: IndexWriteFailure::Replaced }
                },
                Reply::Failed(fault) => IndexPhase::Tidy {
                    created,
                    failure: IndexWriteFailure::Host(fault),
                },
                _ => IndexPhase::Tidy { created, failure: IndexWriteFailure::Unanswered },
            },
            IndexPhase::InspectIndex { created } => match reply {
                Reply::Found(entry) => if entry.kind == FileKind::Regular {
                    IndexPhase::Replace { created }
                } else {
                    IndexPhase::Tidy { created, failure: IndexWriteFailure::NotRegular }
                },
                Reply::Failed(fault) => if fault.kind == FaultKind::NotFound {
                    IndexPhase::Publish { created }
                } else {
                    IndexPhase::Tidy { created, failure: IndexWriteFailure::Host(fault) }
                },
                _ => IndexPhase::Tidy { created, failure: IndexWriteFailure::Unanswered },
            },
            IndexPhase::Replace { created } => go_on(
                created,
                reply,
                IndexPhase::Written { cleanup_error: None },
            ),
            IndexPhase::Publish { created } => match reply {
                Reply::Published { cleanup_error } => IndexPhase::Written { cleanup_error },
                Reply::Failed(fault) => IndexPhase::Tidy {
                    created,
                    failure: IndexWriteFailure::Host(fault),
                },
                _ => IndexPhase::Tidy { created, failure: IndexWriteFailure::Unanswered },
            },
            IndexPhase::Tidy { created, failure } => match reply {
                Reply::Found(entry) => if entry.identity == created {
                    IndexPhase::Remove { failure }
                } else {
                    IndexPhase::Failed(failure)
                },
                _ => IndexPhase::Failed(failure),
            },
            IndexPhase::Remove { failure } => IndexPhase::Failed(failure),
            IndexPhase::Written { cleanup_error } => IndexPhase::Written { cleanup_error },
            IndexPhase::Failed(failure) => IndexPhase::Failed(failure),
        };
        IndexWrite {
            path: self.path,
            temporary: self.temporary,
            content: self.content,
            refusal: self.refusal,
            phase,
        }
    }
}

impl IndexWriteFailure {
    /// The failure in words.
    pub open spec fn words(&self, path: Seq<u8>) -> Seq<char> {
        match self {
            IndexWriteFailure::Host(fault) => fault.text@,
            IndexWriteFailure::Entry(error) => error.words(),
            IndexWriteFailure::Replaced => "backup index temporary file was replaced"@,
            IndexWriteFailure::NotRegular => about("backup index must be a regular file: "@, path),
            IndexWriteFailure::Unanswered => "unexpected reply"@,
        }
    }

    /// The failure in words.
    pub fn text(&self, path: &[u8]) -> (text: String)
        ensures
            text@ == self.words(path@),
    {
        match self {
            IndexWriteFailure::Host(fault) => fault.text.clone(),
            IndexWriteFailure::Entry(error) => error.text(),
            IndexWriteFailure::Replaced => "backup index temporary file was replaced".to_owned(),
            IndexWriteFailure::NotRegular => message_at("backup index must be a regular file: ", path),
            IndexWriteFailure::Unanswered => "unexpected reply".to_owned(),
        }
    }
}

/// An index with a rejected entry is never put in place. Another one is put in place
/// only while the temporary file is the one that was written; an index that stands there is replaced only where it is a regular
/// file; and the temporary file is removed only where it is the one that was
/// created.
pub proof fn index_is_replaced_safely(
    refusal: Option<EntryError>,
    phase: IndexPhase,
    reply: Reply,
)
    ensures
        (!(phase is Sync) && index_next(refusal, phase, reply) is Sync) ==> phase is Write && reply
            is Done && refusal is None,
        (!(phase is InspectTemporary) && index_next(refusal, phase, reply) is InspectTemporary)
            ==> phase is Sync && reply is Done,
        (!(phase is InspectIndex) && index_next(refusal, phase, reply) is InspectIndex) ==> phase
            is InspectTemporary && (reply matches Reply::Found(entry) && entry.identity
            == phase->InspectTemporary_created),
        (!(phase is Replace) && index_next(refusal, phase, reply) is Replace) ==> phase is InspectIndex && (
        reply matches Reply::Found(entry) && entry.kind == FileKind::Regular),
        (!(phase is Publish) && index_next(refusal, phase, reply) is Publish) ==> phase is InspectIndex && (
        reply matches Reply::Failed(fault) && fault.kind == FaultKind::NotFound),
        (!(phase is Remove) && index_next(refusal, phase, reply) is Remove) ==> phase is Tidy && (
        reply matches Reply::Found(entry) && entry.identity == phase->Tidy_created),
        (!(phase is Written) && index_next(refusal, phase, reply) is Written) ==> phase is Replace || phase
            is Publish,
{
}

// --------------------------------------------------
// Adding to an index
// --------------------------------------------------

/// How far the addition of an entry has come.
#[derive(Debug)]
pub enum AppendPhase {
    Looking,
    Reading,
    Writing { entries: Vec<Vec<u8>> },
    Written { cleanup_error: Option<String> },
    Failed(Failure),
}

/// The addition of an entry to an index.
#[derive(Debug)]
pub struct IndexAppend {
    pub path: Vec<u8>,
    pub entry: Vec<u8>,
    pub phase: AppendPhase,
}

/// Prepares the addition of an entry to an index.
pub fn append_to_backup_index(path: &[u8], entry: &[u8]) -> (result: Result<IndexAppend, Failure>)
    ensures
        match entry_path(entry@) {
            Err(error) => result is Err && result->Err_0.says(error.words()),
            Ok(_) => result is Ok && result->Ok_0.path@ == path@ && result->Ok_0.entry@ == entry@
                && result->Ok_0.phase is Looking,
        },
{
    match decode_backup_index_entry(entry) {
        Err(error) => Err(Failure { message: error.text(), cause: None }),
        Ok(_) => Ok(
            IndexAppend {
                path: copy_bytes(path),
                entry: copy_bytes(entry),
                phase: AppendPhase::Looking,
            },
        ),
    }
}

/// What follows once the entries of the index are known.
pub open spec fn with_entry(before: Seq<Seq<u8>>, entry: Seq<u8>, next: AppendPhase) -> bool {
    match entry_path(entry) {
        Err(error) => next is Failed && next->Failed_0.says(error.words()),
        Ok(_) => if before.contains(entry) {
            next is Failed && next->Failed_0.says(AppendError::Present.words())
        } else {
            next is Writing && views(next->entries@) == before.push(entry)
        },
    }
}

impl IndexAppend {
    /// The request that the addition waits for.
    pub open spec fn asks(&self) -> Ask {
        match self.phase {
            AppendPhase::Looking => Ask::Inspect(self.path@),
            AppendPhase::Reading => Ask::Read(self.path@),
            AppendPhase::Writing { entries } => Ask::WriteIndex {
                path: self.path@,
                entries: views(entries@),
            },
            AppendPhase::Written { .. } => Ask::Nothing,
            AppendPhase::Failed(_) => Ask::Nothing,
        }
    }

    /// What follows a reply. Where there is no index yet, it begins with the entry.
    pub open spec fn follows(&self, reply: Reply, next: AppendPhase) -> bool {
        match self.phase {
            AppendPhase::Looking => match reply {
                Reply::Found(found) => if found.kind == FileKind::Regular {
                    next is Reading
                } else {
                    next is Failed && next->Failed_0.says(
                        about("backup index must be a regular file: "@, self.path@),
                    )
                },
                Reply::Failed(fault) => if fault.kind == FaultKind::NotFound {
                    with_entry(Seq::empty(), self.entry@, next)
                } else {
                    next is Failed && next->Failed_0.says(fault.text@)
                },
                _ => next is Failed && next->Failed_0.says("unexpected reply"@),
            },
            AppendPhase::Reading => match reply {
                Reply::Contents(content) => match index_entries(content@) {
                    Err(error) => next is Failed && next->Failed_0.says(error.words()),
                    Ok(entries) => with_entry(entries, self.entry@, next),
                },
                Reply::Failed(fault) => next is Failed && next->Failed_0.says(fault.text@),
                _ => next is Failed && next->Failed_0.says("unexpected reply"@),
            },
            AppendPhase::Writing { .. } => match reply {
                Reply::Done => next == (AppendPhase::Written { cleanup_error: None }),
                Reply::Published { cleanup_error } => next == (AppendPhase::Written {
                    cleanup_error,
                }),
                Reply::Failed(fault) => next is Failed && next->Failed_0.says(fault.text@),
                _ => next is Failed && next->Failed_0.says("unexpected reply"@),
            },
            _ => next == self.phase,
        }
    }

    /// The request that the addition waits for.
    pub fn request(&self) -> (request: Request)
        ensures
            request@ == self.asks(),
    {
        match &self.phase {
            AppendPhase::Looking => Request::Inspect(copy_bytes(&self.path)),
            AppendPhase::Reading => Request::Read(copy_bytes(&self.path)),
            AppendPhase::Writing { entries } => Request::WriteIndex {
                path: copy_bytes(&self.path),
                entries: copy_all(entries),
            },
            AppendPhase::Written { .. } => Request::Nothing,
            AppendPhase::Failed(_) => Request::Nothing,
        }
    }

    /// Goes on with the reply to the request.
    pub fn advance(self, reply: Reply) -> (next: IndexAppend)
        ensures
            next.path == self.path,
            next.entry == self.entry,
            self.follows(reply, next.phase),
    {
        let IndexAppend { path, entry, phase } = self;
        let next = match phase {
            AppendPhase::Looking => match reply {
                Reply::Found(found) => if found.kind == FileKind::Regular {
                    AppendPhase::Reading
                } else {
                    AppendPhase::Failed(Failure::at("backup index must be a regular file: ", &path))
                },
                Reply::Failed(fault) => if fault.kind == FaultKind::NotFound {
                    add_entry(None, &entry)
                } else {
                    AppendPhase::Failed(Failure::plain(&fault.text))
                },
                _ => AppendPhase::Failed(Failure::plain("unexpected reply")),
            },
            AppendPhase::Reading => match reply {
                Reply::Contents(content) => match parse_backup_index(&content) {
                    Err(error) => AppendPhase::Failed(Failure::plain(&error.text())),
                    Ok(entries) => add_entry(Some(entries), &entry),
                },
                Reply::Failed(fault) => AppendPhase::Failed(Failure::plain(&fault.text)),
                _ => AppendPhase::Failed(Failure::plain("unexpected reply")),
            },
            AppendPhase::Writing { .. } => match reply {
                Reply::Done => AppendPhase::Written { cleanup_error: None },
                Reply::Published { cleanup_error } => AppendPhase::Written { cleanup_error },
                Reply::Failed(fault) => AppendPhase::Failed(Failure::plain(&fault.text)),
                _ => AppendPhase::Failed(Failure::plain("unexpected reply")),
            },
            AppendPhase::Written { cleanup_error } => AppendPhase::Written { cleanup_error },
            AppendPhase::Failed(failure) => AppendPhase::Failed(failure),
        };
        IndexAppend { path, entry, phase: next }
    }
}

fn add_entry(existing: Option<Vec<Vec<u8>>>, entry: &[u8]) -> (next: AppendPhase)
    ensures
        with_entry(
            match existing {
                Some(entries) => views(entries@),
                None => Seq::empty(),
            },
            entry@,
            next,
        ),
{
    match append_backup_index_entry(existing, entry) {
        Ok(entries) => AppendPhase::Writing { entries },
        Err(error) => AppendPhase::Failed(Failure::plain(&error.text())),
    }
}

// --------------------------------------------------
// Undoing a backup
// --------------------------------------------------

/// Why a backup was not undone.
#[derive(Debug)]
pub enum RollbackFailure {
    /// A request failed.
    Host(Fault),
    /// The backup is neither a file, a directory nor a symbolic link.
    Unsupported,
    /// Something stands where the backup came from.
    Occupied,
    /// There is no index.
    IndexMissing,
    /// What stands at the path of the index is not a regular file.
    IndexNotRegular,
    /// The index is rejected.
    Index(IndexError),
    /// The index does not hold the entry exactly once.
    EntryNotUnique,
    /// Another entry has taken the place of the backup.
    SourceChanged,
    /// A reply did not answer the request.
    Unanswered,
}

/// How far the undoing of a backup has come. `rest` is the index without the entry
/// of the backup.
#[derive(Debug)]
pub enum RollbackPhase {
    InspectSource,
    InspectDestination { identity: PathIdentity },
    InspectIndex { identity: PathIdentity },
    ReadIndex { identity: PathIdentity },
    RecheckSource { identity: PathIdentity, rest: Vec<Vec<u8>> },
    MoveBack { rest: Vec<Vec<u8>> },
    WriteIndex { rest: Vec<Vec<u8>> },
    Restored,
    Failed(RollbackFailure),
}

/// The undoing of a backup: what was moved from `from` to `to` is moved back, and
/// its entry is taken out of the index.
#[derive(Debug)]
pub struct BackupRollback {
    pub from: Vec<u8>,
    pub to: Vec<u8>,
    pub index: Vec<u8>,
    pub entry: Vec<u8>,
    pub phase: RollbackPhase,
}

/// Whether `next` is the phase that follows a reply.
pub open spec fn rollback_follows(
    entry: Seq<u8>,
    phase: RollbackPhase,
    reply: Reply,
    next: RollbackPhase,
) -> bool {
    match phase {
        RollbackPhase::InspectSource => next == match reply {
            Reply::Found(found) => if found.kind == FileKind::Other {
                RollbackPhase::Failed(RollbackFailure::Unsupported)
            } else {
                RollbackPhase::InspectDestination { identity: found.identity }
            },
            Reply::Failed(fault) => RollbackPhase::Failed(RollbackFailure::Host(fault)),
            _ => RollbackPhase::Failed(RollbackFailure::Unanswered),
        },
        RollbackPhase::InspectDestination { identity } => next == match reply {
            Reply::Found(_) => RollbackPhase::Failed(RollbackFailure::Occupied),
            Reply::Failed(fault) => if fault.kind == FaultKind::NotFound {
                RollbackPhase::InspectIndex { identity }
            } else {
                RollbackPhase::Failed(RollbackFailure::Host(fault))
            },
            _ => RollbackPhase::Failed(RollbackFailure::Unanswered),
        },
        RollbackPhase::InspectIndex { identity } => next == match reply {
            Reply::Found(found) => if found.kind == FileKind::Regular {
                RollbackPhase::ReadIndex { identity }
            } else {
                RollbackPhase::Failed(RollbackFailure::IndexNotRegular)
            },
            Reply::Failed(fault) => if fault.kind == FaultKind::NotFound {
                RollbackPhase::Failed(RollbackFailure::IndexMissing)
            } else {
                RollbackPhase::Failed(RollbackFailure::Host(fault))
            },
            _ => RollbackPhase::Failed(RollbackFailure::Unanswered),
        },
        RollbackPhase::ReadIndex { identity } => match reply {
            Reply::Contents(content) => match index_entries(content@) {
                Err(error) => next == RollbackPhase::Failed(RollbackFailure::Index(error)),
                Ok(entries) => if occurrences(entries, entry) == 1 {
                    &&& next is RecheckSource
                    &&& next->RecheckSource_identity == identity
                    &&& views(next->RecheckSource_rest@) == others(entries, entry)
                } else {
                    next == RollbackPhase::Failed(RollbackFailure::EntryNotUnique)
                },
            },
            Reply::Failed(fault) => next == RollbackPhase::Failed(RollbackFailure::Host(fault)),
            _ => next == RollbackPhase::Failed(RollbackFailure::Unanswered),
        },
        RollbackPhase::RecheckSource { identity, rest } => next == match reply {
            Reply::Found(found) => if found.identity == identity {
                RollbackPhase::MoveBack { rest }
            } else {
                RollbackPhase::Failed(RollbackFailure::SourceChanged)
            },
            Reply::Failed(fault) => RollbackPhase::Failed(RollbackFailure::Host(fault)),
            _ => RollbackPhase::Failed(RollbackFailure::Unanswered),
        },
        RollbackPhase::MoveBack { rest } => next == match reply {
            Reply::Done => RollbackPhase::WriteIndex { rest },
            Reply::Failed(fault) => RollbackPhase::Failed(RollbackFailure::Host(fault)),
            _ => RollbackPhase::Failed(RollbackFailure::Unanswered),
        },
        RollbackPhase::WriteIndex { .. } => next == match reply {
            Reply::Done => RollbackPhase::Restored,
            Reply::Published { .. } => RollbackPhase::Restored,
            Reply::Failed(fault) => RollbackPhase::Failed(RollbackFailure::Host(fault)),
            _ => RollbackPhase::Failed(RollbackFailure::Unanswered),
        },
        RollbackPhase::Restored => next == phase,
        RollbackPhase::Failed(_) => next == phase,
    }
}

impl BackupRollback {
    /// The request that the undoing waits for.
    pub open spec fn asks(&self) -> Ask {
        match self.phase {
            RollbackPhase::InspectSource => Ask::Inspect(self.to@),
            RollbackPhase::InspectDestination { .. } => Ask::Inspect(self.from@),
            RollbackPhase::InspectIndex { .. } => Ask::Inspect(self.index@),
            RollbackPhase::ReadIndex { .. } => Ask::Read(self.index@),
            RollbackPhase::RecheckSource { .. } => Ask::Inspect(self.to@),
            RollbackPhase::MoveBack { .. } => Ask::Move {
                source: self.to@,
                destination: self.from@,
            },
            RollbackPhase::WriteIndex { rest } => Ask::WriteIndex {
                path: self.index@,
                entries: views(rest@),
            },
            RollbackPhase::Restored => Ask::Nothing,
            RollbackPhase::Failed(_) => Ask::Nothing,
        }
    }

    /// The undoing of a backup, not yet begun.
    pub fn new(from: Vec<u8>, to: Vec<u8>, index: Vec<u8>, entry: Vec<u8>) -> (rollback:
        BackupRollback)
        ensures
            rollback.from == from,
            rollback.to == to,
            rollback.index == index,
            rollback.entry == entry,
            rollback.phase == RollbackPhase::InspectSource,
    {
        BackupRollback { from, to, index, entry, phase: RollbackPhase::InspectSource }
    }

    /// The request that the undoing waits for.
    pub fn request(&self) -> (request: Request)
        ensures
            request@ == self.asks(),
    {
        match &self.phase {
            RollbackPhase::InspectSource => Request::Inspect(copy_bytes(&self.to)),
            RollbackPhase::InspectDestination { .. } => Request::Inspect(copy_bytes(&self.from)),
            RollbackPhase::InspectIndex { .. } => Request::Inspect(copy_bytes(&self.index)),
            RollbackPhase::ReadIndex { .. } => Request::Read(copy_bytes(&self.index)),
            RollbackPhase::RecheckSource { .. } => Request::Inspect(copy_bytes(&self.to)),
            RollbackPhase::MoveBack { .. } => Request::Move {
                source: copy_bytes(&self.to),
                destination: copy_bytes(&self.from),
            },
            RollbackPhase::WriteIndex { rest } => Request::WriteIndex {
                path: copy_bytes(&self.index),
                entries: copy_all(rest),
            },
            RollbackPhase::Restored => Request::Nothing,
            RollbackPhase::Failed(_) => Request::Nothing,
        }
    }

    /// Goes on with the reply to the request.
    pub fn advance(self, reply: Reply) -> (next: BackupRollback)
        ensures
            next.from == self.from,
            next.to == self.to,
            next.index == self.index,
            next.entry == self.entry,
            rollback_follows(self.entry@, self.phase, reply, next.phase),
    {
        let entry = self.entry;
        let phase = match self.phase {
            RollbackPhase::InspectSource => match reply {
                Reply::Found(found) => if found.kind == FileKind::Other {
                    RollbackPhase::Failed(RollbackFailure::Unsupported)
                } else {
                    RollbackPhase::InspectDestination { identity: found.identity }
                },
                Reply::Failed(fault) => RollbackPhase::Failed(RollbackFailure::Host(fault)),
                _ => RollbackPhase::Failed(RollbackFailure::Unanswered),
            },
            RollbackPhase::InspectDestination { identity } => match reply {
                Reply::Found(_) => RollbackPhase::Failed(RollbackFailure::Occupied),
                Reply::Failed(fault) => if fault.kind == FaultKind::NotFound {
                    RollbackPhase::InspectIndex { identity }
                } else {
                    RollbackPhase::Failed(RollbackFailure::Host(fault))
                },
                _ => RollbackPhase::Failed(RollbackFailure::Unanswered),
            },
            RollbackPhase::InspectIndex { identity } => match reply {
                Reply::Found(found) => if found.kind == FileKind::Regular {
                    RollbackPhase::ReadIndex { identity }
                } else {
                    RollbackPhase::Failed(RollbackFailure::IndexNotRegular)
                },
                Reply::Failed(fault) => if fault.kind == FaultKind::NotFound {
                    RollbackPhase::Failed(RollbackFailure::IndexMissing)
                } else {
                    RollbackPhase::Failed(RollbackFailure::Host(fault))
                },
                _ => RollbackPhase::Failed(RollbackFailure::Unanswered),
            },
            RollbackPhase::ReadIndex { identity } => match reply {
                Reply::Contents(content) => match parse_backup_index(&content) {
                    Err(error) => RollbackPhase::Failed(RollbackFailure::Index(error)),
                    Ok(entries) => match remove_backup_index_entry(&entries, &entry) {
                        Some(rest) => RollbackPhase::RecheckSource { identity, rest },
                        None => RollbackPhase::Failed(RollbackFailure::EntryNotUnique),
                    },
                },
                Reply::Failed(fault) => RollbackPhase::Failed(RollbackFailure::Host(fault)),
                _ => RollbackPhase::Failed(RollbackFailure::Unanswered),
            },
            RollbackPhase::RecheckSource { identity, rest } => match reply {
                Reply::Found(found) => if found.identity == identity {
                    RollbackPhase::MoveBack { rest }
                } else {
                    RollbackPhase::Failed(RollbackFailure::SourceChanged)
                },
                Reply::Failed(fault) => RollbackPhase::Failed(RollbackFailure::Host(fault)),
                _ => RollbackPhase::Failed(RollbackFailure::Unanswered),
            },
            RollbackPhase::MoveBack { rest } => match reply {
                Reply::Done => RollbackPhase::WriteIndex { rest },
                Reply::Failed(fault) => RollbackPhase::Failed(RollbackFailure::Host(fault)),
                _ => RollbackPhase::Failed(RollbackFailure::Unanswered),
            },
            RollbackPhase::WriteIndex { .. } => match reply {
                Reply::Done => RollbackPhase::Restored,
                Reply::Published { .. } => RollbackPhase::Restored,
                Reply::Failed(fault) => RollbackPhase::Failed(RollbackFailure::Host(fault)),
                _ => RollbackPhase::Failed(RollbackFailure::Unanswered),
            },
            RollbackPhase::Restored => RollbackPhase::Restored,
            RollbackPhase::Failed(failure) => RollbackPhase::Failed(failure),
        };
        BackupRollback { from: self.from, to: self.to, index: self.index, entry, phase }
    }

    /// What is said of a failure.
    pub open spec fn words(&self, failure: RollbackFailure) -> Seq<char> {
        match failure {
            RollbackFailure::Host(fault) => fault.text@,
            RollbackFailure::Unsupported => about("backup source has unsupported type: "@, self.to@),
            RollbackFailure::Occupied => about(
                "backup restore destination already exists: "@,
                self.from@,
            ),
            RollbackFailure::IndexMissing => "backup index is missing"@,
            RollbackFailure::IndexNotRegular => about(
                "backup index must be a regular file: "@,
                self.index@,
            ),
            RollbackFailure::Index(error) => error.words(),
            RollbackFailure::EntryNotUnique => {
                "backup index must contain the recorded entry exactly once"@
            },
            RollbackFailure::SourceChanged => about("backup source identity changed: "@, self.to@),
            RollbackFailure::Unanswered => "unexpected reply"@,
        }
    }

    /// What came of the undoing; nothing while it is under way.
    pub fn outcome(&self) -> (outcome: Option<Result<(), Failure>>)
        ensures
            match self.phase {
                RollbackPhase::Restored => outcome == Some(Ok::<(), Failure>(())),
                RollbackPhase::Failed(failure) => outcome is Some && outcome->0 is Err
                    && outcome->0->Err_0.says(self.words(failure)),
                _ => outcome is None,
            },
    {
        match &self.phase {
            RollbackPhase::Restored => Some(Ok(())),
            RollbackPhase::Failed(failure) => {
                let message = match failure {
                    RollbackFailure::Host(fault) => fault.text.clone(),
                    RollbackFailure::Unsupported => message_at(
                        "backup source has unsupported type: ",
                        &self.to,
                    ),
                    RollbackFailure::Occupied => message_at(
                        "backup restore destination already exists: ",
                        &self.from,
                    ),
                    RollbackFailure::IndexMissing => "backup index is missing".to_owned(),
                    RollbackFailure::IndexNotRegular => message_at(
                        "backup index must be a regular file: ",
                        &self.index,
                    ),
                    RollbackFailure::Index(error) => error.text(),
                    RollbackFailure::EntryNotUnique => {
                        "backup index must contain the recorded entry exactly once".to_owned()
                    },
                    RollbackFailure::SourceChanged => message_at(
                        "backup source identity changed: ",
                        &self.to,
                    ),
                    RollbackFailure::Unanswered => "unexpected reply".to_owned(),
                };
                Some(Err(Failure { message, cause: None }))
            },
            _ => None,
        }
    }
}

/// A backup is moved back only while it is the entry that was inspected, nothing
/// stands where it came from, and the index holds its entry exactly once.
pub proof fn backup_is_moved_back_safely(
    entry: Seq<u8>,
    phase: RollbackPhase,
    reply: Reply,
    next: RollbackPhase,
)
    requires
        rollback_follows(entry, phase, reply, next),
    ensures
        (!(phase is MoveBack) && next is MoveBack) ==> phase is RecheckSource && (
        reply matches Reply::Found(found) && found.identity == phase->RecheckSource_identity),
        (!(phase is RecheckSource) && next is RecheckSource) ==> phase is ReadIndex && (
        reply matches Reply::Contents(content) && index_entries(content@) is Ok && occurrences(
            index_entries(content@)->Ok_0,
            entry,
        ) == 1),
        (!(phase is InspectIndex) && next is InspectIndex) ==> phase is InspectDestination && (
        reply matches Reply::Failed(fault) && fault.kind == FaultKind::NotFound),
        (!(phase is WriteIndex) && next is WriteIndex) ==> phase is MoveBack && reply == Reply::Done,
{
}

// --------------------------------------------------
// Making a backup
// --------------------------------------------------

/// Why a backup was not made.
#[derive(Debug)]
pub enum BackupFailure {
    /// A request failed.
    Host(Fault),
    /// The path cannot name a backup.
    Path(BackupPathError),
    /// The entry could not be moved.
    Move(Fault),
    /// The index could not be updated; the entry is where it was.
    Index(Fault),
    /// The index could not be updated, and the entry could not be moved back.
    Stranded { index: Fault, restore: Fault },
    /// A reply did not answer the request.
    Unanswered,
}

/// How far a backup has come.
#[derive(Debug)]
pub enum BackupPhase {
    InspectSource,
    MakeDirectories,
    Move,
    AppendIndex,
    MoveBack { fault: Fault },
    /// Nothing stands at the path.
    Absent,
    BackedUp { cleanup_error: Option<String> },
    Failed(BackupFailure),
}

/// A backup of an entry of the home directory.
#[derive(Debug)]
pub struct BackupMove {
    pub state_home: Vec<u8>,
    pub from: Vec<u8>,
    pub to: Vec<u8>,
    /// The directory of `to`.
    pub parent: Vec<u8>,
    pub index: Vec<u8>,
    /// The entry of the index, or why there can be none.
    pub entry: Result<Vec<u8>, BackupPathError>,
    pub phase: BackupPhase,
}

/// The phase that follows a reply.
pub open spec fn backup_next(
    entry: Result<Vec<u8>, BackupPathError>,
    phase: BackupPhase,
    reply: Reply,
) -> BackupPhase {
    match phase {
        BackupPhase::InspectSource => match reply {
            Reply::Found(_) => match entry {
                Ok(_) => BackupPhase::MakeDirectories,
                Err(error) => BackupPhase::Failed(BackupFailure::Path(error)),
            },
            Reply::Failed(fault) => if fault.kind == FaultKind::NotFound {
                BackupPhase::Absent
            } else {
                BackupPhase::Failed(BackupFailure::Host(fault))
            },
            _ => BackupPhase::Failed(BackupFailure::Unanswered),
        },
        BackupPhase::MakeDirectories => match reply {
            Reply::Done => BackupPhase::Move,
            Reply::Failed(fault) => BackupPhase::Failed(BackupFailure::Host(fault)),
            _ => BackupPhase::Failed(BackupFailure::Unanswered),
        },
        BackupPhase::Move => match reply {
            Reply::Done => BackupPhase::AppendIndex,
            Reply::Failed(fault) => BackupPhase::Failed(BackupFailure::Move(fault)),
            _ => BackupPhase::Failed(BackupFailure::Unanswered),
        },
        BackupPhase::AppendIndex => match reply {
            Reply::Published { cleanup_error } => BackupPhase::BackedUp { cleanup_error },
            Reply::Failed(fault) => BackupPhase::MoveBack { fault },
            _ => BackupPhase::Failed(BackupFailure::Unanswered),
        },
        BackupPhase::MoveBack { fault } => match reply {
            Reply::Done => BackupPhase::Failed(BackupFailure::Index(fault)),
            Reply::Failed(restore) => BackupPhase::Failed(
                BackupFailure::Stranded { index: fault, restore },
            ),
            _ => BackupPhase::Failed(BackupFailure::Unanswered),
        },
        BackupPhase::Absent => BackupPhase::Absent,
        BackupPhase::BackedUp { cleanup_error } => BackupPhase::BackedUp { cleanup_error },
        BackupPhase::Failed(failure) => BackupPhase::Failed(failure),
    }
}

/// Whether an entry can be backed up by where it lies below the home directory: it is
/// not the home directory itself, and no `..` leads out of it.
pub open spec fn can_back_up(relative: Seq<u8>) -> bool {
    &&& relative.len() > 0
    &&& forall|i: int|
        0 <= i < components_of(relative).len() ==> !(#[trigger] components_of(relative)[i] is Up)
            && !(components_of(relative)[i] is Root)
}

/// Whether a backup is prepared and nothing was done yet, or why it cannot be made.
pub open spec fn backup_begins(
    home: Seq<u8>,
    state_home: Seq<u8>,
    source: Seq<u8>,
    result: Result<BackupMove, Failure>,
) -> bool {
    let relative = rest_of(source, home);
    if !components_of(home).is_prefix_of(components_of(source)) {
        result is Err && result->Err_0.blames(
            about("backup source must be under HOME: "@, source),
            "prefix not found"@,
        )
    } else if !can_back_up(relative) {
        result is Err && result->Err_0.says(
            about("backup source has an invalid HOME-relative path: "@, source),
        )
    } else {
        let to = joined(under(state_home, "eiyah/backup/home"@), relative);
        if has_parent(to) {
            &&& result is Ok
            &&& result->Ok_0.state_home@ == state_home
            &&& result->Ok_0.from@ == source
            &&& result->Ok_0.to@ == to
            &&& result->Ok_0.parent@ == parent_of(to)
            &&& result->Ok_0.index@ == under(state_home, "eiyah/backup/index"@)
            &&& match backup_path_problem(relative) {
                Some(problem) => result->Ok_0.entry == Err::<Vec<u8>, BackupPathError>(problem),
                None => result->Ok_0.entry is Ok && result->Ok_0.entry->Ok_0@ == hex_encoded(
                    relative,
                ),
            }
            &&& result->Ok_0.phase == BackupPhase::InspectSource
        } else {
            result is Err && result->Err_0.says(about("backup target has no parent: "@, to))
        }
    }
}

/// Prepares the backup of an entry of the home directory: it goes to the same
/// place below `eiyah/backup/home` of the state directory.
pub fn backup_home_path(home: &[u8], state_home: &[u8], source: &[u8]) -> (result: Result<
    BackupMove,
    Failure,
>)
    ensures
        backup_begins(home@, state_home@, source@, result),
{
    let relative = match strip_prefix_bytes(source, home) {
        None => {
            return Err(
                Failure::caused_at("backup source must be under HOME: ", source, "prefix not found"),
            );
        },
        Some(relative) => relative,
    };
    if relative.len() == 0 {
        return Err(
            Failure::at("backup source has an invalid HOME-relative path: ", source),
        );
    }
    let rest = components(&relative);
    let ghost below = components_of(relative@);
    assert(rest@.len() == part_views(rest@).len());
    let mut index: usize = 0;
    while index < rest.len()
        invariant
            index <= rest.len(),
            rest@.len() == below.len(),
            part_views(rest@) == below,
            below == components_of(relative@),
            relative@ == rest_of(source@, home@),
            components_of(home@).is_prefix_of(components_of(source@)),
            forall|i: int| 0 <= i < index ==> !(#[trigger] below[i] is Up) && !(below[i] is Root),
        decreases rest.len() - index,
    {
        assert(part_views(rest@)[index as int] == rest@[index as int]@);
        let climbs = match &rest[index] {
            Component::Up => true,
            Component::Root => true,
            _ => false,
        };
        if climbs {
            assert(below[index as int] is Up || below[index as int] is Root);
            return Err(
                Failure::at("backup source has an invalid HOME-relative path: ", source),
            );
        }
        index = index + 1;
    }
    let to = join(&join_text(state_home, "eiyah/backup/home"), &relative);
    let above = match parent(&to) {
        None => {
            return Err(Failure::at("backup target has no parent: ", &to));
        },
        Some(above) => above,
    };
    let entry = encode_backup_index_entry(&relative);
    Ok(
        BackupMove {
            state_home: copy_bytes(state_home),
            from: copy_bytes(source),
            to,
            parent: above,
            index: join_text(state_home, "eiyah/backup/index"),
            entry,
            phase: BackupPhase::InspectSource,
        },
    )
}

impl BackupMove {
    /// What follows a reply.
    pub open spec fn follows(&self, reply: Reply, next: BackupMove) -> bool {
        &&& next.state_home == self.state_home
        &&& next.from == self.from
        &&& next.to == self.to
        &&& next.parent == self.parent
        &&& next.index == self.index
        &&& next.entry == self.entry
        &&& next.phase == backup_next(self.entry, self.phase, reply)
    }

    /// The request that the backup waits for.
    pub open spec fn asks(&self) -> Ask {
        match self.phase {
            BackupPhase::InspectSource => Ask::Inspect(self.from@),
            BackupPhase::MakeDirectories => Ask::MakeBackup {
                state_home: self.state_home@,
                path: self.parent@,
            },
            BackupPhase::Move => Ask::Move { source: self.from@, destination: self.to@ },
            BackupPhase::AppendIndex => match self.entry {
                Ok(entry) => Ask::AppendIndex { path: self.index@, entry: entry@ },
                Err(_) => Ask::Nothing,
            },
            BackupPhase::MoveBack { .. } => Ask::Move {
                source: self.to@,
                destination: self.from@,
            },
            BackupPhase::Absent => Ask::Nothing,
            BackupPhase::BackedUp { .. } => Ask::Nothing,
            BackupPhase::Failed(_) => Ask::Nothing,
        }
    }

    /// The request that the backup waits for.
    pub fn request(&self) -> (request: Request)
        ensures
            request@ == self.asks(),
    {
        match &self.phase {
            BackupPhase::InspectSource => Request::Inspect(copy_bytes(&self.from)),
            BackupPhase::MakeDirectories => Request::MakeBackup {
                state_home: copy_bytes(&self.state_home),
                path: copy_bytes(&self.parent),
            },
            BackupPhase::Move => Request::Move {
                source: copy_bytes(&self.from),
                destination: copy_bytes(&self.to),
            },
            BackupPhase::AppendIndex => match &self.entry {
                Ok(entry) => Request::AppendIndex {
                    path: copy_bytes(&self.index),
                    entry: copy_bytes(entry),
                },
                Err(_) => Request::Nothing,
            },
            BackupPhase::MoveBack { .. } => Request::Move {
                source: copy_bytes(&self.to),
                destination: copy_bytes(&self.from),
            },
            BackupPhase::Absent => Request::Nothing,
            BackupPhase::BackedUp { .. } => Request::Nothing,
            BackupPhase::Failed(_) => Request::Nothing,
        }
    }

    /// Goes on with the reply to the request.
    pub fn advance(self, reply: Reply) -> (next: BackupMove)
        ensures
            self.follows(reply, next),
    {
        let entry = self.entry;
        let phase = match self.phase {
            BackupPhase::InspectSource => match reply {
                Reply::Found(_) => match &entry {
                    Ok(_) => BackupPhase::MakeDirectories,
                    Err(error) => BackupPhase::Failed(BackupFailure::Path(*error)),
                },
                Reply::Failed(fault) => if fault.kind == FaultKind::NotFound {
                    BackupPhase::Absent
                } else {
                    BackupPhase::Failed(BackupFailure::Host(fault))
                },
                _ => BackupPhase::Failed(BackupFailure::Unanswered),
            },
            BackupPhase::MakeDirectories => match reply {
                Reply::Done => BackupPhase::Move,
                Reply::Failed(fault) => BackupPhase::Failed(BackupFailure::Host(fault)),
                _ => BackupPhase::Failed(BackupFailure::Unanswered),
            },
            BackupPhase::Move => match reply {
                Reply::Done => BackupPhase::AppendIndex,
                Reply::Failed(fault) => BackupPhase::Failed(BackupFailure::Move(fault)),
                _ => BackupPhase::Failed(BackupFailure::Unanswered),
            },
            BackupPhase::AppendIndex => match reply {
                Reply::Published { cleanup_error } => BackupPhase::BackedUp { cleanup_error },
                Reply::Failed(fault) => BackupPhase::MoveBack { fault },
                _ => BackupPhase::Failed(BackupFailure::Unanswered),
            },
            BackupPhase::MoveBack { fault } => match reply {
                Reply::Done => BackupPhase::Failed(BackupFailure::Index(fault)),
                Reply::Failed(restore) => BackupPhase::Failed(
                    BackupFailure::Stranded { index: fault, restore },
                ),
                _ => BackupPhase::Failed(BackupFailure::Unanswered),
            },
            BackupPhase::Absent => BackupPhase::Absent,
            BackupPhase::BackedUp { cleanup_error } => BackupPhase::BackedUp { cleanup_error },
            BackupPhase::Failed(failure) => BackupPhase::Failed(failure),
        };
        BackupMove {
            state_home: self.state_home,
            from: self.from,
            to: self.to,
            parent: self.parent,
            index: self.index,
            entry,
            phase,
        }
    }

    /// Whether the failure is what is said of it.
    pub open spec fn tells(&self, problem: BackupFailure, failure: Failure) -> bool {
        match problem {
            BackupFailure::Host(fault) => failure.says(fault.text@),
            BackupFailure::Path(error) => failure.says(error.words()),
            BackupFailure::Move(fault) => failure.blames(
                about("failed to backup "@, self.from@) + about(" to "@, self.to@),
                fault.text@,
            ),
            BackupFailure::Index(fault) => failure.says(fault.text@),
            BackupFailure::Stranded { index, restore } => failure.says(
                index.text@ + "; failed to restore unindexed backup: "@ + restore.text@,
            ),
            BackupFailure::Unanswered => failure.says("unexpected reply"@),
        }
    }

    /// Why the backup was not made; nothing unless it failed.
    pub fn failure(&self) -> (failure: Option<Failure>)
        ensures
            match self.phase {
                BackupPhase::Failed(problem) => failure is Some && self.tells(problem, failure->0),
                _ => failure is None,
            },
    {
        match &self.phase {
            BackupPhase::Failed(problem) => {
                let failure = match problem {
                    BackupFailure::Host(fault) => Failure::plain(&fault.text),
                    BackupFailure::Path(error) => Failure { message: error.text(), cause: None },
                    BackupFailure::Move(fault) => {
                        let mut message = message_at("failed to backup ", &self.from);
                        message.append(&message_at(" to ", &self.to));
                        Failure { message, cause: Some(fault.text.clone()) }
                    },
                    BackupFailure::Index(fault) => Failure::plain(&fault.text),
                    BackupFailure::Stranded { index, restore } => {
                        let mut message = index.text.clone();
                        message.append("; failed to restore unindexed backup: ");
                        message.append(&restore.text);
                        Failure { message, cause: None }
                    },
                    BackupFailure::Unanswered => Failure::plain("unexpected reply"),
                };
                Some(failure)
            },
            _ => None,
        }
    }

    /// The change to be recorded; nothing unless the backup was made.
    pub fn action(&self) -> (action: Option<Action>)
        ensures
            action is Some <==> self.phase is BackedUp && self.entry is Ok,
            action is Some ==> {
                &&& action->0 is BackedUp
                &&& action->0->BackedUp_from@ == self.from@
                &&& action->0->BackedUp_to@ == self.to@
                &&& action->0->BackedUp_index@ == self.index@
                &&& action->0->BackedUp_entry@ == self.entry->Ok_0@
            },
    {
        match (&self.phase, &self.entry) {
            (BackupPhase::BackedUp { .. }, Ok(entry)) => Some(
                Action::BackedUp {
                    from: copy_bytes(&self.from),
                    to: copy_bytes(&self.to),
                    index: copy_bytes(&self.index),
                    entry: copy_bytes(entry),
                },
            ),
            _ => None,
        }
    }
}

/// A backup counts as made only once its index was updated; and an entry whose
/// index could not be updated is moved back before the failure is reported.
pub proof fn backups_are_indexed(
    entry: Result<Vec<u8>, BackupPathError>,
    phase: BackupPhase,
    reply: Reply,
)
    ensures
        (!(phase is BackedUp) && backup_next(entry, phase, reply) is BackedUp) ==> phase
            is AppendIndex && reply is Published,
        (phase is AppendIndex && reply is Failed) ==> backup_next(entry, phase, reply) is MoveBack,
        (!(phase is AppendIndex) && backup_next(entry, phase, reply) is AppendIndex) ==> phase is Move
            && reply == Reply::Done,
{
}

} // verus!
