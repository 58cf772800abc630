//! Recorded changes and their reversal.
//!
//! A change is recorded once it has been made. Rolling back undoes the recorded
//! changes, the latest first, and goes on when one of them cannot be undone.

use crate::bytes::copy_bytes;
use crate::failure::{about, list_texts, listed, message_at, Failure};
use crate::host::{Ask, Entry, Fault, FaultKind, FileKind, Reply, Request};
use vstd::prelude::*;

verus! {

/// Which file system entry stands at a path.
#[derive(Clone, Copy, Debug, PartialEq, Eq, Structural)]
pub struct PathIdentity {
    /// Device number.
    pub device: u64,
    /// Inode number.
    pub inode: u64,
}

/// A change that was made and can be undone.
#[derive(Debug)]
pub enum Action {
    /// A path was created.
    Created {
        path: Vec<u8>,
        /// What stood there when it was recorded.
        identity: PathIdentity,
        /// Whether everything below it goes with it.
        recursive: bool,
    },
    /// An entry was moved.
    Moved { from: Vec<u8>, to: Vec<u8> },
    /// An entry of the home directory was moved into the backup.
    BackedUp {
        from: Vec<u8>,
        to: Vec<u8>,
        /// The backup index.
        index: Vec<u8>,
        /// The entry of the index that stands for it.
        entry: Vec<u8>,
    },
    /// A package was linked into the home directory.
    Stowed { package: String, executable: Vec<u8>, dir: Vec<u8>, target: Vec<u8> },
}

/// What came of publishing a file.
#[derive(Debug)]
pub struct InitialPublish {
    /// Why the temporary file is still there.
    pub cleanup_error: Option<String>,
}

impl PathIdentity {
    /// Which entry an inspection found.
    pub fn from_path(found: Result<Entry, Fault>) -> (result: Result<PathIdentity, Fault>)
        ensures
            match found {
                Ok(entry) => result == Ok::<PathIdentity, Fault>(entry.identity),
                Err(fault) => result == Err::<PathIdentity, Fault>(fault),
            },
    {
        match found {
            Ok(entry) => Ok(entry.identity),
            Err(fault) => Err(fault),
        }
    }

    /// Whether the entry is still the recorded one.
    pub fn matches(self, entry: &Entry) -> (yes: bool)
        ensures
            yes == (self == entry.identity),
    {
        self.device == entry.identity.device && self.inode == entry.identity.inode
    }
}

/// The changes that a rollback would undo.
#[derive(Debug)]
pub struct Transaction {
    actions: Vec<Action>,
}

impl View for Transaction {
    type V = Seq<Action>;

    closed spec fn view(&self) -> Seq<Action> {
        self.actions@
    }
}

impl Transaction {
    /// A transaction without changes.
    pub fn new() -> (transaction: Transaction)
        ensures
            transaction@ == Seq::<Action>::empty(),
    {
        Transaction { actions: Vec::new() }
    }

    /// Adds a change that was made.
    pub fn record(&mut self, action: Action)
        ensures
            final(self)@ == old(self)@.push(action),
    {
        self.actions.push(action);
    }

    /// Keeps all changes: none is left to be undone.
    pub fn commit(&mut self)
        ensures
            final(self)@ == Seq::<Action>::empty(),
    {
        self.actions.clear();
    }

    /// Takes out all changes, to be undone in the opposite order.
    pub fn rollback(&mut self) -> (rollback: Rollback)
        ensures
            final(self)@ == Seq::<Action>::empty(),
            rollback.pending() == old(self)@.reverse(),
            rollback.errors() == Seq::<String>::empty(),
    {
        let mut actions: Vec<Action> = Vec::new();
        std::mem::swap(&mut actions, &mut self.actions);
        proof {
            let all = actions@;
            assert(all.reverse().reverse() =~= all);
        }
        Rollback { actions, errors: Vec::new() }
    }
}

/// A rollback under way.
#[derive(Debug)]
pub struct Rollback {
    actions: Vec<Action>,
    errors: Vec<String>,
}

impl Rollback {
    /// The changes that are still to be undone, in the order in which they will be.
    pub closed spec fn pending(&self) -> Seq<Action> {
        self.actions@.reverse()
    }

    /// What went wrong so far.
    pub closed spec fn errors(&self) -> Seq<String> {
        self.errors@
    }

    /// The change to be undone next.
    pub fn next(&mut self) -> (action: Option<Action>)
        ensures
            final(self).errors() == old(self).errors(),
            match action {
                None => old(self).pending().len() == 0 && final(self).pending().len() == 0,
                Some(first) => old(self).pending().len() > 0 && first == old(self).pending()[0]
                    && final(self).pending() == old(self).pending().drop_first(),
            },
    {
        let ghost before = self.actions@;
        let action = self.actions.pop();
        proof {
            if before.len() > 0 {
                assert(before.drop_last().reverse() =~= before.reverse().drop_first());
            }
        }
        action
    }

    /// Notes that a change could not be undone.
    pub fn failed(&mut self, text: String)
        ensures
            final(self).errors() == old(self).errors().push(text),
            final(self).pending() == old(self).pending(),
    {
        self.errors.push(text);
    }

    /// The outcome: success where nothing went wrong, and otherwise all that did.
    pub fn finish(self) -> (result: Result<(), Failure>)
        ensures
            result is Ok <==> self.errors().len() == 0,
            result is Err ==> result->Err_0.says("rollback failed: "@ + listed(self.errors())),
    {
        if self.errors.len() == 0 {
            return Ok(());
        }
        let mut message = "rollback failed: ".to_owned();
        message.append(&list_texts(&self.errors));
        Err(Failure { message, cause: None })
    }
}

/// What a rollback does when each change in turn is undone with the given outcome:
/// the changes that were attempted and the errors that were noted.
pub open spec fn rolled_back(pending: Seq<Action>, outcomes: Seq<Option<String>>) -> (
    Seq<Action>,
    Seq<String>,
)
    recommends
        pending.len() == outcomes.len(),
    decreases outcomes.len(),
{
    if outcomes.len() == 0 {
        (Seq::empty(), Seq::empty())
    } else {
        let (done, errors) = rolled_back(pending, outcomes.drop_last());
        let attempted = done.push(pending[outcomes.len() - 1]);
        match outcomes.last() {
            Some(text) => (attempted, errors.push(text)),
            None => (attempted, errors),
        }
    }
}

/// Every recorded change is attempted once, the latest first, whatever came of
/// those before it, and every failure is noted.
pub proof fn rollback_attempts_everything(actions: Seq<Action>, outcomes: Seq<Option<String>>)
    requires
        outcomes.len() == actions.len(),
    ensures
        rolled_back(actions.reverse(), outcomes).0 == actions.reverse(),
        rolled_back(actions.reverse(), outcomes).1.len() == 0 <==> forall|i: int|
            0 <= i < outcomes.len() ==> #[trigger] outcomes[i] is None,
{
    lemma_attempts(actions.reverse(), outcomes);
    assert(actions.reverse().take(outcomes.len() as int) =~= actions.reverse());
}

proof fn lemma_attempts(pending: Seq<Action>, outcomes: Seq<Option<String>>)
    requires
        outcomes.len() <= pending.len(),
    ensures
        rolled_back(pending, outcomes).0 == pending.take(outcomes.len() as int),
        rolled_back(pending, outcomes).1.len() == 0 <==> forall|i: int|
            0 <= i < outcomes.len() ==> #[trigger] outcomes[i] is None,
    decreases outcomes.len(),
{
    if outcomes.len() == 0 {
        assert(pending.take(0) =~= Seq::<Action>::empty());
    } else {
        let before = outcomes.drop_last();
        lemma_attempts(pending, before);
        assert(pending.take(outcomes.len() as int) =~= pending.take(before.len() as int).push(
            pending[outcomes.len() - 1],
        ));
        if forall|i: int| 0 <= i < outcomes.len() ==> #[trigger] outcomes[i] is None {
            assert forall|i: int| 0 <= i < before.len() implies #[trigger] before[i] is None by {
                assert(outcomes[i] is None);
            }
            assert(outcomes[outcomes.len() - 1] is None);
        } else if forall|i: int| 0 <= i < before.len() ==> #[trigger] before[i] is None {
            let i = choose|i: int| 0 <= i < outcomes.len() && !(#[trigger] outcomes[i] is None);
            if i < before.len() {
                assert(before[i] is None);
            }
        }
    }
}

// --------------------------------------------------
// Moving without replacing
// --------------------------------------------------

/// Where the entry that was to be moved stands.
#[derive(Clone, Copy, Debug, PartialEq, Eq, Structural)]
pub enum MoveState {
    /// At the destination, and nothing at the source.
    Moved,
    /// At the source, and nothing at the destination.
    Unchanged,
    /// Anything else.
    Unknown,
}

/// What two inspections say about a move of the entry `identity`.
pub open spec fn state_of_move(
    source: Option<PathIdentity>,
    destination: Option<PathIdentity>,
    identity: PathIdentity,
) -> MoveState {
    if source is None && destination == Some(identity) {
        MoveState::Moved
    } else if source == Some(identity) && destination is None {
        MoveState::Unchanged
    } else {
        MoveState::Unknown
    }
}

/// What two inspections say about a move of the entry `identity`.
pub fn move_state(
    source: Option<PathIdentity>,
    destination: Option<PathIdentity>,
    identity: PathIdentity,
) -> (state: MoveState)
    ensures
        state == state_of_move(source, destination, identity),
{
    match (source, destination) {
        (None, Some(current)) => if current == identity {
            MoveState::Moved
        } else {
            MoveState::Unknown
        },
        (Some(current), None) => if current == identity {
            MoveState::Unchanged
        } else {
            MoveState::Unknown
        },
        _ => MoveState::Unknown,
    }
}

/// What an inspection says stands at a path.
pub enum Sight {
    /// This entry, or nothing.
    Stands(Option<PathIdentity>),
    /// The inspection failed.
    Hidden(Fault),
    /// The reply does not answer an inspection.
    Unanswered,
}

/// What a reply to an inspection says stands at a path.
pub open spec fn sight_of(reply: Reply) -> Sight {
    match reply {
        Reply::Found(entry) => Sight::Stands(Some(entry.identity)),
        Reply::Failed(fault) => if fault.kind == FaultKind::NotFound {
            Sight::Stands(None)
        } else {
            Sight::Hidden(fault)
        },
        _ => Sight::Unanswered,
    }
}

/// What a reply to an inspection says stands at a path.
pub fn path_identity(reply: Reply) -> (sight: Sight)
    ensures
        sight == sight_of(reply),
{
    match reply {
        Reply::Found(entry) => Sight::Stands(Some(entry.identity)),
        Reply::Failed(fault) => if fault.kind == FaultKind::NotFound {
            Sight::Stands(None)
        } else {
            Sight::Hidden(fault)
        },
        _ => Sight::Unanswered,
    }
}

/// Which of the two ways of renaming was tried.
#[derive(Clone, Copy, Debug, PartialEq, Eq, Structural)]
pub enum Attempt {
    /// The rename that replaces nothing.
    Primary,
    /// The plain rename.
    Fallback,
}

/// Why a move failed.
#[derive(Debug)]
pub enum MoveFailure {
    /// A request failed.
    Host(Fault),
    /// Something stands at the destination.
    Occupied,
    /// After this attempt neither end is as it was nor as it should be.
    Unexpected(Attempt),
    /// This attempt reported success and changed nothing.
    Ineffective(Attempt),
    /// Another entry has taken the place of the source.
    SourceChanged,
    /// A reply did not answer the request.
    Unanswered,
}

/// How far a move has come: each phase waits for the reply to one request.
#[derive(Debug)]
pub enum MovePhase {
    InspectSource,
    InspectDestination { identity: PathIdentity },
    RenameNoReplace { identity: PathIdentity },
    SeeSource { identity: PathIdentity, attempt: Attempt, fault: Option<Fault> },
    SeeDestination {
        identity: PathIdentity,
        attempt: Attempt,
        fault: Option<Fault>,
        source: Option<PathIdentity>,
    },
    RecheckSource { identity: PathIdentity },
    RecheckDestination { identity: PathIdentity },
    Rename { identity: PathIdentity },
    Moved,
    Failed(MoveFailure),
}

/// A move of an entry to a place that must be free.
#[derive(Debug)]
pub struct Move {
    pub source: Vec<u8>,
    pub destination: Vec<u8>,
    pub phase: MovePhase,
}

/// What follows an attempt to rename, once both ends were seen.
pub open spec fn after_attempt(
    identity: PathIdentity,
    attempt: Attempt,
    fault: Option<Fault>,
    state: MoveState,
) -> MovePhase {
    match state {
        MoveState::Moved => MovePhase::Moved,
        MoveState::Unknown => MovePhase::Failed(MoveFailure::Unexpected(attempt)),
        MoveState::Unchanged => match fault {
            None => MovePhase::Failed(MoveFailure::Ineffective(attempt)),
            Some(fault) => if attempt == Attempt::Primary && fault.kind
                == FaultKind::InvalidArgument {
                MovePhase::RecheckSource { identity }
            } else {
                MovePhase::Failed(MoveFailure::Host(fault))
            },
        },
    }
}

/// The phase that follows a reply.
pub open spec fn move_next(phase: MovePhase, reply: Reply) -> MovePhase {
    match phase {
        MovePhase::InspectSource => match reply {
            Reply::Found(entry) => MovePhase::InspectDestination { identity: entry.identity },
            Reply::Failed(fault) => MovePhase::Failed(MoveFailure::Host(fault)),
            _ => MovePhase::Failed(MoveFailure::Unanswered),
        },
        MovePhase::InspectDestination { identity } => match sight_of(reply) {
            Sight::Stands(None) => MovePhase::RenameNoReplace { identity },
            Sight::Stands(Some(_)) => MovePhase::Failed(MoveFailure::Occupied),
            Sight::Hidden(fault) => MovePhase::Failed(MoveFailure::Host(fault)),
            Sight::Unanswered => MovePhase::Failed(MoveFailure::Unanswered),
        },
        MovePhase::RenameNoReplace { identity } => match reply {
            Reply::Done => MovePhase::SeeSource { identity, attempt: Attempt::Primary, fault: None },
            Reply::Failed(fault) => MovePhase::SeeSource {
                identity,
                attempt: Attempt::Primary,
                fault: Some(fault),
            },
            _ => MovePhase::Failed(MoveFailure::Unanswered),
        },
        MovePhase::SeeSource { identity, attempt, fault } => match sight_of(reply) {
            Sight::Stands(source) => MovePhase::SeeDestination { identity, attempt, fault, source },
            Sight::Hidden(hidden) => MovePhase::Failed(MoveFailure::Host(hidden)),
            Sight::Unanswered => MovePhase::Failed(MoveFailure::Unanswered),
        },
        MovePhase::SeeDestination { identity, attempt, fault, source } => match sight_of(reply) {
            Sight::Stands(destination) => after_attempt(
                identity,
                attempt,
                fault,
                state_of_move(source, destination, identity),
            ),
            Sight::Hidden(hidden) => MovePhase::Failed(MoveFailure::Host(hidden)),
            Sight::Unanswered => MovePhase::Failed(MoveFailure::Unanswered),
        },
        MovePhase::RecheckSource { identity } => match reply {
            Reply::Found(entry) => if entry.identity == identity {
                MovePhase::RecheckDestination { identity }
            } else {
                MovePhase::Failed(MoveFailure::SourceChanged)
            },
            Reply::Failed(fault) => MovePhase::Failed(MoveFailure::Host(fault)),
            _ => MovePhase::Failed(MoveFailure::Unanswered),
        },
        MovePhase::RecheckDestination { identity } => match sight_of(reply) {
            Sight::Stands(None) => MovePhase::Rename { identity },
            Sight::Stands(Some(_)) => MovePhase::Failed(MoveFailure::Occupied),
            Sight::Hidden(fault) => MovePhase::Failed(MoveFailure::Host(fault)),
            Sight::Unanswered => MovePhase::Failed(MoveFailure::Unanswered),
        },
        MovePhase::Rename { identity } => match reply {
            Reply::Done => MovePhase::SeeSource { identity, attempt: Attempt::Fallback, fault: None },
            Reply::Failed(fault) => MovePhase::SeeSource {
                identity,
                attempt: Attempt::Fallback,
                fault: Some(fault),
            },
            _ => MovePhase::Failed(MoveFailure::Unanswered),
        },
        MovePhase::Moved => MovePhase::Moved,
        MovePhase::Failed(failure) => MovePhase::Failed(failure),
    }
}

impl Move {
    /// The request that the move waits for.
    pub open spec fn asks(&self) -> Ask {
        let source = self.source@;
        let destination = self.destination@;
        match self.phase {
            MovePhase::InspectSource => Ask::Inspect(source),
            MovePhase::InspectDestination { .. } => Ask::Inspect(destination),
            MovePhase::RenameNoReplace { .. } => Ask::RenameNoReplace { source, destination },
            MovePhase::SeeSource { .. } => Ask::Inspect(source),
            MovePhase::SeeDestination { .. } => Ask::Inspect(destination),
            MovePhase::RecheckSource { .. } => Ask::Inspect(source),
            MovePhase::RecheckDestination { .. } => Ask::Inspect(destination),
            MovePhase::Rename { .. } => Ask::Rename { source, destination },
            MovePhase::Moved => Ask::Nothing,
            MovePhase::Failed(_) => Ask::Nothing,
        }
    }

    /// A move that has not begun.
    pub fn new(source: Vec<u8>, destination: Vec<u8>) -> (motion: Move)
        ensures
            motion.source == source,
            motion.destination == destination,
            motion.phase == MovePhase::InspectSource,
    {
        Move { source, destination, phase: MovePhase::InspectSource }
    }

    /// The request that the move waits for.
    pub fn request(&self) -> (request: Request)
        ensures
            request@ == self.asks(),
    {
        let source = copy_bytes(&self.source);
        let destination = copy_bytes(&self.destination);
        match &self.phase {
            MovePhase::InspectSource => Request::Inspect(source),
            MovePhase::InspectDestination { .. } => Request::Inspect(destination),
            MovePhase::RenameNoReplace { .. } => Request::RenameNoReplace { source, destination },
            MovePhase::SeeSource { .. } => Request::Inspect(source),
            MovePhase::SeeDestination { .. } => Request::Inspect(destination),
            MovePhase::RecheckSource { .. } => Request::Inspect(source),
            MovePhase::RecheckDestination { .. } => Request::Inspect(destination),
            MovePhase::Rename { .. } => Request::Rename { source, destination },
            MovePhase::Moved => Request::Nothing,
            MovePhase::Failed(_) => Request::Nothing,
        }
    }

    /// Goes on with the reply to the request.
    pub fn advance(self, reply: Reply) -> (next: Move)
        ensures
            next.source == self.source,
            next.destination == self.destination,
            next.phase == move_next(self.phase, reply),
    {
        let phase = match self.phase {
            MovePhase::InspectSource => match reply {
                Reply::Found(entry) => MovePhase::InspectDestination { identity: entry.identity },
                Reply::Failed(fault) => MovePhase::Failed(MoveFailure::Host(fault)),
                _ => MovePhase::Failed(MoveFailure::Unanswered),
            },
            MovePhase::InspectDestination { identity } => match path_identity(reply) {
                Sight::Stands(None) => MovePhase::RenameNoReplace { identity },
                Sight::Stands(Some(_)) => MovePhase::Failed(MoveFailure::Occupied),
                Sight::Hidden(fault) => MovePhase::Failed(MoveFailure::Host(fault)),
                Sight::Unanswered => MovePhase::Failed(MoveFailure::Unanswered),
            },
            MovePhase::RenameNoReplace { identity } => match reply {
                Reply::Done => MovePhase::SeeSource {
                    identity,
                    attempt: Attempt::Primary,
                    fault: None,
                },
                Reply::Failed(fault) => MovePhase::SeeSource {
                    identity,
                    attempt: Attempt::Primary,
                    fault: Some(fault),
                },
                _ => MovePhase::Failed(MoveFailure::Unanswered),
            },
            MovePhase::SeeSource { identity, attempt, fault } => match path_identity(reply) {
                Sight::Stands(source) => MovePhase::SeeDestination {
                    identity,
                    attempt,
                    fault,
                    source,
                },
                Sight::Hidden(hidden) => MovePhase::Failed(MoveFailure::Host(hidden)),
                Sight::Unanswered => MovePhase::Failed(MoveFailure::Unanswered),
            },
            MovePhase::SeeDestination { identity, attempt, fault, source } => match path_identity(
                reply,
            ) {
                Sight::Stands(destination) => match move_state(source, destination, identity) {
                    MoveState::Moved => MovePhase::Moved,
                    MoveState::Unknown => MovePhase::Failed(MoveFailure::Unexpected(attempt)),
                    MoveState::Unchanged => match fault {
                        None => MovePhase::Failed(MoveFailure::Ineffective(attempt)),
                        Some(fault) => if attempt == Attempt::Primary && fault.kind
                            == FaultKind::InvalidArgument {
                            MovePhase::RecheckSource { identity }
                        } else {
                            MovePhase::Failed(MoveFailure::Host(fault))
                        },
                    },
                },
                Sight::Hidden(hidden) => MovePhase::Failed(MoveFailure::Host(hidden)),
                Sight::Unanswered => MovePhase::Failed(MoveFailure::Unanswered),
            },
            MovePhase::RecheckSource { identity } => match reply {
                Reply::Found(entry) => if entry.identity == identity {
                    MovePhase::RecheckDestination { identity }
                } else {
                    MovePhase::Failed(MoveFailure::SourceChanged)
                },
                Reply::Failed(fault) => MovePhase::Failed(MoveFailure::Host(fault)),
                _ => MovePhase::Failed(MoveFailure::Unanswered),
            },
            MovePhase::RecheckDestination { identity } => match path_identity(reply) {
                Sight::Stands(None) => MovePhase::Rename { identity },
                Sight::Stands(Some(_)) => MovePhase::Failed(MoveFailure::Occupied),
                Sight::Hidden(fault) => MovePhase::Failed(MoveFailure::Host(fault)),
                Sight::Unanswered => MovePhase::Failed(MoveFailure::Unanswered),
            },
            MovePhase::Rename { identity } => match reply {
                Reply::Done => MovePhase::SeeSource {
                    identity,
                    attempt: Attempt::Fallback,
                    fault: None,
                },
                Reply::Failed(fault) => MovePhase::SeeSource {
                    identity,
                    attempt: Attempt::Fallback,
                    fault: Some(fault),
                },
                _ => MovePhase::Failed(MoveFailure::Unanswered),
            },
            MovePhase::Moved => MovePhase::Moved,
            MovePhase::Failed(failure) => MovePhase::Failed(failure),
        };
        Move { source: self.source, destination: self.destination, phase }
    }
}

/// A move is reported only when nothing stands at the source any more and the
/// entry that was to be moved stands at the destination.
pub proof fn moved_means_moved(phase: MovePhase, reply: Reply)
    requires
        !(phase is Moved),
        move_next(phase, reply) is Moved,
    ensures
        phase is SeeDestination,
        phase->SeeDestination_source is None,
        reply matches Reply::Found(entry) && entry.identity == phase->SeeDestination_identity,
{
}

/// The rename that could replace something is asked for only when the rename that
/// replaces nothing is not supported, the source is still the entry that was to be
/// moved, and nothing stands at the destination.
pub proof fn fallback_finds_the_destination_free(phase: MovePhase, reply: Reply)
    requires
        !(phase is Rename),
        move_next(phase, reply) is Rename,
    ensures
        phase is RecheckDestination,
        reply matches Reply::Failed(fault) && fault.kind == FaultKind::NotFound,
{
}

/// The destination is inspected again only when the first rename is not supported
/// and has changed nothing, and the source is still the same entry.
pub proof fn fallback_follows_an_unsupported_rename(phase: MovePhase, reply: Reply)
    ensures
        (!(phase is RecheckSource) && move_next(phase, reply) is RecheckSource) ==> {
            &&& phase is SeeDestination
            &&& phase->SeeDestination_attempt == Attempt::Primary
            &&& phase->SeeDestination_fault is Some
            &&& phase->SeeDestination_fault->0.kind == FaultKind::InvalidArgument
            &&& phase->SeeDestination_source == Some(phase->SeeDestination_identity)
            &&& sight_of(reply) == Sight::Stands(None)
        },
        (!(phase is RecheckDestination) && move_next(phase, reply) is RecheckDestination) ==> {
            &&& phase is RecheckSource
            &&& reply matches Reply::Found(entry) && entry.identity == phase->RecheckSource_identity
        },
{
}

impl MoveFailure {
    /// Whether the failure is what is said of it.
    pub open spec fn tells(&self, source: Seq<u8>, destination: Seq<u8>, failure: Failure) -> bool {
        match self {
            MoveFailure::Host(fault) => failure.says(fault.text@),
            MoveFailure::Occupied => failure.says(
                about("move destination already exists: "@, destination),
            ),
            MoveFailure::Unexpected(Attempt::Primary) => failure.says(
                "move result has an unexpected filesystem state"@,
            ),
            MoveFailure::Unexpected(Attempt::Fallback) => failure.says(
                "fallback rename result has an unexpected filesystem state"@,
            ),
            MoveFailure::Ineffective(Attempt::Primary) => failure.says(
                "move reported success without changing filesystem state"@,
            ),
            MoveFailure::Ineffective(Attempt::Fallback) => failure.says(
                "fallback rename did not move source"@,
            ),
            MoveFailure::SourceChanged => failure.says(
                about("move source identity changed: "@, source),
            ),
            MoveFailure::Unanswered => failure.says("unexpected reply"@),
        }
    }

    /// The failure in words.
    pub fn explain(&self, source: &[u8], destination: &[u8]) -> (failure: Failure)
        ensures
            self.tells(source@, destination@, failure),
    {
        match self {
            MoveFailure::Host(fault) => Failure::plain(&fault.text),
            MoveFailure::Occupied => Failure::at("move destination already exists: ", destination),
            MoveFailure::Unexpected(Attempt::Primary) => Failure::plain(
                "move result has an unexpected filesystem state",
            ),
            MoveFailure::Unexpected(Attempt::Fallback) => Failure::plain(
                "fallback rename result has an unexpected filesystem state",
            ),
            MoveFailure::Ineffective(Attempt::Primary) => Failure::plain(
                "move reported success without changing filesystem state",
            ),
            MoveFailure::Ineffective(Attempt::Fallback) => Failure::plain(
                "fallback rename did not move source",
            ),
            MoveFailure::SourceChanged => Failure::at("move source identity changed: ", source),
            MoveFailure::Unanswered => Failure::plain("unexpected reply"),
        }
    }
}

// --------------------------------------------------
// Publishing a finished file
// --------------------------------------------------

/// Why a file was not published, or why its temporary file is still there.
#[derive(Debug)]
pub enum PublishFailure {
    /// A request failed.
    Host(Fault),
    /// Another entry has taken the place of the temporary file.
    TemporaryChanged,
    /// Nothing stands at the destination.
    Missing,
    /// Another file stands at the destination.
    Different,
    /// A reply did not answer the request.
    Unanswered,
}

/// How far a publication has come.
#[derive(Debug)]
pub enum PublishPhase {
    InspectTemporary,
    Link,
    SeeDestination { fault: Option<Fault> },
    /// The temporary file is inspected; `failure` says why nothing was published.
    Tidy { failure: Option<PublishFailure> },
    Remove { failure: Option<PublishFailure> },
    /// The file is published; `leftover` says why its temporary file is still there.
    Published { leftover: Option<PublishFailure> },
    Failed(PublishFailure),
}

/// A publication: a finished temporary file gets a name that must be free.
#[derive(Debug)]
pub struct Publication {
    pub temporary: Vec<u8>,
    pub destination: Vec<u8>,
    /// Which file is to be published.
    pub identity: PathIdentity,
    pub phase: PublishPhase,
}

/// What follows when the temporary file is gone or has to stay.
pub open spec fn publish_end(
    failure: Option<PublishFailure>,
    leftover: Option<PublishFailure>,
) -> PublishPhase {
    match failure {
        Some(failure) => PublishPhase::Failed(failure),
        None => PublishPhase::Published { leftover },
    }
}

/// The phase that follows a reply.
pub open spec fn publish_next(
    identity: PathIdentity,
    phase: PublishPhase,
    reply: Reply,
) -> PublishPhase {
    match phase {
        PublishPhase::InspectTemporary => match reply {
            Reply::Found(entry) => if entry.identity == identity {
                PublishPhase::Link
            } else {
                PublishPhase::Failed(PublishFailure::TemporaryChanged)
            },
            Reply::Failed(fault) => PublishPhase::Failed(PublishFailure::Host(fault)),
            _ => PublishPhase::Failed(PublishFailure::Unanswered),
        },
        PublishPhase::Link => match reply {
            Reply::Done => PublishPhase::SeeDestination { fault: None },
            Reply::Failed(fault) => PublishPhase::SeeDestination { fault: Some(fault) },
            _ => PublishPhase::Failed(PublishFailure::Unanswered),
        },
        PublishPhase::SeeDestination { fault } => match sight_of(reply) {
            Sight::Stands(Some(found)) => if found == identity {
                PublishPhase::Tidy { failure: None }
            } else {
                PublishPhase::Tidy { failure: Some(PublishFailure::Different) }
            },
            Sight::Stands(None) => PublishPhase::Tidy {
                failure: Some(
                    match fault {
                        Some(fault) => PublishFailure::Host(fault),
                        None => PublishFailure::Missing,
                    },
                ),
            },
            Sight::Hidden(hidden) => PublishPhase::Failed(PublishFailure::Host(hidden)),
            Sight::Unanswered => PublishPhase::Failed(PublishFailure::Unanswered),
        },
        PublishPhase::Tidy { failure } => match sight_of(reply) {
            Sight::Stands(Some(found)) => if found == identity {
                PublishPhase::Remove { failure }
            } else {
                publish_end(failure, Some(PublishFailure::TemporaryChanged))
            },
            Sight::Stands(None) => publish_end(failure, None),
            Sight::Hidden(hidden) => publish_end(failure, Some(PublishFailure::Host(hidden))),
            Sight::Unanswered => publish_end(failure, Some(PublishFailure::Unanswered)),
        },
        PublishPhase::Remove { failure } => match reply {
            Reply::Done => publish_end(failure, None),
            Reply::Failed(fault) => publish_end(failure, Some(PublishFailure::Host(fault))),
            _ => publish_end(failure, Some(PublishFailure::Unanswered)),
        },
        PublishPhase::Published { leftover } => PublishPhase::Published { leftover },
        PublishPhase::Failed(failure) => PublishPhase::Failed(failure),
    }
}

fn end_publication(
    failure: Option<PublishFailure>,
    leftover: Option<PublishFailure>,
) -> (phase: PublishPhase)
    ensures
        phase == publish_end(failure, leftover),
{
    match failure {
        Some(failure) => PublishPhase::Failed(failure),
        None => PublishPhase::Published { leftover },
    }
}

impl Publication {
    /// The request that the publication waits for.
    pub open spec fn asks(&self) -> Ask {
        match self.phase {
            PublishPhase::InspectTemporary => Ask::Inspect(self.temporary@),
            PublishPhase::Link => Ask::Link {
                source: self.temporary@,
                destination: self.destination@,
            },
            PublishPhase::SeeDestination { .. } => Ask::Inspect(self.destination@),
            PublishPhase::Tidy { .. } => Ask::Inspect(self.temporary@),
            PublishPhase::Remove { .. } => Ask::RemoveFile(self.temporary@),
            PublishPhase::Published { .. } => Ask::Nothing,
            PublishPhase::Failed(_) => Ask::Nothing,
        }
    }

    /// A publication that has not begun.
    pub fn new(temporary: Vec<u8>, destination: Vec<u8>, identity: PathIdentity) -> (publication:
        Publication)
        ensures
            publication.temporary == temporary,
            publication.destination == destination,
            publication.identity == identity,
            publication.phase == PublishPhase::InspectTemporary,
    {
        Publication { temporary, destination, identity, phase: PublishPhase::InspectTemporary }
    }

    /// The request that the publication waits for.
    pub fn request(&self) -> (request: Request)
        ensures
            request@ == self.asks(),
    {
        match &self.phase {
            PublishPhase::InspectTemporary => Request::Inspect(copy_bytes(&self.temporary)),
            PublishPhase::Link => Request::Link {
                source: copy_bytes(&self.temporary),
                destination: copy_bytes(&self.destination),
            },
            PublishPhase::SeeDestination { .. } => Request::Inspect(copy_bytes(&self.destination)),
            PublishPhase::Tidy { .. } => Request::Inspect(copy_bytes(&self.temporary)),
            PublishPhase::Remove { .. } => Request::RemoveFile(copy_bytes(&self.temporary)),
            PublishPhase::Published { .. } => Request::Nothing,
            PublishPhase::Failed(_) => Request::Nothing,
        }
    }

    /// Goes on with the reply to the request.
    pub fn advance(self, reply: Reply) -> (next: Publication)
        ensures
            next.temporary == self.temporary,
            next.destination == self.destination,
            next.identity == self.identity,
            next.phase == publish_next(self.identity, self.phase, reply),
    {
        let identity = self.identity;
        let phase = match self.phase {
            PublishPhase::InspectTemporary => match reply {
                Reply::Found(entry) => if entry.identity == identity {
                    PublishPhase::Link
                } else {
                    PublishPhase::Failed(PublishFailure::TemporaryChanged)
                },
                Reply::Failed(fault) => PublishPhase::Failed(PublishFailure::Host(fault)),
                _ => PublishPhase::Failed(PublishFailure::Unanswered),
            },
            PublishPhase::Link => match reply {
                Reply::Done => PublishPhase::SeeDestination { fault: None },
                Reply::Failed(fault) => PublishPhase::SeeDestination { fault: Some(fault) },
                _ => PublishPhase::Failed(PublishFailure::Unanswered),
            },
            PublishPhase::SeeDestination { fault } => match path_identity(reply) {
                Sight::Stands(Some(found)) => if found == identity {
                    PublishPhase::Tidy { failure: None }
                } else {
                    PublishPhase::Tidy { failure: Some(PublishFailure::Different) }
                },
                Sight::Stands(None) => PublishPhase::Tidy {
                    failure: Some(
                        match fault {
                            Some(fault) => PublishFailure::Host(fault),
                            None => PublishFailure::Missing,
                        },
                    ),
                },
                Sight::Hidden(hidden) => PublishPhase::Failed(PublishFailure::Host(hidden)),
                Sight::Unanswered => PublishPhase::Failed(PublishFailure::Unanswered),
            },
            PublishPhase::Tidy { failure } => match path_identity(reply) {
                Sight::Stands(Some(found)) => if found == identity {
                    PublishPhase::Remove { failure }
                } else {
                    end_publication(failure, Some(PublishFailure::TemporaryChanged))
                },
                Sight::Stands(None) => end_publication(failure, None),
                Sight::Hidden(hidden) => end_publication(
                    failure,
                    Some(PublishFailure::Host(hidden)),
                ),
                Sight::Unanswered => end_publication(failure, Some(PublishFailure::Unanswered)),
            },
            PublishPhase::Remove { failure } => match reply {
                Reply::Done => end_publication(failure, None),
                Reply::Failed(fault) => end_publication(failure, Some(PublishFailure::Host(fault))),
                _ => end_publication(failure, Some(PublishFailure::Unanswered)),
            },
            PublishPhase::Published { leftover } => PublishPhase::Published { leftover },
            PublishPhase::Failed(failure) => PublishPhase::Failed(failure),
        };
        Publication {
            temporary: self.temporary,
            destination: self.destination,
            identity,
            phase,
        }
    }

    /// What came of the publication; nothing while it is under way.
    pub fn outcome(&self) -> (outcome: Option<Result<InitialPublish, Failure>>)
        ensures
            match self.phase {
                PublishPhase::Published { leftover: None } => outcome == Some(
                    Ok::<InitialPublish, Failure>(InitialPublish { cleanup_error: None }),
                ),
                PublishPhase::Published { leftover: Some(problem) } => {
                    &&& outcome is Some
                    &&& outcome->0 is Ok
                    &&& outcome->0->Ok_0.cleanup_error is Some
                    &&& outcome->0->Ok_0.cleanup_error->0@ == problem.words(self.temporary@)
                },
                PublishPhase::Failed(problem) => {
                    &&& outcome is Some
                    &&& outcome->0 is Err
                    &&& outcome->0->Err_0.says(problem.words(self.temporary@))
                },
                _ => outcome is None,
            },
    {
        match &self.phase {
            PublishPhase::Published { leftover } => {
                let cleanup_error = match leftover {
                    None => None,
                    Some(problem) => Some(problem.text(&self.temporary)),
                };
                Some(Ok(InitialPublish { cleanup_error }))
            },
            PublishPhase::Failed(problem) => Some(
                Err(Failure { message: problem.text(&self.temporary), cause: None }),
            ),
            _ => None,
        }
    }
}

impl PublishFailure {
    /// The failure in words.
    pub open spec fn words(&self, temporary: Seq<u8>) -> Seq<char> {
        match self {
            PublishFailure::Host(fault) => fault.text@,
            PublishFailure::TemporaryChanged => about("temporary file identity changed: "@, temporary),
            PublishFailure::Missing => "published destination is missing"@,
            PublishFailure::Different => "published destination has a different identity"@,
            PublishFailure::Unanswered => "unexpected reply"@,
        }
    }

    /// The failure in words.
    pub fn text(&self, temporary: &[u8]) -> (text: String)
        ensures
            text@ == self.words(temporary@),
    {
        match self {
            PublishFailure::Host(fault) => fault.text.clone(),
            PublishFailure::TemporaryChanged => message_at(
                "temporary file identity changed: ",
                temporary,
            ),
            PublishFailure::Missing => "published destination is missing".to_owned(),
            PublishFailure::Different => "published destination has a different identity".to_owned(),
            PublishFailure::Unanswered => "unexpected reply".to_owned(),
        }
    }
}

/// A file counts as published only once it was seen at the destination, and it is
/// linked only while the temporary file is the one that was finished.
pub proof fn published_means_published(identity: PathIdentity, phase: PublishPhase, reply: Reply)
    ensures
        (!(phase is Tidy) && publish_next(identity, phase, reply) == (PublishPhase::Tidy {
            failure: None,
        })) ==> phase is SeeDestination && sight_of(reply) == Sight::Stands(Some(identity)),
        (!(phase is Link) && publish_next(identity, phase, reply) is Link) ==> phase
            is InspectTemporary && (reply matches Reply::Found(entry) && entry.identity == identity),
        (!(phase is Published) && publish_next(identity, phase, reply) is Published) ==> (phase
            == (PublishPhase::Tidy { failure: None }) || phase == (PublishPhase::Remove {
            failure: None,
        })),
        (!(phase is Remove) && publish_next(identity, phase, reply) is Remove) ==> phase is Tidy
            && sight_of(reply) == Sight::Stands(Some(identity)),
{
}

// --------------------------------------------------
// Removing what was created
// --------------------------------------------------

/// The request that removes a created entry, given what an inspection found: none
/// where nothing stands there any more.
pub open spec fn removal_of(path: Seq<u8>, entry: Entry, recursive: bool) -> Ask {
    if entry.kind == FileKind::Directory && recursive {
        Ask::RemoveTree(path)
    } else if entry.kind == FileKind::Directory {
        Ask::RemoveDirectory(path)
    } else {
        Ask::RemoveFile(path)
    }
}

/// How a created entry is removed. Nothing is left to do where it is gone, and an
/// entry that has taken its place is left alone.
pub fn remove_created_path(
    path: &[u8],
    identity: PathIdentity,
    recursive: bool,
    found: Result<Entry, Fault>,
) -> (result: Result<Request, Failure>)
    ensures
        match found {
            Ok(entry) => if entry.identity == identity {
                result is Ok && result->Ok_0@ == removal_of(path@, entry, recursive)
            } else {
                result is Err && result->Err_0.says(about("created path identity changed: "@, path@))
            },
            Err(fault) => if fault.kind == FaultKind::NotFound {
                result == Ok::<Request, Failure>(Request::Nothing)
            } else {
                result is Err && result->Err_0.says(fault.text@)
            },
        },
{
    match found {
        Err(fault) => if fault.kind == FaultKind::NotFound {
            Ok(Request::Nothing)
        } else {
            Err(Failure { message: fault.text, cause: None })
        },
        Ok(entry) => if !identity.matches(&entry) {
            Err(Failure::at("created path identity changed: ", path))
        } else if entry.kind == FileKind::Directory && recursive {
            Ok(Request::RemoveTree(copy_bytes(path)))
        } else if entry.kind == FileKind::Directory {
            Ok(Request::RemoveDirectory(copy_bytes(path)))
        } else {
            Ok(Request::RemoveFile(copy_bytes(path)))
        },
    }
}

} // verus!
