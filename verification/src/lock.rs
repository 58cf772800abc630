//! The lock that keeps two operations apart.

use crate::bytes::copy_bytes;
use crate::failure::{about, Failure};
use crate::host::Fault;
use crate::paths::{absolute, is_absolute, join_text, under};
use vstd::prelude::*;

verus! {

/// The permission bits of the lock file.
pub const LOCK_MODE: u32 = 0o600;

/// Where the lock lies.
#[derive(Debug)]
pub struct LockPlace {
    /// The directory, which may have to be created.
    pub directory: Vec<u8>,
    pub file: Vec<u8>,
}

/// Where the lock of a state directory lies. The state directory has to be a path
/// from the root.
pub fn lock_place(state_home: &[u8]) -> (result: Result<LockPlace, Failure>)
    ensures
        match result {
            Ok(place) => {
                &&& absolute(state_home@)
                &&& place.directory@ == under(state_home@, "eiyah"@)
                &&& place.file@ == under(under(state_home@, "eiyah"@), "lock"@)
            },
            Err(failure) => if state_home@.len() == 0 {
                failure.says("state home must not be empty"@)
            } else {
                !absolute(state_home@) && failure.says(
                    about("state home must be an absolute path: "@, state_home@),
                )
            },
        },
{
    if state_home.len() == 0 {
        return Err(Failure::plain("state home must not be empty"));
    }
    if !is_absolute(state_home) {
        return Err(Failure::at("state home must be an absolute path: ", state_home));
    }
    let directory = join_text(state_home, "eiyah");
    let file = join_text(&directory, "lock");
    Ok(LockPlace { directory, file })
}

/// What the lock is taken with.
#[derive(Debug)]
pub enum LockRequest {
    /// Nothing is left to be done.
    Nothing,
    /// Create a directory with all that is missing above it.
    MakeDirectory(Vec<u8>),
    /// Open the lock file, and create it where it is missing.
    OpenFile { path: Vec<u8>, mode: u32 },
    /// Lock the file, alone and without waiting.
    TryLock(Vec<u8>),
}

/// What a request for the lock is made of.
pub enum LockAsk {
    Nothing,
    MakeDirectory(Seq<u8>),
    OpenFile { path: Seq<u8>, mode: u32 },
    TryLock(Seq<u8>),
}

impl View for LockRequest {
    type V = LockAsk;

    open spec fn view(&self) -> LockAsk {
        match self {
            LockRequest::Nothing => LockAsk::Nothing,
            LockRequest::MakeDirectory(path) => LockAsk::MakeDirectory(path@),
            LockRequest::OpenFile { path, mode } => LockAsk::OpenFile { path: path@, mode: *mode },
            LockRequest::TryLock(path) => LockAsk::TryLock(path@),
        }
    }
}

/// What a request for the lock came back with.
#[derive(Debug)]
pub enum LockReply {
    Done,
    /// Someone else holds the lock.
    Busy,
    Failed(Fault),
}

/// How far the lock is taken.
#[derive(Debug)]
pub enum Acquisition {
    /// The directory of the lock is created.
    Making(LockPlace),
    /// The lock file is opened.
    Opening(LockPlace),
    /// The lock file is locked.
    Trying(LockPlace),
    /// The lock is held.
    Held(LockPlace),
    Failed(Failure),
}

/// Begins to take the lock of a state directory. Nothing is done for one that is not a
/// path from the root.
pub fn acquire(state_home: &[u8]) -> (acquisition: Acquisition)
    ensures
        if state_home@.len() == 0 {
            acquisition is Failed && acquisition->Failed_0.says("state home must not be empty"@)
        } else if !absolute(state_home@) {
            acquisition is Failed && acquisition->Failed_0.says(
                about("state home must be an absolute path: "@, state_home@),
            )
        } else {
            acquisition.begins(state_home@)
        },
{
    match lock_place(state_home) {
        Ok(place) => Acquisition::Making(place),
        Err(failure) => Acquisition::Failed(failure),
    }
}

impl Acquisition {
    /// Whether nothing was done yet.
    pub open spec fn begins(&self, state_home: Seq<u8>) -> bool {
        &&& self is Making
        &&& self->Making_0.directory@ == under(state_home, "eiyah"@)
        &&& self->Making_0.file@ == under(under(state_home, "eiyah"@), "lock"@)
    }

    pub open spec fn asks(&self) -> LockAsk {
        match self {
            Acquisition::Making(place) => LockAsk::MakeDirectory(place.directory@),
            Acquisition::Opening(place) => LockAsk::OpenFile { path: place.file@, mode: LOCK_MODE },
            Acquisition::Trying(place) => LockAsk::TryLock(place.file@),
            Acquisition::Held(_) => LockAsk::Nothing,
            Acquisition::Failed(_) => LockAsk::Nothing,
        }
    }

    /// What follows a reply.
    pub open spec fn follows(&self, reply: LockReply, next: Acquisition) -> bool {
        match (self, reply) {
            (Acquisition::Held(_), _) => next == *self,
            (Acquisition::Failed(_), _) => next == *self,
            (Acquisition::Making(place), LockReply::Done) => next == Acquisition::Opening(*place),
            (Acquisition::Opening(place), LockReply::Done) => next == Acquisition::Trying(*place),
            (Acquisition::Trying(place), LockReply::Done) => next == Acquisition::Held(*place),
            (_, LockReply::Busy) => next is Failed && next->Failed_0.says(
                "another Eiyah operation is already running."@,
            ),
            (_, LockReply::Failed(fault)) => next is Failed && next->Failed_0.says(fault.text@),
        }
    }

    pub fn request(&self) -> (request: LockRequest)
        ensures
            request@ == self.asks(),
    {
        match self {
            Acquisition::Making(place) => LockRequest::MakeDirectory(copy_bytes(&place.directory)),
            Acquisition::Opening(place) => LockRequest::OpenFile {
                path: copy_bytes(&place.file),
                mode: LOCK_MODE,
            },
            Acquisition::Trying(place) => LockRequest::TryLock(copy_bytes(&place.file)),
            Acquisition::Held(_) => LockRequest::Nothing,
            Acquisition::Failed(_) => LockRequest::Nothing,
        }
    }

    /// Goes on with a reply.
    pub fn advance(self, reply: LockReply) -> (next: Acquisition)
        ensures
            self.follows(reply, next),
    {
        match self {
            Acquisition::Held(place) => Acquisition::Held(place),
            Acquisition::Failed(failure) => Acquisition::Failed(failure),
            under_way => match reply {
                LockReply::Done => match under_way {
                    Acquisition::Making(place) => Acquisition::Opening(place),
                    Acquisition::Opening(place) => Acquisition::Trying(place),
                    Acquisition::Trying(place) => Acquisition::Held(place),
                    other => other,
                },
                LockReply::Busy => Acquisition::Failed(
                    Failure::plain("another Eiyah operation is already running."),
                ),
                LockReply::Failed(fault) => Acquisition::Failed(Failure::plain(&fault.text)),
            },
        }
    }
}

// --------------------------------------------------
// Laws
// --------------------------------------------------

/// Whether a request was answered by a system that keeps exclusive locks; `before` and
/// `after` are the files that are locked. Whatever is asked for may fail.
pub open spec fn is_answered(
    before: Set<Seq<u8>>,
    ask: LockAsk,
    reply: LockReply,
    after: Set<Seq<u8>>,
) -> bool {
    match (ask, reply) {
        (LockAsk::TryLock(path), LockReply::Done) => !before.contains(path) && after
            == before.insert(path),
        (LockAsk::TryLock(path), LockReply::Busy) => before.contains(path) && after == before,
        (_, LockReply::Busy) => false,
        _ => after == before,
    }
}

/// Whether the lock of a state directory is taken through these states, with these
/// replies of a system on which these files are locked in each state, and on which
/// nothing else happens.
pub open spec fn is_attempt(
    state_home: Seq<u8>,
    states: Seq<Acquisition>,
    replies: Seq<LockReply>,
    locked: Seq<Set<Seq<u8>>>,
) -> bool {
    &&& states.len() == replies.len() + 1
    &&& locked.len() == states.len()
    &&& states[0].begins(state_home)
    &&& forall|i: int|
        0 <= i < replies.len() ==> states[i].follows(#[trigger] replies[i], states[i + 1])
            && is_answered(locked[i], states[i].asks(), replies[i], locked[i + 1])
}

/// The lock file of a state directory.
pub open spec fn lock_file(state_home: Seq<u8>) -> Seq<u8> {
    under(under(state_home, "eiyah"@), "lock"@)
}

/// Whether nothing fails.
pub open spec fn nothing_fails(replies: Seq<LockReply>) -> bool {
    forall|i: int| 0 <= i < replies.len() ==> !(#[trigger] replies[i] is Failed)
}

proof fn lemma_attempt(
    state_home: Seq<u8>,
    states: Seq<Acquisition>,
    replies: Seq<LockReply>,
    locked: Seq<Set<Seq<u8>>>,
    count: int,
)
    requires
        is_attempt(state_home, states, replies, locked),
        0 <= count <= replies.len(),
    ensures
        match states[count] {
            Acquisition::Making(place) => count == 0 && place.file@ == lock_file(state_home)
                && locked[count] == locked[0],
            Acquisition::Opening(place) => count == 1 && place.file@ == lock_file(state_home)
                && locked[count] == locked[0],
            Acquisition::Trying(place) => count == 2 && place.file@ == lock_file(state_home)
                && locked[count] == locked[0],
            Acquisition::Held(place) => count >= 3 && place.file@ == lock_file(state_home)
                && !locked[0].contains(lock_file(state_home)) && locked[count] == locked[0].insert(
                lock_file(state_home),
            ),
            Acquisition::Failed(failure) => locked[count] == locked[0] && (nothing_fails(replies)
                ==> count >= 3 && locked[0].contains(lock_file(state_home)) && failure.says(
                "another Eiyah operation is already running."@,
            )),
        },
    decreases count,
{
    if count > 0 {
        lemma_attempt(state_home, states, replies, locked, count - 1);
        assert(states[count - 1].follows(replies[count - 1], states[count]));
        assert(is_answered(
            locked[count - 1],
            states[count - 1].asks(),
            replies[count - 1],
            locked[count],
        ));
    }
}

/// While a lock is held, nobody else takes it: an attempt is refused at its third
/// request, with the words for that, unless it fails before; and it changes nothing.
pub proof fn a_held_lock_keeps_others_out(
    state_home: Seq<u8>,
    states: Seq<Acquisition>,
    replies: Seq<LockReply>,
    locked: Seq<Set<Seq<u8>>>,
    count: int,
)
    requires
        is_attempt(state_home, states, replies, locked),
        locked[0].contains(lock_file(state_home)),
        0 <= count <= replies.len(),
    ensures
        !(states[count] is Held),
        locked[count] == locked[0],
        count >= 3 ==> states[count] is Failed,
        count >= 3 && nothing_fails(replies) ==> states[count]->Failed_0.says(
            "another Eiyah operation is already running."@,
        ),
{
    lemma_attempt(state_home, states, replies, locked, count);
}

/// A lock that nobody holds is taken by three requests, unless one fails, and is held
/// then.
pub proof fn a_free_lock_is_taken(
    state_home: Seq<u8>,
    states: Seq<Acquisition>,
    replies: Seq<LockReply>,
    locked: Seq<Set<Seq<u8>>>,
    count: int,
)
    requires
        is_attempt(state_home, states, replies, locked),
        !locked[0].contains(lock_file(state_home)),
        3 <= count <= replies.len(),
    ensures
        nothing_fails(replies) ==> states[count] is Held,
        states[count] is Held ==> states[count]->Held_0.file@ == lock_file(state_home)
            && locked[count].contains(lock_file(state_home)),
        !(states[count] is Held) ==> states[count] is Failed && locked[count] == locked[0],
{
    lemma_attempt(state_home, states, replies, locked, count);
}

/// The lock excludes: with the first attempt successful and its lock held, a second
/// attempt is refused; once the lock was given back, an attempt in which nothing fails
/// takes it again.
pub proof fn the_lock_is_exclusive_until_it_is_given_back(
    state_home: Seq<u8>,
    first: Seq<Acquisition>,
    first_replies: Seq<LockReply>,
    first_locked: Seq<Set<Seq<u8>>>,
    second: Seq<Acquisition>,
    second_replies: Seq<LockReply>,
    second_locked: Seq<Set<Seq<u8>>>,
    third: Seq<Acquisition>,
    third_replies: Seq<LockReply>,
    third_locked: Seq<Set<Seq<u8>>>,
)
    requires
        is_attempt(state_home, first, first_replies, first_locked),
        first.last() is Held,
        is_attempt(state_home, second, second_replies, second_locked),
        second_locked[0] == first_locked.last(),
        second_replies.len() >= 3,
        nothing_fails(second_replies),
        is_attempt(state_home, third, third_replies, third_locked),
        third_locked[0] == second_locked.last().remove(first.last()->Held_0.file@),
        third_replies.len() >= 3,
        nothing_fails(third_replies),
    ensures
        second.last() is Failed,
        second.last()->Failed_0.says("another Eiyah operation is already running."@),
        third.last() is Held,
{
    let end = first_replies.len() as int;
    lemma_attempt(state_home, first, first_replies, first_locked, end);
    assert(first_locked.last() == first_locked[end]);
    a_held_lock_keeps_others_out(
        state_home,
        second,
        second_replies,
        second_locked,
        second_replies.len() as int,
    );
    a_free_lock_is_taken(
        state_home,
        third,
        third_replies,
        third_locked,
        third_replies.len() as int,
    );
}

} // verus!
