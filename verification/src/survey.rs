//! Several places that are looked at, one after the other.

use crate::host::{complaint_of, judged_contents, judged_reply, Ask, Entry, Fault, FaultKind, Reply};
use crate::host::Request;
use crate::script::unanswered;
use vstd::prelude::*;

verus! {

/// Requests that change nothing, and what came back so far.
#[derive(Debug)]
pub struct Survey {
    pub requests: Vec<Request>,
    pub replies: Vec<Reply>,
}

/// What requests are made of, in order.
pub open spec fn asked_of(requests: Seq<Request>) -> Seq<Ask> {
    requests.map_values(|request: Request| request@)
}

/// Adds a request to a list.
pub fn add_request(requests: &mut Vec<Request>, request: Request)
    ensures
        asked_of(final(requests)@) == asked_of(old(requests)@).push(request@),
{
    requests.push(request);
    assert(asked_of(requests@) =~= asked_of(old(requests)@).push(request@));
}

/// An empty list of requests.
pub fn no_requests() -> (requests: Vec<Request>)
    ensures
        asked_of(requests@) == Seq::<Ask>::empty(),
{
    let requests: Vec<Request> = Vec::new();
    assert(asked_of(requests@) =~= Seq::<Ask>::empty());
    requests
}

impl Survey {
    /// Whether this is what will be asked for, and nothing was asked for yet.
    pub open spec fn begins(&self, plan: Seq<Ask>) -> bool {
        asked_of(self.requests@) == plan && self.replies@.len() == 0
    }

    /// Whether everything was asked for.
    pub open spec fn is_complete(&self) -> bool {
        self.replies@.len() >= self.requests@.len()
    }

    /// The request that the survey waits for.
    pub open spec fn asks(&self) -> Ask {
        if self.is_complete() {
            Ask::Nothing
        } else {
            asked_of(self.requests@)[self.replies@.len() as int]
        }
    }

    /// What follows a reply: it is kept, as long as one was waited for.
    pub open spec fn follows(&self, reply: Reply, next: Survey) -> bool {
        next.requests == self.requests && next.replies@ == if self.is_complete() {
            self.replies@
        } else {
            self.replies@.push(reply)
        }
    }

    /// A survey that has not begun.
    pub fn new(requests: Vec<Request>) -> (survey: Survey)
        ensures
            survey.begins(asked_of(requests@)),
    {
        Survey { requests, replies: Vec::new() }
    }

    pub fn request(&self) -> (request: Request)
        ensures
            request@ == self.asks(),
    {
        if self.replies.len() < self.requests.len() {
            self.requests[self.replies.len()].copy()
        } else {
            Request::Nothing
        }
    }

    /// Goes on with a reply.
    pub fn advance(self, reply: Reply) -> (next: Survey)
        ensures
            self.follows(reply, next),
    {
        let mut next = self;
        if next.replies.len() < next.requests.len() {
            next.replies.push(reply);
        }
        next
    }
}

/// What the survey asks for after it was given these replies, from the beginning.
pub open spec fn asked_after(plan: Seq<Ask>, count: int) -> Ask {
    if count < plan.len() {
        plan[count]
    } else {
        Ask::Nothing
    }
}

/// A survey asks for what it was made for, each once and in order, whatever comes
/// back, and keeps every reply in its place.
pub proof fn everything_is_looked_at(plan: Seq<Ask>, survey: Survey, reply: Reply, next: Survey)
    requires
        asked_of(survey.requests@) == plan,
        survey.replies@.len() <= plan.len(),
        survey.follows(reply, next),
    ensures
        survey.asks() == asked_after(plan, survey.replies@.len() as int),
        asked_of(next.requests@) == plan,
        next.replies@.len() <= plan.len(),
        survey.replies@.is_prefix_of(next.replies@),
        !survey.is_complete() ==> next.replies@.len() == survey.replies@.len() + 1
            && next.replies@.last() == reply,
{
    assert(asked_of(survey.requests@).len() == survey.requests@.len());
}

// --------------------------------------------------
// What came back
// --------------------------------------------------

/// Whether a fault is what is said where no reply, or an odd one, came back.
pub open spec fn is_silence(fault: Fault) -> bool {
    fault.kind == FaultKind::Other && fault.text@ == unanswered()
}

/// Whether this is what an inspection has shown.
pub open spec fn shows_entry(reply: Reply, found: Result<Entry, Fault>) -> bool {
    match reply {
        Reply::Found(entry) => found == Ok::<Entry, Fault>(entry),
        Reply::Failed(fault) => found == Err::<Entry, Fault>(fault),
        _ => found is Err && is_silence(found->Err_0),
    }
}

/// Whether this is what reading has shown.
pub open spec fn shows_bytes(reply: Reply, found: Result<Vec<u8>, Fault>) -> bool {
    match reply {
        Reply::Contents(contents) => found == Ok::<Vec<u8>, Fault>(contents),
        Reply::Failed(fault) => found == Err::<Vec<u8>, Fault>(fault),
        _ => found is Err && is_silence(found->Err_0),
    }
}

/// Whether this is what reading and judging has shown.
pub open spec fn shows_judged(reply: Reply, found: Result<Vec<u8>, Fault>) -> bool {
    match judged_reply(reply) {
        Some(judged) => found == judged,
        None => found is Err && is_silence(found->Err_0),
    }
}

/// Whether this is what listing has shown.
pub open spec fn shows_names(reply: Reply, found: Result<Vec<Vec<u8>>, Fault>) -> bool {
    match reply {
        Reply::Names(names) => found == Ok::<Vec<Vec<u8>>, Fault>(names),
        Reply::Failed(fault) => found == Err::<Vec<Vec<u8>>, Fault>(fault),
        _ => found is Err && is_silence(found->Err_0),
    }
}

fn silence() -> (fault: Fault)
    ensures
        is_silence(fault),
{
    Fault { kind: FaultKind::Other, text: "unexpected reply".to_owned() }
}

/// Takes the last reply as that of an inspection.
pub fn take_entry(replies: &mut Vec<Reply>) -> (found: Result<Entry, Fault>)
    ensures
        old(replies)@.len() > 0 ==> shows_entry(old(replies)@.last(), found) && final(replies)@
            == old(replies)@.drop_last(),
        old(replies)@.len() == 0 ==> found is Err && is_silence(found->Err_0) && final(replies)@
            == old(replies)@,
{
    match replies.pop() {
        Some(Reply::Found(entry)) => Ok(entry),
        Some(Reply::Failed(fault)) => Err(fault),
        _ => Err(silence()),
    }
}

/// Takes the last reply as that of reading.
pub fn take_bytes(replies: &mut Vec<Reply>) -> (found: Result<Vec<u8>, Fault>)
    ensures
        old(replies)@.len() > 0 ==> shows_bytes(old(replies)@.last(), found) && final(replies)@
            == old(replies)@.drop_last(),
        old(replies)@.len() == 0 ==> found is Err && is_silence(found->Err_0) && final(replies)@
            == old(replies)@,
{
    match replies.pop() {
        Some(Reply::Contents(contents)) => Ok(contents),
        Some(Reply::Failed(fault)) => Err(fault),
        _ => Err(silence()),
    }
}

/// Takes the last reply as that of reading and judging.
pub fn take_judged(replies: &mut Vec<Reply>) -> (found: (Result<Vec<u8>, Fault>, String))
    ensures
        old(replies)@.len() > 0 ==> shows_judged(old(replies)@.last(), found.0) && found.1@
            == complaint_of(old(replies)@.last()) && final(replies)@ == old(replies)@.drop_last(),
        old(replies)@.len() == 0 ==> found.0 is Err && is_silence(found.0->Err_0) && found.1@ == ""@
            && final(replies)@ == old(replies)@,
{
    match replies.pop() {
        Some(reply) => {
            let (judged, complaint) = judged_contents(reply);
            match judged {
                Some(found) => (found, complaint),
                None => (Err(silence()), complaint),
            }
        },
        None => (Err(silence()), "".to_owned()),
    }
}

/// Takes the last reply as that of listing.
pub fn take_names(replies: &mut Vec<Reply>) -> (found: Result<Vec<Vec<u8>>, Fault>)
    ensures
        old(replies)@.len() > 0 ==> shows_names(old(replies)@.last(), found) && final(replies)@
            == old(replies)@.drop_last(),
        old(replies)@.len() == 0 ==> found is Err && is_silence(found->Err_0) && final(replies)@
            == old(replies)@,
{
    match replies.pop() {
        Some(Reply::Names(names)) => Ok(names),
        Some(Reply::Failed(fault)) => Err(fault),
        _ => Err(silence()),
    }
}

} // verus!
