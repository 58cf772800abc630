//! The authorization of a device: the user types a code into a browser while the
//! program asks again and again for its token.

use crate::failure::Failure;
use crate::script::unanswered;
use crate::text::{concat, same_text};
use crate::ui::{write_bold, ANSI_BOLD, ANSI_RESET};
use vstd::prelude::*;

verus! {

/// What is added to the pause where the server is asked too often, in seconds.
pub const DEVICE_SLOW_DOWN_SECONDS: u64 = 5;

/// The nanoseconds of a second.
pub const SECOND: u128 = 1_000_000_000;

/// The latest time that can be told, in nanoseconds.
pub const LATEST: u128 = 9_223_372_036_854_775_807_999_999_999;

/// The code that the server has given out.
#[derive(Debug)]
pub struct DeviceCodeResponse {
    /// What the program asks with.
    pub device_code: String,
    /// What the user types.
    pub user_code: String,
    /// Where the user types it.
    pub verification_uri: String,
    /// For how many seconds it can be used.
    pub expires_in: u64,
    /// How many seconds to wait between two questions.
    pub interval: u64,
}

/// What the server has answered.
#[derive(Debug)]
pub struct DeviceTokenResponse {
    pub access_token: Option<String>,
    pub error: Option<String>,
    pub error_description: Option<String>,
}

/// What is done with an answer.
#[derive(Debug, PartialEq, Eq)]
pub enum DevicePollAction {
    /// The token is there.
    Authorized(String),
    /// The question is asked again.
    Pending,
    /// The question is asked again after a longer pause.
    SlowDown,
}

/// What an answer means: the token, whether to ask again, or an error.
pub open spec fn poll_meaning(response: DeviceTokenResponse) -> Result<DevicePollAction, Seq<char>> {
    match (response.access_token, response.error) {
        (Some(token), _) => if token@.len() == 0 {
            Err("GitHub Device Flow returned an empty access token"@)
        } else {
            Ok(DevicePollAction::Authorized(token))
        },
        (None, None) => Err("GitHub Device Flow response has no token or error"@),
        (None, Some(error)) => if error@ == "authorization_pending"@ {
            Ok(DevicePollAction::Pending)
        } else if error@ == "slow_down"@ {
            Ok(DevicePollAction::SlowDown)
        } else if error@ == "expired_token"@ {
            Err("GitHub device code expired"@)
        } else if error@ == "access_denied"@ {
            Err("GitHub authorization was denied"@)
        } else {
            Err(
                "GitHub Device Flow error: "@ + match response.error_description {
                    Some(description) => description@,
                    None => error@,
                },
            )
        },
    }
}

/// What an answer means.
pub fn device_poll_action(response: DeviceTokenResponse) -> (result: Result<
    DevicePollAction,
    Failure,
>)
    ensures
        match poll_meaning(response) {
            Ok(action) => result == Ok::<DevicePollAction, Failure>(action),
            Err(words) => result is Err && result->Err_0.says(words),
        },
{
    match response.access_token {
        Some(token) => {
            if token.unicode_len() == 0 {
                return Err(Failure::plain("GitHub Device Flow returned an empty access token"));
            }
            return Ok(DevicePollAction::Authorized(token));
        },
        None => {},
    }
    let error = match response.error {
        None => {
            return Err(Failure::plain("GitHub Device Flow response has no token or error"));
        },
        Some(error) => error,
    };
    if same_text(&error, "authorization_pending") {
        Ok(DevicePollAction::Pending)
    } else if same_text(&error, "slow_down") {
        Ok(DevicePollAction::SlowDown)
    } else if same_text(&error, "expired_token") {
        Err(Failure::plain("GitHub device code expired"))
    } else if same_text(&error, "access_denied") {
        Err(Failure::plain("GitHub authorization was denied"))
    } else {
        match response.error_description {
            Some(description) => Err(
                Failure::plain(&concat("GitHub Device Flow error: ", &description)),
            ),
            None => Err(Failure::plain(&concat("GitHub Device Flow error: ", &error))),
        }
    }
}

/// The longer pause, in seconds.
pub fn increase_device_poll_interval(interval: u64) -> (result: Result<u64, Failure>)
    ensures
        interval + DEVICE_SLOW_DOWN_SECONDS <= u64::MAX ==> result == Ok::<u64, Failure>(
            (interval + DEVICE_SLOW_DOWN_SECONDS) as u64,
        ),
        interval + DEVICE_SLOW_DOWN_SECONDS > u64::MAX ==> result is Err && result->Err_0.says(
            "GitHub Device Flow interval is out of range"@,
        ),
{
    match interval.checked_add(DEVICE_SLOW_DOWN_SECONDS) {
        Some(longer) => Ok(longer),
        None => Err(Failure::plain("GitHub Device Flow interval is out of range")),
    }
}

/// A time that lies so many seconds behind another; nothing where it cannot be told.
pub open spec fn later(time: u128, seconds: u64) -> Option<u128> {
    if time + seconds * SECOND <= LATEST {
        Some((time + seconds * SECOND) as u128)
    } else {
        None
    }
}

fn add_seconds(time: u128, seconds: u64) -> (sum: Option<u128>)
    ensures
        sum == later(time, seconds),
{
    let pause: u128 = seconds as u128 * SECOND;
    if time <= LATEST && pause <= LATEST - time {
        Some(time + pause)
    } else {
        None
    }
}

/// Checks that the next question comes before the code expires; times are in
/// nanoseconds, the pause in seconds.
pub fn ensure_next_poll_before_deadline(now: u128, interval: u64, deadline: u128) -> (result:
    Result<(), Failure>)
    ensures
        match later(now, interval) {
            None => result is Err && result->Err_0.says(
                "GitHub Device Flow interval is out of range"@,
            ),
            Some(next) => if next >= deadline {
                result is Err && result->Err_0.says("GitHub device code expired"@)
            } else {
                result is Ok
            },
        },
{
    match add_seconds(now, interval) {
        None => Err(Failure::plain("GitHub Device Flow interval is out of range")),
        Some(next) => if next >= deadline {
            Err(Failure::plain("GitHub device code expired"))
        } else {
            Ok(())
        },
    }
}

/// How far the authorization has come.
#[derive(Debug)]
pub enum Authorization {
    /// It is time to look at the clock.
    Checking { interval: u64, deadline: u128 },
    /// The pause is waited for, and the server is asked.
    Asking { interval: u64, deadline: u128 },
    /// The token.
    Authorized(String),
    Failed(Failure),
}

/// What happens during an authorization.
#[derive(Debug)]
pub enum PollEvent {
    /// It is now this time.
    Now(u128),
    /// The server has answered, and it is now this time.
    Answered { response: DeviceTokenResponse, now: u128 },
    /// The server could not be asked, or what it answered is malformed.
    Failed(Failure),
}

/// Begins to ask for the token of a code that was given out at this time.
pub fn poll_device_token(device: &DeviceCodeResponse, issued_at: u128) -> (started: Authorization)
    ensures
        match later(issued_at, device.expires_in) {
            Some(deadline) => started == (Authorization::Checking {
                interval: device.interval,
                deadline,
            }),
            None => started is Failed && started->Failed_0.says(
                "GitHub device code expiry is out of range"@,
            ),
        },
{
    match add_seconds(issued_at, device.expires_in) {
        Some(deadline) => Authorization::Checking { interval: device.interval, deadline },
        None => Authorization::Failed(Failure::plain("GitHub device code expiry is out of range")),
    }
}

impl Authorization {
    /// What follows an event.
    pub open spec fn follows(&self, event: PollEvent, next: Authorization) -> bool {
        match (*self, event) {
            (Authorization::Checking { interval, deadline }, PollEvent::Now(now)) => match later(
                now,
                interval,
            ) {
                None => next is Failed && next->Failed_0.says(
                    "GitHub Device Flow interval is out of range"@,
                ),
                Some(time) => if time >= deadline {
                    next is Failed && next->Failed_0.says("GitHub device code expired"@)
                } else {
                    next == (Authorization::Asking { interval, deadline })
                },
            },
            (Authorization::Asking { interval, deadline }, PollEvent::Answered { response, now }) =>
                if now >= deadline {
                    next is Failed && next->Failed_0.says("GitHub device code expired"@)
                } else {
                    match poll_meaning(response) {
                        Err(words) => next is Failed && next->Failed_0.says(words),
                        Ok(DevicePollAction::Authorized(token)) => next
                            == Authorization::Authorized(token),
                        Ok(DevicePollAction::Pending) => next == (Authorization::Checking {
                            interval,
                            deadline,
                        }),
                        Ok(DevicePollAction::SlowDown) => if interval + DEVICE_SLOW_DOWN_SECONDS
                            <= u64::MAX {
                            next == (Authorization::Checking {
                                interval: (interval + DEVICE_SLOW_DOWN_SECONDS) as u64,
                                deadline,
                            })
                        } else {
                            next is Failed && next->Failed_0.says(
                                "GitHub Device Flow interval is out of range"@,
                            )
                        },
                    }
                },
            (Authorization::Checking { .. }, PollEvent::Failed(failure))
            | (Authorization::Asking { .. }, PollEvent::Failed(failure)) => next
                == Authorization::Failed(failure),
            (Authorization::Checking { .. }, _) | (Authorization::Asking { .. }, _) => next is Failed
                && next->Failed_0.says(unanswered()),
            _ => next == *self,
        }
    }

    /// Goes on with an event.
    pub fn advance(self, event: PollEvent) -> (next: Authorization)
        ensures
            self.follows(event, next),
    {
        match self {
            Authorization::Checking { interval, deadline } => match event {
                PollEvent::Now(now) => match ensure_next_poll_before_deadline(
                    now,
                    interval,
                    deadline,
                ) {
                    Ok(()) => Authorization::Asking { interval, deadline },
                    Err(failure) => Authorization::Failed(failure),
                },
                PollEvent::Failed(failure) => Authorization::Failed(failure),
                PollEvent::Answered { .. } => Authorization::Failed(
                    Failure::plain("unexpected reply"),
                ),
            },
            Authorization::Asking { interval, deadline } => match event {
                PollEvent::Now(_) => Authorization::Failed(Failure::plain("unexpected reply")),
                PollEvent::Failed(failure) => Authorization::Failed(failure),
                PollEvent::Answered { response, now } => {
                    if now >= deadline {
                        return Authorization::Failed(Failure::plain("GitHub device code expired"));
                    }
                    match device_poll_action(response) {
                        Err(failure) => Authorization::Failed(failure),
                        Ok(DevicePollAction::Authorized(token)) => Authorization::Authorized(token),
                        Ok(DevicePollAction::Pending) => Authorization::Checking {
                            interval,
                            deadline,
                        },
                        Ok(DevicePollAction::SlowDown) => match increase_device_poll_interval(
                            interval,
                        ) {
                            Ok(interval) => Authorization::Checking { interval, deadline },
                            Err(failure) => Authorization::Failed(failure),
                        },
                    }
                },
            },
            other => other,
        }
    }
}

/// The server is asked only where the pause ends before the code expires, a token is
/// taken only before it expires and is never empty, and the pause never becomes
/// shorter.
pub proof fn the_deadline_is_kept(state: Authorization, event: PollEvent, next: Authorization)
    requires
        state.follows(event, next),
    ensures
        next is Asking && state is Checking ==> event is Now && later(
            event->Now_0,
            next->Asking_interval,
        ) is Some && later(event->Now_0, next->Asking_interval)->0 < next->Asking_deadline,
        next is Authorized && !(state is Authorized) ==> state is Asking && event is Answered
            && event->now < state->Asking_deadline && next->Authorized_0@.len() > 0,
        next is Checking && state is Asking ==> next->Checking_deadline == state->Asking_deadline
            && (next->Checking_interval == state->Asking_interval || next->Checking_interval
            == state->Asking_interval + DEVICE_SLOW_DOWN_SECONDS),
{
}

/// What the user is told to do. The code that the program asks with is not shown.
pub open spec fn instructions(device: DeviceCodeResponse, styled: bool) -> Seq<char> {
    "First copy your one-time code: "@ + (if styled {
        ANSI_BOLD@ + device.user_code@ + ANSI_RESET@
    } else {
        device.user_code@
    }) + "\n"@ + "Then open "@ + device.verification_uri@ + " in your browser.\n"@
        + "Waiting for authorization...\n"@
}

/// What the user is told to do.
pub fn write_device_instructions(device: &DeviceCodeResponse, styled: bool) -> (text: String)
    ensures
        text@ == instructions(*device, styled),
{
    let mut text = "First copy your one-time code: ".to_owned();
    text.append(&write_bold(&device.user_code, styled));
    text.append("\n");
    text.append("Then open ");
    text.append(&device.verification_uri);
    text.append(" in your browser.\n");
    text.append("Waiting for authorization...\n");
    text
}

/// A poll brings a token exactly where the answer has one that is not empty; without a
/// token it is repeated exactly where the answer says that the authorization is pending
/// or that it was asked too fast; everything else ends it.
pub proof fn a_poll_ends_or_is_repeated(response: DeviceTokenResponse)
    ensures
        poll_meaning(response) matches Ok(DevicePollAction::Authorized(token)) ==> response.access_token
            == Some(token) && token@.len() > 0,
        response.access_token is Some && response.access_token->0@.len() > 0 ==> poll_meaning(
            response,
        ) == Ok::<DevicePollAction, Seq<char>>(
            DevicePollAction::Authorized(response.access_token->0),
        ),
        response.access_token is Some && response.access_token->0@.len() == 0 ==> poll_meaning(
            response,
        ) is Err,
        poll_meaning(response) == Ok::<DevicePollAction, Seq<char>>(DevicePollAction::Pending)
            <==> response.access_token is None && response.error is Some && response.error->0@
            == "authorization_pending"@,
        poll_meaning(response) == Ok::<DevicePollAction, Seq<char>>(DevicePollAction::SlowDown)
            <==> response.access_token is None && response.error is Some && response.error->0@
            == "slow_down"@,
{
    reveal_strlit("authorization_pending");
    reveal_strlit("slow_down");
    assert("authorization_pending"@.len() != "slow_down"@.len());
}

/// The next poll comes after the same interval where the authorization is pending, and
/// after one that is five seconds longer where it was asked too fast; the code expires
/// at the same time in either case.
pub proof fn the_interval_grows_by_five_seconds(
    state: Authorization,
    event: PollEvent,
    next: Authorization,
)
    requires
        state is Asking,
        event is Answered,
        state.follows(event, next),
        event->now < state->Asking_deadline,
        event->response.access_token is None,
        event->response.error is Some,
    ensures
        event->response.error->0@ == "authorization_pending"@ ==> next == (
        Authorization::Checking {
            interval: state->Asking_interval,
            deadline: state->Asking_deadline,
        }),
        event->response.error->0@ == "slow_down"@ && state->Asking_interval <= u64::MAX - 5
            ==> next == (Authorization::Checking {
            interval: (state->Asking_interval + 5) as u64,
            deadline: state->Asking_deadline,
        }),
        event->response.error->0@ != "authorization_pending"@ && event->response.error->0@
            != "slow_down"@ ==> next is Failed,
{
    a_poll_ends_or_is_repeated(event->response);
}

/// A time that many seconds later is that many thousand million nanoseconds later.
pub proof fn later_means_that_many_seconds(time: u128, seconds: u64)
    ensures
        later(time, seconds) is Some ==> later(time, seconds)->0 - time == 1_000_000_000 * seconds,
        later(time, seconds) is None ==> time + 1_000_000_000 * seconds
            > 9_223_372_036_854_775_807_999_999_999,
{
}

/// A poll is made exactly where the code is still good once the interval is over.
pub proof fn a_poll_comes_before_the_code_expires(
    interval: u64,
    deadline: u128,
    now: u128,
    next: Authorization,
)
    requires
        (Authorization::Checking { interval, deadline }).follows(PollEvent::Now(now), next),
        now + 1_000_000_000 * interval <= 9_223_372_036_854_775_807_999_999_999,
    ensures
        next is Asking <==> now + 1_000_000_000 * interval < deadline,
        next is Asking ==> next->Asking_interval == interval && next->Asking_deadline == deadline,
        !(next is Asking) ==> next is Failed,
{
}

} // verus!
