//! The polling state machine. `Polling` is the sole non-terminal state; one
//! call of `on_response` applies one token-endpoint reply, and `before_poll`
//! is the wall-clock safety net that must run before every request. The
//! caller performs the requests and the sleeps; the engine only decides.

use vstd::prelude::*;

use crate::errors::AuthError;
use crate::poll::{classify, poll_class, PollClass, PollOutcome, PollResponse};

verus! {

/// The states of one authorization attempt. All but `Polling` are terminal.
#[derive(Clone, Copy, Debug, PartialEq, Eq, Structural)]
pub enum EngineState {
    Polling,
    Succeeded,
    TimedOut,
    Denied,
    Failed,
}

/// One authorization attempt: the absolute deadline, the current minimum
/// spacing between polls in seconds, and the state reached so far.
#[derive(Clone, Copy, Debug, PartialEq, Eq, Structural)]
pub struct PollingEngine {
    pub expires_at: u64,
    pub interval: u64,
    pub state: EngineState,
}

/// The interval after one slow-down penalty: five seconds more, for this
/// and every later poll.
pub open spec fn bumped_interval(i: u64) -> u64 {
    if i + 5 <= u64::MAX {
        (i + 5) as u64
    } else {
        u64::MAX
    }
}

/// The engine after applying one reply: the successor state under the
/// classification rules, with the interval raised exactly on `SlowDown`.
pub open spec fn engine_next(
    e: PollingEngine,
    status: int,
    token: Option<Seq<char>>,
    error: Option<Seq<char>>,
) -> PollingEngine {
    let k = poll_class(status, token, error);
    PollingEngine {
        expires_at: e.expires_at,
        interval: if k is SlowDown {
            bumped_interval(e.interval)
        } else {
            e.interval
        },
        state: match k {
            PollClass::Token => EngineState::Succeeded,
            PollClass::Pending => EngineState::Polling,
            PollClass::SlowDown => EngineState::Polling,
            PollClass::Expired => EngineState::TimedOut,
            PollClass::Denied => EngineState::Denied,
            PollClass::Transport => EngineState::Failed,
            PollClass::Other => EngineState::Failed,
            PollClass::Malformed => EngineState::Failed,
        },
    }
}

/// How long to wait before the next poll, where the reply allows one:
/// the current interval on `Pending`, the raised interval on `SlowDown`.
pub open spec fn engine_sleep(
    e: PollingEngine,
    status: int,
    token: Option<Seq<char>>,
    error: Option<Seq<char>>,
) -> Option<u64> {
    let k = poll_class(status, token, error);
    match k {
        PollClass::Pending => Some(e.interval),
        PollClass::SlowDown => Some(bumped_interval(e.interval)),
        _ => None,
    }
}

/// The client-side deadline check: no time remains once `now` has reached
/// `expires_at`.
pub open spec fn deadline_passed(e: PollingEngine, now: u64) -> bool {
    now >= e.expires_at
}

/// What a reply the engine sends back to its driver: the token on success,
/// the number of seconds to sleep before polling again, or a fatal error.
#[derive(Clone, Debug, PartialEq, Eq)]
pub enum StepResult {
    Token(String),
    Sleep(u64),
    Fatal(AuthError),
}

impl PollingEngine {
    /// A fresh attempt for a device authorization with the given absolute
    /// deadline and server-dictated initial interval.
    pub fn new(expires_at: u64, interval: u64) -> (e: PollingEngine)
        ensures
            e == (PollingEngine { expires_at, interval, state: EngineState::Polling }),
    {
        PollingEngine { expires_at, interval, state: EngineState::Polling }
    }

    /// The wall-clock safety net, run before every request: once the
    /// deadline has passed the attempt times out and no further poll is
    /// issued, whatever the server would have said.
    pub fn before_poll(&mut self, now: u64) -> (r: Option<AuthError>)
        requires
            old(self).state is Polling,
        ensures
            deadline_passed(*old(self), now) ==> (*final(self) == (PollingEngine {
                state: EngineState::TimedOut,
                ..*old(self)
            }) && (r matches Some(e) && e is Expired)),
            !deadline_passed(*old(self), now) ==> (*final(self) == *old(self) && r is None),
    {
        if now >= self.expires_at {
            self.state = EngineState::TimedOut;
            Some(AuthError::Expired)
        } else {
            None
        }
    }

    /// Applies one token-endpoint reply: moves to the successor state,
    /// raises the interval exactly on a slow-down, and tells the driver
    /// whether to finish with a token, sleep and poll again, or fail.
    pub fn on_response(&mut self, resp: &PollResponse) -> (r: StepResult)
        requires
            old(self).state is Polling,
        ensures
            *final(self) == engine_next(
                *old(self),
                resp.status as int,
                resp.token_view(),
                resp.error_view(),
            ),
            ({
                let k = poll_class(resp.status as int, resp.token_view(), resp.error_view());
                &&& (k is Token ==> (r matches StepResult::Token(t) && Some(t@)
                    == resp.token_view()))
                &&& ((k is Pending || k is SlowDown) ==> (r matches StepResult::Sleep(s) && Some(s)
                    == engine_sleep(
                    *old(self),
                    resp.status as int,
                    resp.token_view(),
                    resp.error_view(),
                )))
                &&& (k is Expired ==> (r matches StepResult::Fatal(e) && e is Expired))
                &&& (k is Denied ==> (r matches StepResult::Fatal(e) && e is Denied))
                &&& (k is Other ==> (r matches StepResult::Fatal(e) && e
                    matches AuthError::PollRejected { code } && Some(code@) == resp.error_view()))
                &&& (k is Malformed ==> (r matches StepResult::Fatal(e) && e is MalformedResponse))
                &&& (k is Transport ==> (r matches StepResult::Fatal(e) && e
                    matches AuthError::PollTransportError { status } && status == resp.status))
            }),
    {
        match classify(resp) {
            Ok(PollOutcome::AccessToken(t)) => {
                self.state = EngineState::Succeeded;
                StepResult::Token(t)
            },
            Ok(PollOutcome::Pending) => {
                StepResult::Sleep(self.interval)
            },
            Ok(PollOutcome::SlowDown) => {
                if self.interval <= u64::MAX - 5 {
                    self.interval = self.interval + 5;
                } else {
                    self.interval = u64::MAX;
                }
                StepResult::Sleep(self.interval)
            },
            Ok(PollOutcome::Expired) => {
                self.state = EngineState::TimedOut;
                StepResult::Fatal(AuthError::Expired)
            },
            Ok(PollOutcome::Denied) => {
                self.state = EngineState::Denied;
                StepResult::Fatal(AuthError::Denied)
            },
            Ok(PollOutcome::OtherError(code)) => {
                self.state = EngineState::Failed;
                StepResult::Fatal(AuthError::PollRejected { code })
            },
            Err(e) => {
                self.state = EngineState::Failed;
                StepResult::Fatal(e)
            },
        }
    }
}

/// An `authorization_pending` reply leaves the engine exactly as it was —
/// still polling, same interval — and the wait before the next request is
/// exactly the current interval.
pub proof fn lemma_pending_preserves_engine(e: PollingEngine, error: Option<Seq<char>>)
    requires
        e.state is Polling,
        error == Some("authorization_pending"@),
    ensures
        engine_next(e, 200, None, error) == e,
        engine_sleep(e, 200, None, error) == Some(e.interval),
{
}

/// Slow-down penalties are cumulative: each consecutive `slow_down` reply
/// raises the interval by five more seconds, so two of them leave the
/// engine polling with an interval ten seconds above where it started —
/// the penalties stack, they do not reset.
pub proof fn lemma_slow_down_cumulative(e: PollingEngine)
    requires
        e.state is Polling,
        e.interval + 10 <= u64::MAX,
    ensures
        ({
            let e1 = engine_next(e, 200, None, Some("slow_down"@));
            let e2 = engine_next(e1, 200, None, Some("slow_down"@));
            &&& e1.state is Polling
            &&& e1.interval == e.interval + 5
            &&& engine_sleep(e, 200, None, Some("slow_down"@)) == Some(e1.interval)
            &&& e2.state is Polling
            &&& e2.interval == e.interval + 10
            &&& engine_sleep(e1, 200, None, Some("slow_down"@)) == Some(e2.interval)
        }),
{
    reveal_strlit("slow_down");
    reveal_strlit("authorization_pending");
    assert(("slow_down"@).len() == 9);
    assert(("authorization_pending"@).len() == 21);
    assert("slow_down"@ != "authorization_pending"@);
}

/// A reply carrying an access token succeeds whatever its error field
/// holds: the engine reaches `Succeeded`, never a failure state.
pub proof fn lemma_token_wins_over_error(e: PollingEngine, t: Seq<char>, error: Option<Seq<char>>)
    requires
        e.state is Polling,
    ensures
        engine_next(e, 200, Some(t), error).state is Succeeded,
{
}

/// The interval never decreases: every reply either keeps it or raises
/// it, so the server-dictated lower bound on poll spacing, once raised,
/// is honored for the rest of the run.
pub proof fn lemma_interval_monotone(
    e: PollingEngine,
    status: int,
    token: Option<Seq<char>>,
    error: Option<Seq<char>>,
)
    ensures
        engine_next(e, status, token, error).interval >= e.interval,
{
}

/// Once the deadline has passed it stays passed at every later instant:
/// together with the contract of `before_poll`, which times the attempt
/// out whenever the deadline has passed, an attempt whose time has run
/// out can never issue another poll.
pub proof fn lemma_deadline_is_final(e: PollingEngine, now1: u64, now2: u64)
    requires
        deadline_passed(e, now1),
        now1 <= now2,
    ensures
        deadline_passed(e, now2),
{
}

} // verus!
