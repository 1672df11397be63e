//! Interpretation of one token-endpoint reply. The classification rules of
//! the device-flow grant are defined only for status-200 responses carrying
//! either an `access_token` or an `error` code; everything else is fatal.

use vstd::prelude::*;

use crate::errors::AuthError;
use crate::strutil::str_eq;

verus! {

/// What the transport handed back from one poll of the token endpoint:
/// the HTTP status and the two optional body fields. A body that did not
/// parse is represented by both fields absent.
#[derive(Clone, Debug, PartialEq, Eq)]
pub struct PollResponse {
    pub status: u16,
    pub access_token: Option<String>,
    pub error: Option<String>,
}

impl PollResponse {
    pub open spec fn token_view(&self) -> Option<Seq<char>> {
        match self.access_token {
            Some(t) => Some(t@),
            None => None,
        }
    }

    pub open spec fn error_view(&self) -> Option<Seq<char>> {
        match self.error {
            Some(e) => Some(e@),
            None => None,
        }
    }
}

/// The meaning of one poll reply, before it is applied to the engine.
#[derive(Clone, Debug, PartialEq, Eq)]
pub enum PollOutcome {
    /// The server granted a token; the flow is complete.
    AccessToken(String),
    /// The user has not decided yet; poll again after the current interval.
    Pending,
    /// The client polls too fast; raise the interval, then poll again.
    SlowDown,
    /// The device code itself has lapsed on the server.
    Expired,
    /// The user declined the request.
    Denied,
    /// A provider-defined error code outside the device-flow vocabulary.
    OtherError(String),
}

/// The exhaustive classification of a poll reply. `Token` wins over any
/// error code; a reply that fits no case of the grant is `Malformed`, and
/// a status other than 200 is `Transport`.
#[derive(Clone, Copy, Debug, PartialEq, Eq, Structural)]
pub enum PollClass {
    Transport,
    Token,
    Pending,
    SlowDown,
    Expired,
    Denied,
    Other,
    Malformed,
}

/// Which rule of the grant applies to a reply with the given status and
/// body fields. A present `access_token` takes precedence over `error`.
pub open spec fn poll_class(status: int, token: Option<Seq<char>>, error: Option<Seq<char>>) -> PollClass {
    if status != 200 {
        PollClass::Transport
    } else if token is Some {
        PollClass::Token
    } else if error is None {
        PollClass::Malformed
    } else if error.unwrap() == "authorization_pending"@ {
        PollClass::Pending
    } else if error.unwrap() == "slow_down"@ {
        PollClass::SlowDown
    } else if error.unwrap() == "expired_token"@ {
        PollClass::Expired
    } else if error.unwrap() == "access_denied"@ {
        PollClass::Denied
    } else {
        PollClass::Other
    }
}

/// Interprets one poll reply. Returns the outcome for replies the grant
/// gives a meaning to, and the fatal error for the two it does not: a
/// status other than 200, or a 200 body with neither field.
pub fn classify(resp: &PollResponse) -> (r: Result<PollOutcome, AuthError>)
    ensures
        ({
            let k = poll_class(resp.status as int, resp.token_view(), resp.error_view());
            &&& (k is Transport ==> (r matches Err(e) && e matches AuthError::PollTransportError {
                status,
            } && status == resp.status))
            &&& (k is Token ==> (r matches Ok(o) && o matches PollOutcome::AccessToken(t) && Some(
                t@,
            ) == resp.token_view()))
            &&& (k is Malformed ==> (r matches Err(e) && e is MalformedResponse))
            &&& (k is Pending ==> (r matches Ok(o) && o is Pending))
            &&& (k is SlowDown ==> (r matches Ok(o) && o is SlowDown))
            &&& (k is Expired ==> (r matches Ok(o) && o is Expired))
            &&& (k is Denied ==> (r matches Ok(o) && o is Denied))
            &&& (k is Other ==> (r matches Ok(o) && o matches PollOutcome::OtherError(c) && Some(
                c@,
            ) == resp.error_view()))
        }),
{
    if resp.status != 200 {
        return Err(AuthError::PollTransportError { status: resp.status });
    }
    match &resp.access_token {
        Some(t) => {
            return Ok(PollOutcome::AccessToken(t.as_str().to_owned()));
        },
        None => {},
    }
    match &resp.error {
        Some(code) => {
            if str_eq(code.as_str(), "authorization_pending") {
                Ok(PollOutcome::Pending)
            } else if str_eq(code.as_str(), "slow_down") {
                Ok(PollOutcome::SlowDown)
            } else if str_eq(code.as_str(), "expired_token") {
                Ok(PollOutcome::Expired)
            } else if str_eq(code.as_str(), "access_denied") {
                Ok(PollOutcome::Denied)
            } else {
                Ok(PollOutcome::OtherError(code.as_str().to_owned()))
            }
        },
        None => Err(AuthError::MalformedResponse),
    }
}

/// A present token classifies as `Token` whatever the error field holds:
/// the token takes precedence.
pub proof fn lemma_token_takes_precedence(t: Seq<char>, error: Option<Seq<char>>)
    ensures
        poll_class(200, Some(t), error) is Token,
{
}

} // verus!
