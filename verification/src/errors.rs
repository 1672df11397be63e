//! Error taxonomy of the device-flow library. Every fatal condition is a
//! typed value naming the phase that failed; callers decide how to report it.

use vstd::prelude::*;

verus! {

/// Failure of an authorization attempt.
#[derive(Clone, Debug, PartialEq, Eq)]
pub enum AuthError {
    /// Network or I/O failure reported by the caller's transport.
    /// The library never constructs this variant itself; the driver uses
    /// it to surface connection-level failures under the same taxonomy.
    TransportError { message: String },
    /// The device-code endpoint answered with a status other than 200.
    ServerRejected { status: u16 },
    /// The token endpoint answered with a status other than 200.
    PollTransportError { status: u16 },
    /// A response body carried neither the expected fields nor an error code.
    MalformedResponse,
    /// The device code lapsed, by the wall clock or by a server signal;
    /// the whole flow must be restarted.
    Expired,
    /// The user declined the authorization request.
    Denied,
    /// The token endpoint reported an error code the flow cannot recover
    /// from; the code is kept verbatim.
    PollRejected { code: String },
}

/// Failure of a credential-store backend.
#[derive(Clone, Debug, PartialEq, Eq)]
pub enum StoreError {
    /// The backend could not be reached or refused access; distinct from a
    /// plain miss, which is not an error.
    BackendUnavailable { message: String },
}

} // verus!
