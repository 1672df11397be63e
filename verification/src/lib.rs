//! OAuth 2.0 Device Authorization Grant client logic: a polling state
//! machine that turns a device code into an access token, a credential
//! store that caches the token across runs, and the orchestration that
//! ties them together. Network, sleeping and user notification are left
//! to the caller, which drives the state machines with plain values.

use vstd::prelude::*;

pub mod errors;
pub mod poll;
pub mod engine;
pub mod device;
pub mod store;
pub mod flow;
pub mod strutil;

verus! {

/// The protocol identifier sent as `grant_type` when polling for a token.
pub fn device_code_grant_type() -> (s: &'static str)
    ensures
        s@ == "urn:ietf:params:oauth:grant-type:device_code"@,
{
    "urn:ietf:params:oauth:grant-type:device_code"
}

} // verus!
