//! Interpretation of the device-code endpoint's reply. A successful reply
//! becomes a `DeviceAuthorization`, with the relative `expires_in` turned
//! into an absolute deadline at the moment of receipt.

use vstd::prelude::*;

use crate::errors::AuthError;

verus! {

/// The fields of a well-formed device-code response body, as the caller's
/// transport decoded them.
#[derive(Clone, Debug, PartialEq, Eq)]
pub struct DeviceCodeBody {
    pub device_code: String,
    pub user_code: String,
    pub verification_uri: String,
    pub expires_in: u64,
    pub interval: u64,
}

/// One granted device authorization. `device_code` is an opaque secret;
/// `user_code` and `verification_uri` are shown to the user; `expires_at`
/// is absolute, in the caller's clock; `interval` is the server-dictated
/// minimum spacing between polls.
#[derive(Clone, Debug, PartialEq, Eq)]
pub struct DeviceAuthorization {
    pub device_code: String,
    pub user_code: String,
    pub verification_uri: String,
    pub expires_at: u64,
    pub interval: u64,
}

/// The absolute deadline of an authorization granted at `now` that lasts
/// `expires_in` seconds, capped at the clock's range.
pub open spec fn absolute_deadline(now: u64, expires_in: u64) -> u64 {
    if now + expires_in <= u64::MAX {
        (now + expires_in) as u64
    } else {
        u64::MAX
    }
}

/// Turns the device-code endpoint's reply into a `DeviceAuthorization`.
/// Any status other than 200 is rejected, a body that did not decode is
/// malformed, and a good body is taken over field for field with its
/// lifetime made absolute against `now`.
pub fn interpret_device_code_reply(status: u16, body: Option<DeviceCodeBody>, now: u64) -> (r:
    Result<DeviceAuthorization, AuthError>)
    ensures
        status != 200 ==> (r matches Err(e) && e matches AuthError::ServerRejected { status: st }
            && st == status),
        status == 200 && body is None ==> (r matches Err(e) && e is MalformedResponse),
        status == 200 ==> (body matches Some(b) ==> (r matches Ok(a) && a.device_code@
            == b.device_code@ && a.user_code@ == b.user_code@ && a.verification_uri@
            == b.verification_uri@ && a.expires_at == absolute_deadline(now, b.expires_in)
            && a.interval == b.interval)),
{
    if status != 200 {
        return Err(AuthError::ServerRejected { status });
    }
    match body {
        None => Err(AuthError::MalformedResponse),
        Some(b) => {
            let expires_at: u64 = if b.expires_in <= u64::MAX - now {
                now + b.expires_in
            } else {
                u64::MAX
            };
            Ok(
                DeviceAuthorization {
                    device_code: b.device_code,
                    user_code: b.user_code,
                    verification_uri: b.verification_uri,
                    expires_at,
                    interval: b.interval,
                },
            )
        },
    }
}

} // verus!
