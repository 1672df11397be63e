//! The orchestration of one `obtain_token` run: first the store, then the
//! device-code request, then the polling engine, then identity resolution
//! and persistence. The orchestrator is a state machine over plain values;
//! its driver performs each returned action — an HTTP request, a sleep, a
//! user notification — and hands the reply back through the matching
//! method. Every decision along the way is made, and specified, here.

use vstd::prelude::*;

use crate::device::{absolute_deadline, interpret_device_code_reply, DeviceCodeBody};
use crate::engine::{
    deadline_passed, engine_next, engine_sleep, EngineState, PollingEngine, StepResult,
};
use crate::errors::AuthError;
use crate::poll::{poll_class, PollResponse};
use crate::store::{Credential, CredentialStore};

verus! {

/// What parameterizes a flow: the application's client identifier and the
/// scope it asks for. Configuration, not constants of the logic.
#[derive(Clone, Debug, PartialEq, Eq)]
pub struct FlowConfig {
    pub client_id: String,
    pub scope: String,
}

/// Where one `obtain_token` run stands. `Complete` and `Failed` are
/// terminal; `persisted` records whether the token also reached the store.
#[derive(Clone, Debug, PartialEq, Eq)]
pub enum FlowState {
    /// Nothing has happened yet.
    Idle,
    /// The store held no token; a device-code request is on the wire.
    AwaitingDeviceCode,
    /// A device authorization is live and the engine drives the polling.
    Polling { engine: PollingEngine, device_code: String },
    /// A token is in hand; the identity lookup is on the wire.
    AwaitingIdentity { token: String },
    /// The run ended with a token.
    Complete { token: String, persisted: bool },
    /// The run ended without a token.
    Failed,
}

/// What the driver must do next. Exactly one action comes back from each
/// step of the orchestrator.
#[derive(Clone, Debug, PartialEq, Eq)]
pub enum FlowAction {
    /// POST the device-code endpoint with these form values.
    RequestDeviceCode { client_id: String, scope: String },
    /// Show the user the code to enter and the page to open.
    Notify { user_code: String, verification_uri: String },
    /// POST the token endpoint now for this device code.
    Poll { device_code: String },
    /// Wait this many seconds, then ask `ready_to_poll` again.
    Sleep { seconds: u64 },
    /// GET the identity endpoint with this token.
    FetchIdentity { token: String },
    /// The run is over; hand this token to the caller.
    Finish { token: String },
    /// The run is over; surface this error.
    Fail { error: AuthError },
}

/// The top-level coordinator of one authorization run.
#[derive(Debug)]
pub struct Orchestrator {
    pub config: FlowConfig,
    pub state: FlowState,
}

impl Orchestrator {
    /// A fresh run with the given configuration.
    pub fn new(config: FlowConfig) -> (o: Orchestrator)
        ensures
            o.state is Idle,
            o.config == config,
    {
        Orchestrator { config, state: FlowState::Idle }
    }

    /// The first step: a cached token under the known identity ends the
    /// run at once, with no network activity; a miss — and, on the read
    /// path, a store failure too — falls back to requesting a device
    /// code. On the in-memory backend the choice is pinned exactly to
    /// whether the identity has a secret.
    pub fn start(&mut self, store: &CredentialStore, known_identity: Option<&str>) -> (r:
        FlowAction)
        requires
            old(self).state is Idle,
        ensures
            final(self).config == old(self).config,
            r is Finish || r is RequestDeviceCode,
            (r matches FlowAction::Finish { token } ==> (final(self).state
                matches FlowState::Complete { token: t, persisted } && t@ == token@ && persisted)),
            (r matches FlowAction::RequestDeviceCode { client_id, scope } ==> (client_id@ == old(
                self,
            ).config.client_id@ && scope@ == old(self).config.scope@ && final(self).state
                is AwaitingDeviceCode)),
            (store matches CredentialStore::Memory(m) ==> ((r is Finish) <==> (known_identity
                matches Some(id) && m@.contains_key(id@)))),
            (store matches CredentialStore::Memory(m) ==> (known_identity matches Some(id) ==> (
            m@.contains_key(id@) ==> (r matches FlowAction::Finish { token } && token@
                == m@[id@])))),
    {
        let cached: Option<String> = match known_identity {
            None => None,
            Some(id) => match store.get(id) {
                Ok(Some(c)) => Some(c.secret),
                _ => None,
            },
        };
        match cached {
            Some(token) => {
                self.state = FlowState::Complete { token: token.clone(), persisted: true };
                FlowAction::Finish { token }
            },
            None => {
                self.state = FlowState::AwaitingDeviceCode;
                FlowAction::RequestDeviceCode {
                    client_id: self.config.client_id.clone(),
                    scope: self.config.scope.clone(),
                }
            },
        }
    }

    /// Applies the device-code endpoint's reply. A good reply starts the
    /// polling engine against the absolute deadline computed at `now` and
    /// asks the driver to notify the user; anything else ends the run.
    pub fn on_device_code_reply(&mut self, status: u16, body: Option<DeviceCodeBody>, now: u64) -> (
        r: FlowAction)
        requires
            old(self).state is AwaitingDeviceCode,
        ensures
            final(self).config == old(self).config,
            status != 200 ==> (final(self).state is Failed && (r matches FlowAction::Fail { error }
                && (error matches AuthError::ServerRejected { status: st } && st == status))),
            status == 200 && body is None ==> (final(self).state is Failed && (r
                matches FlowAction::Fail { error } && error is MalformedResponse)),
            status == 200 ==> (body matches Some(b) ==> ((final(self).state
                matches FlowState::Polling { engine, device_code } && engine == (PollingEngine {
                expires_at: absolute_deadline(now, b.expires_in),
                interval: b.interval,
                state: EngineState::Polling,
            }) && device_code@ == b.device_code@) && (r matches FlowAction::Notify {
                user_code,
                verification_uri,
            } && user_code@ == b.user_code@ && verification_uri@ == b.verification_uri@))),
    {
        match interpret_device_code_reply(status, body, now) {
            Err(error) => {
                self.state = FlowState::Failed;
                FlowAction::Fail { error }
            },
            Ok(auth) => {
                let engine = PollingEngine::new(auth.expires_at, auth.interval);
                self.state = FlowState::Polling { engine, device_code: auth.device_code };
                FlowAction::Notify {
                    user_code: auth.user_code,
                    verification_uri: auth.verification_uri,
                }
            },
        }
    }

    /// Asks whether a poll may be issued now: run after the user was
    /// notified and again after every sleep. Once the deadline has
    /// passed the run times out here, before any request goes out — no
    /// poll is ever issued past the deadline.
    pub fn ready_to_poll(&mut self, now: u64) -> (r: FlowAction)
        requires
            old(self).state matches FlowState::Polling { engine, .. } && engine.state is Polling,
        ensures
            final(self).config == old(self).config,
            old(self).state matches FlowState::Polling { engine: e, device_code: dc } ==> ({
                &&& (deadline_passed(e, now) ==> (final(self).state is Failed && (r
                    matches FlowAction::Fail { error } && error is Expired)))
                &&& (!deadline_passed(e, now) ==> (final(self).state == old(self).state && (r
                    matches FlowAction::Poll { device_code } && device_code@ == dc@)))
            }),
    {
        let verdict: Option<AuthError>;
        let dc: String;
        match &mut self.state {
            FlowState::Polling { engine, device_code } => {
                verdict = engine.before_poll(now);
                dc = device_code.clone();
            },
            _ => {
                return unreached();
            },
        }
        match verdict {
            Some(error) => {
                self.state = FlowState::Failed;
                FlowAction::Fail { error }
            },
            None => FlowAction::Poll { device_code: dc },
        }
    }

    /// Applies one token-endpoint reply through the polling engine: a
    /// token moves the run on to identity resolution, a pending or
    /// slow-down reply asks the driver to sleep — for exactly the
    /// engine's current interval, raised first on a slow-down — and
    /// every other reply ends the run.
    pub fn on_poll_reply(&mut self, resp: &PollResponse) -> (r: FlowAction)
        requires
            old(self).state matches FlowState::Polling { engine, .. } && engine.state is Polling,
        ensures
            final(self).config == old(self).config,
            old(self).state matches FlowState::Polling { engine: e, device_code: dc } ==> ({
                let k = poll_class(resp.status as int, resp.token_view(), resp.error_view());
                let e2 = engine_next(e, resp.status as int, resp.token_view(), resp.error_view());
                &&& (k is Token ==> ((r matches FlowAction::FetchIdentity { token } && Some(token@)
                    == resp.token_view()) && (final(self).state
                    matches FlowState::AwaitingIdentity { token } && Some(token@)
                    == resp.token_view())))
                &&& ((k is Pending || k is SlowDown) ==> ((r matches FlowAction::Sleep { seconds }
                    && Some(seconds) == engine_sleep(
                    e,
                    resp.status as int,
                    resp.token_view(),
                    resp.error_view(),
                )) && (final(self).state matches FlowState::Polling { engine: e3, device_code: dc2 }
                    && e3 == e2 && dc2@ == dc@)))
                &&& (k is Expired ==> (final(self).state is Failed && (r
                    matches FlowAction::Fail { error } && error is Expired)))
                &&& (k is Denied ==> (final(self).state is Failed && (r
                    matches FlowAction::Fail { error } && error is Denied)))
                &&& (k is Other ==> (final(self).state is Failed && (r
                    matches FlowAction::Fail { error } && (error matches AuthError::PollRejected {
                    code,
                } && Some(code@) == resp.error_view()))))
                &&& (k is Malformed ==> (final(self).state is Failed && (r
                    matches FlowAction::Fail { error } && error is MalformedResponse)))
                &&& (k is Transport ==> (final(self).state is Failed && (r
                    matches FlowAction::Fail { error } && (error
                    matches AuthError::PollTransportError { status } && status == resp.status))))
            }),
    {
        let step: StepResult;
        match &mut self.state {
            FlowState::Polling { engine, .. } => {
                step = engine.on_response(resp);
            },
            _ => {
                return unreached();
            },
        }
        match step {
            StepResult::Token(token) => {
                self.state = FlowState::AwaitingIdentity { token: token.clone() };
                FlowAction::FetchIdentity { token }
            },
            StepResult::Sleep(seconds) => FlowAction::Sleep { seconds },
            StepResult::Fatal(error) => {
                self.state = FlowState::Failed;
                FlowAction::Fail { error }
            },
        }
    }

    /// Applies the identity endpoint's reply and ends the run. With a
    /// resolved login the token is persisted under it; when the identity
    /// cannot be resolved, or the store cannot be written, the token is
    /// still handed to the caller and only `persisted` records the loss.
    pub fn on_identity_reply(
        &mut self,
        store: &mut CredentialStore,
        status: u16,
        login: Option<String>,
    ) -> (r: FlowAction)
        requires
            old(self).state matches FlowState::AwaitingIdentity { .. },
        ensures
            final(self).config == old(self).config,
            old(self).state matches FlowState::AwaitingIdentity { token } ==> ({
                &&& (r matches FlowAction::Finish { token: t } && t@ == token@)
                &&& (final(self).state matches FlowState::Complete { token: t, persisted } && t@
                    == token@)
                &&& ((status != 200 || login is None) ==> ((*final(store) == *old(store)) && (
                final(self).state matches FlowState::Complete { token: t, persisted } && !persisted)))
                &&& (status == 200 ==> (login matches Some(l) ==> ((*old(store))
                    matches CredentialStore::Memory(m) ==> (((*final(store))
                    matches CredentialStore::Memory(m2) && m2@ == m@.insert(l@, token@))
                    && (final(self).state matches FlowState::Complete { token: t, persisted }
                    && persisted)))))
            }),
    {
        let token: String;
        match &self.state {
            FlowState::AwaitingIdentity { token: t } => {
                token = t.clone();
            },
            _ => {
                return unreached();
            },
        }
        if status == 200 {
            match login {
                Some(identity) => {
                    let outcome = store.put(
                        Credential { identity, secret: token.clone() },
                    );
                    let persisted = outcome.is_ok();
                    self.state = FlowState::Complete { token: token.clone(), persisted };
                    return FlowAction::Finish { token };
                },
                None => {},
            }
        }
        self.state = FlowState::Complete { token: token.clone(), persisted: false };
        FlowAction::Finish { token }
    }
}

/// The cache check that opens every run: the token stored for the known
/// identity, or nothing — in which case the caller runs the device flow.
/// Read-path store failures fall back to the flow rather than ending the
/// run. On the in-memory backend the answer is pinned exactly to the
/// store's map model.
pub fn get_github_token(store: &CredentialStore, known_identity: Option<&str>) -> (r: Option<
    String,
>)
    ensures
        known_identity is None ==> r is None,
        (store matches CredentialStore::Memory(m) ==> ((r is Some) <==> (known_identity
            matches Some(id) && m@.contains_key(id@)))),
        (store matches CredentialStore::Memory(m) ==> (known_identity matches Some(id) ==> (
        m@.contains_key(id@) ==> (r matches Some(t) && t@ == m@[id@])))),
{
    match known_identity {
        None => None,
        Some(id) => match store.get(id) {
            Ok(Some(c)) => Some(c.secret),
            _ => None,
        },
    }
}

} // verus!
