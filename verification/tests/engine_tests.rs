use github_device_flow::device::{interpret_device_code_reply, DeviceCodeBody};
use github_device_flow::engine::{EngineState, PollingEngine, StepResult};
use github_device_flow::errors::AuthError;
use github_device_flow::poll::{classify, PollOutcome, PollResponse};
use github_device_flow::strutil::str_eq;

fn reply(status: u16, token: Option<&str>, error: Option<&str>) -> PollResponse {
    PollResponse {
        status,
        access_token: token.map(|t| t.to_string()),
        error: error.map(|e| e.to_string()),
    }
}

#[test]
fn pending_keeps_polling_and_sleeps_for_current_interval() {
    let mut e = PollingEngine::new(600, 5);
    let r = e.on_response(&reply(200, None, Some("authorization_pending")));
    assert_eq!(r, StepResult::Sleep(5));
    assert_eq!(e.state, EngineState::Polling);
    assert_eq!(e.interval, 5);

    let again = e.on_response(&reply(200, None, Some("authorization_pending")));
    assert_eq!(again, StepResult::Sleep(5));
    assert_eq!(e.interval, 5);
}

#[test]
fn slow_down_penalties_accumulate() {
    let mut e = PollingEngine::new(600, 5);
    let r1 = e.on_response(&reply(200, None, Some("slow_down")));
    assert_eq!(r1, StepResult::Sleep(10));
    assert_eq!(e.interval, 10);
    let r2 = e.on_response(&reply(200, None, Some("slow_down")));
    assert_eq!(r2, StepResult::Sleep(15));
    assert_eq!(e.interval, 15);
    assert_eq!(e.state, EngineState::Polling);

    let pending = e.on_response(&reply(200, None, Some("authorization_pending")));
    assert_eq!(pending, StepResult::Sleep(15));
}

#[test]
fn access_token_wins_over_error_field() {
    let mut e = PollingEngine::new(600, 5);
    let r = e.on_response(&reply(200, Some("tok_abc"), Some("slow_down")));
    assert_eq!(r, StepResult::Token("tok_abc".to_string()));
    assert_eq!(e.state, EngineState::Succeeded);
    assert_eq!(e.interval, 5);
}

#[test]
fn classify_token_with_any_error_is_access_token() {
    let r = classify(&reply(200, Some("tok"), Some("access_denied")));
    assert_eq!(r, Ok(PollOutcome::AccessToken("tok".to_string())));
}

#[test]
fn deadline_reached_times_out_before_any_poll() {
    let auth = interpret_device_code_reply(
        200,
        Some(DeviceCodeBody {
            device_code: "D1".to_string(),
            user_code: "ABCD-1234".to_string(),
            verification_uri: "https://example/device".to_string(),
            expires_in: 1,
            interval: 5,
        }),
        100,
    )
    .unwrap();
    assert_eq!(auth.expires_at, 101);
    let mut e = PollingEngine::new(auth.expires_at, auth.interval);
    let verdict = e.before_poll(102);
    assert_eq!(verdict, Some(AuthError::Expired));
    assert_eq!(e.state, EngineState::TimedOut);
}

#[test]
fn deadline_not_reached_allows_the_poll() {
    let mut e = PollingEngine::new(600, 5);
    assert_eq!(e.before_poll(599), None);
    assert_eq!(e.state, EngineState::Polling);
}

#[test]
fn expired_token_reply_times_out() {
    let mut e = PollingEngine::new(600, 5);
    let r = e.on_response(&reply(200, None, Some("expired_token")));
    assert_eq!(r, StepResult::Fatal(AuthError::Expired));
    assert_eq!(e.state, EngineState::TimedOut);
}

#[test]
fn access_denied_reply_is_denied() {
    let mut e = PollingEngine::new(600, 5);
    let r = e.on_response(&reply(200, None, Some("access_denied")));
    assert_eq!(r, StepResult::Fatal(AuthError::Denied));
    assert_eq!(e.state, EngineState::Denied);
}

#[test]
fn unknown_error_code_is_rejected_verbatim() {
    let mut e = PollingEngine::new(600, 5);
    let r = e.on_response(&reply(200, None, Some("incorrect_device_code")));
    assert_eq!(
        r,
        StepResult::Fatal(AuthError::PollRejected {
            code: "incorrect_device_code".to_string()
        })
    );
    assert_eq!(e.state, EngineState::Failed);
}

#[test]
fn non_200_poll_is_a_transport_failure() {
    let mut e = PollingEngine::new(600, 5);
    let r = e.on_response(&reply(503, None, None));
    assert_eq!(
        r,
        StepResult::Fatal(AuthError::PollTransportError { status: 503 })
    );
    assert_eq!(e.state, EngineState::Failed);
}

#[test]
fn empty_200_body_is_malformed() {
    let mut e = PollingEngine::new(600, 5);
    let r = e.on_response(&reply(200, None, None));
    assert_eq!(r, StepResult::Fatal(AuthError::MalformedResponse));
    assert_eq!(e.state, EngineState::Failed);
}

#[test]
fn device_code_rejection_carries_the_status() {
    let r = interpret_device_code_reply(404, None, 0);
    assert_eq!(r, Err(AuthError::ServerRejected { status: 404 }));
}

#[test]
fn device_code_unparsed_body_is_malformed() {
    let r = interpret_device_code_reply(200, None, 0);
    assert_eq!(r, Err(AuthError::MalformedResponse));
}

#[test]
fn device_code_deadline_is_capped_at_the_clock_range() {
    let body = DeviceCodeBody {
        device_code: "D1".to_string(),
        user_code: "C".to_string(),
        verification_uri: "https://example".to_string(),
        expires_in: 10,
        interval: 5,
    };
    let auth = interpret_device_code_reply(200, Some(body), u64::MAX - 3).unwrap();
    assert_eq!(auth.expires_at, u64::MAX);
}

#[test]
fn str_eq_agrees_with_plain_equality() {
    assert!(str_eq("slow_down", "slow_down"));
    assert!(!str_eq("slow_down", "slow_dowN"));
    assert!(!str_eq("short", "longer text"));
    assert!(str_eq("", ""));
    assert!(str_eq("naïve ✓", "naïve ✓"));
    assert!(!str_eq("naïve ✓", "naive ✓"));
}

#[test]
fn grant_type_is_the_device_code_urn() {
    assert_eq!(
        github_device_flow::device_code_grant_type(),
        "urn:ietf:params:oauth:grant-type:device_code"
    );
}
