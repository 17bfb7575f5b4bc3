use oauth_flow::device::{
    classify_poll, device_code_outcome, poll_outcome, DeviceAuthorization,
    DeviceAuthorizationFlow, DeviceAuthorizationResponse, DeviceCodeRequest, DeviceTokenRequest,
    PollOutcome, RawTokenResponse, DEVICE_GRANT_TYPE, MIN_POLL_INTERVAL_SECS, POLL_TIMEOUT_SECS,
};
use oauth_flow::error::AuthError;
use oauth_flow::poll::{DevicePoll, PollStep};
use oauth_flow::provider::{AuthProvider, ProviderConfig};
use oauth_flow::token::{HttpReply, OAuthTokens};

fn device_flow() -> DeviceAuthorizationFlow {
    let config = ProviderConfig {
        auth_url: "https://id.example.com/auth".to_string(),
        token_url: "https://id.example.com/token".to_string(),
        device_authorization_url: "https://id.example.com/device".to_string(),
        scopes: vec!["imap".to_string(), "smtp".to_string()],
    };
    DeviceAuthorizationFlow::new(
        AuthProvider::new(config),
        "device-client".to_string(),
        "device-secret".to_string(),
    )
}

fn issued(expires_in: u64, interval: u64) -> DeviceAuthorization {
    DeviceAuthorization {
        device_code: "dev-code".to_string(),
        user_code: "WDJB-MJHT".to_string(),
        verification_url: "https://id.example.com/activate".to_string(),
        expires_in,
        interval,
    }
}

fn body(error: Option<&str>) -> RawTokenResponse {
    RawTokenResponse {
        access_token: None,
        refresh_token: None,
        expires_in: None,
        error: error.map(|e| e.to_string()),
    }
}

fn granted_body() -> RawTokenResponse {
    RawTokenResponse {
        access_token: Some("device-at".to_string()),
        refresh_token: Some("device-rt".to_string()),
        expires_in: Some(1800),
        error: None,
    }
}

fn granted_tokens() -> OAuthTokens {
    OAuthTokens {
        access_token: "device-at".to_string(),
        refresh_token: Some("device-rt".to_string()),
        expires_in: Some(1800),
    }
}

fn ok_reply(raw: RawTokenResponse) -> HttpReply<RawTokenResponse> {
    HttpReply::Response { status: 200, text: Some("{}".to_string()), decoded: Ok(raw) }
}

fn pending() -> HttpReply<RawTokenResponse> {
    ok_reply(body(Some("authorization_pending")))
}

fn slow_down() -> HttpReply<RawTokenResponse> {
    ok_reply(body(Some("slow_down")))
}

fn success() -> HttpReply<RawTokenResponse> {
    ok_reply(granted_body())
}

fn started(expires_in: u64, interval: u64, now: u64) -> DevicePoll {
    match DevicePoll::start(issued(expires_in, interval), now) {
        PollStep::Continue(poll) => poll,
        PollStep::Finished(result) => panic!("flow ended at once: {:?}", result),
    }
}

fn finished(step: PollStep) -> Result<OAuthTokens, AuthError> {
    match step {
        PollStep::Finished(result) => result,
        PollStep::Continue(poll) => panic!("flow goes on: {:?}", poll),
    }
}

fn going_on(step: PollStep) -> DevicePoll {
    match step {
        PollStep::Continue(poll) => poll,
        PollStep::Finished(result) => panic!("flow ended: {:?}", result),
    }
}

/// Runs the flow against scripted replies as a caller would: waits, polls,
/// hands the reply back. The clock moves by the waits alone. Returns the
/// result, if the flow ended, and the wait before each poll that was made.
fn drive(
    auth: DeviceAuthorization,
    script: Vec<HttpReply<RawTokenResponse>>,
) -> (Option<Result<OAuthTokens, AuthError>>, Vec<u64>) {
    let mut now: u64 = 1_000;
    let mut waits = Vec::new();
    let mut step = DevicePoll::start(auth, now);
    let mut replies = script.into_iter();
    loop {
        let poll = match step {
            PollStep::Finished(result) => return (Some(result), waits),
            PollStep::Continue(poll) => poll,
        };
        let reply = match replies.next() {
            Some(reply) => reply,
            None => return (None, waits),
        };
        now += poll.wait_secs();
        waits.push(poll.wait_secs());
        step = poll.on_reply(reply, now);
    }
}

#[test]
fn constants_are_the_documented_ones() {
    assert_eq!(POLL_TIMEOUT_SECS, 10);
    assert_eq!(MIN_POLL_INTERVAL_SECS, 1);
    assert_eq!(DEVICE_GRANT_TYPE, "urn:ietf:params:oauth:grant-type:device_code");
}

#[test]
fn device_code_request_has_client_and_joined_scopes() {
    assert_eq!(
        device_flow().device_code_request(),
        DeviceCodeRequest { client_id: "device-client".to_string(), scope: "imap smtp".to_string() }
    );
    assert_eq!(device_flow().config().device_authorization_url, "https://id.example.com/device");
}

#[test]
fn device_authorization_defaults_the_interval_to_zero() {
    let decoded = DeviceAuthorizationResponse {
        device_code: "dc".to_string(),
        user_code: "uc".to_string(),
        verification_url: "https://v".to_string(),
        expires_in: 900,
        interval: None,
    };
    let auth = DeviceAuthorization::from_response(decoded);
    assert_eq!(
        auth,
        DeviceAuthorization {
            device_code: "dc".to_string(),
            user_code: "uc".to_string(),
            verification_url: "https://v".to_string(),
            expires_in: 900,
            interval: 0,
        }
    );
}

#[test]
fn device_authorization_keeps_a_given_interval() {
    let decoded = DeviceAuthorizationResponse {
        device_code: "dc".to_string(),
        user_code: "uc".to_string(),
        verification_url: "https://v".to_string(),
        expires_in: 900,
        interval: Some(5),
    };
    let reply = HttpReply::Response { status: 200, text: None, decoded: Ok(decoded) };
    let auth = device_code_outcome(reply).unwrap();
    assert_eq!(auth.interval, 5);
    assert_eq!(auth.expires_in, 900);
    assert_eq!(auth.device_code, "dc");
    assert_eq!(auth.user_code, "uc");
    assert_eq!(auth.verification_url, "https://v");
}

#[test]
fn device_code_request_failures() {
    assert_eq!(
        device_code_outcome(HttpReply::Unreachable { reason: "dns".to_string() }),
        Err(AuthError::NetworkError("dns".to_string()))
    );
    assert_eq!(
        device_code_outcome(HttpReply::Response {
            status: 401,
            text: Some("invalid_client".to_string()),
            decoded: Err("ignored".to_string()),
        }),
        Err(AuthError::TokenExchangeFailed(
            "Failed to request device code: invalid_client".to_string()
        ))
    );
    assert_eq!(
        device_code_outcome(HttpReply::Response {
            status: 503,
            text: None,
            decoded: Err("ignored".to_string()),
        }),
        Err(AuthError::TokenExchangeFailed(
            "Failed to request device code: Unknown error".to_string()
        ))
    );
    assert_eq!(
        device_code_outcome(HttpReply::Response {
            status: 200,
            text: Some("{}".to_string()),
            decoded: Err("missing field `device_code`".to_string()),
        }),
        Err(AuthError::TokenExchangeFailed(
            "Failed to parse device authorization response: missing field `device_code`"
                .to_string()
        ))
    );
}

#[test]
fn poll_request_names_the_device_grant() {
    let poll = started(600, 5, 0);
    assert_eq!(poll.device_code(), "dev-code");
    assert_eq!(
        device_flow().poll_request(&poll),
        DeviceTokenRequest {
            client_id: "device-client".to_string(),
            client_secret: "device-secret".to_string(),
            device_code: "dev-code".to_string(),
            grant_type: "urn:ietf:params:oauth:grant-type:device_code".to_string(),
        }
    );
}

#[test]
fn error_field_decides_the_outcome() {
    assert_eq!(poll_outcome(body(Some("authorization_pending"))), PollOutcome::Pending);
    assert_eq!(poll_outcome(body(Some("slow_down"))), PollOutcome::SlowDown);
    assert_eq!(poll_outcome(body(Some("expired_token"))), PollOutcome::Expired);
    assert_eq!(poll_outcome(body(Some("access_denied"))), PollOutcome::Denied);
    assert_eq!(
        poll_outcome(body(Some("invalid_grant"))),
        PollOutcome::Fatal("invalid_grant".to_string())
    );
    assert_eq!(poll_outcome(body(Some(""))), PollOutcome::Fatal(String::new()));
    assert_eq!(
        poll_outcome(body(Some("Slow_Down"))),
        PollOutcome::Fatal("Slow_Down".to_string())
    );
    assert_eq!(poll_outcome(granted_body()), PollOutcome::Success(granted_tokens()));
}

#[test]
fn error_field_wins_over_tokens() {
    let mut raw = granted_body();
    raw.error = Some("authorization_pending".to_string());
    assert_eq!(poll_outcome(raw), PollOutcome::Pending);
}

#[test]
fn success_body_without_access_token_is_fatal() {
    assert_eq!(
        poll_outcome(body(None)),
        PollOutcome::Fatal(
            "Failed to parse token response: missing field `access_token`".to_string()
        )
    );
}

#[test]
fn poll_transport_failure_is_a_network_error() {
    assert_eq!(
        classify_poll(HttpReply::Unreachable { reason: "operation timed out".to_string() }),
        Err(AuthError::NetworkError("operation timed out".to_string()))
    );
}

#[test]
fn poll_non_2xx_is_fatal_whatever_the_body_says() {
    let reply = HttpReply::Response {
        status: 400,
        text: Some("{\"error\":\"authorization_pending\"}".to_string()),
        decoded: Ok(body(Some("authorization_pending"))),
    };
    assert_eq!(
        classify_poll(reply),
        Ok(PollOutcome::Fatal(
            "Failed to poll for tokens: {\"error\":\"authorization_pending\"}".to_string()
        ))
    );
    let unreadable = HttpReply::Response { status: 502, text: None, decoded: Ok(granted_body()) };
    assert_eq!(
        classify_poll(unreadable),
        Ok(PollOutcome::Fatal("Failed to poll for tokens: Unknown error".to_string()))
    );
}

#[test]
fn poll_undecodable_body_is_fatal() {
    let reply = HttpReply::Response {
        status: 200,
        text: Some("oops".to_string()),
        decoded: Err("expected value".to_string()),
    };
    assert_eq!(
        classify_poll(reply),
        Ok(PollOutcome::Fatal("Failed to parse token response: expected value".to_string()))
    );
}

#[test]
fn poll_2xx_is_classified_by_its_body() {
    assert_eq!(classify_poll(pending()), Ok(PollOutcome::Pending));
    assert_eq!(classify_poll(slow_down()), Ok(PollOutcome::SlowDown));
    assert_eq!(classify_poll(success()), Ok(PollOutcome::Success(granted_tokens())));
}

#[test]
fn first_interval_is_at_least_one_second() {
    assert_eq!(started(600, 0, 0).wait_secs(), 1);
    assert_eq!(started(600, 1, 0).wait_secs(), 1);
    assert_eq!(started(600, 5, 0).wait_secs(), 5);
    assert_eq!(started(600, u64::MAX, 0).wait_secs(), u64::MAX);
}

#[test]
fn pending_pending_slow_down_success_makes_four_polls() {
    let (result, waits) =
        drive(issued(600, 5), vec![pending(), pending(), slow_down(), success()]);
    assert_eq!(result, Some(Ok(granted_tokens())));
    assert_eq!(waits.len(), 4);
    assert_eq!(waits, vec![5, 5, 5, 10]);
    assert_eq!(waits[3], 2 * waits[0]);
}

#[test]
fn no_poll_is_made_after_success() {
    let (result, waits) = drive(issued(600, 5), vec![success(), pending(), pending()]);
    assert_eq!(result, Some(Ok(granted_tokens())));
    assert_eq!(waits, vec![5]);
}

#[test]
fn slow_down_doubles_cumulatively() {
    let (result, waits) = drive(
        issued(10_000, 3),
        vec![slow_down(), slow_down(), pending(), slow_down(), pending()],
    );
    assert_eq!(result, None);
    assert_eq!(waits, vec![3, 6, 12, 12, 24]);
}

#[test]
fn slow_down_from_a_zero_interval_starts_at_one() {
    let (_, waits) = drive(issued(600, 0), vec![slow_down(), slow_down(), pending()]);
    assert_eq!(waits, vec![1, 2, 4]);
}

#[test]
fn doubling_stops_at_the_largest_interval() {
    let poll = started(u64::MAX, u64::MAX / 2 + 1, 0);
    let poll = going_on(poll.on_outcome(PollOutcome::SlowDown, 1));
    assert_eq!(poll.wait_secs(), u64::MAX);
    let poll = going_on(poll.on_outcome(PollOutcome::SlowDown, 2));
    assert_eq!(poll.wait_secs(), u64::MAX);

    let exact = started(u64::MAX, u64::MAX / 2, 0);
    let exact = going_on(exact.on_outcome(PollOutcome::SlowDown, 1));
    assert_eq!(exact.wait_secs(), u64::MAX - 1);
}

#[test]
fn access_denied_is_user_cancelled_and_ends_the_polling() {
    let (result, waits) = drive(issued(600, 5), vec![pending(), ok_reply(body(Some("access_denied"))), success()]);
    assert_eq!(result, Some(Err(AuthError::UserCancelled)));
    assert_eq!(waits.len(), 2);
}

#[test]
fn access_denied_on_the_first_poll() {
    let poll = started(600, 5, 100);
    let result = finished(poll.on_reply(ok_reply(body(Some("access_denied"))), 105));
    assert_eq!(result, Err(AuthError::UserCancelled));
}

#[test]
fn expired_lifetime_ends_before_any_poll() {
    assert_eq!(
        finished(DevicePoll::start(issued(0, 5), 0)),
        Err(AuthError::CallbackTimeout)
    );
    assert_eq!(
        finished(DevicePoll::start(issued(0, 5), 123_456)),
        Err(AuthError::CallbackTimeout)
    );
    let (result, waits) = drive(issued(0, 5), vec![success()]);
    assert_eq!(result, Some(Err(AuthError::CallbackTimeout)));
    assert!(waits.is_empty());
}

#[test]
fn deadline_is_checked_before_each_wait() {
    // Lifetime 10, interval 5, started at 1000: the polls are seen at 1005 and
    // 1010, and 1010 is the deadline.
    let (result, waits) = drive(issued(10, 5), vec![pending(), pending(), success()]);
    assert_eq!(result, Some(Err(AuthError::CallbackTimeout)));
    assert_eq!(waits, vec![5, 5]);
}

#[test]
fn one_second_before_the_deadline_the_flow_goes_on() {
    let poll = started(10, 5, 1_000);
    let poll = going_on(poll.on_reply(pending(), 1_009));
    assert_eq!(finished(poll.on_reply(pending(), 1_010)), Err(AuthError::CallbackTimeout));
}

#[test]
fn slow_down_at_the_deadline_is_a_timeout() {
    let poll = started(10, 5, 1_000);
    assert_eq!(finished(poll.on_reply(slow_down(), 1_010)), Err(AuthError::CallbackTimeout));
}

#[test]
fn success_after_the_deadline_still_succeeds() {
    let poll = started(10, 5, 1_000);
    assert_eq!(finished(poll.on_reply(success(), 5_000)), Ok(granted_tokens()));
}

#[test]
fn a_clock_that_runs_backwards_does_not_expire_the_flow() {
    let poll = started(10, 5, 1_000);
    let poll = going_on(poll.on_reply(pending(), 3));
    assert_eq!(poll.wait_secs(), 5);
}

#[test]
fn a_deadline_beyond_the_clock_range_is_never_reached() {
    let poll = started(u64::MAX, 5, u64::MAX - 1);
    let poll = going_on(poll.on_reply(pending(), u64::MAX));
    assert_eq!(poll.wait_secs(), 5);
}

#[test]
fn expired_token_is_a_timeout_whatever_time_is_left() {
    let poll = started(600, 5, 0);
    assert_eq!(
        finished(poll.on_reply(ok_reply(body(Some("expired_token"))), 5)),
        Err(AuthError::CallbackTimeout)
    );
}

#[test]
fn unknown_error_is_an_exchange_failure_with_the_error_verbatim() {
    let poll = started(600, 5, 0);
    assert_eq!(
        finished(poll.on_reply(ok_reply(body(Some("invalid_client"))), 5)),
        Err(AuthError::TokenExchangeFailed("invalid_client".to_string()))
    );
}

#[test]
fn poll_timeout_aborts_the_flow_as_a_network_error() {
    let poll = started(600, 5, 0);
    let reply = HttpReply::Unreachable { reason: "request timed out".to_string() };
    assert_eq!(
        finished(poll.on_reply(reply, 15)),
        Err(AuthError::NetworkError("request timed out".to_string()))
    );
}

#[test]
fn non_2xx_poll_is_not_retried() {
    let (result, waits) = drive(
        issued(600, 5),
        vec![
            HttpReply::Response {
                status: 400,
                text: Some("authorization_pending".to_string()),
                decoded: Ok(body(Some("authorization_pending"))),
            },
            success(),
        ],
    );
    assert_eq!(
        result,
        Some(Err(AuthError::TokenExchangeFailed(
            "Failed to poll for tokens: authorization_pending".to_string()
        )))
    );
    assert_eq!(waits.len(), 1);
}

#[test]
fn outcomes_drive_the_machine_like_replies() {
    let poll = started(600, 4, 0);
    let poll = going_on(poll.on_outcome(PollOutcome::Pending, 4));
    assert_eq!(poll.wait_secs(), 4);
    let poll = going_on(poll.on_outcome(PollOutcome::SlowDown, 8));
    assert_eq!(poll.wait_secs(), 8);
    assert_eq!(poll.device_code(), "dev-code");
    assert_eq!(
        finished(poll.on_outcome(PollOutcome::Fatal("boom".to_string()), 16)),
        Err(AuthError::TokenExchangeFailed("boom".to_string()))
    );
}
