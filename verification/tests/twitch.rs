use api_backoff::clock::BackoffRequest;
use api_backoff::decision::RetryDecision;
use api_backoff::errors::FailureReason;
use api_backoff::twitch::{
    check_backoff_twitch_step, classify_http_status, handle_e429, on_response,
    reset_wait_seconds, wait_until_reset, AttemptOutcome, StatusClass, TransportRetryState,
    ELAPSED_RESET_WAIT, MAX_TRANSPORT_RETRIES, RATELIMIT_RESET, STATUS_OK,
    STATUS_TOO_MANY_REQUESTS, TRANSPORT_BACKOFF_STEP,
};

fn local_seconds() -> i64 {
    chrono::Local::now().naive_local().and_utc().timestamp()
}

fn wait_with_buffer(seconds: u64) -> RetryDecision {
    RetryDecision::RetryAfter(BackoffRequest { base_seconds: seconds, add_buffer: true })
}

#[test]
fn constants_of_the_header_driven_loop() {
    assert_eq!(RATELIMIT_RESET, "Ratelimit-Reset");
    assert_eq!(STATUS_OK, 200);
    assert_eq!(STATUS_TOO_MANY_REQUESTS, 429);
    assert_eq!(MAX_TRANSPORT_RETRIES, 5);
    assert_eq!(TRANSPORT_BACKOFF_STEP, 5);
    assert_eq!(ELAPSED_RESET_WAIT, 1);
}

#[test]
fn status_classes() {
    assert_eq!(classify_http_status(200), StatusClass::Success);
    assert_eq!(classify_http_status(429), StatusClass::Throttled);
    for code in [0u16, 100, 199, 201, 204, 301, 400, 404, 428, 430, 500, 503, u16::MAX] {
        assert_eq!(classify_http_status(code), StatusClass::Other, "status {}", code);
    }
}

#[test]
fn reset_in_the_past_waits_one_second() {
    assert_eq!(reset_wait_seconds(1_700_000_000 - 10, 1_700_000_000), 1);
    assert_eq!(reset_wait_seconds(0, 1_700_000_000), 1);
    assert_eq!(reset_wait_seconds(i64::MIN, i64::MAX), 1);
    assert_eq!(reset_wait_seconds(-5, -4), 1);
}

#[test]
fn reset_at_this_very_second_waits_one_second() {
    assert_eq!(reset_wait_seconds(1_700_000_000, 1_700_000_000), 1);
    assert_eq!(reset_wait_seconds(0, 0), 1);
    assert_eq!(reset_wait_seconds(i64::MAX, i64::MAX), 1);
}

#[test]
fn reset_in_the_future_waits_until_then() {
    assert_eq!(reset_wait_seconds(1_700_000_030, 1_700_000_000), 30);
    assert_eq!(reset_wait_seconds(1_700_000_001, 1_700_000_000), 1);
    assert_eq!(reset_wait_seconds(1_700_000_002, 1_700_000_000), 2);
    assert_eq!(reset_wait_seconds(5, -5), 10);
    assert_eq!(reset_wait_seconds(i64::MAX, 0), i64::MAX as u64);
    assert_eq!(reset_wait_seconds(i64::MAX, i64::MIN), u64::MAX);
}

#[test]
fn wait_needs_a_timestamp_with_a_date() {
    assert_eq!(wait_until_reset(130, true, 100), Ok(30));
    assert_eq!(wait_until_reset(90, true, 100), Ok(1));
    assert_eq!(
        wait_until_reset(130, false, 100),
        Err(FailureReason::TimestampOutOfRange(130))
    );
    assert_eq!(
        wait_until_reset(90, false, 100),
        Err(FailureReason::TimestampOutOfRange(90))
    );
}

#[test]
fn throttled_with_reset_ten_seconds_ago_waits_one_second() {
    let reset = (local_seconds() - 10).to_string();
    assert_eq!(handle_e429(reset.as_bytes()), Ok(1));
    let mut state = TransportRetryState::new();
    let outcome = AttemptOutcome::Response {
        status: 429,
        rate_limit_reset: Some(reset.as_bytes()),
    };
    assert_eq!(check_backoff_twitch_step(&mut state, outcome), wait_with_buffer(1));
    assert_eq!(state.transport_failures(), 0);
}

#[test]
fn throttled_with_reset_in_thirty_seconds_waits_thirty_seconds() {
    let reset = (local_seconds() + 30).to_string();
    let wait = handle_e429(reset.as_bytes()).unwrap();
    assert!(wait == 30 || wait == 29, "waited {}", wait);
    let mut state = TransportRetryState::new();
    let outcome = AttemptOutcome::Response {
        status: 429,
        rate_limit_reset: Some(reset.as_bytes()),
    };
    match check_backoff_twitch_step(&mut state, outcome) {
        RetryDecision::RetryAfter(request) => {
            assert!(request.add_buffer);
            assert!(request.base_seconds == 30 || request.base_seconds == 29);
        }
        other => panic!("decided {:?}", other),
    }
}

#[test]
fn throttled_far_in_the_future_waits_that_long() {
    let now = local_seconds();
    let reset = (now + 1_000_000).to_string();
    let wait = handle_e429(reset.as_bytes()).unwrap();
    assert!(wait <= 1_000_000 && wait >= 999_990, "waited {}", wait);
}

#[test]
fn throttled_without_reset_header_fails_at_once() {
    assert_eq!(
        on_response(429, None),
        RetryDecision::Fail(FailureReason::MissingRateLimitReset)
    );
    let mut state = TransportRetryState::new();
    let outcome = AttemptOutcome::Response { status: 429, rate_limit_reset: None };
    let decision = check_backoff_twitch_step(&mut state, outcome);
    assert_eq!(decision, RetryDecision::Fail(FailureReason::MissingRateLimitReset));
    assert!(decision.terminal());
    assert_eq!(state.transport_failures(), 0);
}

#[test]
fn throttled_with_unreadable_reset_fails_at_once() {
    for value in ["", "soon", "12.5", " 1700000000", "1700000000 ", "99999999999999999999"] {
        assert_eq!(
            handle_e429(value.as_bytes()),
            Err(FailureReason::MalformedRateLimitReset),
            "on {:?}",
            value
        );
        assert_eq!(
            on_response(429, Some(value.as_bytes())),
            RetryDecision::Fail(FailureReason::MalformedRateLimitReset)
        );
    }
    assert_eq!(
        handle_e429(&[0xff, 0xfe]),
        Err(FailureReason::MalformedRateLimitReset)
    );
}

#[test]
fn throttled_with_reset_beyond_the_calendar_fails_at_once() {
    assert_eq!(
        handle_e429(b"9223372036854775807"),
        Err(FailureReason::TimestampOutOfRange(i64::MAX))
    );
    assert_eq!(
        handle_e429(b"-9223372036854775808"),
        Err(FailureReason::TimestampOutOfRange(i64::MIN))
    );
    assert_eq!(
        on_response(429, Some(b"9223372036854775807")),
        RetryDecision::Fail(FailureReason::TimestampOutOfRange(i64::MAX))
    );
}

#[test]
fn timestamps_of_the_calendar_are_accepted() {
    assert_eq!(handle_e429(b"0"), Ok(1));
    assert_eq!(handle_e429(b"-1"), Ok(1));
    assert_eq!(handle_e429(b"+1431648000"), Ok(1));
    assert_eq!(handle_e429(b"-62135596800"), Ok(1));
}

#[test]
fn success_is_handed_to_the_caller() {
    assert_eq!(on_response(200, None), RetryDecision::Success);
    assert_eq!(on_response(200, Some(b"garbage")), RetryDecision::Success);
    let mut state = TransportRetryState::new();
    let outcome = AttemptOutcome::Response { status: 200, rate_limit_reset: None };
    let decision = check_backoff_twitch_step(&mut state, outcome);
    assert_eq!(decision, RetryDecision::Success);
    assert!(decision.terminal());
}

#[test]
fn other_statuses_fail_with_the_status() {
    for code in [201u16, 204, 302, 400, 401, 404, 500, 503] {
        assert_eq!(
            on_response(code, Some(b"1700000000")),
            RetryDecision::Fail(FailureReason::UnhandledStatus(code))
        );
        let mut state = TransportRetryState::new();
        let outcome = AttemptOutcome::Response { status: code, rate_limit_reset: None };
        assert_eq!(
            check_backoff_twitch_step(&mut state, outcome),
            RetryDecision::Fail(FailureReason::UnhandledStatus(code))
        );
    }
}

#[test]
fn request_that_cannot_be_cloned_fails_at_once() {
    let mut state = TransportRetryState::new();
    let decision = check_backoff_twitch_step(&mut state, AttemptOutcome::RequestNotCloneable);
    assert_eq!(decision, RetryDecision::Fail(FailureReason::RequestNotCloneable));
    assert_eq!(state.transport_failures(), 0);
}

#[test]
fn six_transport_failures_fail_after_six_attempts() {
    let mut state = TransportRetryState::new();
    let mut attempts = 0;
    let mut waits = Vec::new();
    let last = loop {
        attempts += 1;
        match check_backoff_twitch_step(&mut state, AttemptOutcome::TransportFailure) {
            RetryDecision::RetryAfter(request) => {
                assert!(request.add_buffer);
                waits.push(request.base_seconds);
            }
            other => break other,
        }
    };
    assert_eq!(attempts, 6);
    assert_eq!(waits, vec![5, 10, 15, 20, 25]);
    assert_eq!(last, RetryDecision::Fail(FailureReason::TransportRetriesExhausted));
    assert_eq!(state.transport_failures(), 6);
}

#[test]
fn failure_count_stops_at_the_ceiling() {
    let mut state = TransportRetryState::new();
    for _ in 0..6 {
        state.on_transport_failure();
    }
    for _ in 0..10 {
        assert_eq!(
            state.on_transport_failure(),
            RetryDecision::Fail(FailureReason::TransportRetriesExhausted)
        );
        assert_eq!(state.transport_failures(), 6);
    }
}

#[test]
fn throttling_does_not_count_as_transport_failure() {
    let mut state = TransportRetryState::new();
    assert_eq!(state.on_transport_failure(), wait_with_buffer(5));
    let reset = (local_seconds() - 1).to_string();
    for _ in 0..20 {
        let outcome = AttemptOutcome::Response {
            status: 429,
            rate_limit_reset: Some(reset.as_bytes()),
        };
        assert_eq!(check_backoff_twitch_step(&mut state, outcome), wait_with_buffer(1));
    }
    assert_eq!(state.transport_failures(), 1);
    assert_eq!(state.on_transport_failure(), wait_with_buffer(10));
    assert_eq!(
        check_backoff_twitch_step(&mut state, AttemptOutcome::TransportFailure),
        wait_with_buffer(15)
    );
    assert_eq!(state.transport_failures(), 3);
}

#[test]
fn waiting_is_not_terminal() {
    assert!(!wait_with_buffer(5).terminal());
    assert!(!RetryDecision::RetryNow.terminal());
    assert!(RetryDecision::Success.terminal());
    assert!(RetryDecision::Fail(FailureReason::NotBadRequest).terminal());
}
