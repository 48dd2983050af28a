use crate::clock::BackoffRequest;
use crate::decimal::{decimal_i64, parse_i64};
use crate::decision::RetryDecision;
use crate::errors::FailureReason;
use vstd::math::min;
use vstd::prelude::*;

verus! {

/// Name of the header that announces when the rate limit is lifted, as a Unix
/// timestamp in seconds.
pub const RATELIMIT_RESET: &'static str = "Ratelimit-Reset";

/// The status of a response that is handed to the caller.
pub const STATUS_OK: u16 = 200;

/// The status with which the server throttles.
pub const STATUS_TOO_MANY_REQUESTS: u16 = 429;

/// How many transport failures are answered with another attempt.
pub const MAX_TRANSPORT_RETRIES: u64 = 5;

/// Seconds by which the wait grows with each transport failure.
pub const TRANSPORT_BACKOFF_STEP: u64 = 5;

/// Seconds to wait when the rate limit should already have been lifted.
pub const ELAPSED_RESET_WAIT: u64 = 1;

/// What a status code means to the retry loop.
#[derive(Debug, Clone, Copy, PartialEq, Eq, Structural)]
pub enum StatusClass {
    Success,
    Throttled,
    Other,
}

/// The class of each status code.
pub open spec fn status_class(code: u16) -> StatusClass {
    if code == STATUS_OK {
        StatusClass::Success
    } else if code == STATUS_TOO_MANY_REQUESTS {
        StatusClass::Throttled
    } else {
        StatusClass::Other
    }
}

/// Classifies a status code.
pub fn classify_http_status(code: u16) -> (class: StatusClass)
    ensures
        class == status_class(code),
{
    if code == STATUS_OK {
        StatusClass::Success
    } else if code == STATUS_TOO_MANY_REQUESTS {
        StatusClass::Throttled
    } else {
        StatusClass::Other
    }
}

/// Seconds to wait at time `now` for a rate limit that is lifted at `reset`,
/// both in Unix seconds: until the reset, or a token second if it is not in
/// the future.
pub open spec fn reset_wait(reset: i64, now: i64) -> int {
    if reset <= now {
        ELAPSED_RESET_WAIT as int
    } else {
        reset - now
    }
}

/// Computes the seconds to wait at time `now` for a rate limit that is lifted
/// at `reset`.
pub fn reset_wait_seconds(reset: i64, now: i64) -> (seconds: u64)
    ensures
        seconds == reset_wait(reset, now),
{
    if reset <= now {
        ELAPSED_RESET_WAIT
    } else {
        ((reset as i128) - (now as i128)) as u64
    }
}

/// Whether `chrono` has a date and time for the Unix timestamp `seconds`.
pub uninterp spec fn timestamp_has_datetime(seconds: i64) -> bool;

/// Asks `chrono::DateTime::from_timestamp` for the date and time of the Unix
/// timestamp `seconds`, with no nanoseconds, and reports whether there is one.
///
/// Trusted: the answer depends on `seconds` alone. The function returns
/// `None`, without panicking, for timestamps outside the years that `chrono`
/// can represent.
#[verifier::external_body]
fn has_datetime(seconds: i64) -> (found: bool)
    ensures
        found == timestamp_has_datetime(seconds),
{
    chrono::DateTime::from_timestamp(seconds, 0).is_some()
}

/// Reads the wall clock with `chrono::Local::now` and returns the local date
/// and time as seconds since the Unix epoch.
///
/// Trusted: nothing is claimed of the result, which differs from call to call.
#[verifier::external_body]
fn local_now() -> i64 {
    chrono::Local::now().naive_local().and_utc().timestamp()
}

/// Seconds to wait for a rate limit that is lifted at `reset`, or the reason
/// why the loop cannot wait for it.
pub open spec fn throttle_wait(reset: i64, representable: bool, now: i64) -> Result<
    u64,
    FailureReason,
> {
    if representable {
        Ok(reset_wait(reset, now) as u64)
    } else {
        Err(FailureReason::TimestampOutOfRange(reset))
    }
}

/// Decides how long to wait for a rate limit that is lifted at `reset`, given
/// whether that timestamp denotes a date and time, and the current time.
pub fn wait_until_reset(reset: i64, representable: bool, now: i64) -> (wait: Result<
    u64,
    FailureReason,
>)
    ensures
        wait == throttle_wait(reset, representable, now),
{
    if representable {
        Ok(reset_wait_seconds(reset, now))
    } else {
        Err(FailureReason::TimestampOutOfRange(reset))
    }
}

/// Handles a throttled response whose reset hint is `value`: parses the hint,
/// reads the clock and returns the seconds to wait before the next attempt.
///
/// The hint is rejected if it is not a decimal integer of 64 bits or if no
/// date and time corresponds to it. Otherwise the wait is the one that
/// `reset_wait` gives for the time at which the clock was read.
pub fn handle_e429(value: &[u8]) -> (wait: Result<u64, FailureReason>)
    ensures
        decimal_i64(value@) is None ==> wait == Err::<u64, FailureReason>(
            FailureReason::MalformedRateLimitReset,
        ),
        decimal_i64(value@) is Some ==> exists|now: i64|
            wait == #[trigger] throttle_wait(
                decimal_i64(value@)->0,
                timestamp_has_datetime(decimal_i64(value@)->0),
                now,
            ),
{
    match parse_i64(value) {
        None => Err(FailureReason::MalformedRateLimitReset),
        Some(reset) => {
            let representable: bool = has_datetime(reset);
            let now: i64 = local_now();
            wait_until_reset(reset, representable, now)
        },
    }
}

/// The reset hint as the decision functions see it.
pub open spec fn hint_bytes(hint: Option<&[u8]>) -> Option<Seq<u8>> {
    match hint {
        Some(value) => Some(value@),
        None => None,
    }
}

/// What the loop does with a throttled response at time `now`: fail if the
/// reset hint is missing or unusable, else wait for the reset.
pub open spec fn throttled_decision(hint: Option<Seq<u8>>, now: i64) -> RetryDecision {
    match hint {
        None => RetryDecision::Fail(FailureReason::MissingRateLimitReset),
        Some(value) => match decimal_i64(value) {
            None => RetryDecision::Fail(FailureReason::MalformedRateLimitReset),
            Some(reset) => match throttle_wait(reset, timestamp_has_datetime(reset), now) {
                Ok(seconds) => RetryDecision::RetryAfter(
                    BackoffRequest { base_seconds: seconds, add_buffer: true },
                ),
                Err(reason) => RetryDecision::Fail(reason),
            },
        },
    }
}

/// What the loop does with a response of status `status` at time `now`.
pub open spec fn response_decision(status: u16, hint: Option<Seq<u8>>, now: i64) -> RetryDecision {
    match status_class(status) {
        StatusClass::Success => RetryDecision::Success,
        StatusClass::Throttled => throttled_decision(hint, now),
        StatusClass::Other => RetryDecision::Fail(FailureReason::UnhandledStatus(status)),
    }
}

/// Decides what to do with a response, given its status and the reset hint
/// that belongs to the request, if any. The clock is read only for a
/// throttled response with a usable hint.
pub fn on_response(status: u16, hint: Option<&[u8]>) -> (decision: RetryDecision)
    ensures
        exists|now: i64| decision == #[trigger] response_decision(status, hint_bytes(hint), now),
{
    match classify_http_status(status) {
        StatusClass::Success => {
            assert(RetryDecision::Success == response_decision(status, hint_bytes(hint), 0));
            RetryDecision::Success
        },
        StatusClass::Other => {
            let decision = RetryDecision::Fail(FailureReason::UnhandledStatus(status));
            assert(decision == response_decision(status, hint_bytes(hint), 0));
            decision
        },
        StatusClass::Throttled => match hint {
            None => {
                let decision = RetryDecision::Fail(FailureReason::MissingRateLimitReset);
                assert(decision == response_decision(status, hint_bytes(hint), 0));
                decision
            },
            Some(value) => {
                let wait = handle_e429(value);
                let decision = match wait {
                    Ok(seconds) => RetryDecision::RetryAfter(
                        BackoffRequest { base_seconds: seconds, add_buffer: true },
                    ),
                    Err(reason) => RetryDecision::Fail(reason),
                };
                proof {
                    if decimal_i64(value@) is None {
                        assert(decision == response_decision(status, hint_bytes(hint), 0));
                    } else {
                        let reset = decimal_i64(value@)->0;
                        let now = choose|now: i64|
                            wait == #[trigger] throttle_wait(
                                reset,
                                timestamp_has_datetime(reset),
                                now,
                            );
                        assert(decision == response_decision(status, hint_bytes(hint), now));
                    }
                }
                decision
            },
        },
    }
}

/// The part of the header-driven retry loop that lasts from one attempt to
/// the next: how often the transport has failed so far.
pub struct TransportRetryState {
    failures: u64,
}

/// The failure count after one more transport failure. The count stops
/// growing once the ceiling is exceeded.
pub open spec fn failures_after(failures: nat) -> nat {
    if failures <= MAX_TRANSPORT_RETRIES {
        failures + 1
    } else {
        failures
    }
}

/// What the loop does with a transport failure that follows `failures`
/// earlier ones: wait five seconds per failure so far, this one included, or
/// fail once there are more than the ceiling allows.
pub open spec fn transport_failure_decision(failures: nat) -> RetryDecision {
    if failures_after(failures) > MAX_TRANSPORT_RETRIES {
        RetryDecision::Fail(FailureReason::TransportRetriesExhausted)
    } else {
        RetryDecision::RetryAfter(
            BackoffRequest {
                base_seconds: (failures_after(failures) * TRANSPORT_BACKOFF_STEP) as u64,
                add_buffer: true,
            },
        )
    }
}

impl TransportRetryState {
    #[verifier::type_invariant]
    spec fn bounded(self) -> bool {
        self.failures <= MAX_TRANSPORT_RETRIES + 1
    }

    /// How often the transport has failed.
    pub closed spec fn failures(self) -> nat {
        self.failures as nat
    }

    /// The state before the first attempt.
    pub fn new() -> (state: TransportRetryState)
        ensures
            state.failures() == 0,
    {
        TransportRetryState { failures: 0 }
    }

    /// How often the transport has failed.
    pub fn transport_failures(&self) -> (count: u64)
        ensures
            count == self.failures(),
            count <= MAX_TRANSPORT_RETRIES + 1,
    {
        proof {
            use_type_invariant(self);
        }
        self.failures
    }

    /// Records a transport failure and decides what to do about it.
    pub fn on_transport_failure(&mut self) -> (decision: RetryDecision)
        ensures
            final(self).failures() == failures_after(old(self).failures()),
            decision == transport_failure_decision(old(self).failures()),
    {
        proof {
            use_type_invariant(&*self);
        }
        if self.failures <= MAX_TRANSPORT_RETRIES {
            self.failures = self.failures + 1;
        }
        if self.failures > MAX_TRANSPORT_RETRIES {
            RetryDecision::Fail(FailureReason::TransportRetriesExhausted)
        } else {
            RetryDecision::RetryAfter(
                BackoffRequest {
                    base_seconds: self.failures * TRANSPORT_BACKOFF_STEP,
                    add_buffer: true,
                },
            )
        }
    }
}

/// The failure count of a loop in which the transport has failed `n` times.
pub open spec fn failures_after_n(n: nat) -> nat
    decreases n,
{
    if n == 0 {
        0
    } else {
        failures_after(failures_after_n((n - 1) as nat))
    }
}

/// The `k`-th transport failure of a loop is answered with a wait of five
/// seconds per failure, with the safety margin, as long as `k` is at most
/// five; the sixth and every later one end the loop. So a loop in which only
/// the transport fails makes exactly six attempts.
pub proof fn lemma_transport_failure_schedule(k: nat)
    requires
        k >= 1,
    ensures
        failures_after_n(k) == min(k as int, MAX_TRANSPORT_RETRIES + 1),
        k <= MAX_TRANSPORT_RETRIES ==> transport_failure_decision(failures_after_n((k - 1) as nat))
            == RetryDecision::RetryAfter(
            BackoffRequest { base_seconds: (k * TRANSPORT_BACKOFF_STEP) as u64, add_buffer: true },
        ),
        k > MAX_TRANSPORT_RETRIES ==> transport_failure_decision(failures_after_n((k - 1) as nat))
            == RetryDecision::Fail(FailureReason::TransportRetriesExhausted),
    decreases k,
{
    if k > 1 {
        lemma_transport_failure_schedule((k - 1) as nat);
    }
}

/// What one attempt of the header-driven loop produced.
#[derive(Debug, Clone, Copy)]
pub enum AttemptOutcome<'a> {
    /// The request could not be duplicated, so nothing was sent.
    RequestNotCloneable,
    /// The transport failed before a response arrived.
    TransportFailure,
    /// A response arrived. `rate_limit_reset` is the value of the
    /// `Ratelimit-Reset` header of the request, if it has one.
    Response { status: u16, rate_limit_reset: Option<&'a [u8]> },
}

/// What the loop does after an attempt that followed `failures` transport
/// failures, at time `now`.
pub open spec fn step_decision(failures: nat, outcome: AttemptOutcome<'_>, now: i64) -> RetryDecision {
    match outcome {
        AttemptOutcome::RequestNotCloneable => RetryDecision::Fail(
            FailureReason::RequestNotCloneable,
        ),
        AttemptOutcome::TransportFailure => transport_failure_decision(failures),
        AttemptOutcome::Response { status, rate_limit_reset } => response_decision(
            status,
            hint_bytes(rate_limit_reset),
            now,
        ),
    }
}

/// One step of the header-driven retry loop: takes what the attempt
/// produced, updates the state and says what the loop does next.
///
/// The clock is read only for a throttled response with a usable reset
/// hint; every other decision is the same at all times.
pub fn check_backoff_twitch_step(state: &mut TransportRetryState, outcome: AttemptOutcome<'_>) -> (decision:
    RetryDecision)
    ensures
        exists|now: i64| decision == #[trigger] step_decision(old(state).failures(), outcome, now),
        final(state).failures() == if outcome is TransportFailure {
            failures_after(old(state).failures())
        } else {
            old(state).failures()
        },
{
    match outcome {
        AttemptOutcome::RequestNotCloneable => {
            let decision = RetryDecision::Fail(FailureReason::RequestNotCloneable);
            assert(decision == step_decision(old(state).failures(), outcome, 0));
            decision
        },
        AttemptOutcome::TransportFailure => {
            let decision = state.on_transport_failure();
            assert(decision == step_decision(old(state).failures(), outcome, 0));
            decision
        },
        AttemptOutcome::Response { status, rate_limit_reset } => {
            let decision = on_response(status, rate_limit_reset);
            proof {
                let now = choose|now: i64|
                    decision == #[trigger] response_decision(
                        status,
                        hint_bytes(rate_limit_reset),
                        now,
                    );
                assert(decision == step_decision(old(state).failures(), outcome, now));
            }
            decision
        },
    }
}

} // verus!
