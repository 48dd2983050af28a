use crate::clock::BackoffRequest;
use crate::decision::RetryDecision;
use crate::errors::FailureReason;
use crate::text::str_equal;
use serde_json::Value;
use vstd::arithmetic::power2::{
    lemma2_to64, lemma_pow2_pos, lemma_pow2_strictly_increases, lemma_pow2_unfold, pow2,
};
use vstd::math::min;
use vstd::prelude::*;

verus! {

/// The base of the exponential backoff: the wait after `n` quota errors is
/// this to the power of `n`, in seconds, unless the cap is lower.
pub const YOUTUBE_DEFAULT_BACKOFF_TIME_S: u64 = 2;

/// The longest single wait, in seconds.
pub const YOUTUBE_MAX_BACKOFF_TIME_S: u64 = 3600;

/// How many quota errors are answered with a wait and another attempt.
pub const YOUTUBE_MAX_TRIES: u64 = 50;

/// A JSON document of `serde_json`. Verus sees nothing inside it: what it
/// holds is told by `json_members`, `json_elements` and `json_text`.
#[verifier::external_type_specification]
#[verifier::external_body]
pub struct ExValue(serde_json::Value);

/// The members of `value` by name if it is a JSON object; empty otherwise.
pub uninterp spec fn json_members(value: Value) -> Map<Seq<char>, Value>;

/// The elements of `value` in order if it is a JSON array; empty otherwise.
pub uninterp spec fn json_elements(value: Value) -> Seq<Value>;

/// The text of `value` if it is a JSON string.
pub uninterp spec fn json_text(value: Value) -> Option<Seq<char>>;

/// Looks up the member `key` with `serde_json::Value::get`, given a string.
///
/// Trusted: `get` returns the member of that name if `value` is an object
/// that has one, and `None` otherwise.
#[verifier::external_body]
fn member<'a>(value: &'a Value, key: &str) -> (found: Option<&'a Value>)
    ensures
        found == if json_members(*value).contains_key(key@) {
            Some(&json_members(*value)[key@])
        } else {
            None
        },
{
    value.get(key)
}

/// Looks up the element at `index` with `serde_json::Value::get`, given a
/// number.
///
/// Trusted: `get` returns the element at that position if `value` is an
/// array that is long enough, and `None` otherwise.
#[verifier::external_body]
fn element<'a>(value: &'a Value, index: usize) -> (found: Option<&'a Value>)
    ensures
        found == if index < json_elements(*value).len() {
            Some(&json_elements(*value)[index as int])
        } else {
            None
        },
{
    value.get(index)
}

/// Reads a string with `serde_json::Value::as_str`.
///
/// Trusted: `as_str` returns the text if `value` is a string, and `None`
/// otherwise.
#[verifier::external_body]
fn string_content<'a>(value: &'a Value) -> (found: Option<&'a str>)
    ensures
        match found {
            Some(content) => json_text(*value) == Some(content@),
            None => json_text(*value) is None,
        },
{
    value.as_str()
}

/// The member `key` of `value`, if `value` is an object that has one.
pub open spec fn member_of(value: Value, key: Seq<char>) -> Option<Value> {
    if json_members(value).contains_key(key) {
        Some(json_members(value)[key])
    } else {
        None
    }
}

/// The first element of `value`, if `value` is an array that has one.
pub open spec fn first_of(value: Value) -> Option<Value> {
    if json_elements(value).len() > 0 {
        Some(json_elements(value)[0])
    } else {
        None
    }
}

/// The text found in `payload` at `error.errors[0].reason`, if every step of
/// that path exists and the value at its end is a string.
pub open spec fn reason_of(payload: Value) -> Option<Seq<char>> {
    match member_of(payload, "error"@) {
        None => None,
        Some(error) => match member_of(error, "errors"@) {
            None => None,
            Some(errors) => match first_of(errors) {
                None => None,
                Some(first) => match member_of(first, "reason"@) {
                    None => None,
                    Some(reason) => json_text(reason),
                },
            },
        },
    }
}

/// Whether `reason` is one of the reasons that report an exhausted quota.
pub open spec fn is_quota_reason(reason: Seq<char>) -> bool {
    reason == "quotaExceeded"@ || reason == "uploadLimitExceeded"@
}

/// Whether `payload` reports an exhausted quota: it has a reason, and the
/// reason is one of the two that do.
pub open spec fn is_quota_payload(payload: Value) -> bool {
    reason_of(payload) is Some && is_quota_reason(reason_of(payload)->0)
}

/// Tells whether `reason` is one of the reasons that report an exhausted
/// quota.
pub fn names_quota(reason: &str) -> (quota: bool)
    ensures
        quota == is_quota_reason(reason@),
{
    str_equal(reason, "quotaExceeded") || str_equal(reason, "uploadLimitExceeded")
}

/// Extracts the reason from a structured error payload.
pub fn error_reason<'a>(payload: &'a Value) -> (reason: Option<&'a str>)
    ensures
        match reason {
            Some(content) => reason_of(*payload) == Some(content@),
            None => reason_of(*payload) is None,
        },
{
    let error = match member(payload, "error") {
        Some(error) => error,
        None => {
            return None;
        },
    };
    let errors = match member(error, "errors") {
        Some(errors) => errors,
        None => {
            return None;
        },
    };
    let first = match element(errors, 0) {
        Some(first) => first,
        None => {
            return None;
        },
    };
    match member(first, "reason") {
        Some(reason) => string_content(reason),
        None => None,
    }
}

/// Tells whether a structured error payload reports an exhausted quota.
/// A payload of any other shape does not.
pub fn get_is_quota_error(e: &Value) -> (is_quota_error: bool)
    ensures
        is_quota_error == is_quota_payload(*e),
{
    match error_reason(e) {
        Some(reason) => names_quota(reason),
        None => false,
    }
}

/// The wait in seconds after `backoff` quota errors: two to the power of
/// `backoff`, but no more than the cap.
pub open spec fn quota_wait(backoff: nat) -> nat {
    min(pow2(backoff) as int, YOUTUBE_MAX_BACKOFF_TIME_S as int) as nat
}

/// Computes the wait in seconds after `backoff` quota errors, or `None` if
/// that is more errors than are answered with another attempt.
pub fn wait_for_backoff(backoff: u32) -> (wait: Option<u64>)
    ensures
        backoff > YOUTUBE_MAX_TRIES ==> wait is None,
        backoff <= YOUTUBE_MAX_TRIES ==> wait == Some(quota_wait(backoff as nat) as u64),
{
    if backoff as u64 > YOUTUBE_MAX_TRIES {
        return None;
    }
    let mut backoff_time: u64 = 1;
    let mut doubled: u32 = 0;
    proof {
        lemma2_to64();
    }
    while doubled < backoff && backoff_time < YOUTUBE_MAX_BACKOFF_TIME_S
        invariant
            doubled <= backoff,
            backoff_time == pow2(doubled as nat),
            backoff_time < 2 * YOUTUBE_MAX_BACKOFF_TIME_S,
        decreases backoff - doubled,
    {
        proof {
            lemma_pow2_unfold((doubled + 1) as nat);
        }
        backoff_time = backoff_time * YOUTUBE_DEFAULT_BACKOFF_TIME_S;
        doubled = doubled + 1;
    }
    proof {
        if doubled < backoff {
            lemma_pow2_strictly_increases(doubled as nat, backoff as nat);
        }
    }
    if backoff_time > YOUTUBE_MAX_BACKOFF_TIME_S {
        backoff_time = YOUTUBE_MAX_BACKOFF_TIME_S;
    }
    Some(backoff_time)
}

/// What a failed attempt means to the quota-aware retry loop.
#[derive(Debug, Clone, Copy, PartialEq, Eq, Structural)]
pub enum ErrorClass {
    /// A structured bad request that reports an exhausted quota.
    QuotaExceeded,
    /// Any other structured bad request.
    OtherBadRequest,
    /// An error that is no structured bad request.
    NotBadRequest,
}

/// An error of the action, as far as the retry loop tells errors apart.
#[derive(Debug, Clone, Copy)]
pub enum ActionError<'a> {
    /// The server rejected the request and said why in a JSON document.
    BadRequest(&'a Value),
    /// Anything else.
    Other,
}

/// The class of a structured error payload.
pub open spec fn structured_class(payload: Value) -> ErrorClass {
    if is_quota_payload(payload) {
        ErrorClass::QuotaExceeded
    } else {
        ErrorClass::OtherBadRequest
    }
}

/// The class of an error of the action.
pub open spec fn error_class(error: ActionError<'_>) -> ErrorClass {
    match error {
        ActionError::BadRequest(payload) => structured_class(*payload),
        ActionError::Other => ErrorClass::NotBadRequest,
    }
}

/// Classifies a structured error payload. A payload whose shape is not
/// understood is not taken for an exhausted quota.
pub fn classify_structured_error(payload: &Value) -> (class: ErrorClass)
    ensures
        class == structured_class(*payload),
{
    if get_is_quota_error(payload) {
        ErrorClass::QuotaExceeded
    } else {
        ErrorClass::OtherBadRequest
    }
}

/// Classifies an error of the action.
pub fn classify_error(error: &ActionError<'_>) -> (class: ErrorClass)
    ensures
        class == error_class(*error),
{
    match error {
        ActionError::BadRequest(payload) => classify_structured_error(payload),
        ActionError::Other => ErrorClass::NotBadRequest,
    }
}

/// The number of quota errors after one more. The count stops growing once
/// the ceiling is exceeded.
pub open spec fn count_after(count: nat) -> nat {
    if count <= YOUTUBE_MAX_TRIES {
        count + 1
    } else {
        count
    }
}

/// What the loop does with a quota error that follows `count` earlier ones:
/// wait as long as the new count asks, without the safety margin, or fail
/// once there are more than the ceiling allows.
pub open spec fn quota_exceeded_decision(count: nat) -> RetryDecision {
    if count_after(count) > YOUTUBE_MAX_TRIES {
        RetryDecision::Fail(FailureReason::QuotaRetriesExhausted)
    } else {
        RetryDecision::RetryAfter(
            BackoffRequest {
                base_seconds: quota_wait(count_after(count)) as u64,
                add_buffer: false,
            },
        )
    }
}

/// What the loop does with a failed attempt of class `class` that follows
/// `count` quota errors. Only an exhausted quota is worth another attempt.
pub open spec fn failure_decision(count: nat, class: ErrorClass) -> RetryDecision {
    match class {
        ErrorClass::QuotaExceeded => quota_exceeded_decision(count),
        ErrorClass::OtherBadRequest => RetryDecision::Fail(FailureReason::NotQuotaError),
        ErrorClass::NotBadRequest => RetryDecision::Fail(FailureReason::NotBadRequest),
    }
}

/// The number of quota errors after a failed attempt of class `class`.
pub open spec fn count_after_failure(count: nat, class: ErrorClass) -> nat {
    if class is QuotaExceeded {
        count_after(count)
    } else {
        count
    }
}

/// The part of the quota-aware retry loop that lasts from one attempt to the
/// next: how many quota errors there have been so far.
pub struct QuotaBackoffState {
    attempt_count: u32,
}

impl QuotaBackoffState {
    #[verifier::type_invariant]
    spec fn bounded(self) -> bool {
        self.attempt_count <= YOUTUBE_MAX_TRIES + 1
    }

    /// How many quota errors there have been.
    pub closed spec fn count(self) -> nat {
        self.attempt_count as nat
    }

    /// The state before the first attempt.
    pub fn new() -> (state: QuotaBackoffState)
        ensures
            state.count() == 0,
    {
        QuotaBackoffState { attempt_count: 0 }
    }

    /// How many quota errors there have been.
    pub fn attempt_count(&self) -> (count: u32)
        ensures
            count == self.count(),
            count <= YOUTUBE_MAX_TRIES + 1,
    {
        proof {
            use_type_invariant(self);
        }
        self.attempt_count
    }

    /// Records a quota error and decides what to do about it.
    pub fn on_quota_exceeded(&mut self) -> (decision: RetryDecision)
        ensures
            final(self).count() == count_after(old(self).count()),
            decision == quota_exceeded_decision(old(self).count()),
    {
        proof {
            use_type_invariant(&*self);
        }
        if self.attempt_count as u64 <= YOUTUBE_MAX_TRIES {
            self.attempt_count = self.attempt_count + 1;
        }
        match wait_for_backoff(self.attempt_count) {
            Some(seconds) => RetryDecision::RetryAfter(
                BackoffRequest { base_seconds: seconds, add_buffer: false },
            ),
            None => RetryDecision::Fail(FailureReason::QuotaRetriesExhausted),
        }
    }

    /// Records a failed attempt of class `class` and decides what to do
    /// about it.
    pub fn on_failure(&mut self, class: ErrorClass) -> (decision: RetryDecision)
        ensures
            final(self).count() == count_after_failure(old(self).count(), class),
            decision == failure_decision(old(self).count(), class),
    {
        match class {
            ErrorClass::QuotaExceeded => self.on_quota_exceeded(),
            ErrorClass::OtherBadRequest => RetryDecision::Fail(FailureReason::NotQuotaError),
            ErrorClass::NotBadRequest => RetryDecision::Fail(FailureReason::NotBadRequest),
        }
    }
}

/// The number of quota errors of a loop in which the quota was found
/// exhausted `n` times.
pub open spec fn count_after_n(n: nat) -> nat
    decreases n,
{
    if n == 0 {
        0
    } else {
        count_after(count_after_n((n - 1) as nat))
    }
}

/// The seconds that a loop has waited in all when the quota was found
/// exhausted `n` times and each time was answered with a wait.
pub open spec fn total_quota_wait(n: nat) -> nat
    decreases n,
{
    if n == 0 {
        0
    } else {
        total_quota_wait((n - 1) as nat) + quota_wait(n)
    }
}

/// The wait doubles with every quota error up to the eleventh and is the
/// cap from the twelfth on. It is never shorter than a second.
pub proof fn lemma_quota_wait_shape(backoff: nat)
    ensures
        1 <= quota_wait(backoff) <= YOUTUBE_MAX_BACKOFF_TIME_S,
        backoff <= 11 ==> quota_wait(backoff) == pow2(backoff),
        backoff >= 12 ==> quota_wait(backoff) == YOUTUBE_MAX_BACKOFF_TIME_S,
        quota_wait(backoff) <= quota_wait(backoff + 1),
{
    lemma2_to64();
    lemma_pow2_pos(backoff);
    if backoff < 11 {
        lemma_pow2_strictly_increases(backoff, 11);
    }
    if backoff > 12 {
        lemma_pow2_strictly_increases(12, backoff);
    }
    lemma_pow2_strictly_increases(backoff, backoff + 1);
}

/// The `k`-th quota error of a loop is answered with a wait of two to the
/// power of `k` seconds, capped at an hour and without the safety margin, as
/// long as `k` is at most fifty; the fifty-first and every later one end the
/// loop. So the loop makes at most fifty-one attempts.
pub proof fn lemma_quota_schedule(k: nat)
    requires
        k >= 1,
    ensures
        count_after_n(k) == min(k as int, YOUTUBE_MAX_TRIES + 1),
        k <= YOUTUBE_MAX_TRIES ==> quota_exceeded_decision(count_after_n((k - 1) as nat))
            == RetryDecision::RetryAfter(
            BackoffRequest {
                base_seconds: min(pow2(k) as int, YOUTUBE_MAX_BACKOFF_TIME_S as int) as u64,
                add_buffer: false,
            },
        ),
        k > YOUTUBE_MAX_TRIES ==> quota_exceeded_decision(count_after_n((k - 1) as nat))
            == RetryDecision::Fail(FailureReason::QuotaRetriesExhausted),
    decreases k,
{
    lemma_quota_wait_shape(k);
    if k > 1 {
        lemma_quota_schedule((k - 1) as nat);
    }
}

/// What the waits add up to once the cap is reached: the eleven doubling
/// waits come to 4094 seconds, and each later wait is an hour.
pub proof fn lemma_total_quota_wait(n: nat)
    requires
        n >= 11,
    ensures
        total_quota_wait(n) == 4094 + (n - 11) * YOUTUBE_MAX_BACKOFF_TIME_S,
    decreases n,
{
    if n == 11 {
        lemma2_to64();
        reveal_with_fuel(total_quota_wait, 12);
    } else {
        lemma_total_quota_wait((n - 1) as nat);
        lemma_quota_wait_shape(n);
    }
}

/// A loop that exhausts its fifty waits has waited 144494 seconds, a little
/// over forty hours.
pub proof fn lemma_longest_quota_wait()
    ensures
        total_quota_wait(YOUTUBE_MAX_TRIES as nat) == 144_494,
{
    lemma_total_quota_wait(50);
}

/// What one attempt of the quota-aware loop produced.
#[derive(Debug, Clone, Copy)]
pub enum ActionOutcome<'a> {
    /// The action returned a result.
    Success,
    /// The action returned an error.
    Failure(ActionError<'a>),
}

/// What the loop does after an attempt that followed `count` quota errors.
pub open spec fn step_decision(count: nat, outcome: ActionOutcome<'_>) -> RetryDecision {
    match outcome {
        ActionOutcome::Success => RetryDecision::Success,
        ActionOutcome::Failure(error) => failure_decision(count, error_class(error)),
    }
}

/// The number of quota errors after an attempt that followed `count` of
/// them.
pub open spec fn step_count(count: nat, outcome: ActionOutcome<'_>) -> nat {
    match outcome {
        ActionOutcome::Success => count,
        ActionOutcome::Failure(error) => count_after_failure(count, error_class(error)),
    }
}

/// One step of the quota-aware retry loop: takes what the attempt produced,
/// updates the state and says what the loop does next.
pub fn generic_check_backoff_youtube_step(
    state: &mut QuotaBackoffState,
    outcome: ActionOutcome<'_>,
) -> (decision: RetryDecision)
    ensures
        decision == step_decision(old(state).count(), outcome),
        final(state).count() == step_count(old(state).count(), outcome),
{
    match outcome {
        ActionOutcome::Success => RetryDecision::Success,
        ActionOutcome::Failure(error) => {
            let class = classify_error(&error);
            state.on_failure(class)
        },
    }
}

} // verus!
