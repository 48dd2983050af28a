use vstd::prelude::*;
use vstd::string::*;

verus! {

/// An error that carries nothing but a human-readable message.
///
/// The view of a `BackoffError` is its message.
#[derive(Debug, Clone)]
pub struct BackoffError {
    message: String,
}

impl View for BackoffError {
    type V = Seq<char>;

    closed spec fn view(&self) -> Seq<char> {
        self.message@
    }
}

/// The text that precedes the message when a `BackoffError` is rendered.
pub open spec fn rendering_prefix() -> Seq<char> {
    "BackoffError: "@
}

impl BackoffError {
    /// Wraps `message` in an error.
    pub fn new(message: String) -> (error: BackoffError)
        ensures
            error@ == message@,
    {
        BackoffError { message }
    }

    /// Copies `message` into a new error.
    pub fn from(message: &str) -> (error: BackoffError)
        ensures
            error@ == message@,
    {
        BackoffError { message: String::from_str(message) }
    }

    /// The message, without any decoration.
    pub fn description(&self) -> (message: &str)
        ensures
            message@ == self@,
    {
        self.message.as_str()
    }

    /// Renders the error the way it is shown to a user: the type's name, a
    /// colon, and the message.
    pub fn to_string(&self) -> (text: String)
        ensures
            text@ == rendering_prefix() + self@,
    {
        let mut text = String::from_str("BackoffError: ");
        text.append(self.message.as_str());
        text
    }
}

/// Why a retry loop gave up.
#[derive(Debug, Clone, Copy, PartialEq, Eq, Structural)]
pub enum FailureReason {
    /// The request cannot be duplicated, so it cannot be sent a second time.
    RequestNotCloneable,
    /// The transport failed more often than the retry ceiling allows.
    TransportRetriesExhausted,
    /// The server throttled the request but no reset time is known.
    MissingRateLimitReset,
    /// The reset time is not a decimal integer that fits in 64 bits.
    MalformedRateLimitReset,
    /// The reset time is an integer to which no calendar date corresponds.
    TimestampOutOfRange(i64),
    /// The server answered with a status that is neither success nor throttling.
    UnhandledStatus(u16),
    /// The action failed with something other than a structured bad request.
    NotBadRequest,
    /// The action failed with a structured bad request that does not report
    /// an exhausted quota.
    NotQuotaError,
    /// The quota was still exhausted after the last permitted wait.
    QuotaRetriesExhausted,
}

impl FailureReason {
    /// The message that describes each reason.
    pub open spec fn message_text(self) -> Seq<char> {
        match self {
            FailureReason::RequestNotCloneable => "Request is None"@,
            FailureReason::TransportRetriesExhausted => "The transport kept failing"@,
            FailureReason::MissingRateLimitReset => "No rate limit reset given"@,
            FailureReason::MalformedRateLimitReset => "The rate limit reset is not a timestamp"@,
            FailureReason::TimestampOutOfRange(_) => "Could not convert the provided timestamp"@,
            FailureReason::UnhandledStatus(_) => "got an unhandled status code"@,
            FailureReason::NotBadRequest => "The action failed"@,
            FailureReason::NotQuotaError => "The request was rejected"@,
            FailureReason::QuotaRetriesExhausted => "The quota stayed exhausted"@,
        }
    }

    /// A human-readable message for this reason.
    pub fn message(&self) -> (text: &'static str)
        ensures
            text@ == self.message_text(),
    {
        match self {
            FailureReason::RequestNotCloneable => "Request is None",
            FailureReason::TransportRetriesExhausted => "The transport kept failing",
            FailureReason::MissingRateLimitReset => "No rate limit reset given",
            FailureReason::MalformedRateLimitReset => "The rate limit reset is not a timestamp",
            FailureReason::TimestampOutOfRange(_) => "Could not convert the provided timestamp",
            FailureReason::UnhandledStatus(_) => "got an unhandled status code",
            FailureReason::NotBadRequest => "The action failed",
            FailureReason::NotQuotaError => "The request was rejected",
            FailureReason::QuotaRetriesExhausted => "The quota stayed exhausted",
        }
    }

    /// The error that reports this reason to a caller.
    pub fn to_error(&self) -> (error: BackoffError)
        ensures
            error@ == self.message_text(),
    {
        BackoffError::from(self.message())
    }
}

} // verus!
