use crate::clock::BackoffRequest;
use crate::errors::FailureReason;
use vstd::prelude::*;

verus! {

/// What a retry loop does after one attempt.
#[derive(Debug, Clone, Copy, PartialEq, Eq, Structural)]
pub enum RetryDecision {
    /// The attempt succeeded: hand its result to the caller.
    Success,
    /// Wait as the request says, then attempt again.
    RetryAfter(BackoffRequest),
    /// Attempt again at once.
    RetryNow,
    /// Give up for the reason given.
    Fail(FailureReason),
}

impl RetryDecision {
    /// Whether the loop ends with this decision.
    pub open spec fn is_terminal(self) -> bool {
        self is Success || self is Fail
    }

    /// Whether the loop ends with this decision.
    pub fn terminal(&self) -> (ends: bool)
        ensures
            ends == self.is_terminal(),
    {
        match self {
            RetryDecision::Success => true,
            RetryDecision::Fail(_) => true,
            RetryDecision::RetryAfter(_) => false,
            RetryDecision::RetryNow => false,
        }
    }
}

} // verus!
