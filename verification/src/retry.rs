use vstd::prelude::*;
use crate::errors::SourceError;

verus! {

/// How many times a failed continuation fetch is retried before the failure
/// is treated as fatal, when no other bound is configured.
pub const DEFAULT_MAX_ATTEMPTS: i32 = 3;

/// Bounded retry budget for one continuation fetch. A fresh budget is taken
/// for every fetch call; it is never shared between calls.
#[derive(Clone, Copy, Debug, PartialEq, Eq, Structural)]
pub struct RetryBudget {
    pub max_attempts: i32,
    pub attempts_used: i32,
}

impl RetryBudget {
    /// A budget never lends out more retries than it was given.
    pub open spec fn wf(self) -> bool {
        0 <= self.attempts_used <= self.max_attempts
    }

    pub fn new(max_attempts: i32) -> (r: Self)
        requires
            max_attempts >= 0,
        ensures
            r.max_attempts == max_attempts,
            r.attempts_used == 0,
            r.wf(),
    {
        RetryBudget { max_attempts, attempts_used: 0 }
    }

    /// Decide whether a failed fetch may be tried once more, and consume one
    /// retry if so. Only a transient error with budget left earns a retry;
    /// fatal errors and an exhausted budget leave the budget untouched.
    pub fn grant_retry(&mut self, err: &SourceError) -> (granted: bool)
        requires
            old(self).wf(),
        ensures
            final(self).wf(),
            granted == (err.is_transient() && old(self).attempts_used < old(self).max_attempts),
            granted ==> final(self).attempts_used == old(self).attempts_used + 1,
            !granted ==> *final(self) == *old(self),
            final(self).max_attempts == old(self).max_attempts,
    {
        if err.retryable() && self.attempts_used < self.max_attempts {
            self.attempts_used = self.attempts_used + 1;
            true
        } else {
            false
        }
    }
}

} // verus!
