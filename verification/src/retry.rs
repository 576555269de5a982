//! The one bounded-retry rule that every retried step of a switch goes by.

use vstd::prelude::*;

verus! {

/// How often a step is tried and how long to wait before trying again.
#[derive(Clone, Copy, Debug, PartialEq, Eq, Structural)]
pub struct RetryPolicy {
    /// Attempts allowed in all, the first one included.
    pub max_attempts: u8,
    /// Milliseconds to wait before an attempt that is a retry.
    pub backoff_ms: u64,
}

impl RetryPolicy {
    /// Three attempts, half a second apart.
    pub open spec fn spec_standard() -> RetryPolicy {
        RetryPolicy { max_attempts: 3, backoff_ms: 500 }
    }

    /// What follows the failure of attempt number `attempt` (counted from 1):
    /// the wait before the next attempt, or `None` once the budget is spent.
    pub open spec fn spec_after_failure(self, attempt: u8) -> Option<u64> {
        if attempt < self.max_attempts {
            Some(self.backoff_ms)
        } else {
            None
        }
    }

    /// The policy of a channel switch: three attempts, half a second apart.
    pub fn standard() -> (policy: RetryPolicy)
        ensures
            policy == Self::spec_standard(),
    {
        RetryPolicy { max_attempts: 3, backoff_ms: 500 }
    }

    /// Decides what follows the failure of attempt number `attempt` (counted
    /// from 1): `Some` with the milliseconds to wait before the next attempt,
    /// or `None` once `max_attempts` attempts have been made.
    pub fn after_failure(&self, attempt: u8) -> (next: Option<u64>)
        ensures
            next == self.spec_after_failure(attempt),
    {
        if attempt < self.max_attempts {
            Some(self.backoff_ms)
        } else {
            None
        }
    }
}

} // verus!
