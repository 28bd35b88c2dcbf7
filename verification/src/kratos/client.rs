//! When a failed request to Kratos is tried again.
use vstd::prelude::*;

verus! {

/// How many times a request that keeps failing is tried in all:
/// `max_retries` times, and at least once.
pub open spec fn attempts_allowed(max_retries: u32) -> nat {
    if max_retries == 0 {
        1
    } else {
        max_retries as nat
    }
}

/// After its `failures`-th failure a request is tried again when fewer than
/// `max_retries` attempts have failed.
pub open spec fn retries_after(failures: nat, max_retries: u32) -> bool {
    failures < max_retries
}

/// The count of failed attempts of one request.
#[derive(Debug, Clone, Copy)]
pub struct RetryState {
    pub attempts: u32,
    pub max_retries: u32,
}

impl RetryState {
    /// No attempt has failed yet.
    pub fn new(max_retries: u32) -> (r: RetryState)
        ensures
            r.attempts == 0,
            r.max_retries == max_retries,
    {
        RetryState { attempts: 0, max_retries }
    }

    /// Records a failed attempt and tells whether to try again.
    pub fn on_failure(&mut self) -> (retry: bool)
        requires
            old(self).attempts < attempts_allowed(old(self).max_retries),
        ensures
            final(self).attempts == old(self).attempts + 1,
            final(self).max_retries == old(self).max_retries,
            retry == retries_after(final(self).attempts as nat, final(self).max_retries),
            retry ==> final(self).attempts < attempts_allowed(final(self).max_retries),
    {
        self.attempts = self.attempts + 1;
        self.attempts < self.max_retries
    }
}

/// A request that fails every time is tried again after each of its first
/// `attempts_allowed(max_retries) - 1` failures and given up after the next:
/// it is tried `max_retries` times, and once where `max_retries` is 0.
pub proof fn lemma_retry_count(max_retries: u32)
    ensures
        forall|k: nat| 1 <= k < attempts_allowed(max_retries) ==> retries_after(k, max_retries),
        !retries_after(attempts_allowed(max_retries), max_retries),
        attempts_allowed(max_retries) >= 1,
{
}

} // verus!
