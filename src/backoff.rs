//! Flat backoff: the same delay after every failure, up to a retry cap after
//! which the caller gives up and reports the failure.

use crate::cli_consts::{proof_submission, task_fetching};
use crate::interval::Interval;
use vstd::prelude::*;

verus! {

/// How long to wait after a failed request, and how many times to retry.
#[derive(Clone, Copy, Debug, PartialEq, Eq, Structural)]
pub struct BackoffPolicy {
    pub initial_delay: Interval,
    pub max_retries: u32,
}

/// The policy for fetching tasks: a long delay and few retries.
pub open spec fn fetching_policy() -> BackoffPolicy {
    BackoffPolicy {
        initial_delay: Interval { millis: task_fetching::INITIAL_BACKOFF_MS },
        max_retries: task_fetching::MAX_RETRIES,
    }
}

/// The policy for submitting proofs: a short delay and more retries.
pub open spec fn submission_policy() -> BackoffPolicy {
    BackoffPolicy {
        initial_delay: Interval { millis: proof_submission::INITIAL_BACKOFF_MS },
        max_retries: proof_submission::MAX_RETRIES,
    }
}

impl BackoffPolicy {
    /// The wait after failed attempt number `attempt` (counted from zero).
    pub open spec fn delay_spec(self, attempt: u32) -> Interval {
        self.initial_delay
    }

    /// Whether another try is owed after failed attempt number `attempt`.
    pub open spec fn retry_spec(self, attempt: u32) -> bool {
        attempt < self.max_retries
    }

    /// A policy with the given delay and retry cap.
    pub fn new(initial_delay: Interval, max_retries: u32) -> (r: BackoffPolicy)
        ensures
            r.initial_delay == initial_delay,
            r.max_retries == max_retries,
    {
        BackoffPolicy { initial_delay, max_retries }
    }

    /// The policy for fetching tasks.
    pub fn task_fetching() -> (r: BackoffPolicy)
        ensures
            r == fetching_policy(),
    {
        BackoffPolicy::new(task_fetching::initial_backoff(), task_fetching::MAX_RETRIES)
    }

    /// The policy for submitting proofs.
    pub fn proof_submission() -> (r: BackoffPolicy)
        ensures
            r == submission_policy(),
    {
        BackoffPolicy::new(proof_submission::initial_backoff(), proof_submission::MAX_RETRIES)
    }

    /// The wait after failed attempt number `attempt`: the initial delay,
    /// whatever the attempt.
    pub fn delay_for(&self, attempt: u32) -> (r: Interval)
        ensures
            r == self.delay_spec(attempt),
    {
        self.initial_delay
    }

    /// Whether the caller should try again after failed attempt number
    /// `attempt`; once `max_retries` attempts have failed, it should stop.
    pub fn should_retry(&self, attempt: u32) -> (r: bool)
        ensures
            r == self.retry_spec(attempt),
    {
        attempt < self.max_retries
    }
}

/// Both policies wait exactly their initial delay after the first failure,
/// and submission waits less than fetching.
pub proof fn lemma_first_delays()
    ensures
        fetching_policy().delay_spec(0) == fetching_policy().initial_delay,
        submission_policy().delay_spec(0) == submission_policy().initial_delay,
        submission_policy().initial_delay.millis < fetching_policy().initial_delay.millis,
{
}

/// Every policy gives up after exactly `max_retries` failures: it retries
/// after each earlier failure and not after that one.
pub proof fn lemma_retries_end(p: BackoffPolicy, attempt: u32)
    ensures
        attempt < p.max_retries ==> p.retry_spec(attempt),
        !p.retry_spec(p.max_retries),
{
}

} // verus!
