//! Backoff settings for submitting proofs: quicker than fetching, since a lost submission loses finished work.

use crate::interval::Interval;
use vstd::prelude::*;

verus! {

/// Delay (milliseconds) before retrying a failed submission: one second.
pub const INITIAL_BACKOFF_MS: u64 = 1000;

/// Retries of a failed submission before giving up.
pub const MAX_RETRIES: u32 = 5;

/// Least interval (milliseconds) between two submission requests.
pub const RATE_LIMIT_INTERVAL_MS: u64 = 100;

/// The delay before the first retry.
pub fn initial_backoff() -> (r: Interval)
    ensures
        r.millis == INITIAL_BACKOFF_MS,
{
    Interval::from_millis(INITIAL_BACKOFF_MS)
}

/// The least interval between two requests.
pub fn rate_limit_interval() -> (r: Interval)
    ensures
        r.millis == RATE_LIMIT_INTERVAL_MS,
{
    Interval::from_millis(RATE_LIMIT_INTERVAL_MS)
}

} // verus!
