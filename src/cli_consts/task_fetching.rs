//! Backoff settings for fetching tasks.

use crate::interval::Interval;
use vstd::prelude::*;

verus! {

/// Delay (milliseconds) before retrying a failed fetch: two minutes, the pace at which the server creates tasks.
pub const INITIAL_BACKOFF_MS: u64 = 120_000;

/// Retries of a failed fetch before giving up.
pub const MAX_RETRIES: u32 = 2;

/// Least interval (milliseconds) between two fetch requests.
pub const RATE_LIMIT_INTERVAL_MS: u64 = 120_000;

/// The delay before the first retry.
pub fn initial_backoff() -> (r: Interval)
    ensures
        r.millis == INITIAL_BACKOFF_MS,
{
    Interval::from_millis(INITIAL_BACKOFF_MS)
}

/// The least interval between two requests.
pub fn rate_limit_interval() -> (r: Interval)
    ensures
        r.millis == RATE_LIMIT_INTERVAL_MS,
{
    Interval::from_millis(RATE_LIMIT_INTERVAL_MS)
}

} // verus!
