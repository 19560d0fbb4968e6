//! Sliding-window quotas, and the margin added to server-given retry delays.

use crate::interval::{Interval, MILLIS_PER_SEC};
use vstd::prelude::*;

verus! {

/// Fetch requests allowed in one window.
pub const TASK_FETCH_MAX_REQUESTS_PER_WINDOW: u32 = 60;

/// Length (milliseconds) of the fetch window: one minute.
pub const TASK_FETCH_WINDOW_MS: u64 = 60_000;

/// Submission requests allowed in one window.
pub const SUBMISSION_MAX_REQUESTS_PER_WINDOW: u32 = 100;

/// Length (milliseconds) of the submission window: one minute.
pub const SUBMISSION_WINDOW_MS: u64 = 60_000;

/// Seconds added to a server-given retry delay, so that retries do not land
/// exactly on the server's window boundary.
pub const EXTRA_RETRY_DELAY_SECS: u64 = 10;

/// The length of the fetch window.
pub fn task_fetch_window() -> (r: Interval)
    ensures
        r.millis == TASK_FETCH_WINDOW_MS,
{
    Interval::from_millis(TASK_FETCH_WINDOW_MS)
}

/// The length of the submission window.
pub fn submission_window() -> (r: Interval)
    ensures
        r.millis == SUBMISSION_WINDOW_MS,
{
    Interval::from_millis(SUBMISSION_WINDOW_MS)
}

/// The margin added to a server-given retry delay.
pub fn extra_retry_delay() -> (r: Interval)
    ensures
        r.millis == EXTRA_RETRY_DELAY_SECS * MILLIS_PER_SEC,
{
    Interval::from_secs(EXTRA_RETRY_DELAY_SECS)
}

} // verus!
