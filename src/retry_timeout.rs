//! The retry timeout applied after a "too many requests" answer: one shared
//! base value in seconds, jittered by up to a tenth either way on every read.

use rand::Rng;
use std::sync::atomic::{AtomicU64, Ordering};
use vstd::prelude::*;

verus! {

/// Base retry timeout (seconds) that a fresh handle starts with.
pub const DEFAULT_RETRY_TIMEOUT: u64 = 30;

/// Half-width of the jitter applied to `base`: a tenth of it, rounded down.
pub open spec fn jitter_range(base: int) -> int {
    base / 10
}

/// The timeout that a read yields for the stored `base`, where `draw` was
/// picked from `[0, 2 * jitter_range(base)]`, so that the offset
/// `draw - jitter_range(base)` lies in `[-range, +range]`.
///
/// A base of at most one reads as one; a base too small to jitter reads as
/// itself; otherwise the offset is applied, with the result kept at least one
/// and at most `u64::MAX`.
pub open spec fn jittered(base: int, draw: int) -> int {
    if base <= 1 {
        1
    } else if jitter_range(base) == 0 {
        base
    } else {
        let v = base - jitter_range(base) + draw;
        if v < 1 {
            1
        } else if v > u64::MAX {
            u64::MAX as int
        } else {
            v
        }
    }
}

/// Relies on rand's `thread_rng().gen_range(0..=hi)`: a uniformly drawn value
/// from the calling thread's own generator, between 0 and `hi` inclusive. The
/// range `0..=hi` is never empty, so the call does not panic on it.
#[verifier::external_body]
fn draw_up_to(hi: u64) -> (r: u64)
    ensures
        r <= hi,
{
    rand::thread_rng().gen_range(0..=hi)
}

/// Applies jitter to the stored `base`, given `draw` picked from
/// `[0, 2 * (base / 10)]`.
pub fn jittered_timeout(base: u64, draw: u64) -> (r: u64)
    requires
        draw <= 2 * jitter_range(base as int),
    ensures
        r == jittered(base as int, draw as int),
{
    if base <= 1 {
        return 1;
    }
    let range: u64 = base / 10;
    if range == 0 {
        return base;
    }
    let low: u64 = base - range;
    let v: u64 = low.saturating_add(draw);
    if v < 1 {
        1
    } else {
        v
    }
}

/// A retry timeout shared between workers. The base value is read and written
/// atomically, with no lock held across the random draw.
pub struct RetryTimeout {
    base: AtomicU64,
}

impl RetryTimeout {
    /// A handle whose base is `DEFAULT_RETRY_TIMEOUT`.
    pub fn new() -> (r: RetryTimeout) {
        RetryTimeout { base: AtomicU64::new(DEFAULT_RETRY_TIMEOUT) }
    }

    /// A handle whose base is `seconds`.
    pub fn with_base(seconds: u64) -> (r: RetryTimeout) {
        RetryTimeout { base: AtomicU64::new(seconds) }
    }
}

/// Replaces the stored base timeout with `timeout_seconds`. The stored value
/// itself is never jittered.
pub fn set_retry_timeout(timeout: &RetryTimeout, timeout_seconds: u64) {
    timeout.base.store(timeout_seconds, Ordering::SeqCst);
}

/// Reads the stored base timeout and returns it with jitter applied. Another
/// worker may store a new base at any moment, so what holds of every read is
/// that it is at least one second; for a given base, `jittered_timeout` says
/// exactly what comes back.
pub fn get_retry_timeout(timeout: &RetryTimeout) -> (r: u64)
    ensures
        r >= 1,
{
    let base: u64 = timeout.base.load(Ordering::SeqCst);
    if base <= 1 {
        return 1;
    }
    let range: u64 = base / 10;
    if range == 0 {
        return base;
    }
    let draw: u64 = draw_up_to(2 * range);
    jittered_timeout(base, draw)
}

/// For a base of at least two, every read lies between
/// `max(1, base - base / 10)` and `base + base / 10`.
pub proof fn lemma_jitter_stays_in_range(base: int, draw: int)
    requires
        2 <= base <= u64::MAX,
        0 <= draw <= 2 * jitter_range(base),
    ensures
        jittered(base, draw) >= 1,
        jittered(base, draw) >= base - jitter_range(base),
        jittered(base, draw) <= base + jitter_range(base),
{
}

/// A base of zero or one always reads as exactly one.
pub proof fn lemma_small_base_reads_one(base: int, draw: int)
    requires
        0 <= base <= 1,
    ensures
        jittered(base, draw) == 1,
{
}

/// A base from two to nine has no room to jitter and always reads as itself.
pub proof fn lemma_unjittered_base_reads_itself(base: int, draw: int)
    requires
        2 <= base <= 9,
    ensures
        jittered(base, draw) == base,
{
}

} // verus!
