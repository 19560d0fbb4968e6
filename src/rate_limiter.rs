//! Sliding-window admission: at most `max_requests` requests in any trailing
//! window. Instants are milliseconds on the caller's clock.

use crate::cli_consts::rate_limiting;
use crate::interval::Interval;
use vstd::prelude::*;

verus! {

broadcast use vstd::seq_lib::group_seq_properties;

/// Whether a request made at `t` still counts at instant `now`: it is not
/// older than `now - window`.
pub open spec fn counts_at(now: int, window: int) -> spec_fn(u64) -> bool {
    |t: u64| now - window <= t
}

/// The requests of `stamps` that still count at `now`, in their order.
pub open spec fn in_window(stamps: Seq<u64>, now: int, window: int) -> Seq<u64> {
    stamps.filter(counts_at(now, window))
}

/// Admission state of one kind of request. Each limiter holds its own state;
/// no two share any.
pub struct SlidingWindowLimiter {
    window: Interval,
    max_requests: u32,
    timestamps: Vec<u64>,
}

impl SlidingWindowLimiter {
    /// Length of the window in milliseconds.
    pub closed spec fn window_ms(&self) -> int {
        self.window.millis as int
    }

    /// Requests admitted per window.
    pub closed spec fn quota(&self) -> int {
        self.max_requests as int
    }

    /// Instants of the admitted requests that are retained, oldest first.
    pub closed spec fn stamps(&self) -> Seq<u64> {
        self.timestamps@
    }

    /// Never more requests are retained than the quota admits.
    pub open spec fn wf(&self) -> bool {
        self.stamps().len() <= self.quota()
    }

    /// The requests that still count at `now`.
    pub open spec fn live_at(&self, now: int) -> Seq<u64> {
        in_window(self.stamps(), now, self.window_ms())
    }

    /// Whether a request at `now` is admitted.
    pub open spec fn admits(&self, now: int) -> bool {
        self.live_at(now).len() < self.quota()
    }

    /// The retained requests after an attempt at `now`.
    pub open spec fn stamps_after(&self, now: u64) -> Seq<u64> {
        if self.admits(now as int) {
            self.live_at(now as int).push(now)
        } else {
            self.live_at(now as int)
        }
    }

    /// An empty limiter admitting `max_requests` requests per `window`.
    pub fn new(max_requests: u32, window: Interval) -> (r: SlidingWindowLimiter)
        ensures
            r.wf(),
            r.quota() == max_requests,
            r.window_ms() == window.millis,
            r.stamps() == Seq::<u64>::empty(),
    {
        SlidingWindowLimiter { window, max_requests, timestamps: Vec::new() }
    }

    /// The limiter for fetching tasks.
    pub fn task_fetching() -> (r: SlidingWindowLimiter)
        ensures
            r.wf(),
            r.quota() == rate_limiting::TASK_FETCH_MAX_REQUESTS_PER_WINDOW,
            r.window_ms() == rate_limiting::TASK_FETCH_WINDOW_MS,
            r.stamps() == Seq::<u64>::empty(),
    {
        SlidingWindowLimiter::new(
            rate_limiting::TASK_FETCH_MAX_REQUESTS_PER_WINDOW,
            rate_limiting::task_fetch_window(),
        )
    }

    /// The limiter for submitting proofs.
    pub fn proof_submission() -> (r: SlidingWindowLimiter)
        ensures
            r.wf(),
            r.quota() == rate_limiting::SUBMISSION_MAX_REQUESTS_PER_WINDOW,
            r.window_ms() == rate_limiting::SUBMISSION_WINDOW_MS,
            r.stamps() == Seq::<u64>::empty(),
    {
        SlidingWindowLimiter::new(
            rate_limiting::SUBMISSION_MAX_REQUESTS_PER_WINDOW,
            rate_limiting::submission_window(),
        )
    }

    /// Requests admitted per window.
    pub fn max_requests(&self) -> (r: u32)
        ensures
            r == self.quota(),
    {
        self.max_requests
    }

    /// Length of the window.
    pub fn window(&self) -> (r: Interval)
        ensures
            r.millis == self.window_ms(),
    {
        self.window
    }

    /// Drops the requests older than `now - window`; then, if fewer than
    /// `max_requests` remain, records `now` and admits the request. A denied
    /// request is not recorded.
    pub fn try_acquire(&mut self, now: u64) -> (allowed: bool)
        requires
            old(self).wf(),
        ensures
            final(self).wf(),
            final(self).quota() == old(self).quota(),
            final(self).window_ms() == old(self).window_ms(),
            allowed == old(self).admits(now as int),
            final(self).stamps() == old(self).stamps_after(now),
    {
        let ghost pred = counts_at(now as int, self.window.millis as int);
        let window: u64 = self.window.millis;
        let mut kept: Vec<u64> = Vec::new();
        let mut i: usize = 0;
        while i < self.timestamps.len()
            invariant
                0 <= i <= self.timestamps@.len(),
                window == self.window.millis,
                pred == counts_at(now as int, window as int),
                kept@ == self.timestamps@.take(i as int).filter(pred),
            decreases self.timestamps@.len() - i,
        {
            let t: u64 = self.timestamps[i];
            proof {
                let s = self.timestamps@;
                assert(s.take(i as int + 1).drop_last() =~= s.take(i as int));
                assert(s.take(i as int + 1).last() == t);
                reveal(Seq::filter);
            }
            if now <= window || t >= now - window {
                kept.push(t);
            }
            i = i + 1;
        }
        proof {
            assert(self.timestamps@.take(i as int) =~= self.timestamps@);
        }
        if kept.len() < self.max_requests as usize {
            kept.push(now);
            self.timestamps = kept;
            true
        } else {
            self.timestamps = kept;
            false
        }
    }
}

/// Every request that a limiter retains after an attempt at `now` lies in the
/// window ending at `now`; if no retained request was later than `now`, none
/// is after it either.
pub proof fn lemma_retained_in_window(l: SlidingWindowLimiter, now: u64)
    requires
        l.wf(),
    ensures
        forall|i: int|
            0 <= i < l.stamps_after(now).len() ==> now - l.window_ms() <= #[trigger] l.stamps_after(
                now,
            )[i],
        (forall|i: int| 0 <= i < l.stamps().len() ==> #[trigger] l.stamps()[i] <= now) ==> (forall|
            i: int,
        |
            0 <= i < l.stamps_after(now).len() ==> #[trigger] l.stamps_after(now)[i] <= now),
{
    let live = l.live_at(now as int);
    let pred = counts_at(now as int, l.window_ms());
    assert forall|i: int| 0 <= i < live.len() implies pred(#[trigger] live[i]) by {
        l.stamps().lemma_filter_pred(pred, i);
    }
    if forall|i: int| 0 <= i < l.stamps().len() ==> #[trigger] l.stamps()[i] <= now {
        assert forall|i: int| 0 <= i < live.len() implies #[trigger] live[i] <= now by {
            assert(live.contains(live[i]));
            l.stamps().lemma_filter_contains_rev(pred, live[i]);
        }
    }
}

/// One limiter having used up its quota has no bearing on another: a fresh
/// submission limiter admits a request at any instant, whatever state the
/// fetch limiter is in.
pub proof fn lemma_limiters_independent(
    fetch: SlidingWindowLimiter,
    submission: SlidingWindowLimiter,
    now: u64,
)
    requires
        fetch.wf(),
        !fetch.admits(now as int),
        submission.quota() == rate_limiting::SUBMISSION_MAX_REQUESTS_PER_WINDOW,
        submission.stamps() == Seq::<u64>::empty(),
    ensures
        submission.admits(now as int),
{
    reveal(Seq::filter);
}

} // verus!
