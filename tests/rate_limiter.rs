use prover_pacing::interval::Interval;
use prover_pacing::rate_limiter::SlidingWindowLimiter;

#[test]
fn quota_of_three_per_second() {
    let mut l = SlidingWindowLimiter::new(3, Interval::from_secs(1));
    let t0: u64 = 10_000;
    assert!(l.try_acquire(t0));
    assert!(l.try_acquire(t0));
    assert!(l.try_acquire(t0));
    assert!(!l.try_acquire(t0));
    assert!(!l.try_acquire(t0 + 500));
    assert!(!l.try_acquire(t0 + 1000));
    assert!(l.try_acquire(t0 + 1001));
}

#[test]
fn denied_requests_are_not_recorded() {
    let mut l = SlidingWindowLimiter::new(1, Interval::from_millis(100));
    assert!(l.try_acquire(0));
    for t in 1..=100u64 {
        assert!(!l.try_acquire(t));
    }
    assert!(l.try_acquire(101));
}

#[test]
fn early_instants_smaller_than_window() {
    let mut l = SlidingWindowLimiter::new(2, Interval::from_secs(60));
    assert!(l.try_acquire(0));
    assert!(l.try_acquire(5));
    assert!(!l.try_acquire(59_000));
    assert!(l.try_acquire(60_001));
}

#[test]
fn zero_quota_admits_nothing() {
    let mut l = SlidingWindowLimiter::new(0, Interval::from_secs(1));
    assert!(!l.try_acquire(0));
    assert!(!l.try_acquire(1_000_000));
}

#[test]
fn fetch_and_submission_limiters_are_independent() {
    let mut fetch = SlidingWindowLimiter::task_fetching();
    let mut submit = SlidingWindowLimiter::proof_submission();
    for _ in 0..60 {
        assert!(fetch.try_acquire(1000));
    }
    assert!(!fetch.try_acquire(1000));
    assert!(submit.try_acquire(1000));
    for _ in 0..99 {
        assert!(submit.try_acquire(1000));
    }
    assert!(!submit.try_acquire(1000));
}

#[test]
fn limiter_settings() {
    let fetch = SlidingWindowLimiter::task_fetching();
    let submit = SlidingWindowLimiter::proof_submission();
    assert_eq!(fetch.max_requests(), 60);
    assert_eq!(fetch.window().as_millis(), 60_000);
    assert_eq!(submit.max_requests(), 100);
    assert_eq!(submit.window().as_secs(), 60);
}
