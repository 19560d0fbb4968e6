use prover_pacing::retry_timeout::{jittered_timeout, RetryTimeout, DEFAULT_RETRY_TIMEOUT};
use prover_pacing::{get_retry_timeout, set_retry_timeout};

#[test]
fn reads_stay_within_a_tenth_of_the_base() {
    let timeout = RetryTimeout::new();
    for base in [2u64, 9, 10, 11, 30, 99, 100, 1234, 60_000] {
        set_retry_timeout(&timeout, base);
        let range = base / 10;
        let low = std::cmp::max(1, base - range);
        for _ in 0..200 {
            let r = get_retry_timeout(&timeout);
            assert!(r >= low && r <= base + range, "base {} read {}", base, r);
        }
    }
}

#[test]
fn zero_and_one_read_as_one() {
    let timeout = RetryTimeout::new();
    for base in [0u64, 1] {
        set_retry_timeout(&timeout, base);
        for _ in 0..50 {
            assert_eq!(get_retry_timeout(&timeout), 1);
        }
    }
}

#[test]
fn five_reads_as_five() {
    let timeout = RetryTimeout::with_base(5);
    for _ in 0..50 {
        assert_eq!(get_retry_timeout(&timeout), 5);
    }
    assert_eq!(jittered_timeout(5, 0), 5);
}

#[test]
fn reads_actually_vary() {
    let timeout = RetryTimeout::with_base(100);
    let mut seen = std::collections::BTreeSet::new();
    for _ in 0..300 {
        seen.insert(get_retry_timeout(&timeout));
    }
    assert!(seen.len() > 1);
    assert!(seen.iter().all(|v| *v >= 90 && *v <= 110));
}

#[test]
fn fresh_handle_starts_at_default() {
    let timeout = RetryTimeout::new();
    assert_eq!(DEFAULT_RETRY_TIMEOUT, 30);
    for _ in 0..100 {
        let r = get_retry_timeout(&timeout);
        assert!(r >= 27 && r <= 33);
    }
}

#[test]
fn jitter_offsets_exact_values() {
    assert_eq!(jittered_timeout(100, 0), 90);
    assert_eq!(jittered_timeout(100, 10), 100);
    assert_eq!(jittered_timeout(100, 20), 110);
    assert_eq!(jittered_timeout(30, 0), 27);
    assert_eq!(jittered_timeout(30, 6), 33);
    assert_eq!(jittered_timeout(10, 1), 10);
    assert_eq!(jittered_timeout(0, 0), 1);
    assert_eq!(jittered_timeout(1, 0), 1);
    assert_eq!(jittered_timeout(9, 0), 9);
}

#[test]
fn jitter_saturates_at_the_top() {
    let base = u64::MAX;
    let range = base / 10;
    assert_eq!(jittered_timeout(base, 2 * range), u64::MAX);
    assert_eq!(jittered_timeout(base, 0), base - range);
}

#[test]
fn handles_are_independent() {
    let a = RetryTimeout::with_base(1);
    let b = RetryTimeout::with_base(7);
    set_retry_timeout(&a, 0);
    assert_eq!(get_retry_timeout(&b), 7);
    assert_eq!(get_retry_timeout(&a), 1);
}
