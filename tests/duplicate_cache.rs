use prover_pacing::cli_consts::queues::{CACHE_EXPIRATION_SECS, MAX_COMPLETED_TASKS, TASK_QUEUE_SIZE};
use prover_pacing::duplicate_cache::{DuplicateCache, CACHE_EXPIRATION_MS};

#[test]
fn marked_task_is_duplicate_until_expired() {
    let mut c = DuplicateCache::new();
    c.mark_completed("t1", 1000);
    assert!(c.is_duplicate("t1", 1000));
    assert!(!c.is_duplicate("t2", 1000));
    assert!(c.is_duplicate("t1", 1000 + 299_999));
    assert!(!c.is_duplicate("t1", 1000 + 300_000));
    assert_eq!(c.len(), 0);
}

#[test]
fn expiration_after_more_than_300_seconds() {
    let mut c = DuplicateCache::new();
    c.mark_completed("t1", 0);
    assert!(!c.is_duplicate("t1", 301_000));
}

#[test]
fn overflowing_the_cache_evicts_the_first() {
    let mut c = DuplicateCache::new();
    for i in 0..=MAX_COMPLETED_TASKS {
        c.mark_completed(&format!("task-{}", i), 5);
    }
    assert_eq!(c.len(), MAX_COMPLETED_TASKS);
    assert!(!c.is_duplicate("task-0", 5));
    for i in 1..=MAX_COMPLETED_TASKS {
        assert!(c.is_duplicate(&format!("task-{}", i), 5));
    }
    assert_eq!(c.len(), MAX_COMPLETED_TASKS);
}

#[test]
fn marking_again_refreshes_and_does_not_duplicate() {
    let mut c = DuplicateCache::new();
    c.mark_completed("a", 0);
    c.mark_completed("b", 100);
    c.mark_completed("a", 200_000);
    assert_eq!(c.len(), 2);
    assert!(c.is_duplicate("a", 350_000));
    assert!(!c.is_duplicate("b", 350_000));
    assert_eq!(c.len(), 1);
}

#[test]
fn expired_entries_make_room_before_eviction() {
    let mut c = DuplicateCache::new();
    c.mark_completed("old", 0);
    for i in 1..MAX_COMPLETED_TASKS {
        c.mark_completed(&format!("n{}", i), 250_000);
    }
    assert_eq!(c.len(), MAX_COMPLETED_TASKS);
    c.mark_completed("new", 300_000);
    assert_eq!(c.len(), MAX_COMPLETED_TASKS);
    assert!(c.is_duplicate("n1", 300_000));
    assert!(c.is_duplicate("new", 300_000));
    assert!(!c.is_duplicate("old", 300_000));
}

#[test]
fn cache_constants() {
    assert_eq!(MAX_COMPLETED_TASKS, 5 * TASK_QUEUE_SIZE);
    assert_eq!(MAX_COMPLETED_TASKS, 500);
    assert_eq!(CACHE_EXPIRATION_SECS, 300);
    assert_eq!(CACHE_EXPIRATION_MS, 300_000);
}
