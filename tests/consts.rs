use prover_pacing::cli_consts::{difficulty, proof_submission, queues, rate_limiting, task_fetching};
use prover_pacing::cli_consts::{EVENT_QUEUE_SIZE, MAX_ACTIVITY_LOGS, PROJECTED_MEMORY_REQUIREMENT};
use prover_pacing::interval::Interval;

#[test]
fn backoff_helpers() {
    assert_eq!(task_fetching::initial_backoff().as_millis(), 120_000);
    assert_eq!(task_fetching::rate_limit_interval().as_millis(), 120_000);
    assert_eq!(proof_submission::initial_backoff().as_secs(), 1);
    assert_eq!(proof_submission::rate_limit_interval().as_millis(), 100);
    assert_eq!(task_fetching::MAX_RETRIES, 2);
    assert_eq!(proof_submission::MAX_RETRIES, 5);
}

#[test]
fn window_helpers() {
    assert_eq!(rate_limiting::task_fetch_window(), Interval::from_secs(60));
    assert_eq!(rate_limiting::submission_window(), Interval::from_millis(60_000));
    assert_eq!(rate_limiting::extra_retry_delay().as_millis(), 10_000);
    assert_eq!(rate_limiting::extra_retry_delay().as_secs(), 10);
}

#[test]
fn queue_settings() {
    assert_eq!(queues::TASK_QUEUE_SIZE, 100);
    assert_eq!(queues::RESULT_QUEUE_SIZE, 100);
    assert_eq!(EVENT_QUEUE_SIZE, 100);
    assert_eq!(MAX_ACTIVITY_LOGS, 100);
    assert_eq!(queues::LOW_WATER_MARK, 1);
    assert_eq!(queues::REPLENISH_DELAY_SECS, 10);
    assert_eq!(difficulty::PROMOTION_THRESHOLD_SECS, 7 * 60);
    assert_eq!(PROJECTED_MEMORY_REQUIREMENT, 4 * 1024 * 1024 * 1024);
}

#[test]
fn interval_conversions() {
    assert_eq!(Interval::from_secs(3).as_millis(), 3000);
    assert_eq!(Interval::from_millis(2999).as_secs(), 2);
}
