//! Configuration constants of the prover client, grouped by area.

pub mod difficulty;
pub mod proof_submission;
pub mod queues;
pub mod rate_limiting;
pub mod task_fetching;

use vstd::prelude::*;

verus! {

/// Largest number of events kept in the activity log.
pub const MAX_ACTIVITY_LOGS: usize = 100;

/// Capacity of the event buffer that worker threads write to.
pub const EVENT_QUEUE_SIZE: usize = 100;

/// Exit code of a proving subprocess that most likely ran out of memory.
pub const SUBPROCESS_SUSPECTED_OOM_CODE: i32 = 137;

/// Exit code of a proving subprocess that failed internally.
pub const SUBPROCESS_INTERNAL_ERROR_CODE: i32 = 3;

/// Memory (bytes) that a typical proving task is expected to need: 4 GiB.
pub const PROJECTED_MEMORY_REQUIREMENT: u64 = 4294967296;

} // verus!
