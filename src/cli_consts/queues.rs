//! Bounds of the queues that connect fetching, proving and submission, and of
//! the cache of completed tasks derived from them.

use vstd::prelude::*;

verus! {

/// Capacity of the queue of tasks waiting to be proved.
pub const TASK_QUEUE_SIZE: usize = 100;

/// Capacity of the queue of proving results waiting to be submitted.
pub const RESULT_QUEUE_SIZE: usize = 100;

/// When the task queue drops to this many entries, a new fetch is scheduled.
pub const LOW_WATER_MARK: usize = 1;

/// Seconds to wait after reaching the low-water mark before fetching again.
pub const REPLENISH_DELAY_SECS: u64 = 10;

/// Largest number of completed task identifiers remembered at once.
pub const MAX_COMPLETED_TASKS: usize = 5 * TASK_QUEUE_SIZE;

/// Seconds for which a completed task identifier is remembered.
pub const CACHE_EXPIRATION_SECS: u64 = 300;

} // verus!
