//! Task difficulty settings.

use vstd::prelude::*;

verus! {

/// Tasks that complete in less than this many seconds (seven minutes) make
/// the client ask for the next difficulty level.
pub const PROMOTION_THRESHOLD_SECS: u64 = 420;

} // verus!
