//! Request pacing for a prover client: a jittered retry timeout shared between
//! workers, flat backoff policies, sliding-window rate limiters and a
//! time-bounded cache of completed task identifiers.

pub mod backoff;
pub mod cli_consts;
pub mod duplicate_cache;
pub mod interval;
pub mod rate_limiter;
pub mod retry_timeout;

pub use retry_timeout::{get_retry_timeout, set_retry_timeout};
