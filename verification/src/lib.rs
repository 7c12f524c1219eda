//! A retry-with-backoff engine for operations that fail transiently.
//!
//! A predicate says which errors deserve another attempt, a backoff says how
//! long to wait before it, and a policy arbitrates between the two and a bound
//! on the number of retries. The engine in [`retry`] drives the attempts as an
//! explicit state machine: it performs no I/O and never sleeps, so a driver
//! starts the attempts and the pauses that it asks for.
pub mod error;
pub mod retry;
pub mod run;
pub mod retry_backoff;
pub mod retry_policy;
pub mod retry_predicate;
pub mod retry_with_timeout;

pub use error::Error;
pub use retry::Retry;
pub use retry_backoff::RetryBackoff;
pub use retry_policy::{RetryPolicy, StopReason};
pub use retry_predicate::RetryPredicate;
