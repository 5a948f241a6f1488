//! Verified core of a browser-hosted Tokio exercise: the Fibonacci workload
//! run on blocking workers, the paths and file contents of the file-system
//! stress tasks, the checks those tasks make on what they read back, the
//! step-by-step decisions of each task, and the plan of a whole run.
//!
//! The asynchronous driver that performs the file-system operations lives
//! outside this crate: it asks a `StressTask` what to do, does it, and hands
//! back what came of it.

pub mod checks;
pub mod decimal;
pub mod fib;
pub mod names;
pub mod plan;
pub mod task;

pub use fib::{checked_fibonacci, fibonacci};
