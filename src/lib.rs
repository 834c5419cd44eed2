//! A minimal cooperative task-scheduling core: a poll-based suspension
//! contract, a yield point and a timer built on it, a bounded blocking driver,
//! the task set of a single-threaded executor, and the shared rotation state and
//! routing of a multi-threaded one.
//!
//! The loops that spin on futures, and the worker threads, live with the caller.
//! The library decides which task is polled next, what becomes of a task after
//! its poll, where a spawned or requeued task goes, and when the blocking
//! driver stops; the caller stops its loops when the root's result arrives and
//! when the shared completion flag is set.

pub mod mt;
pub mod progress;
pub mod st;
pub mod timer;
pub mod yield_now;
