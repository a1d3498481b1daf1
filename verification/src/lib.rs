//! Core logic of a command-line client for a course attendance platform:
//! configuration merging and persistence rules, course-list management, and
//! the time-triggered check-in scheduler that turns a wall-clock target into
//! a wait-then-fire plan.
//!
//! Everything here is plain decision logic. The surrounding binary performs
//! the remote calls and the file reads and writes, and hands their results
//! to these functions as ordinary values.

pub mod clock;
pub mod config;
pub mod errors;
pub mod router;
pub mod scheduler;
