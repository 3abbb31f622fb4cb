//! A focus timer: a welcome screen that picks work and break durations, a
//! countdown that alternates between the two phases with pause and resume,
//! and modal popups over a small persisted task list.
//!
//! The library holds the state and the rules; the caller does the rest.
//! Time enters as a millisecond timestamp, keys as [`keys::Key`] values, and
//! persistence as a task list for the caller to write, followed by the
//! outcome of that write. New task identifiers are drawn at random.
use vstd::prelude::*;

pub mod add_task;
pub mod app;
pub mod countdown;
pub mod keys;
pub mod error;
pub mod storage;
pub mod task;
pub mod task_list;
pub mod theme;
pub mod welcome;
