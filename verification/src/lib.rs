//! Job-coordination core of a desktop search-and-download tool.
//!
//! The library holds the logic that must stay correct across time:
//! the two-stage search pipeline, per-download job supervision,
//! progress-line parsing, duration reformatting, and the single
//! ordered message bus through which every asynchronous result
//! reaches the UI loop.  Network and process I/O live outside,
//! in the application shell.

pub mod bus;
pub mod digits;
pub mod download;
pub mod duration;
pub mod json;
pub mod progress;
pub mod merge;
pub mod messages;
pub mod model;
pub mod search;
pub mod settings;
pub mod supervisor;
