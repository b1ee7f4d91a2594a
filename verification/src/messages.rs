//! The message taxonomy carried on the job bus.
//!
//! Every asynchronous result — a finished search, a progress step, a
//! completed or failed download — reaches the UI loop as one
//! [`WorkerMessage`].  A job's observable lifecycle ends with its
//! *terminal* message: a completion or a failure for its row.

use crate::model::SearchResponse;
use vstd::prelude::*;

verus! {

/// Why an operation failed.
pub enum FailureReason {
    /// The required credential is absent; no network call was made.
    NotConfigured,
    /// A network call failed or returned a non-success status.
    Transport(String),
    /// The external downloader binary could not be started.
    Spawn(String),
    /// The external downloader exited with a non-zero status.
    ProcessExit(i32),
    /// Reading a process stream failed part-way.
    Io(String),
}

/// The single wire type carried on the job bus.
pub enum WorkerMessage {
    /// A search finished; the snapshot replaces any prior result set.
    SearchCompleted(SearchResponse),
    /// A download for the given row reached the given completion,
    /// in tenths of a percent (0 ..= 1000).
    DownloadProgress(usize, u32),
    /// The download for the given row finished successfully.
    DownloadCompleted(usize),
    /// A job failed; a download failure names its row, a search
    /// failure names none.
    JobFailed(Option<usize>, FailureReason),
}

impl WorkerMessage {
    /// Whether this message ends the lifecycle of the job on `row`.
    pub open spec fn is_terminal_for(self, row: int) -> bool {
        ||| (self matches WorkerMessage::DownloadCompleted(r) && r == row)
        ||| (self matches WorkerMessage::JobFailed(Some(r), _) && r == row)
    }
}

/// How many of `msgs` are terminal messages for `row`.
pub open spec fn terminal_count(msgs: Seq<WorkerMessage>, row: int) -> int
    decreases msgs.len(),
{
    if msgs.len() == 0 {
        0
    } else {
        terminal_count(msgs.drop_last(), row) + if msgs.last().is_terminal_for(row) {
            1int
        } else {
            0int
        }
    }
}

} // verus!
