//! Per-row job admission: at most one in-flight download per row.
//!
//! One [`SearchResponseMeta`] exists per displayed search result.
//! `is_enabled == false` means a job is currently running for that
//! row; it becomes true again only on that job's terminal message.
//! Both the start request and the terminal message funnel through the
//! same consumer loop, so the check-then-act below is race-free.

use crate::messages::WorkerMessage;
use vstd::prelude::*;

verus! {

/// UI-visible state of one row: whether it may start a new job, and
/// the last reported download progress in tenths of a percent.
#[derive(Clone, Copy, PartialEq, Eq, Structural)]
pub struct SearchResponseMeta {
    pub is_enabled: bool,
    pub download_progress: usize,
}

/// A row that has no job running and no progress yet.
pub open spec fn fresh_row() -> SearchResponseMeta {
    SearchResponseMeta { is_enabled: true, download_progress: 0 }
}

/// What a start request does: an enabled row is claimed (disabled) and
/// the request is granted; a disabled row is left alone and refused.
pub open spec fn spec_try_start(rows: Seq<SearchResponseMeta>, r: int) -> (Seq<
    SearchResponseMeta,
>, bool) {
    if rows[r].is_enabled {
        (
            rows.update(
                r,
                SearchResponseMeta { is_enabled: false, download_progress: rows[r].download_progress },
            ),
            true,
        )
    } else {
        (rows, false)
    }
}

/// What one bus message does to the rows.
pub open spec fn spec_apply(rows: Seq<SearchResponseMeta>, m: WorkerMessage) -> Seq<
    SearchResponseMeta,
> {
    match m {
        WorkerMessage::SearchCompleted(resp) => Seq::new(resp.items@.len(), |i: int| fresh_row()),
        WorkerMessage::DownloadProgress(r, p) => if r < rows.len() {
            rows.update(
                r as int,
                SearchResponseMeta { is_enabled: rows[r as int].is_enabled, download_progress: p as usize },
            )
        } else {
            rows
        },
        WorkerMessage::DownloadCompleted(r) => if r < rows.len() {
            rows.update(
                r as int,
                SearchResponseMeta { is_enabled: true, download_progress: rows[r as int].download_progress },
            )
        } else {
            rows
        },
        WorkerMessage::JobFailed(row, _) => match row {
            Some(r) => if r < rows.len() {
                rows.update(
                    r as int,
                    SearchResponseMeta { is_enabled: true, download_progress: rows[r as int].download_progress },
                )
            } else {
                rows
            },
            None => rows,
        },
    }
}

/// Tracks which rows currently have an in-flight job.
pub struct JobSupervisor {
    rows: Vec<SearchResponseMeta>,
}

impl JobSupervisor {
    /// The current row states.
    pub closed spec fn rows(self) -> Seq<SearchResponseMeta> {
        self.rows@
    }

    /// A supervisor with `num_rows` rows, none of them busy.
    pub fn new(num_rows: usize) -> (r: Self)
        ensures
            r.rows().len() == num_rows,
            r.rows() == Seq::new(num_rows as nat, |i: int| fresh_row()),
    {
        JobSupervisor { rows: fresh_rows(num_rows) }
    }

    /// How many rows are tracked.
    pub fn len(&self) -> (n: usize)
        ensures
            n == self.rows().len(),
    {
        self.rows.len()
    }

    /// Whether `row` may start a new job.
    pub fn is_enabled(&self, row: usize) -> (b: bool)
        requires
            row < self.rows().len(),
        ensures
            b == self.rows()[row as int].is_enabled,
    {
        self.rows[row].is_enabled
    }

    /// The last progress reported for `row`, in tenths of a percent.
    pub fn progress(&self, row: usize) -> (p: usize)
        requires
            row < self.rows().len(),
        ensures
            p == self.rows()[row as int].download_progress,
    {
        self.rows[row].download_progress
    }

    /// Admission control: claim `row` for a new job.  Grants (and
    /// disables the row) only when no job is in flight for it; a row
    /// that is already busy is refused and left untouched.
    pub fn try_start(&mut self, row: usize) -> (started: bool)
        requires
            row < old(self).rows().len(),
        ensures
            started == old(self).rows()[row as int].is_enabled,
            final(self).rows() == spec_try_start(old(self).rows(), row as int).0,
            started == spec_try_start(old(self).rows(), row as int).1,
    {
        if self.rows[row].is_enabled {
            let progress = self.rows[row].download_progress;
            self.rows.set(row, SearchResponseMeta { is_enabled: false, download_progress: progress });
            true
        } else {
            false
        }
    }

    /// Apply one bus message: a new result set replaces the rows, a
    /// progress message records progress, and a terminal message for a
    /// row makes it selectable again.
    pub fn apply(&mut self, m: &WorkerMessage)
        ensures
            final(self).rows() == spec_apply(old(self).rows(), *m),
    {
        match m {
            WorkerMessage::SearchCompleted(resp) => {
                self.rows = fresh_rows(resp.items.len());
            },
            WorkerMessage::DownloadProgress(r, p) => {
                if *r < self.rows.len() {
                    let enabled = self.rows[*r].is_enabled;
                    self.rows.set(
                        *r,
                        SearchResponseMeta { is_enabled: enabled, download_progress: *p as usize },
                    );
                }
            },
            WorkerMessage::DownloadCompleted(r) => {
                if *r < self.rows.len() {
                    let progress = self.rows[*r].download_progress;
                    self.rows.set(
                        *r,
                        SearchResponseMeta { is_enabled: true, download_progress: progress },
                    );
                }
            },
            WorkerMessage::JobFailed(row, _) => {
                if let Some(r) = row {
                    if *r < self.rows.len() {
                        let progress = self.rows[*r].download_progress;
                        self.rows.set(
                            *r,
                            SearchResponseMeta { is_enabled: true, download_progress: progress },
                        );
                    }
                }
            },
        }
    }
}

/// A vector of `n` rows, none busy.
fn fresh_rows(n: usize) -> (r: Vec<SearchResponseMeta>)
    ensures
        r@ == Seq::new(n as nat, |i: int| fresh_row()),
{
    let mut v: Vec<SearchResponseMeta> = Vec::new();
    let mut i: usize = 0;
    while i < n
        invariant
            i <= n,
            v@ =~= Seq::new(i as nat, |j: int| fresh_row()),
        decreases n - i,
    {
        v.push(SearchResponseMeta { is_enabled: true, download_progress: 0 });
        i = i + 1;
        proof {
            assert(v@ =~= Seq::new(i as nat, |j: int| fresh_row()));
        }
    }
    proof {
        assert(v@ =~= Seq::new(n as nat, |j: int| fresh_row()));
    }
    v
}

/// While a row is inactive (a job is in flight for it), a further
/// start request for that row is rejected and changes nothing.
pub proof fn lemma_second_start_rejected(rows: Seq<SearchResponseMeta>, r: int)
    requires
        0 <= r < rows.len(),
        !rows[r].is_enabled,
    ensures
        !spec_try_start(rows, r).1,
        spec_try_start(rows, r).0 == rows,
{
}

} // verus!
