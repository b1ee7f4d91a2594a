//! One download, end to end: the external command is built from the
//! immutable [`DownloadSpec`], the process's standard output is fed
//! line by line through the progress parser, and the job ends in
//! exactly one terminal message for its row — a completion, or a
//! failure naming the row — whichever branch it takes.
//!
//! The job owns no I/O: the caller spawns the process, reads its
//! streams and awaits its exit, and feeds each observation in as a
//! [`JobEvent`]; the job answers with the messages to publish.

use crate::messages::{terminal_count, FailureReason, WorkerMessage};
use crate::progress::{parse_line, spec_parse_line, ProgressEvent};
use crate::json::json_document;
use vstd::prelude::*;
use vstd::string::StringExecFns;

verus! {

/// What one download needs: where from, where to, and the format.
pub struct DownloadSpec {
    /// The page URL handed to the downloader.
    pub url: String,
    /// The directory downloads are written into.
    pub download_path: String,
    /// The audio format the download is converted to.
    pub audio_format: String,
}

/// The output path template: the destination directory with the
/// downloader's title-and-extension placeholders.
pub open spec fn spec_output_template(dest: Seq<char>) -> Seq<char> {
    dest + "/%(title)s.%(ext)s"@
}

/// The argument list handed to the downloader binary.
pub open spec fn spec_command(d: DownloadSpec) -> Seq<Seq<char>> {
    seq![
        "-x"@,
        "--audio-format"@,
        d.audio_format@,
        "-o"@,
        spec_output_template(d.download_path@),
        "--add-metadata"@,
        "--embed-thumbnail"@,
        "--progress-template"@,
        "download:%(progress)j"@,
        "--progress-template"@,
        "postprocess:%(progress)j"@,
        d.url@,
    ]
}

/// Build the downloader's argument list; construction is pure and
/// fully determined by the spec.
pub fn build_command(d: &DownloadSpec) -> (r: Vec<String>)
    ensures
        r.deep_view() == spec_command(*d),
{
    let mut out: Vec<String> = Vec::new();
    out.push(String::from_str("-x"));
    out.push(String::from_str("--audio-format"));
    out.push(d.audio_format.clone());
    out.push(String::from_str("-o"));
    let mut tmpl = d.download_path.clone();
    tmpl.append("/%(title)s.%(ext)s");
    out.push(tmpl);
    out.push(String::from_str("--add-metadata"));
    out.push(String::from_str("--embed-thumbnail"));
    out.push(String::from_str("--progress-template"));
    out.push(String::from_str("download:%(progress)j"));
    out.push(String::from_str("--progress-template"));
    out.push(String::from_str("postprocess:%(progress)j"));
    out.push(d.url.clone());
    proof {
        assert(out.deep_view() =~= spec_command(*d));
    }
    out
}

/// The page URL the downloader is pointed at for one platform id.
pub open spec fn spec_watch_url(video_id: Seq<char>) -> Seq<char> {
    "https://www.youtube.com/watch?v="@ + video_id
}

/// Compose the page URL for one platform id.
pub fn build_watch_url(video_id: &str) -> (r: String)
    ensures
        r@ == spec_watch_url(video_id@),
{
    let mut r = String::from_str("https://www.youtube.com/watch?v=");
    r.append(video_id);
    r
}

/// Where a job stands.
#[derive(Clone, Copy, PartialEq, Eq, Structural)]
pub enum JobPhase {
    /// The process is being spawned.
    Launching,
    /// Standard output is being drained.
    Streaming,
    /// The streams are closed; the exit status is awaited.
    AwaitExit,
    /// The terminal message went out; nothing further is emitted.
    Terminal,
}

/// One observation the caller made of the process.
pub enum JobEvent {
    /// The process started.
    SpawnOk,
    /// The process could not be started.
    SpawnFailed(String),
    /// One line of standard output, already put through the parser.
    Progress(Option<ProgressEvent>),
    /// Standard output closed.
    StdoutClosed,
    /// The process exited with this status code.
    Exited(i32),
    /// Reading a stream failed.
    IoError(String),
}

/// The job's reaction to one event: the next phase and the messages
/// to publish, in order.
pub open spec fn spec_job_step(phase: JobPhase, row: usize, ev: JobEvent) -> (JobPhase, Seq<
    WorkerMessage,
>) {
    match phase {
        JobPhase::Launching => match ev {
            JobEvent::SpawnOk => (JobPhase::Streaming, Seq::empty()),
            JobEvent::SpawnFailed(why) => (
                JobPhase::Terminal,
                seq![WorkerMessage::JobFailed(Some(row), FailureReason::Spawn(why))],
            ),
            JobEvent::IoError(why) => (
                JobPhase::Terminal,
                seq![WorkerMessage::JobFailed(Some(row), FailureReason::Io(why))],
            ),
            _ => (JobPhase::Launching, Seq::empty()),
        },
        JobPhase::Streaming => match ev {
            JobEvent::Progress(Some(e)) => (
                JobPhase::Streaming,
                seq![WorkerMessage::DownloadProgress(row, e.percent_tenths)],
            ),
            JobEvent::Progress(None) => (JobPhase::Streaming, Seq::empty()),
            JobEvent::StdoutClosed => (JobPhase::AwaitExit, Seq::empty()),
            JobEvent::Exited(code) => spec_exit_step(row, code as int),
            JobEvent::IoError(why) => (
                JobPhase::Terminal,
                seq![WorkerMessage::JobFailed(Some(row), FailureReason::Io(why))],
            ),
            _ => (JobPhase::Streaming, Seq::empty()),
        },
        JobPhase::AwaitExit => match ev {
            JobEvent::Exited(code) => spec_exit_step(row, code as int),
            JobEvent::IoError(why) => (
                JobPhase::Terminal,
                seq![WorkerMessage::JobFailed(Some(row), FailureReason::Io(why))],
            ),
            _ => (JobPhase::AwaitExit, Seq::empty()),
        },
        JobPhase::Terminal => (JobPhase::Terminal, Seq::empty()),
    }
}

/// The terminal message for an exit status: success on zero, a
/// process failure otherwise.
pub open spec fn spec_exit_step(row: usize, code: int) -> (JobPhase, Seq<WorkerMessage>) {
    if code == 0 {
        (JobPhase::Terminal, seq![WorkerMessage::DownloadCompleted(row)])
    } else {
        (
            JobPhase::Terminal,
            seq![WorkerMessage::JobFailed(Some(row), FailureReason::ProcessExit(code as i32))],
        )
    }
}

/// One download in flight.
pub struct DownloadJob {
    /// The row this job was started for.
    pub row: usize,
    /// Where the job stands.
    pub phase: JobPhase,
}

impl DownloadJob {
    /// A job for `row`, about to spawn.
    pub fn new(row: usize) -> (r: Self)
        ensures
            r.row == row,
            r.phase is Launching,
    {
        DownloadJob { row, phase: JobPhase::Launching }
    }

    /// React to one event, exactly as [`spec_job_step`] says.
    pub fn step(&mut self, ev: JobEvent) -> (msgs: Vec<WorkerMessage>)
        ensures
            final(self).row == old(self).row,
            final(self).phase == spec_job_step(old(self).phase, old(self).row, ev).0,
            msgs@ == spec_job_step(old(self).phase, old(self).row, ev).1,
    {
        let row = self.row;
        match self.phase {
            JobPhase::Launching => match ev {
                JobEvent::SpawnOk => {
                    self.phase = JobPhase::Streaming;
                    Vec::new()
                },
                JobEvent::SpawnFailed(why) => {
                    self.phase = JobPhase::Terminal;
                    vec![WorkerMessage::JobFailed(Some(row), FailureReason::Spawn(why))]
                },
                JobEvent::IoError(why) => {
                    self.phase = JobPhase::Terminal;
                    vec![WorkerMessage::JobFailed(Some(row), FailureReason::Io(why))]
                },
                _ => Vec::new(),
            },
            JobPhase::Streaming => match ev {
                JobEvent::Progress(pe) => match pe {
                    Some(e) => vec![WorkerMessage::DownloadProgress(row, e.percent_tenths)],
                    None => Vec::new(),
                },
                JobEvent::StdoutClosed => {
                    self.phase = JobPhase::AwaitExit;
                    Vec::new()
                },
                JobEvent::Exited(code) => self.exit_step(code),
                JobEvent::IoError(why) => {
                    self.phase = JobPhase::Terminal;
                    vec![WorkerMessage::JobFailed(Some(row), FailureReason::Io(why))]
                },
                _ => Vec::new(),
            },
            JobPhase::AwaitExit => match ev {
                JobEvent::Exited(code) => self.exit_step(code),
                JobEvent::IoError(why) => {
                    self.phase = JobPhase::Terminal;
                    vec![WorkerMessage::JobFailed(Some(row), FailureReason::Io(why))]
                },
                _ => Vec::new(),
            },
            JobPhase::Terminal => Vec::new(),
        }
    }

    /// Feed one raw line of downloader output: parse it, emit the
    /// progress message when it carries one.  Noise emits nothing and
    /// never fails the job.
    pub fn on_line(&mut self, line: &str) -> (msgs: Vec<WorkerMessage>)
        requires
            old(self).phase is Streaming,
        ensures
            final(self).row == old(self).row,
            final(self).phase is Streaming,
            msgs@ == spec_job_step(
                old(self).phase,
                old(self).row,
                JobEvent::Progress(spec_parse_line(line@)),
            ).1,
            msgs@.len() <= 1,
            msgs@.len() == 1 ==> (msgs@[0] matches WorkerMessage::DownloadProgress(r, p) && r
                == old(self).row && p <= 1000),
            !json_document(line@) ==> msgs@.len() == 0,
    {
        let ev = parse_line(line);
        self.step(JobEvent::Progress(ev))
    }

    /// Reach the terminal phase for an exit status.
    fn exit_step(&mut self, code: i32) -> (msgs: Vec<WorkerMessage>)
        ensures
            final(self).row == old(self).row,
            final(self).phase == spec_exit_step(old(self).row, code as int).0,
            msgs@ == spec_exit_step(old(self).row, code as int).1,
    {
        let row = self.row;
        self.phase = JobPhase::Terminal;
        if code == 0 {
            vec![WorkerMessage::DownloadCompleted(row)]
        } else {
            vec![WorkerMessage::JobFailed(Some(row), FailureReason::ProcessExit(code))]
        }
    }
}

/// The phase and messages after a whole run of events, oldest first.
pub open spec fn spec_job_run(phase: JobPhase, row: usize, evs: Seq<JobEvent>) -> (JobPhase, Seq<
    WorkerMessage,
>)
    decreases evs.len(),
{
    if evs.len() == 0 {
        (phase, Seq::empty())
    } else {
        let first = spec_job_step(phase, row, evs[0]);
        let rest = spec_job_run(first.0, row, evs.drop_first());
        (rest.0, first.1 + rest.1)
    }
}

/// Terminal messages add up over concatenation.
proof fn lemma_terminal_count_add(a: Seq<WorkerMessage>, b: Seq<WorkerMessage>, row: int)
    ensures
        terminal_count(a + b, row) == terminal_count(a, row) + terminal_count(b, row),
    decreases b.len(),
{
    if b.len() == 0 {
        assert(a + b =~= a);
    } else {
        lemma_terminal_count_add(a, b.drop_last(), row);
        assert((a + b).drop_last() =~= a + b.drop_last());
    }
}

/// A finished job stays finished and emits nothing more.
proof fn lemma_run_from_terminal(row: usize, evs: Seq<JobEvent>)
    ensures
        spec_job_run(JobPhase::Terminal, row, evs).0 is Terminal,
        spec_job_run(JobPhase::Terminal, row, evs).1 == Seq::<WorkerMessage>::empty(),
    decreases evs.len(),
{
    if evs.len() > 0 {
        lemma_run_from_terminal(row, evs.drop_first());
        assert(spec_job_run(JobPhase::Terminal, row, evs).1 =~= Seq::<WorkerMessage>::empty());
    }
}

/// One step emits a terminal message exactly when it reaches the
/// terminal phase from a live one.
proof fn lemma_step_terminal_count(phase: JobPhase, row: usize, ev: JobEvent)
    ensures
        ({
            let r = spec_job_step(phase, row, ev);
            terminal_count(r.1, row as int) == if !(phase is Terminal) && r.0 is Terminal {
                1int
            } else {
                0int
            }
        }),
{
    let r = spec_job_step(phase, row, ev);
    assert(terminal_count(Seq::<WorkerMessage>::empty(), row as int) == 0);
    if r.1.len() == 1 {
        assert(r.1.drop_last() =~= Seq::<WorkerMessage>::empty());
    }
}

/// Every download job emits exactly one terminal message for its row,
/// never zero, never more: over any run of events, the emitted
/// messages hold exactly one terminal message when the run reaches
/// the terminal phase, and none while the job is still live.
pub proof fn lemma_exactly_one_terminal(phase: JobPhase, row: usize, evs: Seq<JobEvent>)
    ensures
        ({
            let r = spec_job_run(phase, row, evs);
            terminal_count(r.1, row as int) == if !(phase is Terminal) && r.0 is Terminal {
                1int
            } else {
                0int
            }
        }),
    decreases evs.len(),
{
    if evs.len() == 0 {
    } else {
        let first = spec_job_step(phase, row, evs[0]);
        let rest = spec_job_run(first.0, row, evs.drop_first());
        lemma_step_terminal_count(phase, row, evs[0]);
        lemma_exactly_one_terminal(first.0, row, evs.drop_first());
        lemma_terminal_count_add(first.1, rest.1, row as int);
        if first.0 is Terminal {
            lemma_run_from_terminal(row, evs.drop_first());
        }
    }
}

} // verus!
