use ytjobs::bus::JobBus;
use ytjobs::download::{build_command, DownloadJob, DownloadSpec, JobEvent};
use ytjobs::messages::{FailureReason, WorkerMessage};
use ytjobs::supervisor::JobSupervisor;

#[test]
fn command_is_built_deterministically() {
    let spec = DownloadSpec {
        url: "https://www.youtube.com/watch?v=abc".to_string(),
        download_path: "/tmp/music".to_string(),
        audio_format: "aac".to_string(),
    };
    let args = build_command(&spec);
    assert_eq!(
        args,
        vec![
            "-x",
            "--audio-format",
            "aac",
            "-o",
            "/tmp/music/%(title)s.%(ext)s",
            "--add-metadata",
            "--embed-thumbnail",
            "--progress-template",
            "download:%(progress)j",
            "--progress-template",
            "postprocess:%(progress)j",
            "https://www.youtube.com/watch?v=abc",
        ]
    );
}

#[test]
fn three_lines_two_events_then_completion() {
    // Scenario: the process emits a progress line, a noise line and a
    // second progress line, then exits cleanly.
    let mut job = DownloadJob::new(7);
    let mut bus = JobBus::new(32);

    assert!(job.step(JobEvent::SpawnOk).is_empty());
    bus.publish_all(job.on_line("{\"_percent_str\":\"10.0%\"}"));
    bus.publish_all(job.on_line("not-json"));
    bus.publish_all(job.on_line("{\"_percent_str\":\"55.0%\"}"));
    bus.publish_all(job.step(JobEvent::StdoutClosed));
    bus.publish_all(job.step(JobEvent::Exited(0)));

    assert!(matches!(bus.poll(), Some(WorkerMessage::DownloadProgress(7, 100))));
    assert!(matches!(bus.poll(), Some(WorkerMessage::DownloadProgress(7, 550))));
    assert!(matches!(bus.poll(), Some(WorkerMessage::DownloadCompleted(7))));
    assert!(bus.poll().is_none(), "exactly one terminal message, nothing after it");
}

#[test]
fn spawn_failure_re_enables_the_row() {
    // Scenario: the binary path is invalid, the spawn fails, and the
    // supervisor makes the row selectable again.
    let mut sup = JobSupervisor::new(3);
    assert!(sup.try_start(1));
    assert!(!sup.is_enabled(1));

    let mut job = DownloadJob::new(1);
    let msgs = job.step(JobEvent::SpawnFailed("no such file".to_string()));
    assert_eq!(msgs.len(), 1);
    match &msgs[0] {
        WorkerMessage::JobFailed(Some(1), FailureReason::Spawn(why)) => {
            assert_eq!(why, "no such file");
        }
        _ => panic!("expected a spawn failure for row 1"),
    }
    for m in &msgs {
        sup.apply(m);
    }
    assert!(sup.is_enabled(1), "the terminal message restores the row");
}

#[test]
fn nonzero_exit_is_the_terminal_failure() {
    let mut job = DownloadJob::new(2);
    assert!(job.step(JobEvent::SpawnOk).is_empty());
    assert!(job.step(JobEvent::StdoutClosed).is_empty());
    let msgs = job.step(JobEvent::Exited(1));
    assert_eq!(msgs.len(), 1);
    assert!(matches!(
        msgs[0],
        WorkerMessage::JobFailed(Some(2), FailureReason::ProcessExit(1))
    ));
}

#[test]
fn stream_error_is_the_terminal_failure() {
    let mut job = DownloadJob::new(4);
    assert!(job.step(JobEvent::SpawnOk).is_empty());
    let msgs = job.step(JobEvent::IoError("broken pipe".to_string()));
    assert_eq!(msgs.len(), 1);
    assert!(matches!(
        msgs[0],
        WorkerMessage::JobFailed(Some(4), FailureReason::Io(_))
    ));
}

#[test]
fn a_finished_job_emits_nothing_more() {
    let mut job = DownloadJob::new(0);
    let _ = job.step(JobEvent::SpawnFailed("gone".to_string()));
    assert!(job.step(JobEvent::Exited(0)).is_empty());
    assert!(job.step(JobEvent::IoError("late".to_string())).is_empty());
}

#[test]
fn clamped_progress_still_flows_through() {
    let mut job = DownloadJob::new(9);
    let _ = job.step(JobEvent::SpawnOk);
    let msgs = job.on_line("{\"_percent_str\":\"150.0%\"}");
    assert!(matches!(msgs[0], WorkerMessage::DownloadProgress(9, 1000)));
}
