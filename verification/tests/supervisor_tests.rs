use ytjobs::messages::{FailureReason, WorkerMessage};
use ytjobs::model::SearchResponse;
use ytjobs::settings::SettingsState;
use ytjobs::supervisor::JobSupervisor;

#[test]
fn a_fresh_supervisor_has_all_rows_selectable() {
    let sup = JobSupervisor::new(4);
    assert_eq!(sup.len(), 4);
    for r in 0..4 {
        assert!(sup.is_enabled(r));
        assert_eq!(sup.progress(r), 0);
    }
}

#[test]
fn starting_a_job_claims_the_row() {
    let mut sup = JobSupervisor::new(2);
    assert!(sup.try_start(0));
    assert!(!sup.is_enabled(0));
    assert!(sup.is_enabled(1), "other rows are untouched");
}

#[test]
fn a_second_start_for_a_busy_row_is_rejected() {
    let mut sup = JobSupervisor::new(2);
    assert!(sup.try_start(1));
    assert!(!sup.try_start(1), "at most one in-flight job per row");
    assert!(!sup.try_start(1));
    assert!(!sup.is_enabled(1));
}

#[test]
fn completion_restores_the_row() {
    let mut sup = JobSupervisor::new(2);
    let _ = sup.try_start(0);
    sup.apply(&WorkerMessage::DownloadCompleted(0));
    assert!(sup.is_enabled(0));
    assert!(sup.try_start(0), "the row may start a new job afterwards");
}

#[test]
fn failure_restores_the_row_too() {
    let mut sup = JobSupervisor::new(2);
    let _ = sup.try_start(1);
    sup.apply(&WorkerMessage::JobFailed(
        Some(1),
        FailureReason::Spawn("missing binary".to_string()),
    ));
    assert!(sup.is_enabled(1));
}

#[test]
fn a_search_failure_touches_no_row() {
    let mut sup = JobSupervisor::new(2);
    let _ = sup.try_start(0);
    sup.apply(&WorkerMessage::JobFailed(None, FailureReason::NotConfigured));
    assert!(!sup.is_enabled(0), "a rowless failure re-enables nothing");
}

#[test]
fn progress_is_recorded_without_freeing_the_row() {
    let mut sup = JobSupervisor::new(1);
    let _ = sup.try_start(0);
    sup.apply(&WorkerMessage::DownloadProgress(0, 423));
    assert!(!sup.is_enabled(0));
    assert_eq!(sup.progress(0), 423);
}

#[test]
fn a_new_result_set_replaces_the_rows() {
    let mut sup = JobSupervisor::new(1);
    let _ = sup.try_start(0);
    let mut resp = SearchResponse::default();
    resp.items = Vec::new();
    sup.apply(&WorkerMessage::SearchCompleted(resp));
    assert_eq!(sup.len(), 0);
}

#[test]
fn messages_for_unknown_rows_are_ignored() {
    let mut sup = JobSupervisor::new(1);
    sup.apply(&WorkerMessage::DownloadCompleted(5));
    sup.apply(&WorkerMessage::DownloadProgress(5, 10));
    assert_eq!(sup.len(), 1);
    assert!(sup.is_enabled(0));
}

#[test]
fn default_settings() {
    let s = SettingsState::default();
    assert_eq!(s.max_results, 10);
    assert!(s.first_run);
    assert_eq!(s.download_path, "");
    assert_eq!(s.personal_yt_api, "");
}
