use ytjobs::bus::JobBus;
use ytjobs::messages::{FailureReason, WorkerMessage};

#[test]
fn bus_is_fifo() {
    let mut bus = JobBus::new(8);
    assert!(bus.publish(WorkerMessage::DownloadProgress(0, 100)));
    assert!(bus.publish(WorkerMessage::DownloadProgress(1, 550)));
    assert!(bus.publish(WorkerMessage::DownloadCompleted(0)));
    assert!(matches!(bus.poll(), Some(WorkerMessage::DownloadProgress(0, 100))));
    assert!(matches!(bus.poll(), Some(WorkerMessage::DownloadProgress(1, 550))));
    assert!(matches!(bus.poll(), Some(WorkerMessage::DownloadCompleted(0))));
    assert!(bus.poll().is_none());
}

#[test]
fn full_bus_refuses_and_keeps_order() {
    let mut bus = JobBus::new(2);
    assert!(bus.publish(WorkerMessage::DownloadCompleted(1)));
    assert!(bus.publish(WorkerMessage::DownloadCompleted(2)));
    assert!(!bus.publish(WorkerMessage::DownloadCompleted(3)));
    assert_eq!(bus.len(), 2);
    assert!(matches!(bus.poll(), Some(WorkerMessage::DownloadCompleted(1))));
    assert!(matches!(bus.poll(), Some(WorkerMessage::DownloadCompleted(2))));
    assert!(bus.poll().is_none());
}

#[test]
fn publish_all_stops_at_the_bound() {
    let mut bus = JobBus::new(2);
    let msgs = vec![
        WorkerMessage::DownloadProgress(0, 1),
        WorkerMessage::DownloadProgress(0, 2),
        WorkerMessage::JobFailed(None, FailureReason::NotConfigured),
    ];
    let n = bus.publish_all(msgs);
    assert_eq!(n, 2);
    assert_eq!(bus.len(), 2);
}

#[test]
fn publish_all_keeps_order() {
    let mut bus = JobBus::new(10);
    let msgs = vec![
        WorkerMessage::DownloadProgress(4, 10),
        WorkerMessage::DownloadCompleted(4),
    ];
    assert_eq!(bus.publish_all(msgs), 2);
    assert!(matches!(bus.poll(), Some(WorkerMessage::DownloadProgress(4, 10))));
    assert!(matches!(bus.poll(), Some(WorkerMessage::DownloadCompleted(4))));
}

#[test]
fn poll_on_empty_bus_is_none() {
    let mut bus = JobBus::new(4);
    assert!(bus.poll().is_none());
    assert_eq!(bus.len(), 0);
}
