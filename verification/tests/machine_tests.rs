//! Download-completion protocol, scheduler and metrics behaviour.

use drive_sync::data::{Direction, TransferOutcome, TransferTask};
use drive_sync::download::{DownloadStage, DownloadTransfer};
use drive_sync::metrics::{aggregate_outcomes, RunMetrics};
use drive_sync::sched::Scheduler;

fn task(name: &str) -> TransferTask {
    TransferTask {
        identifier: None,
        name: name.to_string(),
        direction: Direction::Upload,
        source: format!("/tmp/in/{}", name),
        destination: "folder".to_string(),
    }
}

fn outcome(name: &str, succeeded: bool, retries: u32, bytes: u64) -> TransferOutcome {
    TransferOutcome {
        name: name.to_string(),
        succeeded,
        error: if succeeded { None } else { Some("boom".to_string()) },
        retries,
        bytes,
    }
}

#[test]
fn download_commit_leaves_exactly_the_final_file() {
    let mut t = DownloadTransfer::new();
    assert_eq!(t.current_stage(), DownloadStage::Started);
    t.temp_created();
    assert!(t.has_temp_file());
    t.on_chunk(b"hello ");
    t.on_chunk(b"world");
    assert_eq!(t.received_len(), 11);
    assert_eq!(t.body().as_slice(), b"hello world");
    t.commit();
    assert_eq!(t.current_stage(), DownloadStage::Committed);
    assert!(t.has_final_file());
    assert!(!t.has_temp_file());
}

#[test]
fn failed_download_leaves_nothing_on_disk() {
    // A failure mid-transfer: no file at the final destination path,
    // and the temporary file is removed.
    let mut t = DownloadTransfer::new();
    t.temp_created();
    t.on_chunk(b"partial bytes");
    t.abort();
    assert_eq!(t.current_stage(), DownloadStage::Aborted);
    assert!(!t.has_final_file());
    assert!(!t.has_temp_file());
}

#[test]
fn failure_before_temp_creation_also_leaves_nothing() {
    let mut t = DownloadTransfer::new();
    t.abort();
    assert_eq!(t.current_stage(), DownloadStage::Aborted);
    assert!(!t.has_final_file());
    assert!(!t.has_temp_file());
}

#[test]
fn scheduler_caps_in_flight_and_admits_fifo() {
    let tasks = vec![task("a.pdf"), task("b.pdf"), task("c.pdf")];
    let mut s = Scheduler::new(tasks, 2);

    assert!(s.can_dispatch());
    let t1 = s.dispatch();
    assert_eq!(t1.name, "a.pdf");
    let t2 = s.dispatch();
    assert_eq!(t2.name, "b.pdf");
    // Pool is full: the third task must wait.
    assert!(!s.can_dispatch());
    assert_eq!(s.in_flight_now(), 2);
    assert_eq!(s.pending_count(), 1);

    s.complete(outcome("a.pdf", true, 0, 10));
    assert!(s.can_dispatch());
    let t3 = s.dispatch();
    assert_eq!(t3.name, "c.pdf");

    s.complete(outcome("b.pdf", false, 3, 0));
    s.complete(outcome("c.pdf", true, 1, 20));
    assert!(s.is_done());

    // Every task yields exactly one outcome.
    let outcomes = s.into_outcomes();
    assert_eq!(outcomes.len(), 3);
}

#[test]
fn aggregated_counters_balance() {
    let outcomes = vec![
        outcome("a.pdf", true, 1, 100),
        outcome("b.pdf", false, 3, 0),
        outcome("c.pdf", true, 0, 50),
    ];
    let m = aggregate_outcomes(&outcomes);
    assert_eq!(m.success, 2);
    assert_eq!(m.failure, 1);
    assert_eq!(m.success + m.failure, outcomes.len() as u64);
    assert_eq!(m.retries, 4);
    assert_eq!(m.bytes, 150);
}

#[test]
fn empty_run_aggregates_to_zero() {
    let outcomes: Vec<TransferOutcome> = vec![];
    let m = aggregate_outcomes(&outcomes);
    assert_eq!(m.success, 0);
    assert_eq!(m.failure, 0);
    assert_eq!(m.retries, 0);
    assert_eq!(m.bytes, 0);
}

#[test]
fn recording_one_outcome_moves_one_counter() {
    let mut m = RunMetrics::new();
    m.record(&outcome("a.pdf", true, 2, 30));
    assert_eq!(m.success, 1);
    assert_eq!(m.failure, 0);
    assert_eq!(m.retries, 2);
    assert_eq!(m.bytes, 30);
    m.record(&outcome("b.pdf", false, 3, 0));
    assert_eq!(m.success, 1);
    assert_eq!(m.failure, 1);
    assert_eq!(m.retries, 5);
}
