use cass_ffi::{completion_result, phase_label, CassError, IndexProgressSnapshot, TaskOutcome};

fn snap() -> IndexProgressSnapshot {
    IndexProgressSnapshot::from_counters(2, 5, 9, vec!["codex".to_string()], None)
}

#[test]
fn phase_labels() {
    assert_eq!(phase_label(0), "idle");
    assert_eq!(phase_label(1), "scanning");
    assert_eq!(phase_label(2), "indexing");
    assert_eq!(phase_label(3), "idle");
    assert_eq!(phase_label(usize::MAX), "idle");
}

#[test]
fn snapshot_from_counters() {
    let s = IndexProgressSnapshot::from_counters(1, 3, 10, vec!["a".into(), "b".into()], Some("e".into()));
    assert_eq!(s.phase, "scanning");
    assert_eq!(s.current, 3);
    assert_eq!(s.total, 10);
    assert_eq!(s.discovered_agents, vec!["a".to_string(), "b".to_string()]);
    assert_eq!(s.last_error.as_deref(), Some("e"));
}

#[test]
fn finished_run_returns_snapshot() {
    let r = completion_result(Some(TaskOutcome::Finished(Ok(()))), snap()).unwrap();
    assert_eq!(r.phase, "indexing");
    assert_eq!(r.current, 5);
}

#[test]
fn failed_run_returns_its_error() {
    let err = completion_result(
        Some(TaskOutcome::Finished(Err(CassError::internal("disk full".to_string())))),
        snap(),
    )
    .unwrap_err();
    assert_eq!(err.message, "disk full");
}

#[test]
fn aborted_run_is_internal_error() {
    let err = completion_result(Some(TaskOutcome::Aborted("task 3 panicked".to_string())), snap()).unwrap_err();
    assert_eq!(err.kind(), "internal");
    assert_eq!(
        err.message,
        "cass-ffi indexer task panicked or was cancelled: task 3 panicked"
    );
}

#[test]
fn waiting_again_returns_snapshot() {
    let r = completion_result(None, snap()).unwrap();
    assert_eq!(r.total, 9);
    assert_eq!(r.discovered_agents, vec!["codex".to_string()]);
}
