use cass_ffi::CassError;

#[test]
fn unimplemented_error_fields() {
    let err = CassError::unimplemented("SearchOpts::Hybrid");
    assert_eq!(err.code, 1);
    assert_eq!(err.kind(), "not-yet-implemented");
    assert_eq!(err.message, "cass-ffi: SearchOpts::Hybrid not yet wired through the FFI");
    assert_eq!(
        err.hint.as_deref(),
        Some("Surface defined in cass-ffi/SURFACE.md; impls land in bd one-vtg5eh.")
    );
    assert!(!err.retryable);
}

#[test]
fn engine_closed_error_fields() {
    let err = CassError::engine_closed();
    assert_eq!(err.kind(), "engine-closed");
    assert_eq!(err.code, 2);
    assert_eq!(err.message, "cass-ffi: engine has been closed");
    assert!(err.hint.is_some());
    assert!(!err.retryable);
}

#[test]
fn internal_error_joins_context_and_detail() {
    let err = CassError::internal_in("spawn_blocking join", "task 7 panicked");
    assert_eq!(err.kind(), "internal");
    assert_eq!(err.code, 3);
    assert_eq!(err.message, "spawn_blocking join: task 7 panicked");
    assert!(err.hint.is_none());
}

#[test]
fn worker_died_error_fields() {
    let err = CassError::worker_died("dropped reply oneshot");
    assert_eq!(err.kind(), "worker-died");
    assert_eq!(err.message, "cass-ffi storage worker died: dropped reply oneshot");
}

#[test]
fn missing_db_and_index_errors() {
    let err = CassError::data_dir_missing_db("/d/agent_search.db", "/d");
    assert_eq!(err.kind(), "data-dir-missing-db");
    assert_eq!(err.message, "cass-ffi: no cass database at /d/agent_search.db");
    assert_eq!(err.hint.as_deref(), Some("Run `cass index --full` against /d first."));
    let err = CassError::data_dir_missing_index("/d/index/v4", "/d/agent_search.db");
    assert_eq!(err.kind(), "data-dir-missing-index");
    assert_eq!(err.message, "cass-ffi: no search index at /d/index/v4");
    assert_eq!(
        err.hint.as_deref(),
        Some("Rebuild the index for /d/agent_search.db with `cass index --full`.")
    );
}
