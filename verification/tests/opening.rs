use cass_ffi::{advance_open, first_open_step, CassError, DataLayout, OpenProgress, OpenStep, StepReport};

fn layout() -> DataLayout {
    DataLayout::for_dir("/d", "/d/index/v4".to_string())
}

#[test]
fn successful_open_visits_every_step_in_order() {
    let layout = layout();
    let mut step = first_open_step();
    let mut seen = vec![step];
    loop {
        match advance_open(step, StepReport::Completed, &layout, "/d") {
            OpenProgress::Next(next) => {
                step = next;
                seen.push(step);
            }
            OpenProgress::Ready => break,
            OpenProgress::Failed(err) => panic!("unexpected failure {err:?}"),
        }
    }
    assert_eq!(
        seen,
        vec![
            OpenStep::CheckDatabase,
            OpenStep::HealIndex,
            OpenStep::SpawnStorage,
            OpenStep::OpenSearch,
            OpenStep::StartRuntime,
        ]
    );
}

#[test]
fn missing_database_stops_the_open() {
    match advance_open(OpenStep::CheckDatabase, StepReport::Missing, &layout(), "/d") {
        OpenProgress::Failed(err) => {
            assert_eq!(err.kind(), "data-dir-missing-db");
            assert_eq!(err.message, "cass-ffi: no cass database at /d/agent_search.db");
        }
        other => panic!("expected failure, got {other:?}"),
    }
}

#[test]
fn missing_index_stops_the_open() {
    match advance_open(OpenStep::OpenSearch, StepReport::Missing, &layout(), "/d") {
        OpenProgress::Failed(err) => {
            assert_eq!(err.kind(), "data-dir-missing-index");
            assert_eq!(err.message, "cass-ffi: no search index at /d/index/v4");
        }
        other => panic!("expected failure, got {other:?}"),
    }
}

#[test]
fn step_failure_is_returned_as_is() {
    let report = StepReport::Failed(CassError::internal("boom".to_string()));
    match advance_open(OpenStep::SpawnStorage, report, &layout(), "/d") {
        OpenProgress::Failed(err) => {
            assert_eq!(err.kind(), "internal");
            assert_eq!(err.message, "boom");
        }
        other => panic!("expected failure, got {other:?}"),
    }
}
