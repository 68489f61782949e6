use cass_ffi::{lexical_limit, EngineCore, SearchOpts, TimeFilter};

#[test]
fn open_engine_hands_out_both_halves() {
    let engine: EngineCore<&str, u32> = EngineCore::opened("search", 7, "/data".to_string());
    assert_eq!(*engine.search_client().unwrap(), "search");
    assert_eq!(*engine.storage_worker().unwrap(), 7);
    assert_eq!(engine.data_dir(), "/data");
}

#[test]
fn closed_engine_answers_engine_closed() {
    let mut engine: EngineCore<&str, u32> = EngineCore::opened("search", 7, "/data".to_string());
    engine.close().expect("close");
    let err = engine
        .begin_search(&SearchOpts::Lexical { limit: 10 })
        .expect_err("search after close must fail, not succeed");
    assert_eq!(err.kind(), "engine-closed");
    assert_eq!(engine.storage_worker().unwrap_err().kind(), "engine-closed");
    assert_eq!(engine.search_client().unwrap_err().kind(), "engine-closed");
    assert_eq!(engine.data_dir(), "/data");
}

#[test]
fn close_is_idempotent() {
    let mut engine: EngineCore<u8, u8> = EngineCore::opened(1, 2, "d".to_string());
    assert!(engine.close().is_ok());
    assert!(engine.close().is_ok());
    assert!(engine.search_client().is_err());
    assert_eq!(engine.data_dir(), "d");
}

#[test]
fn probe_engine_is_closed_with_empty_dir() {
    let engine: EngineCore<u8, u8> = EngineCore::probe();
    assert_eq!(engine.search_client().unwrap_err().kind(), "engine-closed");
    assert_eq!(engine.data_dir(), "");
}

#[test]
fn lexical_search_passes_its_limit() {
    let engine: EngineCore<&str, u8> = EngineCore::opened("c", 0, String::new());
    let (client, limit) = engine.begin_search(&SearchOpts::Lexical { limit: 10 }).unwrap();
    assert_eq!(*client, "c");
    assert_eq!(limit, 10);
    assert_eq!(lexical_limit(&SearchOpts::Lexical { limit: u32::MAX }).unwrap(), u32::MAX as usize);
}

#[test]
fn hybrid_and_semantic_are_not_wired_yet() {
    let engine: EngineCore<&str, u8> = EngineCore::opened("c", 0, String::new());
    let err = engine
        .begin_search(&SearchOpts::Hybrid {
            limit: 5,
            time_filter: Some(TimeFilter { after_ms: Some(1), before_ms: None }),
        })
        .unwrap_err();
    assert_eq!(err.kind(), "not-yet-implemented");
    assert_eq!(err.message, "cass-ffi: SearchOpts::Hybrid not yet wired through the FFI");
    let err = lexical_limit(&SearchOpts::Semantic { limit: 5, model: None }).unwrap_err();
    assert_eq!(err.message, "cass-ffi: SearchOpts::Semantic not yet wired through the FFI");
}

#[test]
fn closed_check_comes_before_mode_check() {
    let mut engine: EngineCore<&str, u8> = EngineCore::opened("c", 0, String::new());
    engine.close().unwrap();
    let err = engine.begin_search(&SearchOpts::Semantic { limit: 1, model: None }).unwrap_err();
    assert_eq!(err.kind(), "engine-closed");
}
