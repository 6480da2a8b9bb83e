use dbt_index_core::ingest_state::{IngestState, PARSE_NODES_SUBDIR, RUN_RESULTS_SUBDIR, mtime_us};

#[test]
fn a_fresh_state_has_seen_nothing() {
    let st = IngestState::new();
    assert_eq!(st.last_epoch_for(PARSE_NODES_SUBDIR), u32::MAX);
    assert!(st.alive_mtime.is_none());
}

#[test]
fn set_epoch_is_read_back_and_touches_nothing_else() {
    let mut st = IngestState::new();
    st.set_epoch(PARSE_NODES_SUBDIR, 3);
    st.set_epoch(RUN_RESULTS_SUBDIR, 7);
    st.set_epoch(PARSE_NODES_SUBDIR, 4);
    assert_eq!(st.last_epoch_for(PARSE_NODES_SUBDIR), 4);
    assert_eq!(st.last_epoch_for(RUN_RESULTS_SUBDIR), 7);
    assert_eq!(st.last_epoch.len(), 2);
}

#[test]
fn microseconds_since_the_epoch() {
    assert_eq!(mtime_us(None), None);
    assert_eq!(mtime_us(Some((1, 500))), Some(1_000_000));
    assert_eq!(mtime_us(Some((2, 3_999))), Some(2_000_003));
}

#[test]
fn the_first_base_observation_is_a_rewrite_and_then_settles() {
    let mut st = IngestState::new();
    let t = Some(Some((100, 7_000)));
    assert!(st.base_differs(PARSE_NODES_SUBDIR, t));
    assert!(st.base_rewritten(PARSE_NODES_SUBDIR, t));
    assert!(!st.base_differs(PARSE_NODES_SUBDIR, t));
    assert!(!st.base_rewritten(PARSE_NODES_SUBDIR, t));
    // Nanoseconds below a microsecond are not a rewrite.
    assert!(!st.base_rewritten(PARSE_NODES_SUBDIR, Some(Some((100, 7_999)))));
    assert!(st.base_rewritten(PARSE_NODES_SUBDIR, Some(Some((101, 0)))));
}

#[test]
fn an_absent_base_is_never_a_rewrite() {
    let mut st = IngestState::new();
    assert!(!st.base_differs(PARSE_NODES_SUBDIR, None));
    assert!(!st.base_rewritten(PARSE_NODES_SUBDIR, None));
}

#[test]
fn full_reload_decisions() {
    let mut st = IngestState::new();
    let t = Some(Some((10, 0)));
    // First pass: never seen.
    assert!(st.needs_full_reload(PARSE_NODES_SUBDIR, t, 0, false));
    st.set_epoch(PARSE_NODES_SUBDIR, 5);
    // Same base, more epochs: a delta.
    assert!(!st.needs_full_reload(PARSE_NODES_SUBDIR, t, 6, false));
    // Forced.
    assert!(st.needs_full_reload(PARSE_NODES_SUBDIR, t, 6, true));
    // Compaction reset the numbering.
    assert!(st.needs_full_reload(PARSE_NODES_SUBDIR, t, 2, false));
    // Base rewritten in place.
    assert!(st.needs_full_reload(PARSE_NODES_SUBDIR, Some(Some((11, 0))), 5, false));
    assert!(!st.needs_full_reload(PARSE_NODES_SUBDIR, Some(Some((11, 0))), 5, false));
}
