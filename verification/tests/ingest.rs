use dbt_index_core::ingest::{
    DeltaPlan, DirObservation, IngestStep, SideTable, ingest_steps, alive_mask, compile_subdirs, dedup_group_masks, enabled_from_disabled, epoch_number,
    epochs_to_read, has_unseen_compile_epochs, index_is_current, max_epoch, node_row_masks, persist, plan_delta, restore,
    side_table, tracked_subdirs, writes_to_nodes, STATE_FILE, carried_node_columns, merge_valid_ids, surviving_edges,
};
use dbt_index_core::ingest_state::{COMPILE_CLL_SUBDIR, COMPILE_NODES_SUBDIR, IngestState, PARSE_NODES_SUBDIR};

fn ids(v: &[Option<&str>]) -> Vec<Option<String>> {
    v.iter().map(|s| s.map(|x| x.to_string())).collect()
}

fn strings(v: &[&str]) -> Vec<String> {
    v.iter().map(|s| s.to_string()).collect()
}

fn seen(subdir: &'static str, max: Option<u32>) -> DirObservation {
    DirObservation { subdir, exists: true, base: None, max_epoch: max }
}

#[test]
fn epoch_file_names_carry_their_number() {
    assert_eq!(epoch_number("v1_0.parquet"), Some(0));
    assert_eq!(epoch_number("v1_42.parquet"), Some(42));
    assert_eq!(epoch_number("v1_4294967295.parquet"), Some(u32::MAX));
    assert_eq!(epoch_number("v1_4294967296.parquet"), None);
    assert_eq!(epoch_number("v1_.parquet"), None);
    assert_eq!(epoch_number("v1_1a.parquet"), None);
    assert_eq!(epoch_number("v2_1.parquet"), None);
    assert_eq!(epoch_number("v1_1.parquet.tmp"), None);
    assert_eq!(max_epoch(&vec![3, 9, 1]), Some(9));
    assert_eq!(max_epoch(&vec![]), None);
}

#[test]
fn a_delta_reads_only_newer_epochs() {
    assert_eq!(epochs_to_read(&vec![0, 1, 2, 3], false, 1), vec![2, 3]);
    assert_eq!(epochs_to_read(&vec![0, 1, 2, 3], true, 1), vec![0, 1, 2, 3]);
    assert_eq!(epochs_to_read(&vec![0, 1], false, 5), Vec::<u32>::new());
}

/// The newest epoch that mentions a key replaces every row the key had; a key
/// an epoch does not mention keeps its older rows.
#[test]
fn a_cold_ingest_supersedes_a_whole_group_across_epochs() {
    // Newest epoch first: epoch 1 rewrites `a` with two rows; epoch 0 had `a`
    // three times and `b` once.
    let batches = vec![ids(&[Some("model.p.a"), Some("model.p.a")]), ids(&[Some("model.p.a"), Some("model.p.a"), Some("model.p.b"), Some("model.p.a")])];
    let masks = dedup_group_masks(&batches, None);
    assert_eq!(masks, vec![vec![true, true], vec![false, false, true, false]]);
}

#[test]
fn dedup_prunes_the_dead_and_the_keyless() {
    let batches = vec![ids(&[Some("x"), None]), ids(&[Some("y"), Some("x"), Some("z")])];
    let alive = strings(&["x", "y"]);
    let masks = dedup_group_masks(&batches, Some(&alive));
    assert_eq!(masks, vec![vec![true, false], vec![true, false, false]]);
}

#[test]
fn alive_pruning_keeps_everything_without_an_alive_set() {
    let rows = ids(&[Some("a"), None, Some("b")]);
    assert_eq!(alive_mask(&rows, None), vec![true, true, true]);
    assert_eq!(alive_mask(&rows, Some(&strings(&["b"]))), vec![false, false, true]);
}

#[test]
fn the_state_file_and_subdirectories() {
    assert_eq!(STATE_FILE, ".fusion_state.json");
    assert!(compile_subdirs().contains(&COMPILE_NODES_SUBDIR));
    for s in compile_subdirs() {
        assert!(tracked_subdirs().contains(&s));
    }
}

#[test]
fn a_persisted_state_restores_what_was_recorded() {
    let mut st = IngestState::new();
    st.alive_mtime = Some(1_234_567);
    st.set_epoch(PARSE_NODES_SUBDIR, 4);
    st.set_epoch(COMPILE_NODES_SUBDIR, 2);
    assert!(st.base_rewritten(PARSE_NODES_SUBDIR, Some(Some((10, 5_000)))));
    let ps = persist(&st);
    assert_eq!(ps.alive_mtime_us, Some(1_234_567));
    let back = restore(&ps);
    assert_eq!(back.alive_mtime, Some(1_234_567));
    assert_eq!(back.last_epoch_for(PARSE_NODES_SUBDIR), 4);
    assert_eq!(back.last_epoch_for(COMPILE_NODES_SUBDIR), 2);
    assert_eq!(back.last_epoch_for(COMPILE_CLL_SUBDIR), u32::MAX);
    let mut back = back;
    assert!(!back.base_rewritten(PARSE_NODES_SUBDIR, Some(Some((10, 5_999)))));
}

#[test]
fn a_delta_plan_follows_the_alive_file_then_the_compile_epochs() {
    let mut st = IngestState::new();
    st.set_epoch(COMPILE_NODES_SUBDIR, 3);
    let alive = Some(Some((7, 0)));
    let obs = vec![seen(COMPILE_NODES_SUBDIR, Some(3))];
    // The alive file has never been recorded: a reparse, and its time is kept.
    assert_eq!(plan_delta(&mut st, alive, &obs), DeltaPlan::Reparse);
    assert_eq!(st.alive_mtime, Some(7_000_000));
    assert!(index_is_current(Some(&st), alive, &obs));
    assert_eq!(plan_delta(&mut st, alive, &obs), DeltaPlan::Current);
    // A compile epoch landed without a reparse.
    let newer = vec![seen(COMPILE_NODES_SUBDIR, Some(4))];
    assert!(has_unseen_compile_epochs(&st, &newer));
    assert!(!index_is_current(Some(&st), alive, &newer));
    assert_eq!(plan_delta(&mut st, alive, &newer), DeltaPlan::CompileOnly);
    // No state at all: never current.
    assert!(!index_is_current(None, alive, &obs));
}

#[test]
fn a_full_ingest_keeps_the_newest_row_of_each_node() {
    // Newest epoch first.
    let batches = vec![ids(&[Some("a"), Some("a"), None]), ids(&[Some("b"), Some("a"), Some("c")])];
    let alive = strings(&["a", "b"]);
    assert_eq!(
        node_row_masks(&batches, Some(&alive), true),
        vec![vec![true, false, false], vec![true, false, false]]
    );
    // A delta keeps every row with a live id.
    assert_eq!(
        node_row_masks(&batches, Some(&alive), false),
        vec![vec![true, true, false], vec![true, true, false]]
    );
    assert_eq!(node_row_masks(&batches, None, true), vec![vec![true, false, false], vec![true, false, true]]);
}

#[test]
fn resource_types_route_to_their_tables() {
    for rt in ["model", "source", "seed", "snapshot", "analysis", "test", "operation", "function", "check"] {
        assert!(writes_to_nodes(rt), "{rt}");
    }
    for rt in ["macro", "metric", "exposure", "docs_macro", "Model", ""] {
        assert!(!writes_to_nodes(rt), "{rt}");
    }
    assert_eq!(side_table("metric"), Some(SideTable::Metrics));
    assert_eq!(side_table("semantic_model"), Some(SideTable::SemanticModels));
    assert_eq!(side_table("saved_query"), Some(SideTable::SavedQueries));
    assert_eq!(side_table("exposure"), Some(SideTable::Exposures));
    assert_eq!(side_table("group"), Some(SideTable::Groups));
    assert_eq!(side_table("macro"), Some(SideTable::Macros));
    assert_eq!(side_table("docs_macro"), Some(SideTable::Docs));
    assert_eq!(side_table("unit_test"), Some(SideTable::UnitTests));
    assert_eq!(side_table("model"), Some(SideTable::TimeSpines));
    assert_eq!(side_table("seed"), None);
}

#[test]
fn a_node_is_enabled_unless_flagged() {
    assert!(enabled_from_disabled(None));
    assert!(enabled_from_disabled(Some(0)));
    assert!(!enabled_from_disabled(Some(1)));
    assert!(!enabled_from_disabled(Some(-1)));
}

#[test]
fn a_pass_takes_the_steps_its_plan_needs() {
    assert!(ingest_steps(Some(DeltaPlan::Current)).is_empty());
    let compile_only = ingest_steps(Some(DeltaPlan::CompileOnly));
    assert_eq!(
        compile_only,
        vec![
            IngestStep::LoadCompileNodes,
            IngestStep::MergeCompiledNodesIfAny,
            IngestStep::CompileColumns,
            IngestStep::CatalogColumns,
            IngestStep::CompileLineage,
            IngestStep::Finish,
        ]
    );
    let reparse = ingest_steps(Some(DeltaPlan::Reparse));
    assert_eq!(reparse.len(), 16);
    assert_eq!(reparse[2], IngestStep::MergeCompiledNodes, "the compile map is applied again after the rebuild");
    let cold = ingest_steps(None);
    assert_eq!(cold.len(), 15);
    assert!(!cold.contains(&IngestStep::MergeCompiledNodes));
    assert_eq!(cold.last(), Some(&IngestStep::Finish));
}

#[test]
fn a_delta_keeps_the_edges_whose_ends_are_both_alive() {
    let e = |p: Option<&str>, c: Option<&str>| (p.map(|x| x.to_string()), c.map(|x| x.to_string()));
    let edges = vec![
        e(Some("model.p.a"), Some("model.p.b")),
        e(Some("model.p.gone"), Some("model.p.b")),
        e(Some("model.p.a"), Some("model.p.gone")),
        e(None, Some("model.p.b")),
    ];
    let alive = strings(&["model.p.a", "model.p.b"]);
    assert_eq!(surviving_edges(&edges, Some(&alive)), vec![true, false, false, false]);
    assert_eq!(surviving_edges(&edges, None), vec![true, true, true, true]);
    assert_eq!(surviving_edges(&vec![], Some(&alive)), Vec::<bool>::new());
}

#[test]
fn a_delta_carries_the_compiled_columns_forward() {
    assert_eq!(
        carried_node_columns(),
        vec!["compiled_code", "compiled_code_hash", "compiled_path", "grain", "grain_declared", "grain_tested", "table_role"]
    );
}

#[test]
fn a_merge_keeps_the_alive_ids_else_the_new_ones() {
    let alive = strings(&["a", "b"]);
    let fresh = strings(&["c"]);
    assert_eq!(merge_valid_ids(Some(&alive), &fresh), alive);
    assert_eq!(merge_valid_ids(None, &fresh), fresh);
}

#[test]
fn an_unchanged_alive_file_means_no_work() {
    let mut state = IngestState::new();
    let alive = Some(Some((1_700_000_000u64, 0u32)));
    assert_eq!(plan_delta(&mut state, alive, &[]), DeltaPlan::Reparse);
    assert_eq!(plan_delta(&mut state, alive, &[]), DeltaPlan::Current);
    assert!(ingest_steps(Some(DeltaPlan::Current)).is_empty());
    assert_eq!(ingest_steps(Some(DeltaPlan::Reparse)).last(), Some(&IngestStep::Finish));
}
