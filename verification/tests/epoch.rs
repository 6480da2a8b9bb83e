use std::collections::{BTreeMap, BTreeSet};

use dbt_index_core::epoch::{
    EpochExpr, EpochRelation, Origin, Supersede, epoch_expr, epoch_relations, is_json_text, join_path_str, origin,
    referenced_pairs,
};
use dbt_index_core::epoch_views::{generate, unmappable_tables};

/// Every staging column the information schema reads has an epoch source.
///
/// Tables whose rows a custom origin assembles are exempt per column, and so are
/// tables nothing writes.
#[test]
fn every_referenced_column_is_mapped() {
    let mut missing_table: BTreeSet<&str> = BTreeSet::new();
    let mut missing_col: BTreeMap<&str, Vec<&str>> = BTreeMap::new();
    for (table, col) in referenced_pairs() {
        match origin(table) {
            Some(Origin::Relation { .. }) => {
                if epoch_expr(table, col).is_none() {
                    missing_col.entry(table).or_default().push(col);
                }
            }
            Some(Origin::Custom | Origin::Empty) => {}
            None => {
                missing_table.insert(table);
            }
        }
    }
    let mut report = String::new();
    for table in &missing_table {
        report.push_str(&format!("  staging table `{table}` has no entry in `origin`\n"));
    }
    for (table, cols) in &missing_col {
        report.push_str(&format!("  {table}: {} unmapped column(s): {}\n", cols.len(), cols.join(", ")));
    }
    assert!(
        report.is_empty(),
        "the epoch mapping does not cover every staging column the information schema reads:\n{report}"
    );
}

#[test]
fn referenced_pairs_are_sorted_and_distinct() {
    let pairs = referenced_pairs();
    for w in pairs.windows(2) {
        assert!(w[0] < w[1], "{:?} then {:?}", w[0], w[1]);
    }
    // A joined table resolves left first: `unique_id` of data_tests is read
    // from the nodes, and `kwargs` from the test detail.
    assert!(pairs.contains(&("nodes", "unique_id")));
    assert!(pairs.contains(&("test_metadata", "kwargs")));
    assert!(!pairs.contains(&("test_metadata", "unique_id")));
}

#[test]
fn the_mapping_answers_per_column() {
    assert_eq!(epoch_expr("nodes", "materialized"), Some(EpochExpr::Col("materialization")));
    assert_eq!(epoch_expr("run_results", "compiled"), Some(EpochExpr::Null));
    assert_eq!(epoch_expr("nodes", "no_such_column"), None);
    assert_eq!(epoch_expr("no_such_table", "unique_id"), None);
    assert!(is_json_text("macros", "meta"));
    assert!(is_json_text("nodes", "config"));
    assert!(!is_json_text("nodes", "unique_id"));
    assert!(!is_json_text("no_such_table", "meta"));
}

#[test]
fn origins_cover_the_staging_tables() {
    assert!(matches!(origin("node_columns"), Some(Origin::Custom)));
    assert!(matches!(origin("diagnostics"), Some(Origin::Empty)));
    assert!(origin("no_such_table").is_none());
    match origin("nodes") {
        Some(Origin::Relation { view, join: Some(j), .. }) => {
            assert_eq!(view, "epoch_parse_nodes");
            assert_eq!(j.view, "epoch_compile_nodes");
        }
        other => panic!("{other:?}"),
    }
}

#[test]
fn relation_views_name_their_supersession() {
    let rels = epoch_relations();
    assert_eq!(rels.len(), 14);
    let nodes = rels[0];
    let sql = nodes.create_view_sql("/meta");
    assert_eq!(
        sql,
        "CREATE OR REPLACE VIEW dbt_internal.epoch_parse_nodes AS\n\
         SELECT * EXCLUDE (filename, _epoch_rn) FROM (\n\
         \x20 SELECT *, ROW_NUMBER() OVER (\n\
         \x20   PARTITION BY unique_id\n\
         \x20   ORDER BY CAST(regexp_extract(filename, '_([0-9]+)\\.parquet$', 1) AS BIGINT) DESC\n\
         \x20 ) AS _epoch_rn\n\
         \x20 FROM read_parquet('/meta/parse/nodes/v1_*.parquet', union_by_name = true, filename = true)\n\
         ) WHERE _epoch_rn = 1"
    );
    let alive = rels.iter().find(|r| r.view == "epoch_parse_alive").unwrap();
    assert_eq!(
        alive.create_view_sql("/it's/"),
        "CREATE OR REPLACE VIEW dbt_internal.epoch_parse_alive AS\n\
         SELECT * EXCLUDE (filename) FROM read_parquet('/it''s/parse/alive.parquet', union_by_name = true, filename = true)"
    );
}

/// A group superseded by a newer epoch keeps none of its older rows.
#[test]
fn latest_group_supersedes_the_whole_group() {
    let rel = EpochRelation {
        view: "epoch_compile_columns",
        dir: "compile/columns",
        single_file: false,
        supersede: Supersede::LatestGroup("unique_id"),
    };
    let sql = rel.create_view_sql("/m");
    assert!(sql.contains("max(CAST(regexp_extract(filename, '_([0-9]+)\\.parquet$', 1) AS BIGINT)) OVER (PARTITION BY unique_id) AS _group_epoch"), "{sql}");
    assert!(sql.ends_with(") WHERE _epoch = _group_epoch"), "{sql}");
    assert!(sql.contains("read_parquet('/m/compile/columns/v1_*.parquet'"), "{sql}");
}

#[test]
fn paths_join_as_components() {
    assert_eq!(join_path_str("/a", "b"), "/a/b");
    assert_eq!(join_path_str("/a/", "b"), "/a/b");
    assert_eq!(join_path_str("", "b"), "b");
}

/// The output tables the mapping cannot express, pinned so the set can only
/// shrink.
#[test]
fn unmappable_tables_only_shrink() {
    const SKIPPED: &[&str] = &[];
    let unmappable = unmappable_tables().expect("unmappable_tables");
    let got: BTreeSet<&str> = unmappable.iter().map(String::as_str).collect();
    let want: BTreeSet<&str> = SKIPPED.iter().copied().collect();
    let new: Vec<&&str> = got.difference(&want).collect();
    assert!(new.is_empty(), "newly unmappable output tables: {new:?}");
    let fixed: Vec<&&str> = want.difference(&got).collect();
    assert!(fixed.is_empty(), "these tables are now covered — remove them from SKIPPED: {fixed:?}");
}

#[test]
fn generate_skips_the_tables_whose_relation_has_no_files() {
    let g = generate("/meta", &["epoch_parse_nodes", "epoch_parse_alive", "epoch_parse_generation"]).unwrap();
    assert!(g.sql.starts_with("-- dbt information schema v1, as views over the epoch files under\n-- /meta\n"));
    assert_eq!(g.statements[0], "CREATE SCHEMA IF NOT EXISTS dbt");
    assert!(g.statements.iter().any(|s| s.starts_with("CREATE OR REPLACE VIEW dbt.models AS")));
    assert!(g.skipped.contains(&"dbt_rt.run_results".to_string()));
    assert!(!g.skipped.contains(&"dbt.models".to_string()));
    for stmt in &g.statements {
        assert!(g.sql.contains(&format!("{stmt};\n")), "{stmt}");
    }
    let models = g.statements.iter().find(|s| s.starts_with("CREATE OR REPLACE VIEW dbt.models AS")).unwrap();
    assert!(models.contains("FROM dbt_internal.epoch_parse_nodes t\nLEFT JOIN") == false, "{models}");
    assert!(models.contains("WHERE t.unique_id IN (SELECT unique_id FROM dbt_internal.epoch_parse_alive)"), "{models}");
    assert!(models.ends_with("  AND t.resource_type IN ('model')"), "{models}");
}

#[test]
fn generate_with_every_relation_covers_every_table() {
    let all: Vec<&str> = epoch_relations().iter().map(|r| r.view).collect();
    let g = generate("/meta", &all).unwrap();
    assert!(g.skipped.is_empty(), "{:?}", g.skipped);
    let models = g.statements.iter().find(|s| s.starts_with("CREATE OR REPLACE VIEW dbt.models AS")).unwrap();
    assert!(models.contains("LEFT JOIN dbt_internal.epoch_compile_nodes j ON t.unique_id = j.unique_id"), "{models}");
    let dag = g.statements.iter().find(|s| s.starts_with("CREATE OR REPLACE VIEW dbt.dag_nodes AS")).unwrap();
    assert!(dag.contains("COALESCE(t.is_disabled = 0, TRUE)"), "{dag}");
    let project = g.statements.iter().find(|s| s.starts_with("CREATE OR REPLACE VIEW dbt.project AS")).unwrap();
    assert!(project.contains("CAST(1 AS BIGINT) AS \"schema_version\""), "{project}");
}

#[test]
fn a_relation_has_files_only_when_its_file_or_an_epoch_exists() {
    let rels = epoch_relations();
    let single = rels.iter().find(|r| r.single_file).expect("a single-file relation");
    assert!(single.has_files(true, &vec![]));
    assert!(!single.has_files(false, &vec!["v1_0.parquet".to_string()]));
    let dir = rels.iter().find(|r| !r.single_file).expect("an epoch directory");
    assert!(dir.has_files(false, &vec!["v1_0.parquet".to_string()]));
    assert!(dir.has_files(false, &vec!["notes.txt".to_string(), "v1_12.parquet".to_string()]));
    assert!(!dir.has_files(true, &vec![]));
    assert!(!dir.has_files(false, &vec!["v1_x.parquet".to_string(), "v2_0.parquet".to_string(), "v1_.parquet".to_string()]));
}

#[test]
fn every_table_is_either_viewed_or_skipped() {
    let tables = dbt_index_core::schema::info_schema().len();
    let present = ["epoch_parse_nodes", "epoch_parse_alive", "epoch_parse_generation"];
    let g = generate("/meta", &present).unwrap();
    // Three schema statements and one view per present relation come first.
    let views = g.statements.len() - 3 - present.len();
    assert_eq!(views + g.skipped.len(), tables);
    for name in &g.skipped {
        let head = format!("CREATE OR REPLACE VIEW {name} AS\n");
        assert!(!g.statements.iter().any(|s| s.starts_with(&head)), "{name} is both skipped and viewed");
    }
}
