use dbt_index_core::catalog::{CatalogStatsRow, catalog_rows};
use dbt_index_core::ingest::{run_layer_has_new, run_layer_needs_full};
use dbt_index_core::text::decimal_i64;

fn row(id: Option<&str>, rc: Option<i64>, bytes: Option<i64>, lm: Option<&str>) -> CatalogStatsRow {
    CatalogStatsRow {
        unique_id: id.map(|s| s.to_string()),
        table_type: Some("BASE TABLE".to_string()),
        table_owner: None,
        database_name: Some("db".to_string()),
        schema_name: Some("sch".to_string()),
        table_name: Some("t".to_string()),
        row_count: rc,
        bytes,
        last_modified: lm.map(|s| s.to_string()),
    }
}

#[test]
fn each_row_gives_a_table_and_its_present_statistics() {
    let rows = vec![
        row(Some("model.p.a"), Some(42), None, Some("2026-01-01")),
        row(None, Some(1), Some(2), None),
        row(Some("model.p.b"), None, Some(-7), None),
    ];
    let (tables, stats) = catalog_rows(&rows);
    let ids: Vec<&str> = tables.iter().map(|t| t.unique_id.as_str()).collect();
    assert_eq!(ids, vec!["model.p.a", "model.p.b"]);
    assert_eq!(tables[0].table_type.as_deref(), Some("BASE TABLE"));
    assert_eq!(tables[0].table_owner, None);
    let got: Vec<(&str, &str, &str, &str)> =
        stats.iter().map(|s| (s.unique_id.as_str(), s.stat_id, s.stat_label, s.stat_value.as_str())).collect();
    assert_eq!(
        got,
        vec![
            ("model.p.a", "row_count", "Row Count", "42"),
            ("model.p.a", "last_modified", "Last Modified", "2026-01-01"),
            ("model.p.b", "bytes", "Bytes", "-7"),
        ]
    );
    assert!(stats.iter().all(|s| s.include_in_stats));
    assert_eq!(stats[2].description, "Table size in bytes from warehouse catalog");
}

#[test]
fn integers_print_as_to_string_does() {
    for n in [0i64, 9, 10, -1, 1234567890, i64::MAX, i64::MIN] {
        assert_eq!(decimal_i64(n), n.to_string());
    }
}

#[test]
fn catalog_statistics_reload_in_full_when_the_numbering_goes_back() {
    assert!(run_layer_needs_full(true, 3, 5));
    assert!(run_layer_needs_full(false, u32::MAX, 5));
    assert!(run_layer_needs_full(false, 6, 5));
    assert!(!run_layer_needs_full(false, 5, 5));
    assert!(!run_layer_needs_full(false, 4, 5));
}

#[test]
fn a_reread_layer_has_work_only_with_a_newer_epoch() {
    assert!(run_layer_has_new(true, &vec![], 3));
    assert!(run_layer_has_new(false, &vec![1, 4], 3));
    assert!(!run_layer_has_new(false, &vec![1, 3], 3));
}
