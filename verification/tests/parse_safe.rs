//! Tests for the parse-safe views. Like the schema tests, these need no
//! fixtures: the views are a pure function of the view list and the
//! information schema.

use std::collections::HashSet;

use dbt_index_core::index::{has_column, is_dbt_table};
use dbt_index_core::parse_safe::{BASE_SCHEMA, ParseSafeView, base_tables, views};
use dbt_index_core::schema::{dag_resource_types, spec_for};
use dbt_index_core::spec::{Filter, Ns, Src};

/// Source columns that exist in the index but hold nothing usable at parse, by
/// table, named by source column.
const DEAD_AT_PARSE: &[(&str, &[&str])] = &[
    (
        "nodes",
        &[
            "compiled_code",
            "compiled_code_hash",
            "compiled_path",
            "compiled_at",
            "extra_ctes",
            "search_text",
            "raw_code_hash",
            "grain",
            "grain_declared",
            "grain_tested",
            "grain_inferred",
            "table_role",
            "classifiers",
            "incremental_strategy",
            "on_schema_change",
            "unique_key",
            "full_refresh",
            "persist_docs",
            "pre_hook",
            "post_hook",
            "grants",
            "node_constraints",
            "docs_show",
            "time_spine",
            "ai_context",
            "loaded_at_query",
            "freshness",
            "external_config",
            "source_meta",
            "quoting",
        ],
    ),
    (
        "node_columns",
        &[
            "inferred_type",
            "catalog_type",
            "data_type",
            "catalog_comment",
            "classifiers",
            "column_index",
            "label",
            "expression",
            "quote",
            "granularity",
            "meta",
            "column_constraints",
            "tests",
        ],
    ),
    ("test_metadata", &["test_where", "test_limit"]),
    ("project", &["project_id", "description", "quoting", "ai_context"]),
    ("packages", &["package_source", "version", "git_url", "git_revision", "local_path"]),
    ("groups", &["package_name", "file_path", "original_file_path", "config"]),
    ("exposures", &["meta", "config"]),
    ("metrics", &["semantic_model_name", "ai_context"]),
    ("saved_queries", &["config"]),
    ("unit_tests", &["config", "created_at"]),
    ("semantic_models", &["package_name", "file_path", "original_file_path", "config"]),
    ("semantic_entities", &["config"]),
    ("semantic_measures", &["config"]),
    ("semantic_dimensions", &["config"]),
];

/// Resolve a view's columns to the source column each one reads.
fn source_columns(view: &ParseSafeView) -> Vec<(&'static str, &'static str)> {
    let spec = spec_for(Ns::Dbt, view.vocabulary)
        .unwrap_or_else(|| panic!("{}: unknown vocabulary '{}'", view.name, view.vocabulary));
    view.cols
        .iter()
        .map(|out| {
            let col = spec
                .cols
                .iter()
                .find(|c| c.out == *out)
                .unwrap_or_else(|| panic!("{}: '{out}' is not in '{}'", view.name, spec.name));
            (*out, if col.src.is_empty() { col.out } else { col.src })
        })
        .collect()
}

/// Every column a view exposes is a column of the information-schema table it
/// claims to mirror, spelled the same way.
#[test]
fn every_column_is_an_information_schema_column() {
    for view in views() {
        source_columns(&view);
    }
}

/// The source column each output name resolves to has to be in the index.
#[test]
fn every_source_column_exists_in_the_index() {
    for view in views() {
        for (out, src) in source_columns(&view) {
            let found = view.base_tables().iter().any(|t| has_column(t, src));
            assert!(found, "{}.{out} reads '{src}', which is in none of {:?}", view.name, view.base_tables());
        }
    }
}

/// Zero rows is a pass, so exposing a column that is empty at parse turns a
/// check into a silent no-op.
#[test]
fn no_view_exposes_a_column_that_is_empty_at_parse() {
    for view in views() {
        for (out, src) in source_columns(&view) {
            for (table, dead) in DEAD_AT_PARSE {
                if view.base_tables().contains(table) {
                    assert!(
                        !dead.contains(&src),
                        "{}.{out} exposes {table}.{src}, which holds nothing at parse",
                        view.name,
                    );
                }
            }
        }
    }
}

/// A dead column has to be dead in the index, not merely absent from a view.
#[test]
fn the_excluded_columns_still_exist_in_the_index() {
    for (table, dead) in DEAD_AT_PARSE {
        for col in *dead {
            assert!(has_column(table, col), "{table}.{col} is gone; drop it from the exclusion list");
        }
    }
}

#[test]
fn view_names_are_unique() {
    let mut seen = HashSet::new();
    for view in views() {
        assert!(seen.insert(view.name), "duplicate view '{}'", view.name);
    }
}

/// Only the tables the ingest actually writes can be registered.
#[test]
fn base_tables_are_index_tables() {
    for table in base_tables() {
        assert!(is_dbt_table(table), "'{table}' is not a table of the index");
    }
}

#[test]
fn base_tables_are_sorted_and_distinct() {
    let tables = base_tables();
    for w in tables.windows(2) {
        assert!(w[0] < w[1]);
    }
    for table in ["nodes", "test_metadata", "exposures", "metrics", "unit_tests", "edges"] {
        assert!(tables.contains(&table), "{table}");
    }
}

/// One view is pinned in full: the rename to `access`, a quoted keyword
/// (`group`), and the resource-type filter.
#[test]
fn projected_view_sql() {
    let all = views();
    let models = all.iter().find(|v| v.name == "models").unwrap();
    assert_eq!(
        models.create_view_sql().unwrap(),
        [
            r#"CREATE OR REPLACE VIEW dbt."models" AS SELECT "#,
            r#"t."unique_id" AS "unique_id", t."name" AS "name", "#,
            r#"t."resource_type" AS "resource_type", t."package_name" AS "package_name", "#,
            r#"t."original_file_path" AS "original_file_path", t."fqn" AS "fqn", "#,
            r#"t."alias" AS "alias", t."description" AS "description", "#,
            r#"t."node_language" AS "node_language", t."raw_code" AS "raw_code", "#,
            r#"t."database_name" AS "database_name", t."schema_name" AS "schema_name", "#,
            r#"t."relation_name" AS "relation_name", t."identifier" AS "identifier", "#,
            r#"t."enabled" AS "enabled", t."materialized" AS "materialized", "#,
            r#"t."config" AS "config", t."access_level" AS "access", "#,
            r#"t."group_name" AS "group", t."contract_enforced" AS "contract_enforced", "#,
            r#"t."version" AS "version", t."latest_version" AS "latest_version", "#,
            r#"t."deprecation_date" AS "deprecation_date", t."primary_key" AS "primary_key", "#,
            r#"t."patch_path" AS "properties_yml_file_path", t."tags" AS "tags", "#,
            r#"t."meta" AS "meta", t."ingested_at" AS "ingested_at" "#,
            r#"FROM dbt_internal."nodes" AS t WHERE t."resource_type" IN ('model')"#,
        ]
        .concat(),
    );
}

/// The joined view resolves each column against the side that has it, left
/// first.
#[test]
fn joined_view_sql_resolves_each_side() {
    let all = views();
    let tests = all.iter().find(|v| v.name == "data_tests").unwrap();
    let sql = tests.create_view_sql().unwrap();
    assert!(
        sql.contains(r#"FROM dbt_internal."nodes" AS l LEFT JOIN dbt_internal."test_metadata" AS r ON l."unique_id" = r."unique_id""#),
        "{sql}",
    );
    assert!(sql.contains(r#"l."unique_id" AS "unique_id""#), "{sql}");
    assert!(sql.contains(r#"l."ingested_at" AS "ingested_at""#), "{sql}");
    assert!(sql.contains(r#"r."attached_node" AS "node_unique_id""#), "{sql}");
    assert!(sql.contains(r#"r."kwargs" AS "arguments""#), "{sql}");
}

/// Every view reads the base schema, never `dbt`.
#[test]
fn views_read_only_the_base_schema() {
    for view in views() {
        let sql = view.create_view_sql().unwrap();
        let (_, from) = sql.split_once(" FROM ").expect("a view selects from something");
        for table in view.base_tables() {
            assert!(
                from.contains(&format!("{BASE_SCHEMA}.\"{table}\"")),
                "{}: expected {BASE_SCHEMA}.{table} in: {from}",
                view.name,
            );
        }
    }
}

/// Every view name is a table in the information schema, and borrows no other
/// table's columns.
#[test]
fn every_view_mirrors_an_information_schema_table() {
    for view in views() {
        assert_eq!(view.name, view.vocabulary, "{} borrows another table's columns; give it its own", view.name);
        assert!(spec_for(Ns::Dbt, view.name).is_some(), "the information schema has no '{}' table", view.name);
    }
}

/// `dag_nodes` is the one view assembled rather than projected.
#[test]
fn dag_nodes_is_the_only_assembled_view() {
    let assembled: Vec<_> = views().into_iter().filter(|v| matches!(v.src, Src::Own)).map(|v| v.name).collect();
    assert_eq!(assembled, vec!["dag_nodes"]);
}

/// The union, pinned: node rows filtered to DAG types, then one arm per side
/// table with its resource type as a literal.
#[test]
fn assembled_view_sql() {
    let all = views();
    let dag = all.iter().find(|v| v.name == "dag_nodes").unwrap();
    let sql = dag.create_view_sql().unwrap();
    for expected in [
        r#"CREATE OR REPLACE VIEW dbt."dag_nodes" AS"#,
        r#"FROM dbt_internal."nodes" AS t WHERE COALESCE(t."enabled", TRUE) AND t."resource_type" IN ("#,
        r#"UNION ALL SELECT t."unique_id" AS "unique_id", 'exposure' AS "resource_type""#,
        r#"FROM dbt_internal."exposures" AS t WHERE COALESCE(t."enabled", TRUE)"#,
        r#"'metric' AS "resource_type""#,
        r#"'unit_test' AS "resource_type""#,
    ] {
        assert!(sql.contains(expected), "missing {expected}\nin: {sql}");
    }
    for ty in dag_resource_types() {
        assert!(sql.contains(&format!("'{ty}'")), "{ty} not in: {sql}");
    }
}

#[test]
fn a_view_of_an_unknown_vocabulary_is_refused() {
    let view = ParseSafeView {
        name: "nope",
        vocabulary: "nope",
        src: Src::Table("nodes"),
        filter: Filter::All,
        cols: vec!["unique_id"],
    };
    assert_eq!(
        view.create_view_sql().unwrap_err().message(),
        "parse-safe view 'nope': no information-schema table named 'nope'"
    );
}

#[test]
fn a_column_outside_the_vocabulary_is_refused() {
    let view = ParseSafeView {
        name: "models",
        vocabulary: "models",
        src: Src::Table("nodes"),
        filter: Filter::All,
        cols: vec!["unique_id", "compiled_nonsense"],
    };
    assert_eq!(
        view.create_view_sql().unwrap_err().message(),
        "parse-safe view 'models': 'compiled_nonsense' is not a column of 'models'"
    );
}

#[test]
fn a_join_column_on_neither_side_is_refused() {
    let view = ParseSafeView {
        name: "data_tests",
        vocabulary: "data_tests",
        src: Src::Join { left: "groups", right: "docs", left_on: "unique_id", right_on: "unique_id" },
        filter: Filter::All,
        cols: vec!["unique_id", "test_name"],
    };
    assert_eq!(
        view.create_view_sql().unwrap_err().message(),
        "parse-safe view 'data_tests': neither 'groups' nor 'docs' has a column 'test_name'"
    );
}
