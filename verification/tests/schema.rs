//! Schema-level tests. These need no fixtures: the schema and the output types
//! are pure functions of the specification.

use std::collections::HashSet;

use dbt_index_core::index::has_column;
use dbt_index_core::project::out_schema;
use dbt_index_core::schema::{info_schema, source_tables, spec_for};
use dbt_index_core::spec::{ColTy, ColType, Ns, Src, c, n, r};
use dbt_index_core::views::views_sql;

/// Every column that claims a source must actually have one.
#[test]
fn every_source_column_resolves() {
    let mut missing = Vec::new();
    for table in info_schema() {
        for col in &table.cols {
            if col.ty.is_some() {
                continue;
            }
            let found = match table.src {
                Src::Table(t) => has_column(t, col.src),
                Src::Join { left, right, .. } => has_column(left, col.src) || has_column(right, col.src),
                Src::Own => false,
            };
            if !found {
                missing.push(format!("{}.{} <- {} ({:?})", table.qualified_name(), col.out, col.src, table.src));
            }
        }
    }
    assert!(missing.is_empty(), "columns with no resolvable source:\n  {}", missing.join("\n  "));
}

/// Assembled tables declare their own types.
#[test]
fn assembled_tables_declare_every_type() {
    for table in info_schema() {
        if !matches!(table.src, Src::Own) {
            continue;
        }
        for col in &table.cols {
            assert!(col.ty.is_some(), "{}.{} is assembled, so it must declare a type", table.qualified_name(), col.out);
        }
    }
}

#[test]
fn table_names_are_unique() {
    let mut seen = HashSet::new();
    for table in info_schema() {
        assert!(seen.insert(table.qualified_name()), "duplicate table {}", table.qualified_name());
    }
}

#[test]
fn column_names_are_unique_within_a_table() {
    for table in info_schema() {
        let mut seen = HashSet::new();
        for col in &table.cols {
            assert!(seen.insert(col.out), "{} declares {} twice", table.qualified_name(), col.out);
        }
    }
}

/// The output schema must be derivable for every table.
#[test]
fn output_schema_derives_for_every_table() {
    for table in info_schema() {
        let schema = out_schema(&table).unwrap_or_else(|e| panic!("{}: {}", table.qualified_name(), e.message()));
        assert_eq!(schema.len(), table.cols.len(), "{} field count", table.qualified_name());
        for (field, col) in schema.iter().zip(table.cols.iter()) {
            assert_eq!(field.0, col.out, "{} column order", table.qualified_name());
        }
    }
}

#[test]
fn output_types_come_from_the_source_or_the_declaration() {
    let models = spec_for(Ns::Dbt, "models").unwrap();
    let schema = out_schema(&models).unwrap();
    let ty = |name: &str| schema.iter().find(|f| f.0 == name).unwrap().1;
    assert_eq!(ty("fqn"), ColType::ListUtf8);
    assert_eq!(ty("enabled"), ColType::Boolean);
    assert_eq!(ty("access"), ColType::Utf8);
    assert_eq!(ty("ingested_at"), ColType::TimestampUtc);
    let project = spec_for(Ns::Dbt, "project").unwrap();
    let schema = out_schema(&project).unwrap();
    assert_eq!(schema[0], ("schema_version", ColTy::I64.data_type()));
}

#[test]
fn a_column_without_a_source_is_an_error() {
    let mut models = spec_for(Ns::Dbt, "models").unwrap();
    models.cols.push(r("nonsense", "no_such_column"));
    let err = out_schema(&models).unwrap_err();
    assert_eq!(
        err.message(),
        "info schema: dbt.models column 'nonsense' has no source column 'no_such_column'"
    );
}

/// Source-specific columns belong to `dbt.sources` and nowhere else.
#[test]
fn source_columns_live_only_on_sources() {
    const SOURCE_ONLY: &[&str] = &[
        "source_name",
        "source_description",
        "loader",
        "loaded_at_field",
        "loaded_at_query",
        "freshness",
        "external",
        "source_meta",
        "quoting",
    ];
    for table in info_schema() {
        if table.name == "sources" || table.name == "project" {
            continue;
        }
        for col in &table.cols {
            assert!(
                !SOURCE_ONLY.contains(&col.out),
                "{} must not carry the source-only column {}",
                table.qualified_name(),
                col.out
            );
        }
    }
}

/// Columns the schema retires must not survive anywhere under their old name.
#[test]
fn retired_columns_are_gone() {
    const RETIRED: &[&str] = &[
        "access_level",
        "group_name",
        "node_constraints",
        "patch_path",
        "table_role",
        "checksum",
        "compiled_at",
        "raw_code_hash",
        "extra_ctes",
        "file_path",
        "edge_type",
        "declared_type",
        "inferred_type",
        "catalog_type",
        "column_constraints",
        "catalog_comment",
        "lineage_kind",
        "test_namespace",
        "attached_node",
        "test_where",
        "test_limit",
        "kwargs",
        "block_contents",
        "git_is_dirty",
        "used_in",
        "depends_on_nodes",
        "depends_on_macros",
        "supported_languages",
        "project_id",
    ];
    for table in info_schema() {
        for col in &table.cols {
            if table.ns == Ns::DbtInternal || (table.name == "macros" && col.out == "depends_on_macros") {
                continue;
            }
            assert!(
                !RETIRED.contains(&col.out),
                "{} still exposes the retired column {}",
                table.qualified_name(),
                col.out
            );
        }
    }
}

/// `from_*`/`to_*` are retired on lineage but are the new names on semantic
/// relationships.
#[test]
fn lineage_uses_parent_child_naming() {
    let all = info_schema();
    let lineage = all.iter().find(|t| t.name == "column_lineage").expect("column_lineage");
    let names: Vec<&str> = lineage.cols.iter().map(|c| c.out).collect();
    for retired in ["from_node_unique_id", "from_column_name", "to_node_unique_id", "to_column_name"] {
        assert!(!names.contains(&retired), "column_lineage still has {retired}");
    }
    for expected in [
        "parent_node_unique_id",
        "parent_column_name",
        "child_node_unique_id",
        "child_column_name",
        "evolution",
    ] {
        assert!(names.contains(&expected), "column_lineage missing {expected}");
    }

    let rel = all.iter().find(|t| t.name == "semantic_relationships").expect("semantic_relationships");
    let names: Vec<&str> = rel.cols.iter().map(|c| c.out).collect();
    for expected in ["from_node_unique_id", "to_node_unique_id", "from_column_names", "to_column_names"] {
        assert!(names.contains(&expected), "semantic_relationships missing {expected}");
    }
}

/// `views.sql` must cover every table, in every namespace, exactly once.
#[test]
fn views_sql_covers_every_table() {
    let sql = views_sql();
    for ns in Ns::all() {
        assert!(
            sql.contains(&format!("CREATE SCHEMA IF NOT EXISTS {};", ns.prefix())),
            "missing schema {}",
            ns.prefix()
        );
    }
    for table in info_schema() {
        let stmt = format!(
            "CREATE OR REPLACE VIEW {} AS SELECT * FROM read_parquet('{}');",
            table.qualified_name(),
            table.file_name()
        );
        assert_eq!(sql.matches(&stmt).count(), 1, "expected exactly one view for {}", table.qualified_name());
    }
    assert!(sql.contains("dbt_rt.run_results_latest"));
}

#[test]
fn views_sql_groups_the_views_by_namespace() {
    let sql = views_sql();
    let models = sql.find("CREATE OR REPLACE VIEW dbt.models AS").unwrap();
    let runs = sql.find("CREATE OR REPLACE VIEW dbt_rt.run_results AS").unwrap();
    let files = sql.find("CREATE OR REPLACE VIEW dbt_internal.node_input_files AS").unwrap();
    assert!(models < runs && runs < files);
    assert!(sql.starts_with("-- dbt information schema. Generated; do not edit.\n"));
    assert!(sql.ends_with("ORDER BY created_at DESC) = 1;\n"));
}

/// Tables removed by the overhaul must not reappear.
#[test]
fn removed_tables_are_absent() {
    const REMOVED: &[&str] = &[
        "nodes",
        "generation",
        "catalog_tables",
        "catalog_stats",
        "column_stats",
        "sample_data",
        "context",
        "context_terms",
        "context_links",
        "nodes_enriched",
        "tests_enriched",
        "invocation_nodes",
        "test_failures",
        "dag_validity",
        "node_status",
        "test_metadata",
        "docs",
        "graph_nodes",
    ];
    for table in info_schema() {
        assert!(!REMOVED.contains(&table.name), "{} was removed by the overhaul", table.qualified_name());
    }
}

#[test]
fn spec_for_finds_by_namespace_and_name() {
    assert_eq!(spec_for(Ns::Dbt, "models").unwrap().qualified_name(), "dbt.models");
    assert_eq!(spec_for(Ns::DbtRt, "run_results").unwrap().file_name(), "dbt_rt.run_results.parquet");
    assert!(spec_for(Ns::Dbt, "run_results").is_none());
    assert!(spec_for(Ns::Dbt, "no_such_table").is_none());
}

#[test]
fn source_tables_are_sorted_and_distinct() {
    let tables = source_tables();
    for w in tables.windows(2) {
        assert!(w[0] < w[1], "{} then {}", w[0], w[1]);
    }
    assert!(tables.contains(&"nodes"));
    assert!(tables.contains(&"test_metadata"));
    assert!(!tables.contains(&"dag_nodes"));
}

#[test]
fn column_builders_build_what_they_say() {
    let a = c("name");
    assert_eq!((a.out, a.src, a.ty), ("name", "name", None));
    let b = r("access", "access_level");
    assert_eq!((b.out, b.src, b.ty), ("access", "access_level", None));
    let d = n("schema_version", ColTy::I64);
    assert_eq!((d.out, d.src, d.ty), ("schema_version", "", Some(ColTy::I64)));
}
