use dbt_index_core::parse_check::{
    BlockNameKind, MalformedBlockNameListener, PARSE_SAFE_VIEWS, WarningCode, expand_info_schema_view,
};

fn call(view: &str) -> Result<String, String> {
    expand_info_schema_view(Some(view))
}

#[test]
fn expands_every_parse_safe_view_to_the_dbt_schema() {
    for view in PARSE_SAFE_VIEWS {
        assert_eq!(
            call(view).unwrap_or_else(|e| panic!("{view} must expand, got {e}")),
            format!("dbt.{view}"),
        );
    }
}

#[test]
fn rejects_the_raw_tables_the_parse_safe_views_are_projected_from() {
    for raw in ["nodes", "test_metadata", "generation"] {
        let err = call(raw).expect_err("the raw table must be refused");
        assert!(err.contains("not available to a parse-time check"), "unexpected message for {raw}: {err}");
    }
}

#[test]
fn rejects_the_names_these_views_had_before_they_took_the_information_schema_s() {
    for renamed in ["tests", "operations", "columns", "docs"] {
        let err = call(renamed).expect_err("the old name must be refused");
        assert!(err.contains("not available to a parse-time check"), "unexpected message for {renamed}: {err}");
    }
}

#[test]
fn rejects_views_that_are_not_final_at_parse() {
    for later in [
        "column_lineage",
        "catalog_tables",
        "run_results",
        "generation",
        "classifiers",
        "semantic_relationships",
        "dag_nodes",
    ] {
        let err = call(later).expect_err("a later-phase view must be refused");
        assert!(err.contains("not available to a parse-time check"), "unexpected message for {later}: {err}");
    }
}

#[test]
fn rejects_names_that_could_inject_sql() {
    for bad in ["", "models; DROP TABLE x", "dbt.models", "a-b", "a b", "a'b", "MODELS"] {
        assert!(call(bad).is_err(), "expected {bad:?} to be rejected");
    }
}

#[test]
fn error_names_the_available_views() {
    let err = call("nope").expect_err("unknown view");
    assert!(err.contains("graph_nodes"), "should list what is available: {err}");
    assert!(err.contains("models"), "should list what is available: {err}");
}

#[test]
fn the_error_message_is_exact() {
    let err = call("nope").unwrap_err();
    assert_eq!(
        err,
        format!(
            "info_schema: 'nope' is not available to a parse-time check. Available views: {}",
            PARSE_SAFE_VIEWS.join(", ")
        )
    );
}

#[test]
fn a_missing_or_non_string_argument_is_an_error() {
    assert_eq!(
        expand_info_schema_view(None),
        Err("info_schema(view): first argument must be a view name string".to_string())
    );
}

fn warning_for(kind: BlockNameKind, name: &str) -> dbt_index_core::parse_check::BlockNameWarning {
    let listener = MalformedBlockNameListener::new("test.sql".to_string());
    listener.warning(kind, name, 3, 5, 17)
}

#[test]
fn malformed_snapshot_builds_warning() {
    let warning = warning_for(BlockNameKind::Snapshot, "stg_crm");
    assert_eq!(warning.code, WarningCode::MalformedBlockName);
    assert_eq!((warning.line, warning.col, warning.offset, warning.file.as_str()), (3, 5, 17, "test.sql"));
    assert!(warning.context.starts_with("Snapshot block name `stg_crm` is followed"));
}

#[test]
fn malformed_docs_builds_warning() {
    let warning = warning_for(BlockNameKind::Docs, "my_doc");
    assert_eq!(warning.code, WarningCode::MalformedBlockName);
    assert!(warning.context.starts_with("Docs block name `my_doc` is followed"));
    assert_eq!(
        warning.context,
        "Docs block name `my_doc` is followed by extra characters that dbt silently ignores. \
         Use a name that is a single valid identifier. This will become an error in a future release."
    );
}

#[test]
fn the_helper_and_the_views_differ_in_three_names() {
    let views: Vec<&str> = dbt_index_core::parse_safe::views().iter().map(|v| v.name).collect();
    for name in PARSE_SAFE_VIEWS {
        assert!(views.contains(&name) || name == "graph_nodes" || name == "checks", "{name}");
    }
    for name in &views {
        assert!(PARSE_SAFE_VIEWS.contains(name) || *name == "dag_nodes", "{name}");
    }
    assert!(call("dag_nodes").is_err());
}
