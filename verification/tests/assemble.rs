use dbt_index_core::assemble::{
    NodeRow, ProjectVarRow, SideRow, VarEntry, VarSourceRow, build_dag_nodes, build_project_vars, internal_packages,
    overlay_vars, parse_var_map, split_scoped_vars,
};

const TS: i64 = 1_787_270_400_000_000;

fn node(id: &str, ty: &str) -> NodeRow {
    NodeRow { unique_id: Some(id.to_string()), resource_type: Some(ty.to_string()), enabled: Some(true), ingested_at: Some(TS) }
}

fn side(id: &str) -> SideRow {
    SideRow { unique_id: Some(id.to_string()), enabled: None, ingested_at: Some(TS) }
}

/// `dag_nodes` covers resource types that never reach the node set, skips
/// disabled resources, and skips types that are not part of the DAG.
#[test]
fn dag_nodes_spans_the_whole_graph() {
    let mut disabled = node("model.pkg.off", "model");
    disabled.enabled = Some(false);
    let nodes = vec![node("model.pkg.a", "model"), node("seed.pkg.s", "seed"), node("macro.pkg.m", "macro"), disabled];
    let exposures = vec![side("exposure.pkg.dash")];
    let rows = build_dag_nodes(&nodes, &exposures, &vec![], &vec![]);
    let ids: Vec<&str> = rows.iter().map(|r| r.unique_id.as_str()).collect();
    assert!(ids.contains(&"model.pkg.a"));
    assert!(ids.contains(&"seed.pkg.s"));
    assert!(ids.contains(&"exposure.pkg.dash"), "side tables must be included");
    assert!(!ids.contains(&"macro.pkg.m"), "macros are not DAG nodes");
    assert!(!ids.contains(&"model.pkg.off"), "disabled nodes are not DAG nodes");
}

#[test]
fn dag_rows_keep_source_order_types_and_stamps() {
    let nodes = vec![
        NodeRow { unique_id: Some("test.p.t".into()), resource_type: Some("test".into()), enabled: None, ingested_at: None },
        NodeRow { unique_id: None, resource_type: Some("model".into()), enabled: None, ingested_at: Some(1) },
        NodeRow { unique_id: Some("model.p.x".into()), resource_type: None, enabled: None, ingested_at: Some(1) },
    ];
    let metrics = vec![side("metric.p.m"), SideRow { unique_id: Some("metric.p.off".into()), enabled: Some(false), ingested_at: None }];
    let units = vec![SideRow { unique_id: Some("unit_test.p.u".into()), enabled: Some(true), ingested_at: None }];
    let rows = build_dag_nodes(&nodes, &vec![], &metrics, &units);
    let got: Vec<(&str, &str, i64)> =
        rows.iter().map(|r| (r.unique_id.as_str(), r.resource_type.as_str(), r.ingested_at)).collect();
    assert_eq!(got, vec![("test.p.t", "test", 0), ("metric.p.m", "metric", TS), ("unit_test.p.u", "unit_test", 0)]);
}

#[test]
fn internal_packages_follow_the_adapter() {
    assert_eq!(internal_packages(Some("duckdb")), vec!["dbt_duckdb", "dbt"]);
    assert_eq!(internal_packages(Some("redshift")), vec!["dbt_redshift", "dbt_postgres", "dbt"]);
    assert_eq!(internal_packages(Some("databricks")), vec!["dbt_databricks", "dbt_spark", "dbt"]);
    assert_eq!(internal_packages(None), vec!["dbt"]);
}

fn scalar(name: &str, rendered: &str) -> VarEntry {
    VarEntry { name: name.to_string(), rendered: rendered.to_string(), members: None }
}

fn object(name: &str, rendered: &str, members: &[(&str, &str)]) -> VarEntry {
    VarEntry {
        name: name.to_string(),
        rendered: rendered.to_string(),
        members: Some(members.iter().map(|(k, v)| (k.to_string(), v.to_string())).collect()),
    }
}

fn triples(rows: &[ProjectVarRow]) -> Vec<(String, String, String)> {
    rows.iter().map(|r| (r.project_name.clone(), r.var_name.clone(), r.var_value.clone())).collect()
}

/// `project_vars` is one row per (project, variable), and the adapter's
/// built-in packages are left out.
#[test]
fn project_vars_is_one_row_per_project_and_variable() {
    // The source keys each package's whole variable map by package name.
    let vars = || Some("{\"region\":\"emea\",\"retention_days\":90}".to_string());
    let source = vec![
        VarSourceRow { package: Some("pkg".into()), var_value: vars(), ingested_at: Some(TS) },
        VarSourceRow { package: Some("dbt".into()), var_value: vars(), ingested_at: Some(TS) },
        VarSourceRow { package: Some("dbt_duckdb".into()), var_value: vars(), ingested_at: Some(TS) },
    ];
    let rows = build_project_vars(Some("duckdb"), &vec![], &source);
    assert_eq!(rows.len(), 2, "one row per variable, built-in packages skipped");
    for row in &rows {
        assert_eq!(row.project_name, "pkg");
        assert_eq!(row.ingested_at, TS);
    }
    let region = rows.iter().find(|r| r.var_name == "region").unwrap();
    assert_eq!(region.var_value, "emea");
    let retention = rows.iter().find(|r| r.var_name == "retention_days").unwrap();
    assert_eq!(retention.var_value, "90");
}

/// A nested vars block whose key is an installed package is a scope, not a
/// variable: the parent's scalars are inherited and the nested map overlays
/// them. An object whose key is not installed stays an object-valued variable.
#[test]
fn project_vars_inherits_into_installed_package_scopes() {
    let packages = vec![Some("my_project".to_string()), Some("dbt_utils".to_string()), None];
    let source = vec![VarSourceRow {
        package: Some("my_project".into()),
        var_value: Some(
            r#"{"region":"emea","retention_days":90,"dbt_utils":{"region":"apac"},"uninstalled":{"foo":1}}"#.to_string(),
        ),
        ingested_at: Some(TS),
    }];
    let got = triples(&build_project_vars(Some("duckdb"), &packages, &source));
    let t = |p: &str, n: &str, v: &str| (p.to_string(), n.to_string(), v.to_string());
    assert!(got.contains(&t("my_project", "region", "emea")));
    assert!(got.contains(&t("my_project", "retention_days", "90")));
    assert!(got.contains(&t("dbt_utils", "region", "apac")));
    assert!(got.contains(&t("dbt_utils", "retention_days", "90")));
    assert!(got.contains(&t("my_project", "uninstalled", "{\"foo\":1}")));
    assert!(
        !got.iter().any(|(p, n, _)| p == "my_project" && n == "dbt_utils"),
        "installed nested maps are scopes, not variables on the parent"
    );
    assert_eq!(
        got,
        vec![
            t("my_project", "region", "emea"),
            t("my_project", "retention_days", "90"),
            t("my_project", "uninstalled", "{\"foo\":1}"),
            t("dbt_utils", "region", "apac"),
            t("dbt_utils", "retention_days", "90"),
            t("dbt_utils", "uninstalled", "{\"foo\":1}"),
        ]
    );
}

#[test]
fn rows_without_a_package_or_an_object_map_add_nothing() {
    let source = vec![
        VarSourceRow { package: None, var_value: Some("{\"a\":1}".into()), ingested_at: None },
        VarSourceRow { package: Some("p".into()), var_value: None, ingested_at: None },
        VarSourceRow { package: Some("p".into()), var_value: Some("[1, 2]".into()), ingested_at: None },
        VarSourceRow { package: Some("p".into()), var_value: Some("not json".into()), ingested_at: None },
        VarSourceRow { package: Some("p".into()), var_value: Some("{\"b\":2}".into()), ingested_at: None },
    ];
    let got = build_project_vars(None, &vec![], &source);
    assert_eq!(triples(&got), vec![("p".to_string(), "b".to_string(), "2".to_string())]);
    assert_eq!(got[0].ingested_at, 0);
}

#[test]
fn a_scope_naming_an_internal_package_is_dropped() {
    let packages = vec![Some("dbt".to_string())];
    let source = vec![VarSourceRow {
        package: Some("p".into()),
        var_value: Some("{\"dbt\":{\"x\":1},\"y\":2}".into()),
        ingested_at: None,
    }];
    let got = triples(&build_project_vars(Some("postgres"), &packages, &source));
    assert_eq!(got, vec![("p".to_string(), "y".to_string(), "2".to_string())]);
}

#[test]
fn scopes_split_only_on_installed_packages() {
    let vars = vec![object("a", "{}", &[]), object("b", "{\"k\":\"v\"}", &[("k", "v")]), scalar("c", "true")];
    let (scalars, scopes) = split_scoped_vars(&vars, &vec!["b".to_string()]);
    assert_eq!(scalars, vec![("a".to_string(), "{}".to_string()), ("c".to_string(), "true".to_string())]);
    assert_eq!(scopes, vec![("b".to_string(), vec![("k".to_string(), "v".to_string())])]);
}

#[test]
fn an_overlay_takes_the_scope_value_and_keeps_key_order() {
    let p = |k: &str, v: &str| (k.to_string(), v.to_string());
    let parent = vec![p("a", "1"), p("c", "3"), p("e", "5")];
    let nested = vec![p("b", "20"), p("c", "30"), p("f", "60")];
    assert_eq!(overlay_vars(&parent, &nested), vec![p("a", "1"), p("b", "20"), p("c", "30"), p("e", "5"), p("f", "60")]);
    assert_eq!(overlay_vars(&parent, &vec![]), parent);
    assert_eq!(overlay_vars(&vec![], &nested), nested);
}

#[test]
fn a_var_map_renders_strings_bare_and_the_rest_as_json() {
    let got = parse_var_map(r#"{"s":"text","n":1.5,"b":false,"l":[1,"a"],"o":{"k":"v","m":2}}"#).unwrap();
    let view: Vec<(String, String, Option<Vec<(String, String)>>)> =
        got.into_iter().map(|e| (e.name, e.rendered, e.members)).collect();
    let p = |k: &str, v: &str| (k.to_string(), v.to_string());
    assert_eq!(
        view,
        vec![
            ("b".to_string(), "false".to_string(), None),
            ("l".to_string(), "[1,\"a\"]".to_string(), None),
            ("n".to_string(), "1.5".to_string(), None),
            ("o".to_string(), "{\"k\":\"v\",\"m\":2}".to_string(), Some(vec![p("k", "v"), p("m", "2")])),
            ("s".to_string(), "text".to_string(), None),
        ]
    );
    assert!(parse_var_map("[1]").is_none());
    assert!(parse_var_map("{").is_none());
    assert_eq!(parse_var_map("{}").map(|v| v.len()), Some(0));
}
