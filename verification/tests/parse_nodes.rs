use dbt_index_core::json_value::trim_model_payload;
use dbt_index_core::parse_nodes::{CompileFields, NodePayload, ParseNodeRow, extract_parse_nodes_batch, node_payload};

const NOW: &str = "2026-08-21T00:00:00+00:00";

fn row<'a>(uid: Option<&str>, rt: &str, payload: NodePayload<'a>) -> ParseNodeRow<'a> {
    ParseNodeRow {
        unique_id: uid.map(|s| s.to_string()),
        resource_type: Some(rt.to_string()),
        name: Some("n".to_string()),
        package_name: Some("pkg".to_string()),
        original_path: Some("models/n.sql".to_string()),
        description: None,
        database: Some("db".to_string()),
        schema: Some("main".to_string()),
        alias: Some("n_alias".to_string()),
        relation_name: None,
        identifier: None,
        materialization: Some("view".to_string()),
        access: None,
        group_name: None,
        source_name: None,
        tags: vec!["t".to_string()],
        fqn: vec!["pkg".to_string(), "n".to_string()],
        depends_on: vec![],
        ingested_at: None,
        is_disabled: None,
        payload,
    }
}

fn full(text: &str) -> NodePayload<'static> {
    NodePayload::Full(Some(text.to_string()))
}

#[test]
fn a_model_reads_its_contract_from_the_config_text() {
    let payload = r#"{"raw_code":"select 1","config":{"contract":{"enforced":true}},
        "__model_attr__":{"primary_key":["id",3,"k"],"access":"public","version":2},
        "__common_attr__":{"path":"n.sql","language":"sql","raw_code":"select 1","meta":{"a" : 1},
        "checksum":{"name":"sha256","checksum":"abc"}}}"#;
    let rows = vec![row(Some("model.pkg.n"), "model", NodePayload::Model(trim_model_payload(Some(payload))))];
    let mut seen = vec![];
    let out = extract_parse_nodes_batch(&rows, NOW, &vec![], false, &mut seen, None);
    assert_eq!(out.nodes.len(), 1);
    let n = &out.nodes[0];
    assert!(n.contract_enforced);
    assert_eq!(n.primary_key, vec!["id".to_string(), "k".to_string()]);
    assert_eq!(n.access_level.as_deref(), Some("public"));
    assert_eq!(n.version.as_deref(), Some("2"));
    assert_eq!(n.file_path, "n.sql");
    assert_eq!(n.node_language.as_deref(), Some("sql"));
    assert_eq!(n.checksum.as_deref(), Some("abc"));
    assert_eq!(n.meta.as_deref(), Some(r#"{"a":1}"#));
    // The trim drops `raw_code` from the common attributes, and a model's
    // payload keeps nothing else that holds it.
    assert_eq!(n.raw_code, None);
    // A model's config is kept as raw text, and published as a JSON string.
    assert_eq!(n.config.as_deref(), Some(r#""{\"contract\":{\"enforced\":true}}""#));
    assert_eq!(n.identifier.as_deref(), Some("n_alias"));
    assert_eq!(n.enabled, Some(true));
    assert_eq!(n.ingested_at, NOW);
    assert_eq!(n.database_name, "db");
    assert_eq!(n.fqn, vec!["pkg".to_string(), "n".to_string()]);
}

#[test]
fn a_contract_falls_back_to_the_model_attributes_and_the_payload() {
    let rows = vec![
        row(Some("a"), "model", full(r#"{"__model_attr__":{"contract":{"enforced":true}}}"#)),
        row(Some("b"), "model", full(r#"{"contract":{"enforced":true}}"#)),
        row(Some("c"), "model", full(r#"{"config":{"contract":{}},"contract":{"enforced":true}}"#)),
        row(Some("d"), "model", full(r#"{"config":"{\"contract\":{\"enforced\":true}}"}"#)),
        row(Some("e"), "model", full(r#"{"contract":{"enforced":"yes"}}"#)),
        row(Some("f"), "model", NodePayload::Full(None)),
    ];
    let mut seen = vec![];
    let out = extract_parse_nodes_batch(&rows, NOW, &vec![], false, &mut seen, None);
    let got: Vec<bool> = out.nodes.iter().map(|n| n.contract_enforced).collect();
    // The first `contract` found wins, even when it says nothing of `enforced`.
    assert_eq!(got, vec![true, true, false, true, false, false]);
}

#[test]
fn source_fields_come_from_the_column_then_the_source_attributes() {
    let mut r = row(
        Some("source.pkg.s.t"),
        "source",
        full(r#"{"__source_attr__":{"source_name":"raw","loader":"fivetran","identifier":"t_real"},"loaded_at_field":"_loaded"}"#),
    );
    r.alias = None;
    let mut with_col = row(Some("source.pkg.s.u"), "source", full(r#"{"__source_attr__":{"source_name":"raw"}}"#));
    with_col.source_name = Some("from_column".to_string());
    with_col.identifier = Some("ident".to_string());
    let mut seen = vec![];
    let out = extract_parse_nodes_batch(&vec![r, with_col], NOW, &vec![], false, &mut seen, None);
    assert_eq!(out.nodes[0].source_name.as_deref(), Some("raw"));
    assert_eq!(out.nodes[0].loader.as_deref(), Some("fivetran"));
    assert_eq!(out.nodes[0].loaded_at_field.as_deref(), Some("_loaded"));
    assert_eq!(out.nodes[0].identifier.as_deref(), Some("t_real"));
    assert_eq!(out.nodes[1].source_name.as_deref(), Some("from_column"));
    assert_eq!(out.nodes[1].identifier.as_deref(), Some("ident"));
}

#[test]
fn compiled_fields_join_by_id() {
    let compile = vec![(
        "model.pkg.n".to_string(),
        CompileFields {
            compiled_code: Some("select 1".to_string()),
            compiled_code_hash: Some("h".to_string()),
            compiled_path: None,
            grain: vec!["id".to_string()],
            grain_declared: vec![],
            grain_tested: vec![],
            classifiers: vec!["fact".to_string()],
            table_role: Some("fact".to_string()),
        },
    )];
    let rows = vec![row(Some("model.pkg.n"), "model", full("{}")), row(Some("model.pkg.m"), "model", full("{}"))];
    let mut seen = vec![];
    let out = extract_parse_nodes_batch(&rows, NOW, &compile, false, &mut seen, None);
    assert_eq!(out.nodes[0].compiled_code.as_deref(), Some("select 1"));
    assert_eq!(out.nodes[0].grain, vec!["id".to_string()]);
    assert_eq!(out.nodes[0].table_role.as_deref(), Some("fact"));
    assert_eq!(out.nodes[1].compiled_code, None);
    assert!(out.nodes[1].classifiers.is_empty());
}

#[test]
fn rows_are_read_once_alive_and_with_an_id() {
    let mut a = row(Some("model.pkg.a"), "model", full("{}"));
    a.depends_on = vec!["source.pkg.s".to_string(), "model.pkg.b".to_string()];
    a.ingested_at = Some("2026-01-01T00:00:00+00:00".to_string());
    let mut dup = row(Some("model.pkg.a"), "model", full("{}"));
    dup.depends_on = vec!["model.pkg.x".to_string()];
    let mac = row(Some("macro.pkg.m"), "macro", full("{}"));
    let dead = row(Some("model.pkg.dead"), "model", full("{}"));
    let keyless = row(None, "model", full("{}"));
    let old = row(Some("model.pkg.old"), "model", full("{}"));
    let rows = vec![a, dup, mac, dead, keyless, old];
    let alive = vec!["model.pkg.a".to_string(), "macro.pkg.m".to_string(), "model.pkg.old".to_string()];

    let mut seen = vec!["model.pkg.old".to_string()];
    let out = extract_parse_nodes_batch(&rows, NOW, &vec![], true, &mut seen, Some(&alive));
    let ids: Vec<&str> = out.nodes.iter().map(|n| n.unique_id.as_str()).collect();
    // Macros are read but are not nodes; the duplicate, the dead row, the
    // keyless row and the id already seen are not read.
    assert_eq!(ids, vec!["model.pkg.a"]);
    let edges: Vec<(&str, &str, &str, &str)> = out
        .edges
        .iter()
        .map(|e| (e.parent_unique_id.as_str(), e.child_unique_id.as_str(), e.edge_type.as_str(), e.ingested_at.as_str()))
        .collect();
    assert_eq!(
        edges,
        vec![
            ("source.pkg.s", "model.pkg.a", "ref", "2026-01-01T00:00:00+00:00"),
            ("model.pkg.b", "model.pkg.a", "ref", "2026-01-01T00:00:00+00:00"),
        ]
    );
    assert!(seen.contains(&"model.pkg.a".to_string()) && seen.contains(&"macro.pkg.m".to_string()));

    // Without dedup every alive row with an id is read, and `seen` is left alone.
    let mut untouched = vec![];
    let out = extract_parse_nodes_batch(&rows, NOW, &vec![], false, &mut untouched, None);
    assert_eq!(out.nodes.len(), 4);
    assert_eq!(out.edges.len(), 3);
    assert!(untouched.is_empty());
}

#[test]
fn a_data_test_publishes_its_metadata() {
    let payload = r#"{"__test_attr__":{"test_metadata":{"name":"unique","namespace":null,"kwargs":{"column_name": "id"}},
        "column_name":"id","attached_node":"model.pkg.n"},
        "config":{"severity":"warn"},"deprecated_config":{"warn_if":"!= 0","store_failures":true}}"#;
    let mut t = row(Some("test.pkg.unique_n_id"), "test", full(payload));
    t.ingested_at = Some("2026-02-02T00:00:00+00:00".to_string());
    let plain = row(Some("test.pkg.other"), "test", full(r#"{"test_metadata":{"name":"not_null"},"file_key_name":"models.n"}"#));
    let bare = row(Some("test.pkg.bare"), "test", full("{}"));
    let model = row(Some("model.pkg.n"), "model", full(r#"{"test_metadata":{"name":"x"}}"#));
    let mut seen = vec![];
    let out = extract_parse_nodes_batch(&vec![t, plain, bare, model], NOW, &vec![], false, &mut seen, None);
    assert_eq!(out.test_metadata.len(), 2, "only data tests with a metadata block");
    let m = &out.test_metadata[0];
    assert_eq!(m.unique_id, "test.pkg.unique_n_id");
    assert_eq!(m.test_name.as_deref(), Some("unique"));
    assert_eq!(m.test_namespace, None);
    assert_eq!(m.kwargs.as_deref(), Some(r#"{"column_name":"id"}"#));
    assert_eq!(m.column_name.as_deref(), Some("id"));
    assert_eq!(m.attached_node.as_deref(), Some("model.pkg.n"));
    assert_eq!(m.severity.as_deref(), Some("warn"));
    assert_eq!(m.warn_if.as_deref(), Some("!= 0"));
    assert_eq!(m.error_if, None);
    assert_eq!(m.store_failures, Some(true));
    assert_eq!(m.ingested_at, "2026-02-02T00:00:00+00:00");
    let o = &out.test_metadata[1];
    assert_eq!(o.test_name.as_deref(), Some("not_null"));
    assert_eq!(o.attached_node.as_deref(), Some("models.n"));
    assert_eq!(o.ingested_at, NOW);
    // Every test is still a node row.
    assert_eq!(out.nodes.len(), 4);
}

#[test]
fn a_model_payload_is_trimmed_and_any_other_parsed_whole() {
    let text = "{\"config\":{\"a\":1,\t\"b\":\"x\"},\"raw_code\":\"select 1\"}";
    match node_payload(Some("model"), Some(text)) {
        NodePayload::Model(tp) => {
            assert_eq!(tp.config, Some("{\"a\":1,\t\"b\":\"x\"}"));
            assert!(tp.model_attr.is_none() && tp.common_attr.is_none());
        }
        other => panic!("a model's payload is trimmed: {other:?}"),
    }
    match node_payload(Some("seed"), Some(text)) {
        NodePayload::Full(Some(t)) => assert_eq!(t, text),
        other => panic!("{other:?}"),
    }
    assert!(matches!(node_payload(Some("seed"), Some("{oops")), NodePayload::Full(None)));
    assert!(matches!(node_payload(None, None), NodePayload::Full(None)));

    // A model's raw config is published as a JSON string, control characters escaped.
    let rows = vec![row(Some("model.pkg.m"), "model", node_payload(Some("model"), Some(text)))];
    let mut seen = vec![];
    let out = extract_parse_nodes_batch(&rows, NOW, &vec![], false, &mut seen, None);
    assert_eq!(out.nodes[0].config.as_deref(), Some(r#""{\"a\":1,\t\"b\":\"x\"}""#));
}
