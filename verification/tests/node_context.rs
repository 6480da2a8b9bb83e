use dbt_index_core::node_context::{
    HookItem, NodeKind, ThisRelation, doc_package_search_order, model_paths_for_package, parse_hook_item, this_relation,
    uses_deferred,
};

fn strings(v: &[&str]) -> Vec<String> {
    v.iter().map(|s| s.to_string()).collect()
}

#[test]
fn this_binds_by_identity_for_ordinary_models() {
    assert_eq!(this_relation(NodeKind::Model, "barbers", false), ThisRelation::OwnLookup);
    assert_eq!(this_relation(NodeKind::Model, "barbers", true), ThisRelation::Built, "ephemeral models build their own");
    assert_eq!(this_relation(NodeKind::Model, "__repl__", false), ThisRelation::Built);
    assert_eq!(this_relation(NodeKind::UnitTest, "t", false), ThisRelation::FirstRef);
    assert_eq!(this_relation(NodeKind::Other, "s", true), ThisRelation::Built);
}

#[test]
fn a_deferred_relation_is_used_only_when_rendering_is_unsafe() {
    assert!(uses_deferred(true, true, false));
    assert!(uses_deferred(true, false, true));
    assert!(!uses_deferred(true, false, false));
    assert!(!uses_deferred(false, true, true));
}

#[test]
fn model_paths_come_from_the_package_config_or_default() {
    let deps = vec![("dep".to_string(), strings(&["src_models"])), ("bare".to_string(), vec![])];
    assert_eq!(model_paths_for_package("root", &strings(&["m1", "m2"]), &deps, "root"), strings(&["m1", "m2"]));
    assert_eq!(model_paths_for_package("root", &strings(&["m1"]), &deps, "dep"), strings(&["src_models"]));
    assert_eq!(model_paths_for_package("root", &strings(&["m1"]), &deps, "bare"), strings(&["models"]));
    assert_eq!(model_paths_for_package("root", &vec![], &deps, "root"), strings(&["models"]));
    assert_eq!(model_paths_for_package("root", &strings(&["m1"]), &deps, "unknown"), strings(&["models"]));
}

#[test]
fn hooks_run_in_the_transaction_unless_they_say_otherwise() {
    let h = parse_hook_item(&HookItem::Text("grant select".to_string())).unwrap();
    assert_eq!((h.sql.as_str(), h.transaction), ("grant select", true));
    let h = parse_hook_item(&HookItem::Mapping { sql: Some("vacuum".to_string()), transaction: Some(false) }).unwrap();
    assert_eq!((h.sql.as_str(), h.transaction), ("vacuum", false));
    let h = parse_hook_item(&HookItem::Mapping { sql: Some("analyze".to_string()), transaction: None }).unwrap();
    assert!(h.transaction);
    assert!(parse_hook_item(&HookItem::Mapping { sql: None, transaction: Some(true) }).is_none());
    assert!(parse_hook_item(&HookItem::Other).is_none());
}

#[test]
fn docs_search_the_root_project_before_the_node_package() {
    assert_order("root", "dep", &["root", "dep"]);
    assert_order("root", "root", &["root"]);
}

fn assert_order(root: &str, node: &str, want: &[&str]) {
    assert_eq!(doc_package_search_order(root, node), strings(want));
}
