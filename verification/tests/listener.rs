use dbt_index_core::listener::{DagExtractListener, DefaultJinjaTypeCheckEventListenerFactory, YamlTypecheckingEventListener};

fn strings(v: &[&str]) -> Vec<String> {
    v.iter().map(|s| s.to_string()).collect()
}

fn check(factory: &mut DefaultJinjaTypeCheckEventListenerFactory, uid: &str, calls: &[&str], introspective: bool) {
    let mut l = factory.create_listener(uid);
    for c in calls {
        l.on_function_call(c);
    }
    if introspective {
        l.on_introspective_call();
    }
    factory.destroy_listener(l);
}

#[test]
fn a_finished_listener_is_folded_into_the_graph() {
    let mut f = DefaultJinjaTypeCheckEventListenerFactory::new();
    check(&mut f, "macro.p.b", &["macro.p.z", "macro.p.a", "macro.p.b", "macro.p.z"], false);
    check(&mut f, "macro.p.a", &["macro.p.c"], true);
    // A call of itself is not a dependency; repeats collapse; order is sorted.
    assert_eq!(f.get_macro_depends_on("macro.p.b"), strings(&["macro.p.a", "macro.p.z"]));
    assert_eq!(f.get_macro_depends_on("macro.p.a"), strings(&["macro.p.c"]));
    assert!(f.get_macro_depends_on("macro.p.none").is_empty());
    assert_eq!(f.direct_introspective(), strings(&["macro.p.a"]));
    let all = f.all_macro_depends_on();
    assert_eq!(
        all,
        vec![
            ("macro.p.a".to_string(), strings(&["macro.p.c"])),
            ("macro.p.b".to_string(), strings(&["macro.p.a", "macro.p.z"])),
        ]
    );
    assert_eq!(f.depends_on(), all);
}

#[test]
fn a_second_listener_for_the_same_macro_adds_to_its_entry() {
    let mut f = DefaultJinjaTypeCheckEventListenerFactory::new();
    check(&mut f, "m", &["b"], false);
    check(&mut f, "m", &["a", "b"], false);
    assert_eq!(f.get_macro_depends_on("m"), strings(&["a", "b"]));
}

#[test]
fn a_renamed_macro_takes_its_dependencies_and_mark_along() {
    let mut f = DefaultJinjaTypeCheckEventListenerFactory::new();
    check(&mut f, "old", &["x"], true);
    check(&mut f, "new", &["y"], false);
    f.update_unique_id("old", "new");
    assert!(f.get_macro_depends_on("old").is_empty());
    assert_eq!(f.get_macro_depends_on("new"), strings(&["x"]), "the old entry replaces the new id's");
    assert_eq!(f.direct_introspective(), strings(&["new"]));
    // Renaming an unknown macro changes nothing.
    f.update_unique_id("ghost", "other");
    assert_eq!(f.all_macro_depends_on(), vec![("new".to_string(), strings(&["x"]))]);
    assert_eq!(f.direct_introspective(), strings(&["new"]));
}

#[test]
fn a_listener_records_its_calls_in_order() {
    let mut l = DagExtractListener::new("m");
    l.on_function_call("a");
    l.on_function_call("m");
    l.on_introspective_call();
    let mut f = DefaultJinjaTypeCheckEventListenerFactory::new();
    f.destroy_listener(l);
    assert_eq!(f.get_macro_depends_on("m"), strings(&["a"]));
    assert_eq!(f.direct_introspective(), strings(&["m"]));
}

#[test]
fn yaml_diagnostics_sit_at_the_template_span_and_drain_once() {
    let mut l = YamlTypecheckingEventListener::new("models/schema.yml".to_string(), 12, 4, 301);
    l.warn_filter("unknown filter `upperr`");
    l.warn_filter("second");
    let ds = l.drain_diagnostics();
    let got: Vec<(&str, &str, u32, u32, u32)> =
        ds.iter().map(|d| (d.message.as_str(), d.file.as_str(), d.line, d.col, d.offset)).collect();
    assert_eq!(
        got,
        vec![
            ("unknown filter `upperr`", "models/schema.yml", 12, 4, 301),
            ("second", "models/schema.yml", 12, 4, 301),
        ]
    );
    assert!(l.drain_diagnostics().is_empty());
}
