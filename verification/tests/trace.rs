use dbt_index_core::listener::MacroDependencyListener;
use dbt_index_core::trace::{JinjaTraceListener, TraceLocation, location_display, shorten_macro_path};

fn loc(path: &str, line: u32, col: u32) -> TraceLocation {
    TraceLocation { file_path: path.to_string(), line_no: line, char_no: col }
}

#[test]
fn internal_macro_paths_lose_their_package_prefix() {
    assert_eq!(
        shorten_macro_path("dbt_internal_packages/dbt-adapters/macros/etc/statement.sql"),
        "etc/statement.sql"
    );
    assert_eq!(
        shorten_macro_path("/abs/target/dbt_internal_packages/dbt-snowflake/macros/a/b.sql"),
        "a/b.sql"
    );
    assert_eq!(shorten_macro_path("models/my_model.sql"), "models/my_model.sql");
    // The package directory without a macros directory is left alone.
    assert_eq!(
        shorten_macro_path("dbt_internal_packages/dbt-adapters/tests/x.sql"),
        "dbt_internal_packages/dbt-adapters/tests/x.sql"
    );
    // `/macros/` before the package prefix does not count.
    assert_eq!(
        shorten_macro_path("/macros/dbt_internal_packages/pkg/x.sql"),
        "/macros/dbt_internal_packages/pkg/x.sql"
    );
}

#[test]
fn a_location_is_path_line_column() {
    assert_eq!(location_display(&loc("models/a.sql", 3, 14)), "models/a.sql:3:14");
    assert_eq!(location_display(&loc("", 1, 2)), "<unknown>:1:2");
    assert_eq!(
        location_display(&loc("dbt_internal_packages/p/macros/m.sql", 10, 0)),
        "m.sql:10:0"
    );
}

#[test]
fn an_empty_trace_is_only_the_header() {
    let t = JinjaTraceListener::new();
    assert!(t.is_empty());
    assert_eq!(t.depth(), 0);
    assert_eq!(t.format_trace(), "Jinja macro call stack (most recent call last):\n\n");
}

#[test]
fn nested_calls_are_indented_with_their_call_sites() {
    let mut t = JinjaTraceListener::new();
    t.on_macro_execute_start("materialization_table", None, loc("dbt_internal_packages/dbt-adapters/macros/materializations/table.sql", 1, 1));
    t.on_macro_execute_start("statement", Some(loc("dbt_internal_packages/dbt-adapters/macros/materializations/table.sql", 20, 5)), loc("dbt_internal_packages/dbt-adapters/macros/etc/statement.sql", 2, 1));
    t.on_macro_execute_end();
    t.on_macro_execute_end();
    assert!(!t.is_empty());
    assert_eq!(t.depth(), 0);
    assert_eq!(
        t.format_trace(),
        "Jinja macro call stack (most recent call last):\n\n\
         materialization_table (materializations/table.sql:1:1)\n\n\
         \x20\x20statement (etc/statement.sql:2:1)\n\
         \x20\x20\x20\x20@ materializations/table.sql:20:5\n\n"
    );
}

#[test]
fn adjacent_repeats_collapse_with_a_count() {
    let mut t = JinjaTraceListener::new();
    for _ in 0..3 {
        t.on_macro_execute_start("ref", Some(loc("models/a.sql", 4, 2)), loc("macros/ref.sql", 1, 1));
        t.on_macro_execute_end();
    }
    // The same macro from another call site is a distinct call.
    t.on_macro_execute_start("ref", Some(loc("models/a.sql", 9, 2)), loc("macros/ref.sql", 1, 1));
    t.on_macro_execute_end();
    assert_eq!(
        t.format_trace(),
        "Jinja macro call stack (most recent call last):\n\n\
         ref \u{d7}3 (macros/ref.sql:1:1)\n  @ models/a.sql:4:2\n\n\
         ref (macros/ref.sql:1:1)\n  @ models/a.sql:9:2\n\n"
    );
}

#[test]
fn an_unmatched_end_keeps_the_depth_at_zero() {
    let mut t = JinjaTraceListener::new();
    t.on_macro_execute_end();
    assert_eq!(t.depth(), 0);
    t.on_macro_execute_start("a", None, loc("x.sql", 1, 1));
    assert_eq!(t.depth(), 1);
}

#[test]
fn macro_ids_are_sorted_deduplicated_and_prefixed() {
    let mut l = MacroDependencyListener::new();
    l.on_macro_dependency("my_project.b");
    l.on_macro_dependency("dbt.ref");
    l.on_macro_dependency("my_project.b");
    l.on_macro_dependency("my_project.a");
    assert_eq!(
        l.drain_macro_unique_ids(),
        vec!["macro.dbt.ref", "macro.my_project.a", "macro.my_project.b"]
    );
    // Drained: a second drain has nothing.
    assert!(l.drain_macro_unique_ids().is_empty());
}
