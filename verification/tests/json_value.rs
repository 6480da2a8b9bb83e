use dbt_index_core::assemble::parse_var_map;
use dbt_index_core::json_value::trim_model_payload;

/// The members of a JSON object, each value rendered (a string bare).
fn members_of(text: &str) -> Vec<(String, String)> {
    parse_var_map(text).expect("an object").into_iter().map(|e| (e.name, e.rendered)).collect()
}

fn keys(members: &[(String, String)]) -> Vec<&str> {
    members.iter().map(|(k, _)| k.as_str()).collect()
}

fn member<'a>(members: &'a [(String, String)], key: &str) -> Option<&'a str> {
    members.iter().find(|(k, _)| k == key).map(|(_, v)| v.as_str())
}

#[test]
fn the_model_trim_keeps_what_the_row_builders_read() {
    let payload = r#"{"raw_code":"select 1","config":{"materialized":"view"},
            "__model_attr__":{"contract":{"enforced":true},"primary_key":["id"],
            "time_spine":{"standard_granularity_column":"d"},"other":"kept too"}}"#;
    let trimmed = trim_model_payload(Some(payload));
    assert_eq!(trimmed.config, Some(r#"{"materialized":"view"}"#));
    let ma = members_of(trimmed.model_attr.expect("model attr"));
    assert!(member(&ma, "contract").is_some());
    assert!(member(&ma, "primary_key").is_some());
    assert!(member(&ma, "time_spine").is_some());
    // Whole-object, so an attribute no builder reads yet is there when one
    // starts to. `raw_code` is what the trim is for, and is gone.
    assert!(member(&ma, "other").is_some());
    // The trimmed payload has no place for a top-level `raw_code` at all.
    assert!(trimmed.common_attr.is_none());
}

#[test]
fn the_model_trim_keeps_common_attr_minus_raw_code() {
    let payload = r#"{"__common_attr__":{"raw_code":"select 1","language":"sql",
            "patch_path":"models/schema.yml","meta":{"owner":"data"}}}"#;
    let trimmed = trim_model_payload(Some(payload));
    let common = trimmed.common_attr.expect("common attr");
    // Member values are kept as JSON text, so a string keeps its quotes.
    assert_eq!(member(&common, "language"), Some("\"sql\""));
    assert_eq!(member(&common, "patch_path"), Some("\"models/schema.yml\""));
    assert!(member(&common, "meta").is_some());
    assert!(member(&common, "raw_code").is_none());
}

#[test]
fn the_model_trim_omits_absent_fields() {
    let trimmed = trim_model_payload(Some(r#"{"other":1}"#));
    assert!(trimmed.config.is_none());
    assert!(trimmed.model_attr.is_none());
    let empty = trim_model_payload(None);
    assert!(empty.config.is_none() && empty.model_attr.is_none() && empty.common_attr.is_none());
}

#[test]
fn the_trim_drops_fields_that_do_not_parse_or_are_not_objects() {
    let trimmed = trim_model_payload(Some(r#"{"config":"raw","__model_attr__":tru,"__common_attr__":[1]}"#));
    assert_eq!(trimmed.config, Some(r#""raw""#));
    assert!(trimmed.model_attr.is_none(), "a value that does not parse is left out");
    assert!(trimmed.common_attr.is_none(), "an array is not an object");
    assert!(trim_model_payload(Some("not json")).config.is_none());
}

#[test]
fn common_attr_members_come_back_as_compact_json() {
    let trimmed = trim_model_payload(Some(r#"{"__common_attr__":{"b": [1, 2], "a": {"x" : null}}}"#));
    let common = trimmed.common_attr.unwrap();
    assert_eq!(keys(&common), vec!["a", "b"]);
    assert_eq!(member(&common, "a"), Some(r#"{"x":null}"#));
    assert_eq!(member(&common, "b"), Some("[1,2]"));
}

#[test]
fn a_string_member_is_decoded_when_rendered() {
    let got = members_of(r#"{"a":"x\"y","b":"\u00e9","c":12}"#);
    assert_eq!(
        got,
        vec![("a".to_string(), "x\"y".to_string()), ("b".to_string(), "\u{e9}".to_string()), ("c".to_string(), "12".to_string())]
    );
}
