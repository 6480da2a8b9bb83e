use dbt_index_core::json_field::extract_json_field_raw;

#[test]
fn field_is_read_from_the_top_level_only() {
    // A model with documented columns carries a column-level `config` ahead
    // of its own in the payload text; the node's config is the one wanted.
    let payload = r#"{"name":"m","columns":{"id":{"config":{"tags":[]}}},"config":{"materialized":"table"}}"#;
    assert_eq!(
        extract_json_field_raw(payload, "config"),
        Some(r#"{"materialized":"table"}"#)
    );
}

#[test]
fn a_key_inside_a_string_value_is_not_a_field() {
    let payload = r#"{"raw_code":"select 1 -- \"config\": {}","config":{"enabled":true}}"#;
    assert_eq!(
        extract_json_field_raw(payload, "config"),
        Some(r#"{"enabled":true}"#)
    );
}

#[test]
fn every_value_shape_is_delimited() {
    let payload = r#"{"a":"s","b":12,"c":true,"d":null,"e":[1,2],"f":{"g":1}}"#;
    for (key, want) in [
        ("a", "\"s\""),
        ("b", "12"),
        ("c", "true"),
        ("d", "null"),
        ("e", "[1,2]"),
        ("f", "{\"g\":1}"),
    ] {
        assert_eq!(extract_json_field_raw(payload, key), Some(want), "key {key}");
    }
    assert_eq!(extract_json_field_raw(payload, "missing"), None);
    assert_eq!(extract_json_field_raw("[1]", "a"), None);
}

#[test]
fn whitespace_around_keys_and_values_is_skipped() {
    let payload = "{ \"a\" : [ 1 , 2 ] ,\n \"b\" :\t\"x\" }";
    assert_eq!(extract_json_field_raw(payload, "a"), Some("[ 1 , 2 ]"));
    assert_eq!(extract_json_field_raw(payload, "b"), Some("\"x\""));
}

#[test]
fn the_first_top_level_occurrence_wins() {
    let payload = r#"{"k":1,"k":2}"#;
    assert_eq!(extract_json_field_raw(payload, "k"), Some("1"));
}

#[test]
fn brackets_inside_strings_do_not_close_a_value() {
    let payload = r#"{"a":{"s":"}]\"{"},"b":true}"#;
    assert_eq!(extract_json_field_raw(payload, "a"), Some(r#"{"s":"}]\"{"}"#));
    assert_eq!(extract_json_field_raw(payload, "b"), Some("true"));
}

#[test]
fn an_empty_object_or_text_has_no_field() {
    assert_eq!(extract_json_field_raw("{}", "a"), None);
    assert_eq!(extract_json_field_raw("", "a"), None);
    assert_eq!(extract_json_field_raw("   ", "a"), None);
}

#[test]
fn a_value_that_never_closes_is_not_returned() {
    assert_eq!(extract_json_field_raw(r#"{"a":{"b":1"#, "a"), None);
}

#[test]
fn a_non_ascii_value_is_returned_whole() {
    let payload = "{\"a\":\"h\u{e9}llo\",\"b\":1}";
    assert_eq!(extract_json_field_raw(payload, "a"), Some("\"h\u{e9}llo\""));
    assert_eq!(extract_json_field_raw(payload, "b"), Some("1"));
}
