use dbt_index_core::info::{
    INFO_SCHEMA_DIR_NAME, INFO_SCHEMA_VERSION, INFO_SCHEMA_VERSION_KEY, Materializer, Method, STAGING_DIR_NAME, plan,
    version_string, versioned_dir,
};

#[test]
fn output_lands_under_the_version_directory() {
    assert_eq!(versioned_dir("target/info_schema"), "target/info_schema/v1");
    assert_eq!(version_string(), INFO_SCHEMA_VERSION.to_string());
    assert_eq!(INFO_SCHEMA_DIR_NAME, "info_schema");
    assert_eq!(STAGING_DIR_NAME, ".info_schema_staging");
    assert_eq!(INFO_SCHEMA_VERSION_KEY, "dbt:info-schema-version");
}

#[test]
fn materializers_have_short_names() {
    assert_eq!(Materializer::Auto.label(), "auto");
    assert_eq!(Materializer::Arrow.label(), "arrow");
    assert_eq!(Materializer::Copy.label(), "copy");
    assert_eq!(Materializer::default_materializer(), Materializer::Auto);
}

#[test]
fn only_auto_falls_back_from_copy_to_the_ingest() {
    assert_eq!(plan(Materializer::Auto), (Method::Copy, Some(Method::Arrow)));
    assert_eq!(plan(Materializer::Copy), (Method::Copy, None));
    assert_eq!(plan(Materializer::Arrow), (Method::Arrow, None));
}
