use dbt_index_core::copy::{CopyFailure, after_copy_failure, after_copy_kv, copy_plan, copy_sql};
use dbt_index_core::schema::{info_schema, spec_for};
use dbt_index_core::spec::Ns;

#[test]
fn after_copy_keeps_requesting_kv_when_the_file_has_it() {
    assert_eq!(after_copy_kv(true, true), (true, false));
}

#[test]
fn after_copy_stamps_the_probe_miss_and_stops_requesting_kv() {
    assert_eq!(after_copy_kv(true, false), (false, true));
}

#[test]
fn after_copy_still_stamps_once_the_probe_has_failed() {
    // Regression: `kv_in_copy && !has_kv` skipped the stamp for every table
    // after the first probe miss, leaving the rest unversioned.
    assert_eq!(after_copy_kv(false, false), (false, true));
}

#[test]
fn after_copy_of_a_versioned_file_after_a_probe_miss_neither_requests_nor_stamps() {
    assert_eq!(after_copy_kv(false, true), (false, false));
}

#[test]
fn a_failed_copy_is_retried_without_kv_only_while_kv_was_requested() {
    assert_eq!(after_copy_failure(true), CopyFailure::RetryWithoutKv);
    assert_eq!(after_copy_failure(false), CopyFailure::Fail);
}

#[test]
fn copy_sql_requests_the_version_kv() {
    let models = spec_for(Ns::Dbt, "models").unwrap();
    assert_eq!(
        copy_sql(&models, "/out/it's/dbt.models.parquet", true),
        "COPY (SELECT * FROM dbt.models) TO '/out/it''s/dbt.models.parquet' \
         (FORMAT PARQUET, COMPRESSION ZSTD, COMPRESSION_LEVEL 1, KV_METADATA {'dbt:info-schema-version': '1'})"
    );
    assert_eq!(
        copy_sql(&models, "/out/dbt.models.parquet", false),
        "COPY (SELECT * FROM dbt.models) TO '/out/dbt.models.parquet' \
         (FORMAT PARQUET, COMPRESSION ZSTD, COMPRESSION_LEVEL 1)"
    );
}

#[test]
fn copy_plan_leaves_out_exactly_the_skipped_tables() {
    let skipped = vec!["dbt.models".to_string(), "dbt_rt.run_results".to_string()];
    let plan = copy_plan(&skipped);
    let all = info_schema();
    assert_eq!(plan.len(), all.len());
    for (copied, table) in plan.iter().zip(all.iter()) {
        assert_eq!(*copied, !skipped.contains(&table.qualified_name()), "{}", table.qualified_name());
    }
}
