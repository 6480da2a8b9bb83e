//! The index's own tables: the source-shaped parquet the ingest writes and the
//! information schema is projected from, with the type of every column.
//!
//! Output column types are derived from here, and a join resolves a column to
//! the side whose table has it.

use vstd::prelude::*;
use crate::spec::ColType;
use crate::text::{owned, str_eq};

verus! {

/// One column of an index table.
#[derive(Debug, Clone, Copy)]
pub struct IndexColumn {
    pub name: &'static str,
    pub ty: ColType,
}

/// One index table. `runtime` tables hold run results and are written under
/// the `dbt_rt` prefix.
#[derive(Debug)]
pub struct IndexTableSpec {
    pub name: &'static str,
    pub runtime: bool,
    pub cols: Vec<IndexColumn>,
}

/// An index table as the contracts see it.
pub struct IndexTable {
    pub name: &'static str,
    pub runtime: bool,
    pub cols: Seq<IndexColumn>,
}

/// The model of an index table.
pub open spec fn index_model_of(t: IndexTableSpec) -> IndexTable {
    IndexTable { name: t.name, runtime: t.runtime, cols: t.cols@ }
}

/// Model of one column.
pub open spec fn icm(name: &'static str, ty: ColType) -> IndexColumn {
    IndexColumn { name, ty }
}

/// One column.
pub fn ic(name: &'static str, ty: ColType) -> (r: IndexColumn)
    ensures
        r == icm(name, ty),
{
    IndexColumn { name, ty }
}

/// The index's `project` table.
pub open spec fn project_index_model() -> IndexTable {
    IndexTable { name: "project", runtime: false, cols: seq![icm("project_id", ColType::Utf8), icm("project_name", ColType::Utf8), icm("description", ColType::Utf8), icm("dbt_version", ColType::Utf8), icm("adapter_type", ColType::Utf8), icm("quoting", ColType::Utf8), icm("ai_context", ColType::Utf8), icm("git_sha", ColType::Utf8), icm("git_branch", ColType::Utf8), icm("git_is_dirty", ColType::Boolean), icm("ingested_at", ColType::TimestampUtc)] }
}

fn project_index() -> (t: IndexTableSpec)
    ensures
        index_model_of(t) == project_index_model(),
{
    IndexTableSpec { name: "project", runtime: false, cols: vec![ic("project_id", ColType::Utf8), ic("project_name", ColType::Utf8), ic("description", ColType::Utf8), ic("dbt_version", ColType::Utf8), ic("adapter_type", ColType::Utf8), ic("quoting", ColType::Utf8), ic("ai_context", ColType::Utf8), ic("git_sha", ColType::Utf8), ic("git_branch", ColType::Utf8), ic("git_is_dirty", ColType::Boolean), ic("ingested_at", ColType::TimestampUtc)] }
}

/// The index's `packages` table.
pub open spec fn packages_index_model() -> IndexTable {
    IndexTable { name: "packages", runtime: false, cols: seq![icm("package_name", ColType::Utf8), icm("package_source", ColType::Utf8), icm("version", ColType::Utf8), icm("git_url", ColType::Utf8), icm("git_revision", ColType::Utf8), icm("local_path", ColType::Utf8), icm("ingested_at", ColType::TimestampUtc)] }
}

fn packages_index() -> (t: IndexTableSpec)
    ensures
        index_model_of(t) == packages_index_model(),
{
    IndexTableSpec { name: "packages", runtime: false, cols: vec![ic("package_name", ColType::Utf8), ic("package_source", ColType::Utf8), ic("version", ColType::Utf8), ic("git_url", ColType::Utf8), ic("git_revision", ColType::Utf8), ic("local_path", ColType::Utf8), ic("ingested_at", ColType::TimestampUtc)] }
}

/// The index's `project_vars` table.
pub open spec fn project_vars_index_model() -> IndexTable {
    IndexTable { name: "project_vars", runtime: false, cols: seq![icm("var_name", ColType::Utf8), icm("var_value", ColType::Utf8), icm("ingested_at", ColType::TimestampUtc)] }
}

fn project_vars_index() -> (t: IndexTableSpec)
    ensures
        index_model_of(t) == project_vars_index_model(),
{
    IndexTableSpec { name: "project_vars", runtime: false, cols: vec![ic("var_name", ColType::Utf8), ic("var_value", ColType::Utf8), ic("ingested_at", ColType::TimestampUtc)] }
}

/// The index's `project_env_vars` table.
pub open spec fn project_env_vars_index_model() -> IndexTable {
    IndexTable { name: "project_env_vars", runtime: false, cols: seq![icm("env_var_name", ColType::Utf8), icm("used_in", ColType::Utf8), icm("ingested_at", ColType::TimestampUtc)] }
}

fn project_env_vars_index() -> (t: IndexTableSpec)
    ensures
        index_model_of(t) == project_env_vars_index_model(),
{
    IndexTableSpec { name: "project_env_vars", runtime: false, cols: vec![ic("env_var_name", ColType::Utf8), ic("used_in", ColType::Utf8), ic("ingested_at", ColType::TimestampUtc)] }
}

/// The index's `generation` table.
pub open spec fn generation_index_model() -> IndexTable {
    IndexTable { name: "generation", runtime: false, cols: seq![icm("ingested_at", ColType::TimestampUtc)] }
}

fn generation_index() -> (t: IndexTableSpec)
    ensures
        index_model_of(t) == generation_index_model(),
{
    let cols = vec![ic("ingested_at", ColType::TimestampUtc)];
    assert(cols@ =~= seq![icm("ingested_at", ColType::TimestampUtc)]);
    IndexTableSpec { name: "generation", runtime: false, cols }
}

/// The index's `nodes` table.
pub open spec fn nodes_index_model() -> IndexTable {
    IndexTable { name: "nodes", runtime: false, cols: seq![icm("unique_id", ColType::Utf8), icm("name", ColType::Utf8), icm("resource_type", ColType::Utf8), icm("package_name", ColType::Utf8), icm("original_file_path", ColType::Utf8), icm("alias", ColType::Utf8), icm("description", ColType::Utf8), icm("relation_name", ColType::Utf8), icm("identifier", ColType::Utf8), icm("materialized", ColType::Utf8), icm("access_level", ColType::Utf8), icm("group_name", ColType::Utf8), icm("database_name", ColType::Utf8), icm("schema_name", ColType::Utf8), icm("fqn", ColType::ListUtf8), icm("tags", ColType::ListUtf8), icm("enabled", ColType::Boolean), icm("source_name", ColType::Utf8), icm("checksum", ColType::Utf8), icm("raw_code", ColType::Utf8), icm("source_description", ColType::Utf8), icm("loader", ColType::Utf8), icm("loaded_at_field", ColType::Utf8), icm("patch_path", ColType::Utf8), icm("deprecation_date", ColType::Utf8), icm("meta", ColType::Utf8), icm("version", ColType::Utf8), icm("latest_version", ColType::Utf8), icm("config", ColType::Utf8), icm("contract_enforced", ColType::Boolean), icm("primary_key", ColType::ListUtf8), icm("file_path", ColType::Utf8), icm("compiled_code", ColType::Utf8), icm("compiled_code_hash", ColType::Utf8), icm("compiled_path", ColType::Utf8), icm("table_role", ColType::Utf8), icm("grain", ColType::ListUtf8), icm("grain_declared", ColType::ListUtf8), icm("grain_tested", ColType::ListUtf8), icm("classifiers", ColType::ListUtf8), icm("docs_show", ColType::Boolean), icm("grain_inferred", ColType::ListUtf8), icm("node_language", ColType::Utf8), icm("incremental_strategy", ColType::Utf8), icm("on_schema_change", ColType::Utf8), icm("unique_key", ColType::Utf8), icm("full_refresh", ColType::Boolean), icm("persist_docs", ColType::Utf8), icm("pre_hook", ColType::Utf8), icm("post_hook", ColType::Utf8), icm("grants", ColType::Utf8), icm("node_constraints", ColType::Utf8), icm("time_spine", ColType::Utf8), icm("ai_context", ColType::Utf8), icm("loaded_at_query", ColType::Utf8), icm("freshness", ColType::Utf8), icm("external_config", ColType::Utf8), icm("source_meta", ColType::Utf8), icm("quoting", ColType::Utf8), icm("extra_ctes", ColType::Utf8), icm("compiled_at", ColType::Utf8), icm("raw_code_hash", ColType::Utf8), icm("search_text", ColType::Utf8), icm("ingested_at", ColType::TimestampUtc)] }
}

fn nodes_index() -> (t: IndexTableSpec)
    ensures
        index_model_of(t) == nodes_index_model(),
{
    IndexTableSpec { name: "nodes", runtime: false, cols: vec![ic("unique_id", ColType::Utf8), ic("name", ColType::Utf8), ic("resource_type", ColType::Utf8), ic("package_name", ColType::Utf8), ic("original_file_path", ColType::Utf8), ic("alias", ColType::Utf8), ic("description", ColType::Utf8), ic("relation_name", ColType::Utf8), ic("identifier", ColType::Utf8), ic("materialized", ColType::Utf8), ic("access_level", ColType::Utf8), ic("group_name", ColType::Utf8), ic("database_name", ColType::Utf8), ic("schema_name", ColType::Utf8), ic("fqn", ColType::ListUtf8), ic("tags", ColType::ListUtf8), ic("enabled", ColType::Boolean), ic("source_name", ColType::Utf8), ic("checksum", ColType::Utf8), ic("raw_code", ColType::Utf8), ic("source_description", ColType::Utf8), ic("loader", ColType::Utf8), ic("loaded_at_field", ColType::Utf8), ic("patch_path", ColType::Utf8), ic("deprecation_date", ColType::Utf8), ic("meta", ColType::Utf8), ic("version", ColType::Utf8), ic("latest_version", ColType::Utf8), ic("config", ColType::Utf8), ic("contract_enforced", ColType::Boolean), ic("primary_key", ColType::ListUtf8), ic("file_path", ColType::Utf8), ic("compiled_code", ColType::Utf8), ic("compiled_code_hash", ColType::Utf8), ic("compiled_path", ColType::Utf8), ic("table_role", ColType::Utf8), ic("grain", ColType::ListUtf8), ic("grain_declared", ColType::ListUtf8), ic("grain_tested", ColType::ListUtf8), ic("classifiers", ColType::ListUtf8), ic("docs_show", ColType::Boolean), ic("grain_inferred", ColType::ListUtf8), ic("node_language", ColType::Utf8), ic("incremental_strategy", ColType::Utf8), ic("on_schema_change", ColType::Utf8), ic("unique_key", ColType::Utf8), ic("full_refresh", ColType::Boolean), ic("persist_docs", ColType::Utf8), ic("pre_hook", ColType::Utf8), ic("post_hook", ColType::Utf8), ic("grants", ColType::Utf8), ic("node_constraints", ColType::Utf8), ic("time_spine", ColType::Utf8), ic("ai_context", ColType::Utf8), ic("loaded_at_query", ColType::Utf8), ic("freshness", ColType::Utf8), ic("external_config", ColType::Utf8), ic("source_meta", ColType::Utf8), ic("quoting", ColType::Utf8), ic("extra_ctes", ColType::Utf8), ic("compiled_at", ColType::Utf8), ic("raw_code_hash", ColType::Utf8), ic("search_text", ColType::Utf8), ic("ingested_at", ColType::TimestampUtc)] }
}

/// The index's `edges` table.
pub open spec fn edges_index_model() -> IndexTable {
    IndexTable { name: "edges", runtime: false, cols: seq![icm("parent_unique_id", ColType::Utf8), icm("child_unique_id", ColType::Utf8), icm("edge_type", ColType::Utf8), icm("ingested_at", ColType::TimestampUtc)] }
}

fn edges_index() -> (t: IndexTableSpec)
    ensures
        index_model_of(t) == edges_index_model(),
{
    IndexTableSpec { name: "edges", runtime: false, cols: vec![ic("parent_unique_id", ColType::Utf8), ic("child_unique_id", ColType::Utf8), ic("edge_type", ColType::Utf8), ic("ingested_at", ColType::TimestampUtc)] }
}

/// The index's `test_metadata` table.
pub open spec fn test_metadata_index_model() -> IndexTable {
    IndexTable { name: "test_metadata", runtime: false, cols: seq![icm("unique_id", ColType::Utf8), icm("test_name", ColType::Utf8), icm("test_namespace", ColType::Utf8), icm("kwargs", ColType::Utf8), icm("column_name", ColType::Utf8), icm("attached_node", ColType::Utf8), icm("severity", ColType::Utf8), icm("warn_if", ColType::Utf8), icm("error_if", ColType::Utf8), icm("fail_calc", ColType::Utf8), icm("store_failures", ColType::Boolean), icm("store_failures_as", ColType::Utf8), icm("test_limit", ColType::Int64), icm("test_where", ColType::Utf8), icm("ingested_at", ColType::TimestampUtc)] }
}

fn test_metadata_index() -> (t: IndexTableSpec)
    ensures
        index_model_of(t) == test_metadata_index_model(),
{
    IndexTableSpec { name: "test_metadata", runtime: false, cols: vec![ic("unique_id", ColType::Utf8), ic("test_name", ColType::Utf8), ic("test_namespace", ColType::Utf8), ic("kwargs", ColType::Utf8), ic("column_name", ColType::Utf8), ic("attached_node", ColType::Utf8), ic("severity", ColType::Utf8), ic("warn_if", ColType::Utf8), ic("error_if", ColType::Utf8), ic("fail_calc", ColType::Utf8), ic("store_failures", ColType::Boolean), ic("store_failures_as", ColType::Utf8), ic("test_limit", ColType::Int64), ic("test_where", ColType::Utf8), ic("ingested_at", ColType::TimestampUtc)] }
}

/// The index's `unit_tests` table.
pub open spec fn unit_tests_index_model() -> IndexTable {
    IndexTable { name: "unit_tests", runtime: false, cols: seq![icm("unique_id", ColType::Utf8), icm("name", ColType::Utf8), icm("model", ColType::Utf8), icm("description", ColType::Utf8), icm("package_name", ColType::Utf8), icm("original_file_path", ColType::Utf8), icm("fqn", ColType::ListUtf8), icm("given", ColType::Utf8), icm("expect", ColType::Utf8), icm("overrides", ColType::Utf8), icm("versions", ColType::Utf8), icm("config", ColType::Utf8), icm("created_at", ColType::Utf8), icm("enabled", ColType::Boolean), icm("ingested_at", ColType::TimestampUtc)] }
}

fn unit_tests_index() -> (t: IndexTableSpec)
    ensures
        index_model_of(t) == unit_tests_index_model(),
{
    IndexTableSpec { name: "unit_tests", runtime: false, cols: vec![ic("unique_id", ColType::Utf8), ic("name", ColType::Utf8), ic("model", ColType::Utf8), ic("description", ColType::Utf8), ic("package_name", ColType::Utf8), ic("original_file_path", ColType::Utf8), ic("fqn", ColType::ListUtf8), ic("given", ColType::Utf8), ic("expect", ColType::Utf8), ic("overrides", ColType::Utf8), ic("versions", ColType::Utf8), ic("config", ColType::Utf8), ic("created_at", ColType::Utf8), ic("enabled", ColType::Boolean), ic("ingested_at", ColType::TimestampUtc)] }
}

/// The index's `macros` table.
pub open spec fn macros_index_model() -> IndexTable {
    IndexTable { name: "macros", runtime: false, cols: seq![icm("unique_id", ColType::Utf8), icm("name", ColType::Utf8), icm("package_name", ColType::Utf8), icm("original_file_path", ColType::Utf8), icm("macro_sql", ColType::Utf8), icm("description", ColType::Utf8), icm("depends_on_macros", ColType::ListUtf8), icm("arguments", ColType::Utf8), icm("docs_show", ColType::Boolean), icm("patch_path", ColType::Utf8), icm("meta", ColType::Utf8), icm("created_at", ColType::Utf8), icm("ingested_at", ColType::TimestampUtc)] }
}

fn macros_index() -> (t: IndexTableSpec)
    ensures
        index_model_of(t) == macros_index_model(),
{
    IndexTableSpec { name: "macros", runtime: false, cols: vec![ic("unique_id", ColType::Utf8), ic("name", ColType::Utf8), ic("package_name", ColType::Utf8), ic("original_file_path", ColType::Utf8), ic("macro_sql", ColType::Utf8), ic("description", ColType::Utf8), ic("depends_on_macros", ColType::ListUtf8), ic("arguments", ColType::Utf8), ic("docs_show", ColType::Boolean), ic("patch_path", ColType::Utf8), ic("meta", ColType::Utf8), ic("created_at", ColType::Utf8), ic("ingested_at", ColType::TimestampUtc)] }
}

/// The index's `groups` table.
pub open spec fn groups_index_model() -> IndexTable {
    IndexTable { name: "groups", runtime: false, cols: seq![icm("unique_id", ColType::Utf8), icm("name", ColType::Utf8), icm("description", ColType::Utf8), icm("package_name", ColType::Utf8), icm("file_path", ColType::Utf8), icm("original_file_path", ColType::Utf8), icm("owner_name", ColType::Utf8), icm("owner_email", ColType::Utf8), icm("config", ColType::Utf8), icm("ingested_at", ColType::TimestampUtc)] }
}

fn groups_index() -> (t: IndexTableSpec)
    ensures
        index_model_of(t) == groups_index_model(),
{
    IndexTableSpec { name: "groups", runtime: false, cols: vec![ic("unique_id", ColType::Utf8), ic("name", ColType::Utf8), ic("description", ColType::Utf8), ic("package_name", ColType::Utf8), ic("file_path", ColType::Utf8), ic("original_file_path", ColType::Utf8), ic("owner_name", ColType::Utf8), ic("owner_email", ColType::Utf8), ic("config", ColType::Utf8), ic("ingested_at", ColType::TimestampUtc)] }
}

/// The index's `exposures` table.
pub open spec fn exposures_index_model() -> IndexTable {
    IndexTable { name: "exposures", runtime: false, cols: seq![icm("unique_id", ColType::Utf8), icm("name", ColType::Utf8), icm("exposure_type", ColType::Utf8), icm("label", ColType::Utf8), icm("owner_name", ColType::Utf8), icm("owner_email", ColType::Utf8), icm("url", ColType::Utf8), icm("maturity", ColType::Utf8), icm("description", ColType::Utf8), icm("package_name", ColType::Utf8), icm("original_file_path", ColType::Utf8), icm("fqn", ColType::ListUtf8), icm("depends_on_nodes", ColType::ListUtf8), icm("tags", ColType::ListUtf8), icm("created_at", ColType::Utf8), icm("config", ColType::Utf8), icm("meta", ColType::Utf8), icm("enabled", ColType::Boolean), icm("ingested_at", ColType::TimestampUtc)] }
}

fn exposures_index() -> (t: IndexTableSpec)
    ensures
        index_model_of(t) == exposures_index_model(),
{
    IndexTableSpec { name: "exposures", runtime: false, cols: vec![ic("unique_id", ColType::Utf8), ic("name", ColType::Utf8), ic("exposure_type", ColType::Utf8), ic("label", ColType::Utf8), ic("owner_name", ColType::Utf8), ic("owner_email", ColType::Utf8), ic("url", ColType::Utf8), ic("maturity", ColType::Utf8), ic("description", ColType::Utf8), ic("package_name", ColType::Utf8), ic("original_file_path", ColType::Utf8), ic("fqn", ColType::ListUtf8), ic("depends_on_nodes", ColType::ListUtf8), ic("tags", ColType::ListUtf8), ic("created_at", ColType::Utf8), ic("config", ColType::Utf8), ic("meta", ColType::Utf8), ic("enabled", ColType::Boolean), ic("ingested_at", ColType::TimestampUtc)] }
}

/// The index's `metrics` table.
pub open spec fn metrics_index_model() -> IndexTable {
    IndexTable { name: "metrics", runtime: false, cols: seq![icm("unique_id", ColType::Utf8), icm("name", ColType::Utf8), icm("label", ColType::Utf8), icm("metric_type", ColType::Utf8), icm("description", ColType::Utf8), icm("package_name", ColType::Utf8), icm("original_file_path", ColType::Utf8), icm("fqn", ColType::ListUtf8), icm("type_params", ColType::Utf8), icm("metric_filter", ColType::Utf8), icm("time_granularity", ColType::Utf8), icm("input_metric_names", ColType::ListUtf8), icm("group_name", ColType::Utf8), icm("tags", ColType::ListUtf8), icm("meta", ColType::Utf8), icm("config", ColType::Utf8), icm("created_at", ColType::Utf8), icm("ai_context", ColType::Utf8), icm("semantic_model_name", ColType::Utf8), icm("enabled", ColType::Boolean), icm("ingested_at", ColType::TimestampUtc)] }
}

fn metrics_index() -> (t: IndexTableSpec)
    ensures
        index_model_of(t) == metrics_index_model(),
{
    IndexTableSpec { name: "metrics", runtime: false, cols: vec![ic("unique_id", ColType::Utf8), ic("name", ColType::Utf8), ic("label", ColType::Utf8), ic("metric_type", ColType::Utf8), ic("description", ColType::Utf8), ic("package_name", ColType::Utf8), ic("original_file_path", ColType::Utf8), ic("fqn", ColType::ListUtf8), ic("type_params", ColType::Utf8), ic("metric_filter", ColType::Utf8), ic("time_granularity", ColType::Utf8), ic("input_metric_names", ColType::ListUtf8), ic("group_name", ColType::Utf8), ic("tags", ColType::ListUtf8), ic("meta", ColType::Utf8), ic("config", ColType::Utf8), ic("created_at", ColType::Utf8), ic("ai_context", ColType::Utf8), ic("semantic_model_name", ColType::Utf8), ic("enabled", ColType::Boolean), ic("ingested_at", ColType::TimestampUtc)] }
}

/// The index's `docs` table.
pub open spec fn docs_index_model() -> IndexTable {
    IndexTable { name: "docs", runtime: false, cols: seq![icm("unique_id", ColType::Utf8), icm("name", ColType::Utf8), icm("package_name", ColType::Utf8), icm("original_file_path", ColType::Utf8), icm("block_contents", ColType::Utf8), icm("ingested_at", ColType::TimestampUtc)] }
}

fn docs_index() -> (t: IndexTableSpec)
    ensures
        index_model_of(t) == docs_index_model(),
{
    IndexTableSpec { name: "docs", runtime: false, cols: vec![ic("unique_id", ColType::Utf8), ic("name", ColType::Utf8), ic("package_name", ColType::Utf8), ic("original_file_path", ColType::Utf8), ic("block_contents", ColType::Utf8), ic("ingested_at", ColType::TimestampUtc)] }
}

/// The index's `saved_queries` table.
pub open spec fn saved_queries_index_model() -> IndexTable {
    IndexTable { name: "saved_queries", runtime: false, cols: seq![icm("unique_id", ColType::Utf8), icm("name", ColType::Utf8), icm("label", ColType::Utf8), icm("description", ColType::Utf8), icm("package_name", ColType::Utf8), icm("original_file_path", ColType::Utf8), icm("fqn", ColType::ListUtf8), icm("query_params", ColType::Utf8), icm("exports", ColType::Utf8), icm("depends_on_nodes", ColType::ListUtf8), icm("tags", ColType::ListUtf8), icm("group_name", ColType::Utf8), icm("created_at", ColType::Utf8), icm("config", ColType::Utf8), icm("ingested_at", ColType::TimestampUtc)] }
}

fn saved_queries_index() -> (t: IndexTableSpec)
    ensures
        index_model_of(t) == saved_queries_index_model(),
{
    IndexTableSpec { name: "saved_queries", runtime: false, cols: vec![ic("unique_id", ColType::Utf8), ic("name", ColType::Utf8), ic("label", ColType::Utf8), ic("description", ColType::Utf8), ic("package_name", ColType::Utf8), ic("original_file_path", ColType::Utf8), ic("fqn", ColType::ListUtf8), ic("query_params", ColType::Utf8), ic("exports", ColType::Utf8), ic("depends_on_nodes", ColType::ListUtf8), ic("tags", ColType::ListUtf8), ic("group_name", ColType::Utf8), ic("created_at", ColType::Utf8), ic("config", ColType::Utf8), ic("ingested_at", ColType::TimestampUtc)] }
}

/// The index's `semantic_models` table.
pub open spec fn semantic_models_index_model() -> IndexTable {
    IndexTable { name: "semantic_models", runtime: false, cols: seq![icm("unique_id", ColType::Utf8), icm("name", ColType::Utf8), icm("model", ColType::Utf8), icm("label", ColType::Utf8), icm("description", ColType::Utf8), icm("package_name", ColType::Utf8), icm("file_path", ColType::Utf8), icm("original_file_path", ColType::Utf8), icm("fqn", ColType::ListUtf8), icm("node_relation", ColType::Utf8), icm("primary_entity", ColType::Utf8), icm("defaults", ColType::Utf8), icm("group_name", ColType::Utf8), icm("config", ColType::Utf8), icm("created_at", ColType::Utf8), icm("ingested_at", ColType::TimestampUtc)] }
}

fn semantic_models_index() -> (t: IndexTableSpec)
    ensures
        index_model_of(t) == semantic_models_index_model(),
{
    IndexTableSpec { name: "semantic_models", runtime: false, cols: vec![ic("unique_id", ColType::Utf8), ic("name", ColType::Utf8), ic("model", ColType::Utf8), ic("label", ColType::Utf8), ic("description", ColType::Utf8), ic("package_name", ColType::Utf8), ic("file_path", ColType::Utf8), ic("original_file_path", ColType::Utf8), ic("fqn", ColType::ListUtf8), ic("node_relation", ColType::Utf8), ic("primary_entity", ColType::Utf8), ic("defaults", ColType::Utf8), ic("group_name", ColType::Utf8), ic("config", ColType::Utf8), ic("created_at", ColType::Utf8), ic("ingested_at", ColType::TimestampUtc)] }
}

/// The index's `semantic_entities` table.
pub open spec fn semantic_entities_index_model() -> IndexTable {
    IndexTable { name: "semantic_entities", runtime: false, cols: seq![icm("unique_id", ColType::Utf8), icm("name", ColType::Utf8), icm("entity_type", ColType::Utf8), icm("description", ColType::Utf8), icm("label", ColType::Utf8), icm("entity_role", ColType::Utf8), icm("expr", ColType::Utf8), icm("config", ColType::Utf8), icm("ingested_at", ColType::TimestampUtc)] }
}

fn semantic_entities_index() -> (t: IndexTableSpec)
    ensures
        index_model_of(t) == semantic_entities_index_model(),
{
    IndexTableSpec { name: "semantic_entities", runtime: false, cols: vec![ic("unique_id", ColType::Utf8), ic("name", ColType::Utf8), ic("entity_type", ColType::Utf8), ic("description", ColType::Utf8), ic("label", ColType::Utf8), ic("entity_role", ColType::Utf8), ic("expr", ColType::Utf8), ic("config", ColType::Utf8), ic("ingested_at", ColType::TimestampUtc)] }
}

/// The index's `semantic_measures` table.
pub open spec fn semantic_measures_index_model() -> IndexTable {
    IndexTable { name: "semantic_measures", runtime: false, cols: seq![icm("unique_id", ColType::Utf8), icm("name", ColType::Utf8), icm("agg", ColType::Utf8), icm("description", ColType::Utf8), icm("label", ColType::Utf8), icm("expr", ColType::Utf8), icm("create_metric", ColType::Boolean), icm("agg_time_dimension", ColType::Utf8), icm("agg_params", ColType::Utf8), icm("non_additive_dimension", ColType::Utf8), icm("config", ColType::Utf8), icm("ingested_at", ColType::TimestampUtc)] }
}

fn semantic_measures_index() -> (t: IndexTableSpec)
    ensures
        index_model_of(t) == semantic_measures_index_model(),
{
    IndexTableSpec { name: "semantic_measures", runtime: false, cols: vec![ic("unique_id", ColType::Utf8), ic("name", ColType::Utf8), ic("agg", ColType::Utf8), ic("description", ColType::Utf8), ic("label", ColType::Utf8), ic("expr", ColType::Utf8), ic("create_metric", ColType::Boolean), ic("agg_time_dimension", ColType::Utf8), ic("agg_params", ColType::Utf8), ic("non_additive_dimension", ColType::Utf8), ic("config", ColType::Utf8), ic("ingested_at", ColType::TimestampUtc)] }
}

/// The index's `semantic_dimensions` table.
pub open spec fn semantic_dimensions_index_model() -> IndexTable {
    IndexTable { name: "semantic_dimensions", runtime: false, cols: seq![icm("unique_id", ColType::Utf8), icm("name", ColType::Utf8), icm("dimension_type", ColType::Utf8), icm("description", ColType::Utf8), icm("label", ColType::Utf8), icm("expr", ColType::Utf8), icm("is_partition", ColType::Boolean), icm("time_granularity", ColType::Utf8), icm("validity_params", ColType::Utf8), icm("config", ColType::Utf8), icm("ingested_at", ColType::TimestampUtc)] }
}

fn semantic_dimensions_index() -> (t: IndexTableSpec)
    ensures
        index_model_of(t) == semantic_dimensions_index_model(),
{
    IndexTableSpec { name: "semantic_dimensions", runtime: false, cols: vec![ic("unique_id", ColType::Utf8), ic("name", ColType::Utf8), ic("dimension_type", ColType::Utf8), ic("description", ColType::Utf8), ic("label", ColType::Utf8), ic("expr", ColType::Utf8), ic("is_partition", ColType::Boolean), ic("time_granularity", ColType::Utf8), ic("validity_params", ColType::Utf8), ic("config", ColType::Utf8), ic("ingested_at", ColType::TimestampUtc)] }
}

/// The index's `semantic_relationships` table.
pub open spec fn semantic_relationships_index_model() -> IndexTable {
    IndexTable { name: "semantic_relationships", runtime: false, cols: seq![icm("name", ColType::Utf8), icm("from_unique_id", ColType::Utf8), icm("to_unique_id", ColType::Utf8), icm("from_columns", ColType::Utf8), icm("to_columns", ColType::Utf8), icm("cardinality", ColType::Utf8), icm("relationship_type", ColType::Utf8), icm("ai_context", ColType::Utf8), icm("ingested_at", ColType::TimestampUtc)] }
}

fn semantic_relationships_index() -> (t: IndexTableSpec)
    ensures
        index_model_of(t) == semantic_relationships_index_model(),
{
    IndexTableSpec { name: "semantic_relationships", runtime: false, cols: vec![ic("name", ColType::Utf8), ic("from_unique_id", ColType::Utf8), ic("to_unique_id", ColType::Utf8), ic("from_columns", ColType::Utf8), ic("to_columns", ColType::Utf8), ic("cardinality", ColType::Utf8), ic("relationship_type", ColType::Utf8), ic("ai_context", ColType::Utf8), ic("ingested_at", ColType::TimestampUtc)] }
}

/// The index's `time_spines` table.
pub open spec fn time_spines_index_model() -> IndexTable {
    IndexTable { name: "time_spines", runtime: false, cols: seq![icm("unique_id", ColType::Utf8), icm("primary_column", ColType::Utf8), icm("primary_granularity", ColType::Utf8), icm("custom_granularities", ColType::Utf8), icm("node_relation", ColType::Utf8), icm("ingested_at", ColType::TimestampUtc)] }
}

fn time_spines_index() -> (t: IndexTableSpec)
    ensures
        index_model_of(t) == time_spines_index_model(),
{
    IndexTableSpec { name: "time_spines", runtime: false, cols: vec![ic("unique_id", ColType::Utf8), ic("primary_column", ColType::Utf8), ic("primary_granularity", ColType::Utf8), ic("custom_granularities", ColType::Utf8), ic("node_relation", ColType::Utf8), ic("ingested_at", ColType::TimestampUtc)] }
}

/// The index's `node_columns` table.
pub open spec fn node_columns_index_model() -> IndexTable {
    IndexTable { name: "node_columns", runtime: false, cols: seq![icm("unique_id", ColType::Utf8), icm("column_name", ColType::Utf8), icm("column_index", ColType::Int64), icm("declared_type", ColType::Utf8), icm("inferred_type", ColType::Utf8), icm("catalog_type", ColType::Utf8), icm("data_type", ColType::Utf8), icm("description", ColType::Utf8), icm("label", ColType::Utf8), icm("expression", ColType::Utf8), icm("quote", ColType::Boolean), icm("granularity", ColType::Utf8), icm("tags", ColType::ListUtf8), icm("classifiers", ColType::ListUtf8), icm("meta", ColType::Utf8), icm("column_constraints", ColType::Utf8), icm("tests", ColType::Utf8), icm("catalog_comment", ColType::Utf8), icm("ingested_at", ColType::TimestampUtc)] }
}

fn node_columns_index() -> (t: IndexTableSpec)
    ensures
        index_model_of(t) == node_columns_index_model(),
{
    IndexTableSpec { name: "node_columns", runtime: false, cols: vec![ic("unique_id", ColType::Utf8), ic("column_name", ColType::Utf8), ic("column_index", ColType::Int64), ic("declared_type", ColType::Utf8), ic("inferred_type", ColType::Utf8), ic("catalog_type", ColType::Utf8), ic("data_type", ColType::Utf8), ic("description", ColType::Utf8), ic("label", ColType::Utf8), ic("expression", ColType::Utf8), ic("quote", ColType::Boolean), ic("granularity", ColType::Utf8), ic("tags", ColType::ListUtf8), ic("classifiers", ColType::ListUtf8), ic("meta", ColType::Utf8), ic("column_constraints", ColType::Utf8), ic("tests", ColType::Utf8), ic("catalog_comment", ColType::Utf8), ic("ingested_at", ColType::TimestampUtc)] }
}

/// The index's `column_lineage` table.
pub open spec fn column_lineage_index_model() -> IndexTable {
    IndexTable { name: "column_lineage", runtime: false, cols: seq![icm("from_node_unique_id", ColType::Utf8), icm("from_column_name", ColType::Utf8), icm("to_node_unique_id", ColType::Utf8), icm("to_column_name", ColType::Utf8), icm("lineage_kind", ColType::Utf8), icm("ingested_at", ColType::TimestampUtc)] }
}

fn column_lineage_index() -> (t: IndexTableSpec)
    ensures
        index_model_of(t) == column_lineage_index_model(),
{
    IndexTableSpec { name: "column_lineage", runtime: false, cols: vec![ic("from_node_unique_id", ColType::Utf8), ic("from_column_name", ColType::Utf8), ic("to_node_unique_id", ColType::Utf8), ic("to_column_name", ColType::Utf8), ic("lineage_kind", ColType::Utf8), ic("ingested_at", ColType::TimestampUtc)] }
}

/// The index's `classifiers` table.
pub open spec fn classifiers_index_model() -> IndexTable {
    IndexTable { name: "classifiers", runtime: false, cols: seq![] }
}

fn classifiers_index() -> (t: IndexTableSpec)
    ensures
        index_model_of(t) == classifiers_index_model(),
{
    IndexTableSpec { name: "classifiers", runtime: false, cols: vec![] }
}

/// The index's `node_input_files` table.
pub open spec fn node_input_files_index_model() -> IndexTable {
    IndexTable { name: "node_input_files", runtime: false, cols: seq![icm("unique_id", ColType::Utf8), icm("file_path", ColType::Utf8), icm("file_hash", ColType::Utf8), icm("input_kind", ColType::Utf8), icm("ingested_at", ColType::TimestampUtc)] }
}

fn node_input_files_index() -> (t: IndexTableSpec)
    ensures
        index_model_of(t) == node_input_files_index_model(),
{
    IndexTableSpec { name: "node_input_files", runtime: false, cols: vec![ic("unique_id", ColType::Utf8), ic("file_path", ColType::Utf8), ic("file_hash", ColType::Utf8), ic("input_kind", ColType::Utf8), ic("ingested_at", ColType::TimestampUtc)] }
}

/// The index's `invocations` table.
pub open spec fn invocations_index_model() -> IndexTable {
    IndexTable { name: "invocations", runtime: true, cols: seq![icm("invocation_id", ColType::Utf8), icm("command", ColType::Utf8), icm("selector", ColType::Utf8), icm("dbt_version", ColType::Utf8), icm("generated_at", ColType::TimestampUtc), icm("elapsed_time", ColType::Float64), icm("node_count", ColType::Int64), icm("target_name", ColType::Utf8), icm("target_type", ColType::Utf8), icm("git_sha", ColType::Utf8), icm("git_branch", ColType::Utf8), icm("git_is_dirty", ColType::Boolean), icm("args", ColType::Utf8), icm("target_database", ColType::Utf8), icm("target_schema", ColType::Utf8), icm("target_threads", ColType::Int64), icm("vars_override", ColType::Utf8)] }
}

fn invocations_index() -> (t: IndexTableSpec)
    ensures
        index_model_of(t) == invocations_index_model(),
{
    IndexTableSpec { name: "invocations", runtime: true, cols: vec![ic("invocation_id", ColType::Utf8), ic("command", ColType::Utf8), ic("selector", ColType::Utf8), ic("dbt_version", ColType::Utf8), ic("generated_at", ColType::TimestampUtc), ic("elapsed_time", ColType::Float64), ic("node_count", ColType::Int64), ic("target_name", ColType::Utf8), ic("target_type", ColType::Utf8), ic("git_sha", ColType::Utf8), ic("git_branch", ColType::Utf8), ic("git_is_dirty", ColType::Boolean), ic("args", ColType::Utf8), ic("target_database", ColType::Utf8), ic("target_schema", ColType::Utf8), ic("target_threads", ColType::Int64), ic("vars_override", ColType::Utf8)] }
}

/// The index's `run_results` table.
pub open spec fn run_results_index_model() -> IndexTable {
    IndexTable { name: "run_results", runtime: true, cols: seq![icm("unique_id", ColType::Utf8), icm("invocation_id", ColType::Utf8), icm("status", ColType::Utf8), icm("execution_time", ColType::Float64), icm("thread_id", ColType::Utf8), icm("message", ColType::Utf8), icm("failures", ColType::Int64), icm("compiled", ColType::Utf8), icm("batch_results", ColType::Utf8), icm("rows_affected", ColType::Int64), icm("compiled_code_hash", ColType::Utf8), icm("relation_name", ColType::Utf8), icm("adapter_response", ColType::Utf8), icm("timing", ColType::Utf8), icm("created_at", ColType::TimestampUtc)] }
}

fn run_results_index() -> (t: IndexTableSpec)
    ensures
        index_model_of(t) == run_results_index_model(),
{
    IndexTableSpec { name: "run_results", runtime: true, cols: vec![ic("unique_id", ColType::Utf8), ic("invocation_id", ColType::Utf8), ic("status", ColType::Utf8), ic("execution_time", ColType::Float64), ic("thread_id", ColType::Utf8), ic("message", ColType::Utf8), ic("failures", ColType::Int64), ic("compiled", ColType::Utf8), ic("batch_results", ColType::Utf8), ic("rows_affected", ColType::Int64), ic("compiled_code_hash", ColType::Utf8), ic("relation_name", ColType::Utf8), ic("adapter_response", ColType::Utf8), ic("timing", ColType::Utf8), ic("created_at", ColType::TimestampUtc)] }
}

/// The index's `source_freshness` table.
pub open spec fn source_freshness_index_model() -> IndexTable {
    IndexTable { name: "source_freshness", runtime: true, cols: seq![icm("unique_id", ColType::Utf8), icm("invocation_id", ColType::Utf8), icm("status", ColType::Utf8), icm("max_loaded_at", ColType::Utf8), icm("snapshotted_at", ColType::Utf8), icm("max_loaded_at_time_ago", ColType::Float64), icm("execution_time", ColType::Float64), icm("warn_after_count", ColType::Int64), icm("warn_after_period", ColType::Utf8), icm("error_after_count", ColType::Int64), icm("error_after_period", ColType::Utf8), icm("adapter_response", ColType::Utf8), icm("created_at", ColType::Utf8), icm("error", ColType::Utf8), icm("freshness_filter", ColType::Utf8), icm("thread_id", ColType::Utf8), icm("timing", ColType::Utf8), icm("ingested_at", ColType::TimestampUtc)] }
}

fn source_freshness_index() -> (t: IndexTableSpec)
    ensures
        index_model_of(t) == source_freshness_index_model(),
{
    IndexTableSpec { name: "source_freshness", runtime: true, cols: vec![ic("unique_id", ColType::Utf8), ic("invocation_id", ColType::Utf8), ic("status", ColType::Utf8), ic("max_loaded_at", ColType::Utf8), ic("snapshotted_at", ColType::Utf8), ic("max_loaded_at_time_ago", ColType::Float64), ic("execution_time", ColType::Float64), ic("warn_after_count", ColType::Int64), ic("warn_after_period", ColType::Utf8), ic("error_after_count", ColType::Int64), ic("error_after_period", ColType::Utf8), ic("adapter_response", ColType::Utf8), ic("created_at", ColType::Utf8), ic("error", ColType::Utf8), ic("freshness_filter", ColType::Utf8), ic("thread_id", ColType::Utf8), ic("timing", ColType::Utf8), ic("ingested_at", ColType::TimestampUtc)] }
}

/// The index's `diagnostics` table.
pub open spec fn diagnostics_index_model() -> IndexTable {
    IndexTable { name: "diagnostics", runtime: true, cols: seq![icm("unique_id", ColType::Utf8), icm("invocation_id", ColType::Utf8), icm("severity", ColType::Utf8), icm("code", ColType::Utf8), icm("message", ColType::Utf8), icm("detail", ColType::Utf8), icm("source_phase", ColType::Utf8), icm("created_at", ColType::Utf8)] }
}

fn diagnostics_index() -> (t: IndexTableSpec)
    ensures
        index_model_of(t) == diagnostics_index_model(),
{
    IndexTableSpec { name: "diagnostics", runtime: true, cols: vec![ic("unique_id", ColType::Utf8), ic("invocation_id", ColType::Utf8), ic("severity", ColType::Utf8), ic("code", ColType::Utf8), ic("message", ColType::Utf8), ic("detail", ColType::Utf8), ic("source_phase", ColType::Utf8), ic("created_at", ColType::Utf8)] }
}

/// The index's `adapter_queries` table.
pub open spec fn adapter_queries_index_model() -> IndexTable {
    IndexTable { name: "adapter_queries", runtime: true, cols: seq![icm("unique_id", ColType::Utf8), icm("invocation_id", ColType::Utf8), icm("query_index", ColType::Int64), icm("query_sql", ColType::Utf8), icm("query_id", ColType::Utf8), icm("rows_affected", ColType::Int64), icm("bytes_scanned", ColType::Int64), icm("query_cost", ColType::Float64), icm("error_message", ColType::Utf8), icm("started_at", ColType::Utf8), icm("completed_at", ColType::Utf8)] }
}

fn adapter_queries_index() -> (t: IndexTableSpec)
    ensures
        index_model_of(t) == adapter_queries_index_model(),
{
    IndexTableSpec { name: "adapter_queries", runtime: true, cols: vec![ic("unique_id", ColType::Utf8), ic("invocation_id", ColType::Utf8), ic("query_index", ColType::Int64), ic("query_sql", ColType::Utf8), ic("query_id", ColType::Utf8), ic("rows_affected", ColType::Int64), ic("bytes_scanned", ColType::Int64), ic("query_cost", ColType::Float64), ic("error_message", ColType::Utf8), ic("started_at", ColType::Utf8), ic("completed_at", ColType::Utf8)] }
}

/// Every index table, as the contracts see it.
pub open spec fn index_tables_model() -> Seq<IndexTable> {
    seq![project_index_model(), packages_index_model(), project_vars_index_model(), project_env_vars_index_model(), generation_index_model(), nodes_index_model(), edges_index_model(), test_metadata_index_model(), unit_tests_index_model(), macros_index_model(), groups_index_model(), exposures_index_model(), metrics_index_model(), docs_index_model(), saved_queries_index_model(), semantic_models_index_model(), semantic_entities_index_model(), semantic_measures_index_model(), semantic_dimensions_index_model(), semantic_relationships_index_model(), time_spines_index_model(), node_columns_index_model(), column_lineage_index_model(), classifiers_index_model(), node_input_files_index_model(), invocations_index_model(), run_results_index_model(), source_freshness_index_model(), diagnostics_index_model(), adapter_queries_index_model()]
}

/// Every index table.
pub fn index_tables() -> (v: Vec<IndexTableSpec>)
    ensures
        v@.len() == index_tables_model().len(),
        forall|i: int| 0 <= i < v@.len() ==> index_model_of(#[trigger] v@[i]) == index_tables_model()[i],
{
    let v = vec![project_index(), packages_index(), project_vars_index(), project_env_vars_index(), generation_index(), nodes_index(), edges_index(), test_metadata_index(), unit_tests_index(), macros_index(), groups_index(), exposures_index(), metrics_index(), docs_index(), saved_queries_index(), semantic_models_index(), semantic_entities_index(), semantic_measures_index(), semantic_dimensions_index(), semantic_relationships_index(), time_spines_index(), node_columns_index(), column_lineage_index(), classifiers_index(), node_input_files_index(), invocations_index(), run_results_index(), source_freshness_index(), diagnostics_index(), adapter_queries_index()];
    assert(v@.len() == index_tables_model().len());
    v
}

/// The first table of `m` named `name`.
pub open spec fn find_index_table(m: Seq<IndexTable>, name: Seq<char>) -> Option<IndexTable>
    decreases m.len(),
{
    if m.len() == 0 {
        None
    } else if m[0].name@ == name {
        Some(m[0])
    } else {
        find_index_table(m.drop_first(), name)
    }
}

/// The type of the first column of `cols` named `name`.
pub open spec fn find_column(cols: Seq<IndexColumn>, name: Seq<char>) -> Option<ColType>
    decreases cols.len(),
{
    if cols.len() == 0 {
        None
    } else if cols[0].name@ == name {
        Some(cols[0].ty)
    } else {
        find_column(cols.drop_first(), name)
    }
}

/// The type of column `col` of index table `table`, if both exist.
pub open spec fn spec_column_type(table: Seq<char>, col: Seq<char>) -> Option<ColType> {
    match find_index_table(index_tables_model(), table) {
        Some(t) => find_column(t.cols, col),
        None => None,
    }
}

/// Whether index table `table` has a column named `col`.
pub open spec fn spec_has_column(table: Seq<char>, col: Seq<char>) -> bool {
    spec_column_type(table, col) is Some
}

/// The index table named `table`, if there is one.
pub fn index_table(table: &str) -> (r: Option<IndexTableSpec>)
    ensures
        match r {
            Some(t) => find_index_table(index_tables_model(), table@) == Some(index_model_of(t)),
            None => find_index_table(index_tables_model(), table@) is None,
        },
{
    let mut all = index_tables();
    let ghost m = index_tables_model();
    let mut i: usize = 0;
    assert(m.subrange(0, m.len() as int) =~= m);
    while i < all.len()
        invariant
            i <= all@.len(),
            m == index_tables_model(),
            all@.len() == m.len(),
            forall|k: int| 0 <= k < all@.len() ==> index_model_of(#[trigger] all@[k]) == m[k],
            find_index_table(m, table@) == find_index_table(m.subrange(i as int, m.len() as int), table@),
        decreases all@.len() - i,
    {
        let ghost rest = m.subrange(i as int, m.len() as int);
        assert(rest[0] == m[i as int]);
        assert(rest.drop_first() =~= m.subrange(i + 1, m.len() as int));
        assert(index_model_of(all@[i as int]) == m[i as int]);
        if str_eq(all[i].name, table) {
            let t = all.remove(i);
            return Some(t);
        }
        i += 1;
    }
    None
}

/// The type of column `col` in the columns `cols`.
pub fn column_type_in(cols: &Vec<IndexColumn>, col: &str) -> (r: Option<ColType>)
    ensures
        r == find_column(cols@, col@),
{
    let mut i: usize = 0;
    assert(cols@.subrange(0, cols@.len() as int) =~= cols@);
    while i < cols.len()
        invariant
            i <= cols@.len(),
            find_column(cols@, col@) == find_column(cols@.subrange(i as int, cols@.len() as int), col@),
        decreases cols@.len() - i,
    {
        let ghost rest = cols@.subrange(i as int, cols@.len() as int);
        assert(rest[0] == cols@[i as int]);
        assert(rest.drop_first() =~= cols@.subrange(i + 1, cols@.len() as int));
        if str_eq(cols[i].name, col) {
            return Some(cols[i].ty);
        }
        i += 1;
    }
    None
}

/// The type of column `col` of index table `table`, if both exist.
pub fn column_type(table: &str, col: &str) -> (r: Option<ColType>)
    ensures
        r == spec_column_type(table@, col@),
{
    match index_table(table) {
        Some(t) => column_type_in(&t.cols, col),
        None => None,
    }
}

/// Whether the index's `table` has a column named `col`.
pub fn has_column(table: &str, col: &str) -> (r: bool)
    ensures
        r == spec_has_column(table@, col@),
{
    column_type(table, col).is_some()
}

/// Whether `table` is written under the runtime prefix: it is a runtime table
/// and no project table shares its name.
pub open spec fn is_runtime_only(table: Seq<char>) -> bool {
    match find_index_table(index_tables_model(), table) {
        Some(t) => t.runtime,
        None => false,
    }
}

/// Source-table file name, with the prefix the ingest step wrote it under:
/// `dbt_rt.<table>.parquet` for a runtime table, `dbt.<table>.parquet` otherwise.
pub fn source_file_name(table: &str) -> (r: String)
    ensures
        r@ == (if is_runtime_only(table@) { "dbt_rt."@ } else { "dbt."@ }) + table@ + ".parquet"@,
{
    let runtime = match index_table(table) {
        Some(t) => t.runtime,
        None => false,
    };
    let mut s = if runtime { owned("dbt_rt.") } else { owned("dbt.") };
    s.append(table);
    s.append(".parquet");
    s
}

/// Whether `table` is one of the project tables the index writes under `dbt`.
pub open spec fn is_project_table(table: Seq<char>) -> bool {
    match find_index_table(index_tables_model(), table) {
        Some(t) => !t.runtime,
        None => false,
    }
}

/// Whether `table` is a project table of the index.
pub fn is_dbt_table(table: &str) -> (r: bool)
    ensures
        r == is_project_table(table@),
{
    match index_table(table) {
        Some(t) => !t.runtime,
        None => false,
    }
}

} // verus!
