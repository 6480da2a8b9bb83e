//! The information schema: one `TableSpec` per output table.
//!
//! This file states the schema contract as data. Reading it top
//! to bottom answers "what columns does `dbt.models` have, and where does each
//! one come from". Each table is stated twice in one place: as the value the
//! writers use, and as the model the contracts speak of, and each constructor
//! is proved to build exactly its model.

use vstd::prelude::*;
use crate::order::{sorted_distinct, strictly_sorted, views};
use crate::spec::{ColSpec, ColTy, Filter, Ns, Src, TableSpec, c, n, r};
use crate::text::str_eq;

verus! {

/// A table specification as the contracts see it.
pub struct TableModel {
    pub ns: Ns,
    pub name: &'static str,
    pub src: Src,
    pub filter: Filter,
    pub cols: Seq<ColSpec>,
}

/// The model of a table specification.
pub open spec fn model_of(t: TableSpec) -> TableModel {
    TableModel { ns: t.ns, name: t.name, src: t.src, filter: t.filter, cols: t.cols@ }
}

/// Model of a column carried through unchanged.
pub open spec fn cm(out: &'static str) -> ColSpec {
    ColSpec { out, src: out, ty: None }
}

/// Model of a renamed column.
pub open spec fn rm(out: &'static str, src: &'static str) -> ColSpec {
    ColSpec { out, src, ty: None }
}

/// Model of a declared, null-filled column.
pub open spec fn nm(out: &'static str, ty: ColTy) -> ColSpec {
    ColSpec { out, src: "", ty: Some(ty) }
}

/// Columns shared by every table derived from the node set, with `extra`
/// spliced in before `ingested_at` so that column stays last, as it is in every
/// source table.
pub open spec fn node_cols_model(extra: Seq<ColSpec>) -> Seq<ColSpec> {
    seq![
        cm("unique_id"), cm("name"), cm("resource_type"), cm("package_name"),
        cm("original_file_path"), cm("fqn"), cm("alias"), cm("description"),
        cm("node_language"), cm("raw_code"), cm("database_name"), cm("schema_name"),
        cm("relation_name"), cm("identifier"), cm("enabled"), cm("materialized"),
        cm("incremental_strategy"), cm("on_schema_change"), cm("unique_key"),
        cm("full_refresh"), cm("persist_docs"), cm("pre_hook"), cm("post_hook"),
        cm("grants"), cm("config"), rm("access", "access_level"), rm("group", "group_name"),
        cm("contract_enforced"), cm("version"), cm("latest_version"), cm("deprecation_date"),
        rm("constraints", "node_constraints"), cm("primary_key"), cm("docs_show"),
        rm("properties_yml_file_path", "patch_path"), cm("time_spine"), cm("tags"),
        cm("classifiers"), cm("meta"), cm("ai_context"), cm("compiled_code"),
        cm("compiled_path"), cm("search_text"), cm("grain"), cm("grain_declared"),
        cm("grain_tested"), cm("grain_inferred"), rm("layer_inferred", "table_role"),
    ] + extra + seq![cm("ingested_at")]
}

/// Columns shared by every node-derived table. `file_path` is dropped: of the
/// two path columns only `original_file_path` is populated.
pub fn node_cols(extra: Vec<ColSpec>) -> (v: Vec<ColSpec>)
    ensures
        v@ == node_cols_model(extra@),
{
    let mut v = vec![
        c("unique_id"), c("name"), c("resource_type"), c("package_name"),
        c("original_file_path"), c("fqn"), c("alias"), c("description"),
        c("node_language"), c("raw_code"), c("database_name"), c("schema_name"),
        c("relation_name"), c("identifier"), c("enabled"), c("materialized"),
        c("incremental_strategy"), c("on_schema_change"), c("unique_key"),
        c("full_refresh"), c("persist_docs"), c("pre_hook"), c("post_hook"),
        c("grants"), c("config"), r("access", "access_level"), r("group", "group_name"),
        c("contract_enforced"), c("version"), c("latest_version"), c("deprecation_date"),
        r("constraints", "node_constraints"), c("primary_key"), c("docs_show"),
        r("properties_yml_file_path", "patch_path"), c("time_spine"), c("tags"),
        c("classifiers"), c("meta"), c("ai_context"), c("compiled_code"),
        c("compiled_path"), c("search_text"), c("grain"), c("grain_declared"),
        c("grain_tested"), c("grain_inferred"), r("layer_inferred", "table_role"),
    ];
    let mut extra = extra;
    v.append(&mut extra);
    v.push(c("ingested_at"));
    v
}

/// `dbt.project`.
pub open spec fn project_table_model() -> TableModel {
    TableModel { ns: Ns::Dbt, name: "project", src: Src::Table("project"), filter: Filter::All, cols: seq![nm("schema_version", ColTy::I64), cm("project_name"), cm("dbt_version"), cm("adapter_type"), cm("quoting"), cm("ai_context"), cm("git_sha"), cm("git_branch"), rm("git_uncommitted_changes", "git_is_dirty"), nm("last_full_parse_at", ColTy::TsUtc), cm("ingested_at")] }
}

fn project_table() -> (t: TableSpec)
    ensures
        model_of(t) == project_table_model(),
{
    TableSpec { ns: Ns::Dbt, name: "project", src: Src::Table("project"), filter: Filter::All, cols: vec![n("schema_version", ColTy::I64), c("project_name"), c("dbt_version"), c("adapter_type"), c("quoting"), c("ai_context"), c("git_sha"), c("git_branch"), r("git_uncommitted_changes", "git_is_dirty"), n("last_full_parse_at", ColTy::TsUtc), c("ingested_at")] }
}

/// `dbt.packages`.
pub open spec fn packages_table_model() -> TableModel {
    TableModel { ns: Ns::Dbt, name: "packages", src: Src::Table("packages"), filter: Filter::All, cols: seq![cm("package_name"), cm("package_source"), cm("version"), cm("git_url"), cm("git_revision"), cm("local_path"), cm("ingested_at")] }
}

fn packages_table() -> (t: TableSpec)
    ensures
        model_of(t) == packages_table_model(),
{
    TableSpec { ns: Ns::Dbt, name: "packages", src: Src::Table("packages"), filter: Filter::All, cols: vec![c("package_name"), c("package_source"), c("version"), c("git_url"), c("git_revision"), c("local_path"), c("ingested_at")] }
}

/// `dbt.project_vars`.
pub open spec fn project_vars_table_model() -> TableModel {
    TableModel { ns: Ns::Dbt, name: "project_vars", src: Src::Own, filter: Filter::All, cols: seq![nm("project_name", ColTy::Utf8), nm("var_name", ColTy::Utf8), nm("var_value", ColTy::Utf8), nm("ingested_at", ColTy::TsUtc)] }
}

fn project_vars_table() -> (t: TableSpec)
    ensures
        model_of(t) == project_vars_table_model(),
{
    TableSpec { ns: Ns::Dbt, name: "project_vars", src: Src::Own, filter: Filter::All, cols: vec![n("project_name", ColTy::Utf8), n("var_name", ColTy::Utf8), n("var_value", ColTy::Utf8), n("ingested_at", ColTy::TsUtc)] }
}

/// `dbt.project_env_vars`.
pub open spec fn project_env_vars_table_model() -> TableModel {
    TableModel { ns: Ns::Dbt, name: "project_env_vars", src: Src::Table("project_env_vars"), filter: Filter::All, cols: seq![cm("env_var_name"), cm("ingested_at")] }
}

fn project_env_vars_table() -> (t: TableSpec)
    ensures
        model_of(t) == project_env_vars_table_model(),
{
    TableSpec { ns: Ns::Dbt, name: "project_env_vars", src: Src::Table("project_env_vars"), filter: Filter::All, cols: vec![c("env_var_name"), c("ingested_at")] }
}

/// `dbt.models`.
pub open spec fn models_table_model() -> TableModel {
    TableModel { ns: Ns::Dbt, name: "models", src: Src::Table("nodes"), filter: Filter::ResourceTypeIn(&["model"]), cols: node_cols_model(seq![]) }
}

fn models_table() -> (t: TableSpec)
    ensures
        model_of(t) == models_table_model(),
{
    TableSpec { ns: Ns::Dbt, name: "models", src: Src::Table("nodes"), filter: Filter::ResourceTypeIn(&["model"]), cols: node_cols(vec![]) }
}

/// `dbt.seeds`.
pub open spec fn seeds_table_model() -> TableModel {
    TableModel { ns: Ns::Dbt, name: "seeds", src: Src::Table("nodes"), filter: Filter::ResourceTypeIn(&["seed"]), cols: node_cols_model(seq![]) }
}

fn seeds_table() -> (t: TableSpec)
    ensures
        model_of(t) == seeds_table_model(),
{
    TableSpec { ns: Ns::Dbt, name: "seeds", src: Src::Table("nodes"), filter: Filter::ResourceTypeIn(&["seed"]), cols: node_cols(vec![]) }
}

/// `dbt.snapshots`.
pub open spec fn snapshots_table_model() -> TableModel {
    TableModel { ns: Ns::Dbt, name: "snapshots", src: Src::Table("nodes"), filter: Filter::ResourceTypeIn(&["snapshot"]), cols: node_cols_model(seq![]) }
}

fn snapshots_table() -> (t: TableSpec)
    ensures
        model_of(t) == snapshots_table_model(),
{
    TableSpec { ns: Ns::Dbt, name: "snapshots", src: Src::Table("nodes"), filter: Filter::ResourceTypeIn(&["snapshot"]), cols: node_cols(vec![]) }
}

/// `dbt.functions`.
pub open spec fn functions_table_model() -> TableModel {
    TableModel { ns: Ns::Dbt, name: "functions", src: Src::Table("nodes"), filter: Filter::ResourceTypeIn(&["function"]), cols: node_cols_model(seq![]) }
}

fn functions_table() -> (t: TableSpec)
    ensures
        model_of(t) == functions_table_model(),
{
    TableSpec { ns: Ns::Dbt, name: "functions", src: Src::Table("nodes"), filter: Filter::ResourceTypeIn(&["function"]), cols: node_cols(vec![]) }
}

/// `dbt.analyses`.
pub open spec fn analyses_table_model() -> TableModel {
    TableModel { ns: Ns::Dbt, name: "analyses", src: Src::Table("nodes"), filter: Filter::ResourceTypeIn(&["analysis"]), cols: node_cols_model(seq![]) }
}

fn analyses_table() -> (t: TableSpec)
    ensures
        model_of(t) == analyses_table_model(),
{
    TableSpec { ns: Ns::Dbt, name: "analyses", src: Src::Table("nodes"), filter: Filter::ResourceTypeIn(&["analysis"]), cols: node_cols(vec![]) }
}

/// `dbt.hooks`.
pub open spec fn hooks_table_model() -> TableModel {
    TableModel { ns: Ns::Dbt, name: "hooks", src: Src::Table("nodes"), filter: Filter::ResourceTypeIn(&["operation", "sql_operation"]), cols: node_cols_model(seq![]) }
}

fn hooks_table() -> (t: TableSpec)
    ensures
        model_of(t) == hooks_table_model(),
{
    TableSpec { ns: Ns::Dbt, name: "hooks", src: Src::Table("nodes"), filter: Filter::ResourceTypeIn(&["operation", "sql_operation"]), cols: node_cols(vec![]) }
}

/// `dbt.sources`.
pub open spec fn sources_table_model() -> TableModel {
    TableModel { ns: Ns::Dbt, name: "sources", src: Src::Table("nodes"), filter: Filter::ResourceTypeIn(&["source"]), cols: node_cols_model(seq![cm("source_name"), cm("source_description"), cm("loader"), cm("loaded_at_field"), cm("loaded_at_query"), cm("freshness"), rm("external", "external_config"), cm("source_meta"), cm("quoting")]) }
}

fn sources_table() -> (t: TableSpec)
    ensures
        model_of(t) == sources_table_model(),
{
    TableSpec { ns: Ns::Dbt, name: "sources", src: Src::Table("nodes"), filter: Filter::ResourceTypeIn(&["source"]), cols: node_cols(vec![c("source_name"), c("source_description"), c("loader"), c("loaded_at_field"), c("loaded_at_query"), c("freshness"), r("external", "external_config"), c("source_meta"), c("quoting")]) }
}

/// `dbt.data_tests`.
pub open spec fn data_tests_table_model() -> TableModel {
    TableModel { ns: Ns::Dbt, name: "data_tests", src: Src::Join { left: "nodes", right: "test_metadata", left_on: "unique_id", right_on: "unique_id" }, filter: Filter::ResourceTypeIn(&["test"]), cols: seq![cm("unique_id"), cm("name"), cm("package_name"), cm("original_file_path"), cm("fqn"), cm("description"), cm("database_name"), cm("schema_name"), cm("relation_name"), cm("enabled"), cm("materialized"), cm("config"), cm("tags"), cm("meta"), rm("group", "group_name"), rm("properties_yml_file_path", "patch_path"), cm("compiled_code"), cm("compiled_path"), cm("test_name"), rm("test_definition_package", "test_namespace"), rm("arguments", "kwargs"), cm("column_name"), rm("node_unique_id", "attached_node"), cm("severity"), cm("warn_if"), cm("error_if"), cm("fail_calc"), cm("store_failures"), cm("store_failures_as"), rm("where", "test_where"), rm("limit", "test_limit"), cm("ingested_at")] }
}

fn data_tests_table() -> (t: TableSpec)
    ensures
        model_of(t) == data_tests_table_model(),
{
    TableSpec { ns: Ns::Dbt, name: "data_tests", src: Src::Join { left: "nodes", right: "test_metadata", left_on: "unique_id", right_on: "unique_id" }, filter: Filter::ResourceTypeIn(&["test"]), cols: vec![c("unique_id"), c("name"), c("package_name"), c("original_file_path"), c("fqn"), c("description"), c("database_name"), c("schema_name"), c("relation_name"), c("enabled"), c("materialized"), c("config"), c("tags"), c("meta"), r("group", "group_name"), r("properties_yml_file_path", "patch_path"), c("compiled_code"), c("compiled_path"), c("test_name"), r("test_definition_package", "test_namespace"), r("arguments", "kwargs"), c("column_name"), r("node_unique_id", "attached_node"), c("severity"), c("warn_if"), c("error_if"), c("fail_calc"), c("store_failures"), c("store_failures_as"), r("where", "test_where"), r("limit", "test_limit"), c("ingested_at")] }
}

/// `dbt.unit_tests`.
pub open spec fn unit_tests_table_model() -> TableModel {
    TableModel { ns: Ns::Dbt, name: "unit_tests", src: Src::Table("unit_tests"), filter: Filter::All, cols: seq![cm("unique_id"), cm("name"), cm("model"), cm("description"), cm("package_name"), cm("original_file_path"), cm("fqn"), cm("given"), cm("expect"), cm("overrides"), cm("versions"), cm("config"), cm("created_at"), cm("ingested_at")] }
}

fn unit_tests_table() -> (t: TableSpec)
    ensures
        model_of(t) == unit_tests_table_model(),
{
    TableSpec { ns: Ns::Dbt, name: "unit_tests", src: Src::Table("unit_tests"), filter: Filter::All, cols: vec![c("unique_id"), c("name"), c("model"), c("description"), c("package_name"), c("original_file_path"), c("fqn"), c("given"), c("expect"), c("overrides"), c("versions"), c("config"), c("created_at"), c("ingested_at")] }
}

/// `dbt.macros`.
pub open spec fn macros_table_model() -> TableModel {
    TableModel { ns: Ns::Dbt, name: "macros", src: Src::Table("macros"), filter: Filter::All, cols: seq![cm("unique_id"), cm("name"), cm("package_name"), cm("original_file_path"), cm("macro_sql"), cm("description"), cm("depends_on_macros"), cm("arguments"), cm("docs_show"), rm("properties_yml_file_path", "patch_path"), cm("meta"), cm("created_at"), cm("ingested_at")] }
}

fn macros_table() -> (t: TableSpec)
    ensures
        model_of(t) == macros_table_model(),
{
    TableSpec { ns: Ns::Dbt, name: "macros", src: Src::Table("macros"), filter: Filter::All, cols: vec![c("unique_id"), c("name"), c("package_name"), c("original_file_path"), c("macro_sql"), c("description"), c("depends_on_macros"), c("arguments"), c("docs_show"), r("properties_yml_file_path", "patch_path"), c("meta"), c("created_at"), c("ingested_at")] }
}

/// `dbt.groups`.
pub open spec fn groups_table_model() -> TableModel {
    TableModel { ns: Ns::Dbt, name: "groups", src: Src::Table("groups"), filter: Filter::All, cols: seq![cm("unique_id"), cm("name"), cm("description"), cm("package_name"), cm("original_file_path"), cm("owner_name"), cm("owner_email"), cm("config"), cm("ingested_at")] }
}

fn groups_table() -> (t: TableSpec)
    ensures
        model_of(t) == groups_table_model(),
{
    TableSpec { ns: Ns::Dbt, name: "groups", src: Src::Table("groups"), filter: Filter::All, cols: vec![c("unique_id"), c("name"), c("description"), c("package_name"), c("original_file_path"), c("owner_name"), c("owner_email"), c("config"), c("ingested_at")] }
}

/// `dbt.exposures`.
pub open spec fn exposures_table_model() -> TableModel {
    TableModel { ns: Ns::Dbt, name: "exposures", src: Src::Table("exposures"), filter: Filter::All, cols: seq![cm("unique_id"), cm("name"), cm("exposure_type"), cm("label"), cm("owner_name"), cm("owner_email"), cm("url"), cm("maturity"), cm("description"), cm("package_name"), cm("original_file_path"), cm("fqn"), rm("depends_on", "depends_on_nodes"), cm("tags"), cm("meta"), cm("config"), cm("created_at"), cm("ingested_at")] }
}

fn exposures_table() -> (t: TableSpec)
    ensures
        model_of(t) == exposures_table_model(),
{
    TableSpec { ns: Ns::Dbt, name: "exposures", src: Src::Table("exposures"), filter: Filter::All, cols: vec![c("unique_id"), c("name"), c("exposure_type"), c("label"), c("owner_name"), c("owner_email"), c("url"), c("maturity"), c("description"), c("package_name"), c("original_file_path"), c("fqn"), r("depends_on", "depends_on_nodes"), c("tags"), c("meta"), c("config"), c("created_at"), c("ingested_at")] }
}

/// `dbt.metrics`.
pub open spec fn metrics_table_model() -> TableModel {
    TableModel { ns: Ns::Dbt, name: "metrics", src: Src::Table("metrics"), filter: Filter::All, cols: seq![cm("unique_id"), cm("name"), cm("label"), cm("metric_type"), cm("description"), cm("package_name"), cm("original_file_path"), cm("fqn"), cm("type_params"), cm("metric_filter"), cm("time_granularity"), cm("semantic_model_name"), cm("input_metric_names"), rm("group", "group_name"), cm("tags"), cm("meta"), cm("ai_context"), cm("config"), cm("created_at"), cm("ingested_at")] }
}

fn metrics_table() -> (t: TableSpec)
    ensures
        model_of(t) == metrics_table_model(),
{
    TableSpec { ns: Ns::Dbt, name: "metrics", src: Src::Table("metrics"), filter: Filter::All, cols: vec![c("unique_id"), c("name"), c("label"), c("metric_type"), c("description"), c("package_name"), c("original_file_path"), c("fqn"), c("type_params"), c("metric_filter"), c("time_granularity"), c("semantic_model_name"), c("input_metric_names"), r("group", "group_name"), c("tags"), c("meta"), c("ai_context"), c("config"), c("created_at"), c("ingested_at")] }
}

/// `dbt.docs_blocks`.
pub open spec fn docs_blocks_table_model() -> TableModel {
    TableModel { ns: Ns::Dbt, name: "docs_blocks", src: Src::Table("docs"), filter: Filter::All, cols: seq![cm("unique_id"), cm("name"), cm("package_name"), cm("original_file_path"), rm("content", "block_contents"), cm("ingested_at")] }
}

fn docs_blocks_table() -> (t: TableSpec)
    ensures
        model_of(t) == docs_blocks_table_model(),
{
    TableSpec { ns: Ns::Dbt, name: "docs_blocks", src: Src::Table("docs"), filter: Filter::All, cols: vec![c("unique_id"), c("name"), c("package_name"), c("original_file_path"), r("content", "block_contents"), c("ingested_at")] }
}

/// `dbt.saved_queries`.
pub open spec fn saved_queries_table_model() -> TableModel {
    TableModel { ns: Ns::Dbt, name: "saved_queries", src: Src::Table("saved_queries"), filter: Filter::All, cols: seq![cm("unique_id"), cm("name"), cm("label"), cm("description"), cm("package_name"), cm("original_file_path"), cm("fqn"), cm("query_params"), cm("exports"), rm("depends_on", "depends_on_nodes"), rm("group", "group_name"), cm("tags"), cm("config"), cm("created_at"), cm("ingested_at")] }
}

fn saved_queries_table() -> (t: TableSpec)
    ensures
        model_of(t) == saved_queries_table_model(),
{
    TableSpec { ns: Ns::Dbt, name: "saved_queries", src: Src::Table("saved_queries"), filter: Filter::All, cols: vec![c("unique_id"), c("name"), c("label"), c("description"), c("package_name"), c("original_file_path"), c("fqn"), c("query_params"), c("exports"), r("depends_on", "depends_on_nodes"), r("group", "group_name"), c("tags"), c("config"), c("created_at"), c("ingested_at")] }
}

/// `dbt.semantic_models`.
pub open spec fn semantic_models_table_model() -> TableModel {
    TableModel { ns: Ns::Dbt, name: "semantic_models", src: Src::Table("semantic_models"), filter: Filter::All, cols: seq![cm("unique_id"), cm("name"), cm("model"), cm("label"), cm("description"), cm("package_name"), cm("original_file_path"), cm("fqn"), cm("node_relation"), cm("primary_entity"), cm("defaults"), rm("group", "group_name"), cm("config"), cm("created_at"), cm("ingested_at")] }
}

fn semantic_models_table() -> (t: TableSpec)
    ensures
        model_of(t) == semantic_models_table_model(),
{
    TableSpec { ns: Ns::Dbt, name: "semantic_models", src: Src::Table("semantic_models"), filter: Filter::All, cols: vec![c("unique_id"), c("name"), c("model"), c("label"), c("description"), c("package_name"), c("original_file_path"), c("fqn"), c("node_relation"), c("primary_entity"), c("defaults"), r("group", "group_name"), c("config"), c("created_at"), c("ingested_at")] }
}

/// `dbt.semantic_entities`.
pub open spec fn semantic_entities_table_model() -> TableModel {
    TableModel { ns: Ns::Dbt, name: "semantic_entities", src: Src::Table("semantic_entities"), filter: Filter::All, cols: seq![cm("unique_id"), cm("name"), cm("entity_type"), cm("description"), cm("label"), cm("entity_role"), cm("expr"), cm("config"), cm("ingested_at")] }
}

fn semantic_entities_table() -> (t: TableSpec)
    ensures
        model_of(t) == semantic_entities_table_model(),
{
    TableSpec { ns: Ns::Dbt, name: "semantic_entities", src: Src::Table("semantic_entities"), filter: Filter::All, cols: vec![c("unique_id"), c("name"), c("entity_type"), c("description"), c("label"), c("entity_role"), c("expr"), c("config"), c("ingested_at")] }
}

/// `dbt.semantic_measures`.
pub open spec fn semantic_measures_table_model() -> TableModel {
    TableModel { ns: Ns::Dbt, name: "semantic_measures", src: Src::Table("semantic_measures"), filter: Filter::All, cols: seq![cm("unique_id"), cm("name"), cm("agg"), cm("description"), cm("label"), cm("expr"), cm("create_metric"), cm("agg_time_dimension"), cm("agg_params"), cm("non_additive_dimension"), cm("config"), cm("ingested_at")] }
}

fn semantic_measures_table() -> (t: TableSpec)
    ensures
        model_of(t) == semantic_measures_table_model(),
{
    TableSpec { ns: Ns::Dbt, name: "semantic_measures", src: Src::Table("semantic_measures"), filter: Filter::All, cols: vec![c("unique_id"), c("name"), c("agg"), c("description"), c("label"), c("expr"), c("create_metric"), c("agg_time_dimension"), c("agg_params"), c("non_additive_dimension"), c("config"), c("ingested_at")] }
}

/// `dbt.semantic_dimensions`.
pub open spec fn semantic_dimensions_table_model() -> TableModel {
    TableModel { ns: Ns::Dbt, name: "semantic_dimensions", src: Src::Table("semantic_dimensions"), filter: Filter::All, cols: seq![cm("unique_id"), cm("name"), cm("dimension_type"), cm("description"), cm("label"), cm("expr"), cm("is_partition"), cm("time_granularity"), cm("validity_params"), cm("config"), cm("ingested_at")] }
}

fn semantic_dimensions_table() -> (t: TableSpec)
    ensures
        model_of(t) == semantic_dimensions_table_model(),
{
    TableSpec { ns: Ns::Dbt, name: "semantic_dimensions", src: Src::Table("semantic_dimensions"), filter: Filter::All, cols: vec![c("unique_id"), c("name"), c("dimension_type"), c("description"), c("label"), c("expr"), c("is_partition"), c("time_granularity"), c("validity_params"), c("config"), c("ingested_at")] }
}

/// `dbt.semantic_relationships`.
pub open spec fn semantic_relationships_table_model() -> TableModel {
    TableModel { ns: Ns::Dbt, name: "semantic_relationships", src: Src::Table("semantic_relationships"), filter: Filter::All, cols: seq![cm("name"), rm("from_node_unique_id", "from_unique_id"), rm("to_node_unique_id", "to_unique_id"), rm("from_column_names", "from_columns"), rm("to_column_names", "to_columns"), cm("cardinality"), cm("relationship_type"), cm("ai_context"), cm("ingested_at")] }
}

fn semantic_relationships_table() -> (t: TableSpec)
    ensures
        model_of(t) == semantic_relationships_table_model(),
{
    TableSpec { ns: Ns::Dbt, name: "semantic_relationships", src: Src::Table("semantic_relationships"), filter: Filter::All, cols: vec![c("name"), r("from_node_unique_id", "from_unique_id"), r("to_node_unique_id", "to_unique_id"), r("from_column_names", "from_columns"), r("to_column_names", "to_columns"), c("cardinality"), c("relationship_type"), c("ai_context"), c("ingested_at")] }
}

/// `dbt.time_spines`.
pub open spec fn time_spines_table_model() -> TableModel {
    TableModel { ns: Ns::Dbt, name: "time_spines", src: Src::Table("time_spines"), filter: Filter::All, cols: seq![cm("unique_id"), cm("primary_column"), cm("primary_granularity"), cm("custom_granularities"), cm("node_relation"), cm("ingested_at")] }
}

fn time_spines_table() -> (t: TableSpec)
    ensures
        model_of(t) == time_spines_table_model(),
{
    TableSpec { ns: Ns::Dbt, name: "time_spines", src: Src::Table("time_spines"), filter: Filter::All, cols: vec![c("unique_id"), c("primary_column"), c("primary_granularity"), c("custom_granularities"), c("node_relation"), c("ingested_at")] }
}

/// `dbt.dag_nodes`.
pub open spec fn dag_nodes_table_model() -> TableModel {
    TableModel { ns: Ns::Dbt, name: "dag_nodes", src: Src::Own, filter: Filter::All, cols: seq![nm("unique_id", ColTy::Utf8), nm("resource_type", ColTy::Utf8), nm("ingested_at", ColTy::TsUtc)] }
}

fn dag_nodes_table() -> (t: TableSpec)
    ensures
        model_of(t) == dag_nodes_table_model(),
{
    TableSpec { ns: Ns::Dbt, name: "dag_nodes", src: Src::Own, filter: Filter::All, cols: vec![n("unique_id", ColTy::Utf8), n("resource_type", ColTy::Utf8), n("ingested_at", ColTy::TsUtc)] }
}

/// `dbt.edges`.
pub open spec fn edges_table_model() -> TableModel {
    TableModel { ns: Ns::Dbt, name: "edges", src: Src::Table("edges"), filter: Filter::All, cols: seq![cm("parent_unique_id"), cm("child_unique_id"), cm("ingested_at")] }
}

fn edges_table() -> (t: TableSpec)
    ensures
        model_of(t) == edges_table_model(),
{
    TableSpec { ns: Ns::Dbt, name: "edges", src: Src::Table("edges"), filter: Filter::All, cols: vec![c("parent_unique_id"), c("child_unique_id"), c("ingested_at")] }
}

/// `dbt.node_columns`.
pub open spec fn node_columns_table_model() -> TableModel {
    TableModel { ns: Ns::Dbt, name: "node_columns", src: Src::Table("node_columns"), filter: Filter::All, cols: seq![rm("node_unique_id", "unique_id"), cm("column_name"), cm("column_index"), rm("data_type_declared", "declared_type"), rm("data_type_inferred", "inferred_type"), rm("data_type_actual", "catalog_type"), cm("data_type"), cm("description"), cm("label"), cm("expression"), cm("quote"), cm("granularity"), cm("tags"), cm("classifiers"), cm("meta"), rm("constraints", "column_constraints"), cm("tests"), rm("comment", "catalog_comment"), cm("ingested_at")] }
}

fn node_columns_table() -> (t: TableSpec)
    ensures
        model_of(t) == node_columns_table_model(),
{
    TableSpec { ns: Ns::Dbt, name: "node_columns", src: Src::Table("node_columns"), filter: Filter::All, cols: vec![r("node_unique_id", "unique_id"), c("column_name"), c("column_index"), r("data_type_declared", "declared_type"), r("data_type_inferred", "inferred_type"), r("data_type_actual", "catalog_type"), c("data_type"), c("description"), c("label"), c("expression"), c("quote"), c("granularity"), c("tags"), c("classifiers"), c("meta"), r("constraints", "column_constraints"), c("tests"), r("comment", "catalog_comment"), c("ingested_at")] }
}

/// `dbt.column_lineage`.
pub open spec fn column_lineage_table_model() -> TableModel {
    TableModel { ns: Ns::Dbt, name: "column_lineage", src: Src::Table("column_lineage"), filter: Filter::All, cols: seq![rm("parent_node_unique_id", "from_node_unique_id"), rm("parent_column_name", "from_column_name"), rm("child_node_unique_id", "to_node_unique_id"), rm("child_column_name", "to_column_name"), rm("evolution", "lineage_kind"), cm("ingested_at")] }
}

fn column_lineage_table() -> (t: TableSpec)
    ensures
        model_of(t) == column_lineage_table_model(),
{
    TableSpec { ns: Ns::Dbt, name: "column_lineage", src: Src::Table("column_lineage"), filter: Filter::All, cols: vec![r("parent_node_unique_id", "from_node_unique_id"), r("parent_column_name", "from_column_name"), r("child_node_unique_id", "to_node_unique_id"), r("child_column_name", "to_column_name"), r("evolution", "lineage_kind"), c("ingested_at")] }
}

/// `dbt.classifiers`.
pub open spec fn classifiers_table_model() -> TableModel {
    TableModel { ns: Ns::Dbt, name: "classifiers", src: Src::Own, filter: Filter::All, cols: seq![nm("name", ColTy::Utf8), nm("propagate", ColTy::Bool), nm("labels", ColTy::ListUtf8), nm("description", ColTy::Utf8), nm("ingested_at", ColTy::TsUtc)] }
}

fn classifiers_table() -> (t: TableSpec)
    ensures
        model_of(t) == classifiers_table_model(),
{
    TableSpec { ns: Ns::Dbt, name: "classifiers", src: Src::Own, filter: Filter::All, cols: vec![n("name", ColTy::Utf8), n("propagate", ColTy::Bool), n("labels", ColTy::ListUtf8), n("description", ColTy::Utf8), n("ingested_at", ColTy::TsUtc)] }
}

/// `dbt_rt.invocations`.
pub open spec fn invocations_table_model() -> TableModel {
    TableModel { ns: Ns::DbtRt, name: "invocations", src: Src::Table("invocations"), filter: Filter::All, cols: seq![cm("invocation_id"), cm("command"), cm("selector"), cm("dbt_version"), cm("generated_at"), cm("elapsed_time"), cm("args"), cm("node_count"), cm("target_name"), cm("target_type"), cm("target_database"), cm("target_schema"), cm("target_threads"), cm("vars_override"), cm("git_sha"), cm("git_branch"), rm("git_uncommitted_changes", "git_is_dirty")] }
}

fn invocations_table() -> (t: TableSpec)
    ensures
        model_of(t) == invocations_table_model(),
{
    TableSpec { ns: Ns::DbtRt, name: "invocations", src: Src::Table("invocations"), filter: Filter::All, cols: vec![c("invocation_id"), c("command"), c("selector"), c("dbt_version"), c("generated_at"), c("elapsed_time"), c("args"), c("node_count"), c("target_name"), c("target_type"), c("target_database"), c("target_schema"), c("target_threads"), c("vars_override"), c("git_sha"), c("git_branch"), r("git_uncommitted_changes", "git_is_dirty")] }
}

/// `dbt_rt.run_results`.
pub open spec fn run_results_table_model() -> TableModel {
    TableModel { ns: Ns::DbtRt, name: "run_results", src: Src::Table("run_results"), filter: Filter::All, cols: seq![cm("unique_id"), cm("invocation_id"), cm("status"), cm("execution_time"), cm("thread_id"), cm("message"), cm("failures"), cm("compiled"), cm("compiled_code_hash"), cm("relation_name"), cm("adapter_response"), cm("timing"), cm("batch_results"), cm("rows_affected"), cm("created_at")] }
}

fn run_results_table() -> (t: TableSpec)
    ensures
        model_of(t) == run_results_table_model(),
{
    TableSpec { ns: Ns::DbtRt, name: "run_results", src: Src::Table("run_results"), filter: Filter::All, cols: vec![c("unique_id"), c("invocation_id"), c("status"), c("execution_time"), c("thread_id"), c("message"), c("failures"), c("compiled"), c("compiled_code_hash"), c("relation_name"), c("adapter_response"), c("timing"), c("batch_results"), c("rows_affected"), c("created_at")] }
}

/// `dbt_rt.source_freshness`.
pub open spec fn source_freshness_table_model() -> TableModel {
    TableModel { ns: Ns::DbtRt, name: "source_freshness", src: Src::Table("source_freshness"), filter: Filter::All, cols: seq![cm("unique_id"), cm("invocation_id"), cm("status"), cm("max_loaded_at"), cm("snapshotted_at"), cm("max_loaded_at_time_ago"), cm("execution_time"), cm("thread_id"), cm("error"), cm("warn_after_count"), cm("warn_after_period"), cm("error_after_count"), cm("error_after_period"), cm("freshness_filter"), cm("adapter_response"), cm("timing"), cm("created_at"), cm("ingested_at")] }
}

fn source_freshness_table() -> (t: TableSpec)
    ensures
        model_of(t) == source_freshness_table_model(),
{
    TableSpec { ns: Ns::DbtRt, name: "source_freshness", src: Src::Table("source_freshness"), filter: Filter::All, cols: vec![c("unique_id"), c("invocation_id"), c("status"), c("max_loaded_at"), c("snapshotted_at"), c("max_loaded_at_time_ago"), c("execution_time"), c("thread_id"), c("error"), c("warn_after_count"), c("warn_after_period"), c("error_after_count"), c("error_after_period"), c("freshness_filter"), c("adapter_response"), c("timing"), c("created_at"), c("ingested_at")] }
}

/// `dbt_rt.diagnostics`.
pub open spec fn diagnostics_table_model() -> TableModel {
    TableModel { ns: Ns::DbtRt, name: "diagnostics", src: Src::Table("diagnostics"), filter: Filter::All, cols: seq![cm("unique_id"), cm("invocation_id"), cm("severity"), cm("code"), cm("message"), cm("detail"), cm("source_phase"), cm("created_at")] }
}

fn diagnostics_table() -> (t: TableSpec)
    ensures
        model_of(t) == diagnostics_table_model(),
{
    TableSpec { ns: Ns::DbtRt, name: "diagnostics", src: Src::Table("diagnostics"), filter: Filter::All, cols: vec![c("unique_id"), c("invocation_id"), c("severity"), c("code"), c("message"), c("detail"), c("source_phase"), c("created_at")] }
}

/// `dbt_rt.adapter_queries`.
pub open spec fn adapter_queries_table_model() -> TableModel {
    TableModel { ns: Ns::DbtRt, name: "adapter_queries", src: Src::Table("adapter_queries"), filter: Filter::All, cols: seq![cm("unique_id"), cm("invocation_id"), cm("query_index"), cm("query_sql"), cm("query_id"), cm("rows_affected"), cm("bytes_scanned"), cm("query_cost"), cm("error_message"), cm("started_at"), cm("completed_at")] }
}

fn adapter_queries_table() -> (t: TableSpec)
    ensures
        model_of(t) == adapter_queries_table_model(),
{
    TableSpec { ns: Ns::DbtRt, name: "adapter_queries", src: Src::Table("adapter_queries"), filter: Filter::All, cols: vec![c("unique_id"), c("invocation_id"), c("query_index"), c("query_sql"), c("query_id"), c("rows_affected"), c("bytes_scanned"), c("query_cost"), c("error_message"), c("started_at"), c("completed_at")] }
}

/// `dbt_internal.node_input_files`.
pub open spec fn node_input_files_table_model() -> TableModel {
    TableModel { ns: Ns::DbtInternal, name: "node_input_files", src: Src::Table("node_input_files"), filter: Filter::All, cols: seq![cm("unique_id"), cm("file_path"), cm("file_hash"), cm("input_kind"), cm("ingested_at")] }
}

fn node_input_files_table() -> (t: TableSpec)
    ensures
        model_of(t) == node_input_files_table_model(),
{
    TableSpec { ns: Ns::DbtInternal, name: "node_input_files", src: Src::Table("node_input_files"), filter: Filter::All, cols: vec![c("unique_id"), c("file_path"), c("file_hash"), c("input_kind"), c("ingested_at")] }
}

/// Every table in the information schema, as the contracts see it.
pub open spec fn info_schema_model() -> Seq<TableModel> {
    seq![project_table_model(), packages_table_model(), project_vars_table_model(), project_env_vars_table_model(), models_table_model(), seeds_table_model(), snapshots_table_model(), functions_table_model(), analyses_table_model(), hooks_table_model(), sources_table_model(), data_tests_table_model(), unit_tests_table_model(), macros_table_model(), groups_table_model(), exposures_table_model(), metrics_table_model(), docs_blocks_table_model(), saved_queries_table_model(), semantic_models_table_model(), semantic_entities_table_model(), semantic_measures_table_model(), semantic_dimensions_table_model(), semantic_relationships_table_model(), time_spines_table_model(), dag_nodes_table_model(), edges_table_model(), node_columns_table_model(), column_lineage_table_model(), classifiers_table_model(), invocations_table_model(), run_results_table_model(), source_freshness_table_model(), diagnostics_table_model(), adapter_queries_table_model(), node_input_files_table_model()]
}

/// Every table in the information schema, in publication order.
pub fn info_schema() -> (v: Vec<TableSpec>)
    ensures
        v@.len() == info_schema_model().len(),
        forall|i: int| 0 <= i < v@.len() ==> model_of(#[trigger] v@[i]) == info_schema_model()[i],
{
    let v = vec![project_table(), packages_table(), project_vars_table(), project_env_vars_table(), models_table(), seeds_table(), snapshots_table(), functions_table(), analyses_table(), hooks_table(), sources_table(), data_tests_table(), unit_tests_table(), macros_table(), groups_table(), exposures_table(), metrics_table(), docs_blocks_table(), saved_queries_table(), semantic_models_table(), semantic_entities_table(), semantic_measures_table(), semantic_dimensions_table(), semantic_relationships_table(), time_spines_table(), dag_nodes_table(), edges_table(), node_columns_table(), column_lineage_table(), classifiers_table(), invocations_table(), run_results_table(), source_freshness_table(), diagnostics_table(), adapter_queries_table(), node_input_files_table()];
    assert(v@.len() == info_schema_model().len());
    v
}

/// Resource types that participate in the DAG, for `dbt.dag_nodes`.
pub open spec fn dag_resource_types_model() -> Seq<&'static str> {
    seq!["model", "seed", "source", "snapshot", "analysis", "function", "test", "unit_test", "metric", "exposure"]
}

/// Resource types that participate in the DAG, for `dbt.dag_nodes`.
pub fn dag_resource_types() -> (r: &'static [&'static str])
    ensures
        r@ == dag_resource_types_model(),
{
    let r: &'static [&'static str] = &["model", "seed", "source", "snapshot", "analysis", "function", "test", "unit_test", "metric", "exposure"];
    assert(r@ =~= dag_resource_types_model());
    r
}

/// Whether a table model is the one named `name` in namespace `ns`.
pub open spec fn table_is(m: TableModel, ns: Ns, name: Seq<char>) -> bool {
    m.ns == ns && m.name@ == name
}

/// The first table of `m` named `name` in namespace `ns`.
pub open spec fn find_table(m: Seq<TableModel>, ns: Ns, name: Seq<char>) -> Option<TableModel>
    decreases m.len(),
{
    if m.len() == 0 {
        None
    } else if table_is(m[0], ns, name) {
        Some(m[0])
    } else {
        find_table(m.drop_first(), ns, name)
    }
}

/// Look up a spec by namespace and name: the first table of the schema with
/// that namespace and name, or `None` when there is none.
pub fn spec_for(ns: Ns, name: &str) -> (r: Option<TableSpec>)
    ensures
        match r {
            Some(t) => find_table(info_schema_model(), ns, name@) == Some(model_of(t)),
            None => find_table(info_schema_model(), ns, name@) is None,
        },
{
    let mut all = info_schema();
    let ghost m = info_schema_model();
    let mut i: usize = 0;
    assert(m.subrange(0, m.len() as int) =~= m);
    while i < all.len()
        invariant
            i <= all@.len(),
            m == info_schema_model(),
            all@.len() == m.len(),
            forall|k: int| 0 <= k < all@.len() ==> model_of(#[trigger] all@[k]) == m[k],
            find_table(m, ns, name@) == find_table(m.subrange(i as int, m.len() as int), ns, name@),
        decreases all@.len() - i,
    {
        let ghost rest = m.subrange(i as int, m.len() as int);
        assert(rest[0] == m[i as int]);
        assert(rest.drop_first() =~= m.subrange(i + 1, m.len() as int));
        assert(model_of(all@[i as int]) == m[i as int]);
        if all[i].ns == ns && str_eq(all[i].name, name) {
            let t = all.remove(i);
            return Some(t);
        }
        i += 1;
    }
    None
}

/// The source tables one specification reads, left before right.
pub open spec fn src_tables(s: Src) -> Seq<&'static str> {
    match s {
        Src::Table(t) => seq![t],
        Src::Join { left, right, .. } => seq![left, right],
        Src::Own => Seq::empty(),
    }
}

/// The source tables of every specification, in schema order, repeats kept.
pub open spec fn all_src_tables(m: Seq<TableModel>) -> Seq<&'static str>
    decreases m.len(),
{
    if m.len() == 0 {
        Seq::empty()
    } else {
        all_src_tables(m.drop_last()) + src_tables(m.last().src)
    }
}

/// Every source table the schema reads from, distinct and in increasing order.
pub fn source_tables() -> (v: Vec<&'static str>)
    ensures
        strictly_sorted(views(v@)),
        forall|x: Seq<char>| views(v@).contains(x) <==> views(all_src_tables(info_schema_model())).contains(x),
{
    let all = info_schema();
    let ghost m = info_schema_model();
    let mut names: Vec<&'static str> = Vec::new();
    let mut i: usize = 0;
    while i < all.len()
        invariant
            i <= all@.len(),
            m == info_schema_model(),
            all@.len() == m.len(),
            forall|k: int| 0 <= k < all@.len() ==> model_of(#[trigger] all@[k]) == m[k],
            names@ == all_src_tables(m.subrange(0, i as int)),
        decreases all@.len() - i,
    {
        assert(model_of(all@[i as int]) == m[i as int]);
        assert(m.subrange(0, i + 1).drop_last() =~= m.subrange(0, i as int));
        match all[i].src {
            Src::Table(t) => {
                names.push(t);
            }
            Src::Join { left, right, .. } => {
                names.push(left);
                names.push(right);
            }
            Src::Own => {}
        }
        assert(names@ =~= all_src_tables(m.subrange(0, i + 1)));
        i += 1;
    }
    assert(m.subrange(0, m.len() as int) =~= m);
    sorted_distinct(&names)
}

} // verus!
