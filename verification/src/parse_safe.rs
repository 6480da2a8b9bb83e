//! The views a parse-time check reads: the information schema's vocabulary,
//! computed live over the index.
//!
//! A project quality check is SQL that runs at parse time, so it cannot read the
//! materialized information schema, which is written after parse and only when
//! asked for. It reads the index instead, through the views declared here.
//!
//! - Same names as the information schema. A view is named after the
//!   information-schema table it mirrors and spells every column the way that
//!   table spells it. A view lists the output names it exposes, and the index
//!   column behind each is looked up in the information schema's own
//!   specification, so a rename there lands here too.
//! - Only columns that are final at parse. Zero rows is a pass, so a column still
//!   empty when a check runs would quietly satisfy it. Every such column is left
//!   out rather than nulled: referencing one is a binder error, which is loud.
//!
//! So a view here is a strict subset of the information-schema table of the same
//! name: same names, fewer columns.

use vstd::prelude::*;
use crate::error::{IndexError, error_message};
use crate::index::{has_column, index_tables_model, spec_has_column};
use crate::schema::{TableModel, dag_resource_types, dag_resource_types_model, find_table, info_schema_model, model_of, spec_for};
use crate::spec::{ColSpec, Filter, Ns, Src, TableSpec};
use crate::text::{join, join_seq, literal_list, owned, quote, quoted, sql_literals, str_eq, string_views};

verus! {

/// Schema the views are created in: the one the information schema publishes
/// under, so `dbt.models` means the same thing in a check as it does in the
/// written information schema.
pub const VIEW_SCHEMA: &'static str = "dbt";

/// Schema the index's own parquet tables are registered in. Deliberately not
/// `dbt`: the views are the contract and the tables under them are not, and
/// keeping the tables out of `dbt` stops a check from reaching one by hand.
pub const BASE_SCHEMA: &'static str = "dbt_internal";

/// One parse-safe view.
#[derive(Debug)]
pub struct ParseSafeView {
    /// View name: `dbt.<name>`, and the argument `info_schema('<name>')` takes.
    pub name: &'static str,
    /// Information-schema table this view borrows its column names from.
    pub vocabulary: &'static str,
    /// Index table(s) the view reads. `Src::Own` marks the one view assembled
    /// from several tables rather than projected from one or two.
    pub src: Src,
    /// Rows to keep.
    pub filter: Filter,
    /// Output columns, named as the information schema names them.
    pub cols: Vec<&'static str>,
}

/// A parse-safe view as the contracts see it.
pub struct ViewModel {
    pub name: &'static str,
    pub vocabulary: &'static str,
    pub src: Src,
    pub filter: Filter,
    pub cols: Seq<&'static str>,
}

/// The model of a view.
pub open spec fn view_model_of(v: ParseSafeView) -> ViewModel {
    ViewModel { name: v.name, vocabulary: v.vocabulary, src: v.src, filter: v.filter, cols: v.cols@ }
}

/// Columns every node-derived view exposes, with `extra` spliced in before
/// `ingested_at` so that column stays last.
///
/// Absent, and deliberately: the columns written during compile
/// (`compiled_code`, `compiled_path`, the `grain` family, `layer_inferred`,
/// `search_text`), `classifiers` (partly written at parse, so a check would see
/// a subset and pass), and the columns no writer fills, whose real values live
/// inside the `config` JSON, which is here.
pub open spec fn view_node_cols_model(extra: Seq<&'static str>) -> Seq<&'static str> {
    seq![
        "unique_id", "name", "resource_type", "package_name", "original_file_path", "fqn",
        "alias", "description", "node_language", "raw_code", "database_name", "schema_name",
        "relation_name", "identifier", "enabled", "materialized", "config", "access", "group",
        "contract_enforced", "version", "latest_version", "deprecation_date", "primary_key",
        "properties_yml_file_path", "tags", "meta",
    ] + extra + seq!["ingested_at"]
}

fn view_node_cols(extra: Vec<&'static str>) -> (v: Vec<&'static str>)
    ensures
        v@ == view_node_cols_model(extra@),
{
    let mut v = vec![
        "unique_id", "name", "resource_type", "package_name", "original_file_path", "fqn",
        "alias", "description", "node_language", "raw_code", "database_name", "schema_name",
        "relation_name", "identifier", "enabled", "materialized", "config", "access", "group",
        "contract_enforced", "version", "latest_version", "deprecation_date", "primary_key",
        "properties_yml_file_path", "tags", "meta",
    ];
    let mut extra = extra;
    v.append(&mut extra);
    v.push("ingested_at");
    v
}

/// The `dbt.project` view.
pub open spec fn project_view_model() -> ViewModel {
    ViewModel { name: "project", vocabulary: "project", src: Src::Table("project"), filter: Filter::All, cols: seq!["project_name", "dbt_version", "adapter_type", "git_sha", "git_branch", "git_uncommitted_changes", "ingested_at"] }
}

fn project_view() -> (v: ParseSafeView)
    ensures
        view_model_of(v) == project_view_model(),
{
    let cols = vec!["project_name", "dbt_version", "adapter_type", "git_sha", "git_branch", "git_uncommitted_changes", "ingested_at"];
    proof { assert(cols@ =~= project_view_model().cols); }
    ParseSafeView { name: "project", vocabulary: "project", src: Src::Table("project"), filter: Filter::All, cols }
}

/// The `dbt.packages` view.
pub open spec fn packages_view_model() -> ViewModel {
    ViewModel { name: "packages", vocabulary: "packages", src: Src::Table("packages"), filter: Filter::All, cols: seq!["package_name", "ingested_at"] }
}

fn packages_view() -> (v: ParseSafeView)
    ensures
        view_model_of(v) == packages_view_model(),
{
    let cols = vec!["package_name", "ingested_at"];
    proof { assert(cols@ =~= packages_view_model().cols); }
    ParseSafeView { name: "packages", vocabulary: "packages", src: Src::Table("packages"), filter: Filter::All, cols }
}

/// The `dbt.project_vars` view.
pub open spec fn project_vars_view_model() -> ViewModel {
    ViewModel { name: "project_vars", vocabulary: "project_vars", src: Src::Table("project_vars"), filter: Filter::All, cols: seq!["var_name", "var_value", "ingested_at"] }
}

fn project_vars_view() -> (v: ParseSafeView)
    ensures
        view_model_of(v) == project_vars_view_model(),
{
    let cols = vec!["var_name", "var_value", "ingested_at"];
    proof { assert(cols@ =~= project_vars_view_model().cols); }
    ParseSafeView { name: "project_vars", vocabulary: "project_vars", src: Src::Table("project_vars"), filter: Filter::All, cols }
}

/// The `dbt.project_env_vars` view.
pub open spec fn project_env_vars_view_model() -> ViewModel {
    ViewModel { name: "project_env_vars", vocabulary: "project_env_vars", src: Src::Table("project_env_vars"), filter: Filter::All, cols: seq!["env_var_name", "ingested_at"] }
}

fn project_env_vars_view() -> (v: ParseSafeView)
    ensures
        view_model_of(v) == project_env_vars_view_model(),
{
    let cols = vec!["env_var_name", "ingested_at"];
    proof { assert(cols@ =~= project_env_vars_view_model().cols); }
    ParseSafeView { name: "project_env_vars", vocabulary: "project_env_vars", src: Src::Table("project_env_vars"), filter: Filter::All, cols }
}

/// The `dbt.models` view.
pub open spec fn models_view_model() -> ViewModel {
    ViewModel { name: "models", vocabulary: "models", src: Src::Table("nodes"), filter: Filter::ResourceTypeIn(&["model"]), cols: view_node_cols_model(seq![]) }
}

fn models_view() -> (v: ParseSafeView)
    ensures
        view_model_of(v) == models_view_model(),
{
    let cols = view_node_cols(vec![]);
    proof { assert(cols@ =~= models_view_model().cols); }
    ParseSafeView { name: "models", vocabulary: "models", src: Src::Table("nodes"), filter: Filter::ResourceTypeIn(&["model"]), cols }
}

/// The `dbt.seeds` view.
pub open spec fn seeds_view_model() -> ViewModel {
    ViewModel { name: "seeds", vocabulary: "seeds", src: Src::Table("nodes"), filter: Filter::ResourceTypeIn(&["seed"]), cols: view_node_cols_model(seq![]) }
}

fn seeds_view() -> (v: ParseSafeView)
    ensures
        view_model_of(v) == seeds_view_model(),
{
    let cols = view_node_cols(vec![]);
    proof { assert(cols@ =~= seeds_view_model().cols); }
    ParseSafeView { name: "seeds", vocabulary: "seeds", src: Src::Table("nodes"), filter: Filter::ResourceTypeIn(&["seed"]), cols }
}

/// The `dbt.snapshots` view.
pub open spec fn snapshots_view_model() -> ViewModel {
    ViewModel { name: "snapshots", vocabulary: "snapshots", src: Src::Table("nodes"), filter: Filter::ResourceTypeIn(&["snapshot"]), cols: view_node_cols_model(seq![]) }
}

fn snapshots_view() -> (v: ParseSafeView)
    ensures
        view_model_of(v) == snapshots_view_model(),
{
    let cols = view_node_cols(vec![]);
    proof { assert(cols@ =~= snapshots_view_model().cols); }
    ParseSafeView { name: "snapshots", vocabulary: "snapshots", src: Src::Table("nodes"), filter: Filter::ResourceTypeIn(&["snapshot"]), cols }
}

/// The `dbt.functions` view.
pub open spec fn functions_view_model() -> ViewModel {
    ViewModel { name: "functions", vocabulary: "functions", src: Src::Table("nodes"), filter: Filter::ResourceTypeIn(&["function"]), cols: view_node_cols_model(seq![]) }
}

fn functions_view() -> (v: ParseSafeView)
    ensures
        view_model_of(v) == functions_view_model(),
{
    let cols = view_node_cols(vec![]);
    proof { assert(cols@ =~= functions_view_model().cols); }
    ParseSafeView { name: "functions", vocabulary: "functions", src: Src::Table("nodes"), filter: Filter::ResourceTypeIn(&["function"]), cols }
}

/// The `dbt.analyses` view.
pub open spec fn analyses_view_model() -> ViewModel {
    ViewModel { name: "analyses", vocabulary: "analyses", src: Src::Table("nodes"), filter: Filter::ResourceTypeIn(&["analysis"]), cols: view_node_cols_model(seq![]) }
}

fn analyses_view() -> (v: ParseSafeView)
    ensures
        view_model_of(v) == analyses_view_model(),
{
    let cols = view_node_cols(vec![]);
    proof { assert(cols@ =~= analyses_view_model().cols); }
    ParseSafeView { name: "analyses", vocabulary: "analyses", src: Src::Table("nodes"), filter: Filter::ResourceTypeIn(&["analysis"]), cols }
}

/// The `dbt.hooks` view.
pub open spec fn hooks_view_model() -> ViewModel {
    ViewModel { name: "hooks", vocabulary: "hooks", src: Src::Table("nodes"), filter: Filter::ResourceTypeIn(&["operation", "sql_operation"]), cols: view_node_cols_model(seq![]) }
}

fn hooks_view() -> (v: ParseSafeView)
    ensures
        view_model_of(v) == hooks_view_model(),
{
    let cols = view_node_cols(vec![]);
    proof { assert(cols@ =~= hooks_view_model().cols); }
    ParseSafeView { name: "hooks", vocabulary: "hooks", src: Src::Table("nodes"), filter: Filter::ResourceTypeIn(&["operation", "sql_operation"]), cols }
}

/// The `dbt.sources` view.
pub open spec fn sources_view_model() -> ViewModel {
    ViewModel { name: "sources", vocabulary: "sources", src: Src::Table("nodes"), filter: Filter::ResourceTypeIn(&["source"]), cols: view_node_cols_model(seq!["source_name", "source_description", "loader", "loaded_at_field"]) }
}

fn sources_view() -> (v: ParseSafeView)
    ensures
        view_model_of(v) == sources_view_model(),
{
    let cols = view_node_cols(vec!["source_name", "source_description", "loader", "loaded_at_field"]);
    proof { assert(cols@ =~= sources_view_model().cols); }
    ParseSafeView { name: "sources", vocabulary: "sources", src: Src::Table("nodes"), filter: Filter::ResourceTypeIn(&["source"]), cols }
}

/// The `dbt.data_tests` view.
pub open spec fn data_tests_view_model() -> ViewModel {
    ViewModel { name: "data_tests", vocabulary: "data_tests", src: Src::Join { left: "nodes", right: "test_metadata", left_on: "unique_id", right_on: "unique_id" }, filter: Filter::ResourceTypeIn(&["test"]), cols: seq!["unique_id", "name", "package_name", "original_file_path", "fqn", "description", "database_name", "schema_name", "relation_name", "enabled", "materialized", "config", "tags", "meta", "group", "properties_yml_file_path", "test_name", "test_definition_package", "arguments", "column_name", "node_unique_id", "severity", "warn_if", "error_if", "fail_calc", "store_failures", "store_failures_as", "ingested_at"] }
}

fn data_tests_view() -> (v: ParseSafeView)
    ensures
        view_model_of(v) == data_tests_view_model(),
{
    let cols = vec!["unique_id", "name", "package_name", "original_file_path", "fqn", "description", "database_name", "schema_name", "relation_name", "enabled", "materialized", "config", "tags", "meta", "group", "properties_yml_file_path", "test_name", "test_definition_package", "arguments", "column_name", "node_unique_id", "severity", "warn_if", "error_if", "fail_calc", "store_failures", "store_failures_as", "ingested_at"];
    proof { assert(cols@ =~= data_tests_view_model().cols); }
    ParseSafeView { name: "data_tests", vocabulary: "data_tests", src: Src::Join { left: "nodes", right: "test_metadata", left_on: "unique_id", right_on: "unique_id" }, filter: Filter::ResourceTypeIn(&["test"]), cols }
}

/// The `dbt.unit_tests` view.
pub open spec fn unit_tests_view_model() -> ViewModel {
    ViewModel { name: "unit_tests", vocabulary: "unit_tests", src: Src::Table("unit_tests"), filter: Filter::All, cols: seq!["unique_id", "name", "model", "description", "package_name", "original_file_path", "fqn", "given", "expect", "overrides", "versions", "ingested_at"] }
}

fn unit_tests_view() -> (v: ParseSafeView)
    ensures
        view_model_of(v) == unit_tests_view_model(),
{
    let cols = vec!["unique_id", "name", "model", "description", "package_name", "original_file_path", "fqn", "given", "expect", "overrides", "versions", "ingested_at"];
    proof { assert(cols@ =~= unit_tests_view_model().cols); }
    ParseSafeView { name: "unit_tests", vocabulary: "unit_tests", src: Src::Table("unit_tests"), filter: Filter::All, cols }
}

/// The `dbt.macros` view.
pub open spec fn macros_view_model() -> ViewModel {
    ViewModel { name: "macros", vocabulary: "macros", src: Src::Table("macros"), filter: Filter::All, cols: seq!["unique_id", "name", "package_name", "original_file_path", "macro_sql", "description", "depends_on_macros", "arguments", "docs_show", "properties_yml_file_path", "meta", "created_at", "ingested_at"] }
}

fn macros_view() -> (v: ParseSafeView)
    ensures
        view_model_of(v) == macros_view_model(),
{
    let cols = vec!["unique_id", "name", "package_name", "original_file_path", "macro_sql", "description", "depends_on_macros", "arguments", "docs_show", "properties_yml_file_path", "meta", "created_at", "ingested_at"];
    proof { assert(cols@ =~= macros_view_model().cols); }
    ParseSafeView { name: "macros", vocabulary: "macros", src: Src::Table("macros"), filter: Filter::All, cols }
}

/// The `dbt.groups` view.
pub open spec fn groups_view_model() -> ViewModel {
    ViewModel { name: "groups", vocabulary: "groups", src: Src::Table("groups"), filter: Filter::All, cols: seq!["unique_id", "name", "description", "owner_name", "owner_email", "ingested_at"] }
}

fn groups_view() -> (v: ParseSafeView)
    ensures
        view_model_of(v) == groups_view_model(),
{
    let cols = vec!["unique_id", "name", "description", "owner_name", "owner_email", "ingested_at"];
    proof { assert(cols@ =~= groups_view_model().cols); }
    ParseSafeView { name: "groups", vocabulary: "groups", src: Src::Table("groups"), filter: Filter::All, cols }
}

/// The `dbt.exposures` view.
pub open spec fn exposures_view_model() -> ViewModel {
    ViewModel { name: "exposures", vocabulary: "exposures", src: Src::Table("exposures"), filter: Filter::All, cols: seq!["unique_id", "name", "exposure_type", "label", "owner_name", "owner_email", "url", "maturity", "description", "package_name", "original_file_path", "fqn", "depends_on", "tags", "created_at", "ingested_at"] }
}

fn exposures_view() -> (v: ParseSafeView)
    ensures
        view_model_of(v) == exposures_view_model(),
{
    let cols = vec!["unique_id", "name", "exposure_type", "label", "owner_name", "owner_email", "url", "maturity", "description", "package_name", "original_file_path", "fqn", "depends_on", "tags", "created_at", "ingested_at"];
    proof { assert(cols@ =~= exposures_view_model().cols); }
    ParseSafeView { name: "exposures", vocabulary: "exposures", src: Src::Table("exposures"), filter: Filter::All, cols }
}

/// The `dbt.metrics` view.
pub open spec fn metrics_view_model() -> ViewModel {
    ViewModel { name: "metrics", vocabulary: "metrics", src: Src::Table("metrics"), filter: Filter::All, cols: seq!["unique_id", "name", "label", "metric_type", "description", "package_name", "original_file_path", "fqn", "type_params", "metric_filter", "time_granularity", "input_metric_names", "group", "tags", "meta", "config", "created_at", "ingested_at"] }
}

fn metrics_view() -> (v: ParseSafeView)
    ensures
        view_model_of(v) == metrics_view_model(),
{
    let cols = vec!["unique_id", "name", "label", "metric_type", "description", "package_name", "original_file_path", "fqn", "type_params", "metric_filter", "time_granularity", "input_metric_names", "group", "tags", "meta", "config", "created_at", "ingested_at"];
    proof { assert(cols@ =~= metrics_view_model().cols); }
    ParseSafeView { name: "metrics", vocabulary: "metrics", src: Src::Table("metrics"), filter: Filter::All, cols }
}

/// The `dbt.docs_blocks` view.
pub open spec fn docs_blocks_view_model() -> ViewModel {
    ViewModel { name: "docs_blocks", vocabulary: "docs_blocks", src: Src::Table("docs"), filter: Filter::All, cols: seq!["unique_id", "name", "package_name", "original_file_path", "content", "ingested_at"] }
}

fn docs_blocks_view() -> (v: ParseSafeView)
    ensures
        view_model_of(v) == docs_blocks_view_model(),
{
    let cols = vec!["unique_id", "name", "package_name", "original_file_path", "content", "ingested_at"];
    proof { assert(cols@ =~= docs_blocks_view_model().cols); }
    ParseSafeView { name: "docs_blocks", vocabulary: "docs_blocks", src: Src::Table("docs"), filter: Filter::All, cols }
}

/// The `dbt.saved_queries` view.
pub open spec fn saved_queries_view_model() -> ViewModel {
    ViewModel { name: "saved_queries", vocabulary: "saved_queries", src: Src::Table("saved_queries"), filter: Filter::All, cols: seq!["unique_id", "name", "label", "description", "package_name", "original_file_path", "fqn", "query_params", "exports", "depends_on", "group", "tags", "created_at", "ingested_at"] }
}

fn saved_queries_view() -> (v: ParseSafeView)
    ensures
        view_model_of(v) == saved_queries_view_model(),
{
    let cols = vec!["unique_id", "name", "label", "description", "package_name", "original_file_path", "fqn", "query_params", "exports", "depends_on", "group", "tags", "created_at", "ingested_at"];
    proof { assert(cols@ =~= saved_queries_view_model().cols); }
    ParseSafeView { name: "saved_queries", vocabulary: "saved_queries", src: Src::Table("saved_queries"), filter: Filter::All, cols }
}

/// The `dbt.semantic_models` view.
pub open spec fn semantic_models_view_model() -> ViewModel {
    ViewModel { name: "semantic_models", vocabulary: "semantic_models", src: Src::Table("semantic_models"), filter: Filter::All, cols: seq!["unique_id", "name", "model", "label", "description", "fqn", "node_relation", "primary_entity", "defaults", "group", "created_at", "ingested_at"] }
}

fn semantic_models_view() -> (v: ParseSafeView)
    ensures
        view_model_of(v) == semantic_models_view_model(),
{
    let cols = vec!["unique_id", "name", "model", "label", "description", "fqn", "node_relation", "primary_entity", "defaults", "group", "created_at", "ingested_at"];
    proof { assert(cols@ =~= semantic_models_view_model().cols); }
    ParseSafeView { name: "semantic_models", vocabulary: "semantic_models", src: Src::Table("semantic_models"), filter: Filter::All, cols }
}

/// The `dbt.semantic_entities` view.
pub open spec fn semantic_entities_view_model() -> ViewModel {
    ViewModel { name: "semantic_entities", vocabulary: "semantic_entities", src: Src::Table("semantic_entities"), filter: Filter::All, cols: seq!["unique_id", "name", "entity_type", "description", "label", "entity_role", "expr", "ingested_at"] }
}

fn semantic_entities_view() -> (v: ParseSafeView)
    ensures
        view_model_of(v) == semantic_entities_view_model(),
{
    let cols = vec!["unique_id", "name", "entity_type", "description", "label", "entity_role", "expr", "ingested_at"];
    proof { assert(cols@ =~= semantic_entities_view_model().cols); }
    ParseSafeView { name: "semantic_entities", vocabulary: "semantic_entities", src: Src::Table("semantic_entities"), filter: Filter::All, cols }
}

/// The `dbt.semantic_measures` view.
pub open spec fn semantic_measures_view_model() -> ViewModel {
    ViewModel { name: "semantic_measures", vocabulary: "semantic_measures", src: Src::Table("semantic_measures"), filter: Filter::All, cols: seq!["unique_id", "name", "agg", "description", "label", "expr", "create_metric", "agg_time_dimension", "agg_params", "non_additive_dimension", "ingested_at"] }
}

fn semantic_measures_view() -> (v: ParseSafeView)
    ensures
        view_model_of(v) == semantic_measures_view_model(),
{
    let cols = vec!["unique_id", "name", "agg", "description", "label", "expr", "create_metric", "agg_time_dimension", "agg_params", "non_additive_dimension", "ingested_at"];
    proof { assert(cols@ =~= semantic_measures_view_model().cols); }
    ParseSafeView { name: "semantic_measures", vocabulary: "semantic_measures", src: Src::Table("semantic_measures"), filter: Filter::All, cols }
}

/// The `dbt.semantic_dimensions` view.
pub open spec fn semantic_dimensions_view_model() -> ViewModel {
    ViewModel { name: "semantic_dimensions", vocabulary: "semantic_dimensions", src: Src::Table("semantic_dimensions"), filter: Filter::All, cols: seq!["unique_id", "name", "dimension_type", "description", "label", "expr", "is_partition", "time_granularity", "validity_params", "ingested_at"] }
}

fn semantic_dimensions_view() -> (v: ParseSafeView)
    ensures
        view_model_of(v) == semantic_dimensions_view_model(),
{
    let cols = vec!["unique_id", "name", "dimension_type", "description", "label", "expr", "is_partition", "time_granularity", "validity_params", "ingested_at"];
    proof { assert(cols@ =~= semantic_dimensions_view_model().cols); }
    ParseSafeView { name: "semantic_dimensions", vocabulary: "semantic_dimensions", src: Src::Table("semantic_dimensions"), filter: Filter::All, cols }
}

/// The `dbt.time_spines` view.
pub open spec fn time_spines_view_model() -> ViewModel {
    ViewModel { name: "time_spines", vocabulary: "time_spines", src: Src::Table("time_spines"), filter: Filter::All, cols: seq!["unique_id", "primary_column", "primary_granularity", "custom_granularities", "node_relation", "ingested_at"] }
}

fn time_spines_view() -> (v: ParseSafeView)
    ensures
        view_model_of(v) == time_spines_view_model(),
{
    let cols = vec!["unique_id", "primary_column", "primary_granularity", "custom_granularities", "node_relation", "ingested_at"];
    proof { assert(cols@ =~= time_spines_view_model().cols); }
    ParseSafeView { name: "time_spines", vocabulary: "time_spines", src: Src::Table("time_spines"), filter: Filter::All, cols }
}

/// The `dbt.dag_nodes` view.
pub open spec fn dag_nodes_view_model() -> ViewModel {
    ViewModel { name: "dag_nodes", vocabulary: "dag_nodes", src: Src::Own, filter: Filter::All, cols: seq!["unique_id", "resource_type", "ingested_at"] }
}

fn dag_nodes_view() -> (v: ParseSafeView)
    ensures
        view_model_of(v) == dag_nodes_view_model(),
{
    let cols = vec!["unique_id", "resource_type", "ingested_at"];
    proof { assert(cols@ =~= dag_nodes_view_model().cols); }
    ParseSafeView { name: "dag_nodes", vocabulary: "dag_nodes", src: Src::Own, filter: Filter::All, cols }
}

/// The `dbt.edges` view.
pub open spec fn edges_view_model() -> ViewModel {
    ViewModel { name: "edges", vocabulary: "edges", src: Src::Table("edges"), filter: Filter::All, cols: seq!["parent_unique_id", "child_unique_id", "ingested_at"] }
}

fn edges_view() -> (v: ParseSafeView)
    ensures
        view_model_of(v) == edges_view_model(),
{
    let cols = vec!["parent_unique_id", "child_unique_id", "ingested_at"];
    proof { assert(cols@ =~= edges_view_model().cols); }
    ParseSafeView { name: "edges", vocabulary: "edges", src: Src::Table("edges"), filter: Filter::All, cols }
}

/// The `dbt.node_columns` view.
pub open spec fn node_columns_view_model() -> ViewModel {
    ViewModel { name: "node_columns", vocabulary: "node_columns", src: Src::Table("node_columns"), filter: Filter::All, cols: seq!["node_unique_id", "column_name", "data_type_declared", "description", "tags", "ingested_at"] }
}

fn node_columns_view() -> (v: ParseSafeView)
    ensures
        view_model_of(v) == node_columns_view_model(),
{
    let cols = vec!["node_unique_id", "column_name", "data_type_declared", "description", "tags", "ingested_at"];
    proof { assert(cols@ =~= node_columns_view_model().cols); }
    ParseSafeView { name: "node_columns", vocabulary: "node_columns", src: Src::Table("node_columns"), filter: Filter::All, cols }
}

/// Every view a parse-time check may read, as the contracts see them.
pub open spec fn views_model() -> Seq<ViewModel> {
    seq![project_view_model(), packages_view_model(), project_vars_view_model(), project_env_vars_view_model(), models_view_model(), seeds_view_model(), snapshots_view_model(), functions_view_model(), analyses_view_model(), hooks_view_model(), sources_view_model(), data_tests_view_model(), unit_tests_view_model(), macros_view_model(), groups_view_model(), exposures_view_model(), metrics_view_model(), docs_blocks_view_model(), saved_queries_view_model(), semantic_models_view_model(), semantic_entities_view_model(), semantic_measures_view_model(), semantic_dimensions_view_model(), time_spines_view_model(), dag_nodes_view_model(), edges_view_model(), node_columns_view_model()]
}

/// Every view a parse-time check may read: one per information-schema table in
/// the `dbt` namespace that holds data at parse.
///
/// Left out, and why: `column_lineage` (needs static analysis, empty at parse),
/// `classifiers` and `semantic_relationships` (published shapes with no writer
/// behind them), the whole `dbt_rt` schema (written from run artifacts),
/// `generation` (ingest bookkeeping, not project metadata) and the catalog
/// tables (empty until the catalog is generated).
pub fn views() -> (v: Vec<ParseSafeView>)
    ensures
        v@.len() == views_model().len(),
        forall|i: int| 0 <= i < v@.len() ==> view_model_of(#[trigger] v@[i]) == views_model()[i],
{
    let v = vec![project_view(), packages_view(), project_vars_view(), project_env_vars_view(), models_view(), seeds_view(), snapshots_view(), functions_view(), analyses_view(), hooks_view(), sources_view(), data_tests_view(), unit_tests_view(), macros_view(), groups_view(), exposures_view(), metrics_view(), docs_blocks_view(), saved_queries_view(), semantic_models_view(), semantic_entities_view(), semantic_measures_view(), semantic_dimensions_view(), time_spines_view(), dag_nodes_view(), edges_view(), node_columns_view()];
    assert(v@.len() == views_model().len());
    v
}

/// Where the column named `out` is read from: its source column, or its own
/// name for a column the information schema assembles in code.
pub open spec fn col_source(cols: Seq<ColSpec>, out: Seq<char>) -> Option<Seq<char>>
    decreases cols.len(),
{
    if cols.len() == 0 {
        None
    } else if cols[0].out@ == out {
        Some(if cols[0].src@.len() == 0 { cols[0].out@ } else { cols[0].src@ })
    } else {
        col_source(cols.drop_first(), out)
    }
}

/// The alias a source column is read under: `t` for a single table; for a join
/// the left side when it has the column, else the right side when it does.
pub open spec fn alias_for(src: Src, col: Seq<char>) -> Option<Seq<char>> {
    match src {
        Src::Join { left, right, .. } => if spec_has_column(left@, col) {
            Some("l"@)
        } else if spec_has_column(right@, col) {
            Some("r"@)
        } else {
            None
        },
        _ => Some("t"@),
    }
}

/// Why a column could not be given an alias.
pub open spec fn unresolved_msg(src: Src, col: Seq<char>) -> Seq<char> {
    match src {
        Src::Join { left, right, .. } => "neither '"@ + left@ + "' nor '"@ + right@ + "' has a column '"@ + col + "'"@,
        _ => Seq::empty(),
    }
}

/// A view's error message, naming the view.
pub open spec fn view_error(name: Seq<char>, msg: Seq<char>) -> Seq<char> {
    "parse-safe view '"@ + name + "': "@ + msg
}

/// `<alias>."<col>"`
pub open spec fn qualified(alias: Seq<char>, col: Seq<char>) -> Seq<char> {
    alias + "."@ + quoted(col)
}

/// `<alias>."<src>" AS "<out>"`
pub open spec fn select_item(alias: Seq<char>, src: Seq<char>, out: Seq<char>) -> Seq<char> {
    qualified(alias, src) + " AS "@ + quoted(out)
}

/// The select-list entry for the output column `out`, resolved against the
/// information-schema table `table`; or why it cannot be resolved.
pub open spec fn select_one(src: Src, table: TableModel, out: Seq<char>) -> Result<Seq<char>, Seq<char>> {
    match col_source(table.cols, out) {
        None => Err("'"@ + out + "' is not a column of '"@ + table.name@ + "'"@),
        Some(s) => match alias_for(src, s) {
            None => Err(unresolved_msg(src, s)),
            Some(a) => Ok(select_item(a, s, out)),
        },
    }
}

/// The select list for the output columns `outs`; or the message of the first
/// column that cannot be resolved.
pub open spec fn select_items(src: Src, table: TableModel, outs: Seq<&'static str>) -> Result<Seq<Seq<char>>, Seq<char>>
    decreases outs.len(),
{
    if outs.len() == 0 {
        Ok(Seq::empty())
    } else {
        match select_items(src, table, outs.drop_last()) {
            Err(m) => Err(m),
            Ok(items) => match select_one(src, table, outs.last()@) {
                Err(m) => Err(m),
                Ok(item) => Ok(items.push(item)),
            },
        }
    }
}

/// An error in a prefix of the columns is the error of the whole list.
pub proof fn lemma_select_items_err(src: Src, table: TableModel, outs: Seq<&'static str>, k: int)
    requires
        0 <= k <= outs.len(),
        select_items(src, table, outs.subrange(0, k)) is Err,
    ensures
        select_items(src, table, outs) == select_items(src, table, outs.subrange(0, k)),
    decreases outs.len(),
{
    if k == outs.len() {
        assert(outs.subrange(0, k) =~= outs);
    } else {
        assert(outs.drop_last().subrange(0, k) =~= outs.subrange(0, k));
        lemma_select_items_err(src, table, outs.drop_last(), k);
    }
}

/// The `FROM` clause of a view.
pub open spec fn from_sql(src: Src) -> Seq<char> {
    match src {
        Src::Table(t) => BASE_SCHEMA@ + "."@ + quoted(t@) + " AS t"@,
        Src::Join { left, right, left_on, right_on } => BASE_SCHEMA@ + "."@ + quoted(left@) + " AS l LEFT JOIN "@
            + BASE_SCHEMA@ + "."@ + quoted(right@) + " AS r ON l."@ + quoted(left_on@) + " = r."@ + quoted(right_on@),
        Src::Own => BASE_SCHEMA@ + "."@ + quoted("nodes"@) + " AS t"@,
    }
}

/// One arm of the assembled `dag_nodes` union: the enabled rows of a side
/// table, with its resource type as a literal.
pub open spec fn dag_arm_sql(table: Seq<char>, ty: Seq<char>) -> Seq<char> {
    " UNION ALL SELECT t.\"unique_id\" AS \"unique_id\", '"@ + ty
        + "' AS \"resource_type\", t.\"ingested_at\" AS \"ingested_at\" FROM "@ + BASE_SCHEMA@ + "."@ + quoted(table)
        + " AS t WHERE COALESCE(t.\"enabled\", TRUE)"@
}

/// What follows the node arm of the assembled view: the node rows are kept when
/// enabled (a missing value meaning enabled) and of a DAG resource type, then
/// one arm per side table.
pub open spec fn dag_tail_sql() -> Seq<char> {
    " WHERE COALESCE(t.\"enabled\", TRUE) AND t.\"resource_type\" IN ("@
        + join_seq(sql_literals(dag_resource_types_model()), ", "@) + ")"@
        + dag_arm_sql("exposures"@, "exposure"@) + dag_arm_sql("metrics"@, "metric"@)
        + dag_arm_sql("unit_tests"@, "unit_test"@)
}

/// A view's `CREATE OR REPLACE VIEW` statement, or the message of what is wrong
/// with its declaration.
pub open spec fn view_sql(v: ViewModel) -> Result<Seq<char>, Seq<char>> {
    match find_table(info_schema_model(), Ns::Dbt, v.vocabulary@) {
        None => Err(view_error(v.name@, "no information-schema table named '"@ + v.vocabulary@ + "'"@)),
        Some(t) => match select_items(v.src, t, v.cols) {
            Err(m) => Err(view_error(v.name@, m)),
            Ok(items) => {
                let head = "CREATE OR REPLACE VIEW "@ + VIEW_SCHEMA@ + "."@ + quoted(v.name@) + " AS SELECT "@
                    + join_seq(items, ", "@) + " FROM "@ + from_sql(v.src);
                match v.src {
                    Src::Own => Ok(head + dag_tail_sql()),
                    _ => match v.filter {
                        Filter::All => Ok(head),
                        Filter::ResourceTypeIn(types) => match alias_for(v.src, "resource_type"@) {
                            None => Err(view_error(v.name@, unresolved_msg(v.src, "resource_type"@))),
                            Some(a) => Ok(head + " WHERE "@ + qualified(a, "resource_type"@) + " IN ("@
                                + join_seq(sql_literals(types@), ", "@) + ")"@),
                        },
                    },
                }
            },
        },
    }
}

/// The index tables a view reads.
pub open spec fn view_base_tables(src: Src) -> Seq<&'static str> {
    match src {
        Src::Table(t) => seq![t],
        Src::Join { left, right, .. } => seq![left, right],
        Src::Own => seq!["nodes", "exposures", "metrics", "unit_tests"],
    }
}

/// The index tables of every view, in order, repeats kept.
pub open spec fn all_view_tables(vs: Seq<ViewModel>) -> Seq<&'static str>
    decreases vs.len(),
{
    if vs.len() == 0 {
        Seq::empty()
    } else {
        all_view_tables(vs.drop_last()) + view_base_tables(vs.last().src)
    }
}

/// The column of `cols` named `out`, and where it is read from.
fn column_source(cols: &Vec<ColSpec>, out: &str) -> (r: Option<&'static str>)
    ensures
        match r {
            Some(s) => col_source(cols@, out@) == Some(s@),
            None => col_source(cols@, out@) is None,
        },
{
    let mut i: usize = 0;
    assert(cols@.subrange(0, cols@.len() as int) =~= cols@);
    while i < cols.len()
        invariant
            i <= cols@.len(),
            col_source(cols@, out@) == col_source(cols@.subrange(i as int, cols@.len() as int), out@),
        decreases cols@.len() - i,
    {
        let ghost rest = cols@.subrange(i as int, cols@.len() as int);
        assert(rest[0] == cols@[i as int]);
        assert(rest.drop_first() =~= cols@.subrange(i + 1, cols@.len() as int));
        if str_eq(cols[i].out, out) {
            if cols[i].src.unicode_len() == 0 {
                return Some(cols[i].out);
            } else {
                return Some(cols[i].src);
            }
        }
        i += 1;
    }
    None
}

/// One arm of the assembled union.
fn dag_arm(table: &str, ty: &str) -> (r: String)
    ensures
        r@ == dag_arm_sql(table@, ty@),
{
    let mut s = owned(" UNION ALL SELECT t.\"unique_id\" AS \"unique_id\", '");
    s.append(ty);
    s.append("' AS \"resource_type\", t.\"ingested_at\" AS \"ingested_at\" FROM ");
    s.append(BASE_SCHEMA);
    s.append(".");
    s.append(quote(table).as_str());
    s.append(" AS t WHERE COALESCE(t.\"enabled\", TRUE)");
    s
}

/// Everything after the node arm's `FROM` clause in the assembled view.
fn dag_tail() -> (r: String)
    ensures
        r@ == dag_tail_sql(),
{
    let mut s = owned(" WHERE COALESCE(t.\"enabled\", TRUE) AND t.\"resource_type\" IN (");
    s.append(literal_list(dag_resource_types()).as_str());
    s.append(")");
    s.append(dag_arm("exposures", "exposure").as_str());
    s.append(dag_arm("metrics", "metric").as_str());
    s.append(dag_arm("unit_tests", "unit_test").as_str());
    s
}

impl ParseSafeView {
    /// Index tables this view reads.
    ///
    /// An empty table is fine: the view returns no rows. A missing one means the
    /// view cannot be created at all, which is why callers register the tables
    /// first and then create only the views whose tables are all there.
    pub fn base_tables(&self) -> (r: Vec<&'static str>)
        ensures
            r@ == view_base_tables(self.src),
    {
        match self.src {
            Src::Table(table) => vec![table],
            Src::Join { left, right, .. } => vec![left, right],
            Src::Own => vec!["nodes", "exposures", "metrics", "unit_tests"],
        }
    }

    /// The view's `CREATE OR REPLACE VIEW` statement, reading [`BASE_SCHEMA`].
    ///
    /// Errors describe a mistake in the view's declaration rather than anything
    /// about the project; they are returned rather than panicked so a bad entry
    /// takes down one check, not the process.
    pub fn create_view_sql(&self) -> (r: Result<String, IndexError>)
        ensures
            match view_sql(view_model_of(*self)) {
                Ok(s) => r is Ok && r->Ok_0@ == s,
                Err(m) => r is Err && error_message(r->Err_0) == m,
            },
    {
        let spec = match spec_for(Ns::Dbt, self.vocabulary) {
            Some(t) => t,
            None => {
                let mut m = owned("no information-schema table named '");
                m.append(self.vocabulary);
                m.append("'");
                return Err(self.err(m));
            },
        };
        let ghost tm = model_of(spec);
        let ghost outs = self.cols@;
        let mut items: Vec<String> = Vec::new();
        let mut i: usize = 0;
        assert(outs.subrange(0, 0) =~= Seq::<&'static str>::empty());
        assert(string_views(items@) =~= Seq::<Seq<char>>::empty());
        while i < self.cols.len()
            invariant
                i <= outs.len(),
                outs == self.cols@,
                tm == model_of(spec),
                find_table(info_schema_model(), Ns::Dbt, self.vocabulary@) == Some(tm),
                select_items(self.src, tm, outs.subrange(0, i as int)) == Ok::<Seq<Seq<char>>, Seq<char>>(string_views(items@)),
            decreases outs.len() - i,
        {
            let out = self.cols[i];
            let ghost pre = outs.subrange(0, i as int);
            let ghost cur = outs.subrange(0, i + 1);
            assert(cur.drop_last() =~= pre);
            assert(cur.last() == out);
            let item = match self.select_entry(&spec, out) {
                Ok(item) => item,
                Err(e) => {
                    proof { lemma_select_items_err(self.src, tm, outs, i + 1); }
                    return Err(e);
                },
            };
            let ghost before = items@;
            items.push(item);
            assert(string_views(items@) =~= string_views(before).push(item@));
            i += 1;
        }
        assert(outs.subrange(0, outs.len() as int) =~= outs);
        let mut sql = owned("CREATE OR REPLACE VIEW ");
        sql.append(VIEW_SCHEMA);
        sql.append(".");
        sql.append(quote(self.name).as_str());
        sql.append(" AS SELECT ");
        sql.append(join(&items, ", ").as_str());
        sql.append(" FROM ");
        sql.append(self.from_clause().as_str());
        match self.src {
            Src::Own => {
                sql.append(dag_tail().as_str());
                return Ok(sql);
            },
            _ => {},
        }
        match self.filter {
            Filter::All => Ok(sql),
            Filter::ResourceTypeIn(types) => {
                let q = match self.qualify("resource_type") {
                    Ok(q) => q,
                    Err(e) => return Err(e),
                };
                sql.append(" WHERE ");
                sql.append(q.as_str());
                sql.append(" IN (");
                sql.append(literal_list(types).as_str());
                sql.append(")");
                Ok(sql)
            },
        }
    }

    /// The select-list entry for the output column `out` of the
    /// information-schema table `table`.
    fn select_entry(&self, table: &TableSpec, out: &str) -> (r: Result<String, IndexError>)
        ensures
            match select_one(self.src, model_of(*table), out@) {
                Ok(s) => r is Ok && r->Ok_0@ == s,
                Err(m) => r is Err && error_message(r->Err_0) == view_error(self.name@, m),
            },
    {
        let src = match column_source(&table.cols, out) {
            Some(s) => s,
            None => {
                let mut m = owned("'");
                m.append(out);
                m.append("' is not a column of '");
                m.append(table.name);
                m.append("'");
                return Err(self.err(m));
            },
        };
        let mut item = match self.qualify(src) {
            Ok(q) => q,
            Err(e) => return Err(e),
        };
        item.append(" AS ");
        item.append(quote(out).as_str());
        Ok(item)
    }

    /// The `FROM` clause: the one table under `t`, or the two sides of the
    /// join under `l` and `r`.
    fn from_clause(&self) -> (r: String)
        ensures
            r@ == from_sql(self.src),
    {
        let mut s = owned(BASE_SCHEMA);
        s.append(".");
        match self.src {
            Src::Table(t) => {
                s.append(quote(t).as_str());
                s.append(" AS t");
            },
            Src::Join { left, right, left_on, right_on } => {
                s.append(quote(left).as_str());
                s.append(" AS l LEFT JOIN ");
                s.append(BASE_SCHEMA);
                s.append(".");
                s.append(quote(right).as_str());
                s.append(" AS r ON l.");
                s.append(quote(left_on).as_str());
                s.append(" = r.");
                s.append(quote(right_on).as_str());
            },
            Src::Own => {
                s.append(quote("nodes").as_str());
                s.append(" AS t");
            },
        }
        s
    }

    /// Qualify a source column with the alias of the table it comes from. For a
    /// join the left table wins, as it does in the information schema's own
    /// projection.
    fn qualify(&self, src: &str) -> (r: Result<String, IndexError>)
        ensures
            match alias_for(self.src, src@) {
                Some(a) => r is Ok && r->Ok_0@ == qualified(a, src@),
                None => r is Err && error_message(r->Err_0) == view_error(self.name@, unresolved_msg(self.src, src@)),
            },
    {
        let alias = match self.src {
            Src::Join { left, right, .. } => {
                if has_column(left, src) {
                    "l"
                } else if has_column(right, src) {
                    "r"
                } else {
                    let mut m = owned("neither '");
                    m.append(left);
                    m.append("' nor '");
                    m.append(right);
                    m.append("' has a column '");
                    m.append(src);
                    m.append("'");
                    return Err(self.err(m));
                }
            },
            _ => "t",
        };
        let mut s = owned(alias);
        s.append(".");
        s.append(quote(src).as_str());
        Ok(s)
    }

    /// An error naming this view.
    fn err(&self, msg: String) -> (r: IndexError)
        ensures
            error_message(r) == view_error(self.name@, msg@),
    {
        let mut m = owned("parse-safe view '");
        m.append(self.name);
        m.append("': ");
        m.append(msg.as_str());
        IndexError::Other(m)
    }
}

/// Every index table the views read, distinct and in increasing order.
pub fn base_tables() -> (v: Vec<&'static str>)
    ensures
        crate::order::strictly_sorted(crate::order::views(v@)),
        forall|x: Seq<char>| crate::order::views(v@).contains(x)
            <==> crate::order::views(all_view_tables(views_model())).contains(x),
{
    let all = views();
    let ghost m = views_model();
    let mut names: Vec<&'static str> = Vec::new();
    let mut i: usize = 0;
    while i < all.len()
        invariant
            i <= all@.len(),
            m == views_model(),
            all@.len() == m.len(),
            forall|k: int| 0 <= k < all@.len() ==> view_model_of(#[trigger] all@[k]) == m[k],
            names@ == all_view_tables(m.subrange(0, i as int)),
        decreases all@.len() - i,
    {
        assert(view_model_of(all@[i as int]) == m[i as int]);
        assert(m.subrange(0, i + 1).drop_last() =~= m.subrange(0, i as int));
        let mut t = all[i].base_tables();
        names.append(&mut t);
        assert(names@ =~= all_view_tables(m.subrange(0, i + 1)));
        i += 1;
    }
    assert(m.subrange(0, m.len() as int) =~= m);
    crate::order::sorted_distinct(&names)
}

/// A lookup of the schema finds any table it holds.
proof fn lemma_find_table_some(m: Seq<TableModel>, ns: Ns, name: Seq<char>, k: int)
    requires
        0 <= k < m.len(),
        m[k].ns == ns && m[k].name@ == name,
    ensures
        find_table(m, ns, name) is Some,
    decreases k,
{
    if k > 0 && !(m[0].ns == ns && m[0].name@ == name) {
        lemma_find_table_some(m.drop_first(), ns, name, k - 1);
    }
}

/// Whether view `v` mirrors the information-schema table of its own name.
pub open spec fn mirrors_its_table(v: ViewModel) -> bool {
    v.vocabulary == v.name && find_table(info_schema_model(), Ns::Dbt, v.name@) is Some
}

#[verifier::spinoff_prover]
proof fn lemma_views_mirror_0_7(j: int)
    requires
        0 <= j < 7,
    ensures
        mirrors_its_table(views_model()[j]),
{
    let m = info_schema_model();
    let vs = views_model();
    if j == 0 {
        lemma_find_table_some(m, Ns::Dbt, vs[0].name@, 0);
    } else if j == 1 {
        lemma_find_table_some(m, Ns::Dbt, vs[1].name@, 1);
    } else if j == 2 {
        lemma_find_table_some(m, Ns::Dbt, vs[2].name@, 2);
    } else if j == 3 {
        lemma_find_table_some(m, Ns::Dbt, vs[3].name@, 3);
    } else if j == 4 {
        lemma_find_table_some(m, Ns::Dbt, vs[4].name@, 4);
    } else if j == 5 {
        lemma_find_table_some(m, Ns::Dbt, vs[5].name@, 5);
    } else if j == 6 {
        lemma_find_table_some(m, Ns::Dbt, vs[6].name@, 6);
    }
}

#[verifier::spinoff_prover]
proof fn lemma_views_mirror_7_14(j: int)
    requires
        7 <= j < 14,
    ensures
        mirrors_its_table(views_model()[j]),
{
    let m = info_schema_model();
    let vs = views_model();
    if j == 7 {
        lemma_find_table_some(m, Ns::Dbt, vs[7].name@, 7);
    } else if j == 8 {
        lemma_find_table_some(m, Ns::Dbt, vs[8].name@, 8);
    } else if j == 9 {
        lemma_find_table_some(m, Ns::Dbt, vs[9].name@, 9);
    } else if j == 10 {
        lemma_find_table_some(m, Ns::Dbt, vs[10].name@, 10);
    } else if j == 11 {
        lemma_find_table_some(m, Ns::Dbt, vs[11].name@, 11);
    } else if j == 12 {
        lemma_find_table_some(m, Ns::Dbt, vs[12].name@, 12);
    } else if j == 13 {
        lemma_find_table_some(m, Ns::Dbt, vs[13].name@, 13);
    }
}

#[verifier::spinoff_prover]
proof fn lemma_views_mirror_14_21(j: int)
    requires
        14 <= j < 21,
    ensures
        mirrors_its_table(views_model()[j]),
{
    let m = info_schema_model();
    let vs = views_model();
    if j == 14 {
        lemma_find_table_some(m, Ns::Dbt, vs[14].name@, 14);
    } else if j == 15 {
        lemma_find_table_some(m, Ns::Dbt, vs[15].name@, 15);
    } else if j == 16 {
        lemma_find_table_some(m, Ns::Dbt, vs[16].name@, 16);
    } else if j == 17 {
        lemma_find_table_some(m, Ns::Dbt, vs[17].name@, 17);
    } else if j == 18 {
        lemma_find_table_some(m, Ns::Dbt, vs[18].name@, 18);
    } else if j == 19 {
        lemma_find_table_some(m, Ns::Dbt, vs[19].name@, 19);
    } else if j == 20 {
        lemma_find_table_some(m, Ns::Dbt, vs[20].name@, 20);
    }
}

#[verifier::spinoff_prover]
proof fn lemma_views_mirror_21_27(j: int)
    requires
        21 <= j < 27,
    ensures
        mirrors_its_table(views_model()[j]),
{
    let m = info_schema_model();
    let vs = views_model();
    if j == 21 {
        lemma_find_table_some(m, Ns::Dbt, vs[21].name@, 21);
    } else if j == 22 {
        lemma_find_table_some(m, Ns::Dbt, vs[22].name@, 22);
    } else if j == 23 {
        lemma_find_table_some(m, Ns::Dbt, vs[23].name@, 24);
    } else if j == 24 {
        lemma_find_table_some(m, Ns::Dbt, vs[24].name@, 25);
    } else if j == 25 {
        lemma_find_table_some(m, Ns::Dbt, vs[25].name@, 26);
    } else if j == 26 {
        lemma_find_table_some(m, Ns::Dbt, vs[26].name@, 27);
    }
}

/// Every parse-safe view mirrors the information-schema table of its own name:
/// its vocabulary is its name, and the `dbt` schema has a table by that name.
pub proof fn every_view_mirrors_an_information_schema_table()
    ensures
        forall|j: int| 0 <= j < views_model().len() ==> mirrors_its_table(#[trigger] views_model()[j]),
{
    assert forall|j: int| 0 <= j < views_model().len() implies mirrors_its_table(#[trigger] views_model()[j]) by {
        if j < 7 {
            lemma_views_mirror_0_7(j);
        } else if j < 14 {
            lemma_views_mirror_7_14(j);
        } else if j < 21 {
            lemma_views_mirror_14_21(j);
        } else {
            lemma_views_mirror_21_27(j);
        }
    }
}

/// Whether `name` is a table of the index.
pub open spec fn is_index_table(name: Seq<char>) -> bool {
    exists|k: int| 0 <= k < index_tables_model().len() && (#[trigger] index_tables_model()[k]).name@ == name
}

/// The tables of views that each read only index tables are index tables.
proof fn lemma_all_view_tables_indexed(vs: Seq<ViewModel>)
    requires
        forall|j: int, t: int| 0 <= j < vs.len() && 0 <= t < view_base_tables(vs[j].src).len()
            ==> is_index_table((#[trigger] view_base_tables(vs[j].src)[t])@),
    ensures
        forall|t: int| 0 <= t < all_view_tables(vs).len() ==> is_index_table((#[trigger] all_view_tables(vs)[t])@),
    decreases vs.len(),
{
    if vs.len() > 0 {
        let prev = vs.drop_last();
        assert forall|j: int, t: int| 0 <= j < prev.len() && 0 <= t < view_base_tables(prev[j].src).len()
            implies is_index_table((#[trigger] view_base_tables(prev[j].src)[t])@) by {
            assert(prev[j] == vs[j]);
        }
        lemma_all_view_tables_indexed(prev);
        let last = view_base_tables(vs.last().src);
        assert forall|t: int| 0 <= t < all_view_tables(vs).len() implies is_index_table((#[trigger] all_view_tables(vs)[t])@) by {
            let p = all_view_tables(prev);
            if t >= p.len() {
                assert(all_view_tables(vs)[t] == last[t - p.len()]);
                assert(is_index_table(view_base_tables(vs[vs.len() - 1].src)[t - p.len()]@));
            } else {
                assert(all_view_tables(vs)[t] == p[t]);
            }
        }
    }
}

/// Every table the parse-safe views read is a table of the index, so
/// [`base_tables`] names only tables the index registers.
pub proof fn base_tables_are_index_tables()
    ensures
        forall|t: int| 0 <= t < all_view_tables(views_model()).len()
            ==> is_index_table((#[trigger] all_view_tables(views_model())[t])@),
{
    let vs = views_model();
    let ix = index_tables_model();
    assert forall|j: int, t: int| 0 <= j < vs.len() && 0 <= t < view_base_tables(vs[j].src).len()
        implies is_index_table((#[trigger] view_base_tables(vs[j].src)[t])@) by {
        if j == 0 {
            assert(ix[0].name@ == view_base_tables(vs[0].src)[0]@);
        } else if j == 1 {
            assert(ix[1].name@ == view_base_tables(vs[1].src)[0]@);
        } else if j == 2 {
            assert(ix[2].name@ == view_base_tables(vs[2].src)[0]@);
        } else if j == 3 {
            assert(ix[3].name@ == view_base_tables(vs[3].src)[0]@);
        } else if j == 4 {
            assert(ix[5].name@ == view_base_tables(vs[4].src)[0]@);
        } else if j == 5 {
            assert(ix[5].name@ == view_base_tables(vs[5].src)[0]@);
        } else if j == 6 {
            assert(ix[5].name@ == view_base_tables(vs[6].src)[0]@);
        } else if j == 7 {
            assert(ix[5].name@ == view_base_tables(vs[7].src)[0]@);
        } else if j == 8 {
            assert(ix[5].name@ == view_base_tables(vs[8].src)[0]@);
        } else if j == 9 {
            assert(ix[5].name@ == view_base_tables(vs[9].src)[0]@);
        } else if j == 10 {
            assert(ix[5].name@ == view_base_tables(vs[10].src)[0]@);
        } else if j == 11 {
            assert(ix[5].name@ == view_base_tables(vs[11].src)[0]@);
            assert(ix[7].name@ == view_base_tables(vs[11].src)[1]@);
        } else if j == 12 {
            assert(ix[8].name@ == view_base_tables(vs[12].src)[0]@);
        } else if j == 13 {
            assert(ix[9].name@ == view_base_tables(vs[13].src)[0]@);
        } else if j == 14 {
            assert(ix[10].name@ == view_base_tables(vs[14].src)[0]@);
        } else if j == 15 {
            assert(ix[11].name@ == view_base_tables(vs[15].src)[0]@);
        } else if j == 16 {
            assert(ix[12].name@ == view_base_tables(vs[16].src)[0]@);
        } else if j == 17 {
            assert(ix[13].name@ == view_base_tables(vs[17].src)[0]@);
        } else if j == 18 {
            assert(ix[14].name@ == view_base_tables(vs[18].src)[0]@);
        } else if j == 19 {
            assert(ix[15].name@ == view_base_tables(vs[19].src)[0]@);
        } else if j == 20 {
            assert(ix[16].name@ == view_base_tables(vs[20].src)[0]@);
        } else if j == 21 {
            assert(ix[17].name@ == view_base_tables(vs[21].src)[0]@);
        } else if j == 22 {
            assert(ix[18].name@ == view_base_tables(vs[22].src)[0]@);
        } else if j == 23 {
            assert(ix[20].name@ == view_base_tables(vs[23].src)[0]@);
        } else if j == 24 {
            assert(ix[5].name@ == view_base_tables(vs[24].src)[0]@);
            assert(ix[11].name@ == view_base_tables(vs[24].src)[1]@);
            assert(ix[12].name@ == view_base_tables(vs[24].src)[2]@);
            assert(ix[8].name@ == view_base_tables(vs[24].src)[3]@);
        } else if j == 25 {
            assert(ix[6].name@ == view_base_tables(vs[25].src)[0]@);
        } else if j == 26 {
            assert(ix[21].name@ == view_base_tables(vs[26].src)[0]@);
        }
    }
    lemma_all_view_tables_indexed(vs);
}

} // verus!
