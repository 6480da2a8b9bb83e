//! SQL equivalents for the staging columns the information schema is built from.
//!
//! The information schema declares each output column as a staging column: the
//! shape the ingest produces in the index directory. A view layer over the epoch
//! files has no staging directory, so every referenced staging column needs an
//! expression over the epoch parquet instead. This module is that mapping,
//! declared once: each JSON extraction is a fact the ingest's row builders also
//! encode, and stating it here is what lets a test hold the two together.
//!
//! The mapping is held closed: [`referenced_pairs`] enumerates every staging
//! column the information schema reads, and a table whose [`origin`] is a
//! relation must have an [`epoch_expr`] for each of them.

use vstd::prelude::*;
use crate::index::spec_has_column;
use crate::ingest::{epoch_number, spec_epoch_number};
use crate::ingest_state::{
    CATALOG_COLUMNS_SUBDIR, COMPILE_CLL_SUBDIR, COMPILE_COLUMNS_SUBDIR, COMPILE_NODES_SUBDIR,
    PARSE_ALIVE, PARSE_COLUMNS_SUBDIR, PARSE_GENERATION, PARSE_NODES_SUBDIR, PARSE_PROJECT,
    PARSE_RESOLVER_STATE, RUN_CATALOG_STATS_SUBDIR, RUN_FRESHNESS_SUBDIR, RUN_INVOCATIONS_SUBDIR,
    RUN_RESULTS_SUBDIR,
};
use crate::order::{pair_views, pairs_sorted, sorted_distinct_pairs};
use crate::schema::{TableModel, info_schema, info_schema_model, model_of};
use crate::spec::{ColSpec, Src, TableSpec};
use crate::text::{double_single_quotes, escape_single_quotes, lookup, lookup_entry, owned, str_eq};

verus! {

/// Table alias of the base epoch relation in a generated view. Every generated
/// column reference is qualified, because a joined origin has two relations that
/// share column names.
pub const BASE: &'static str = "t";

/// Table alias of the joined relation.
pub const JOINED: &'static str = "j";

/// Qualified name of the unnested element: `u` is the lateral alias and `e` its
/// single column.
pub const ELEM: &'static str = "u.e";

/// The alias clause that binds [`ELEM`], for the generated `unnest(..) AS u(e)`.
pub const ELEM_REL: &'static str = "u(e)";

/// The schema-version prefix of every epoch file name: an epoch directory holds
/// `v1_0.parquet`, `v1_1.parquet`, and so on.
pub const EPOCH_SCHEMA_VERSION: &'static str = "v1";

/// The epoch number of the file a row came from, out of `filename`. Ordering on
/// this rather than on the string keeps `v1_10` above `v1_9`.
pub const EPOCH_NUMBER: &'static str = "CAST(regexp_extract(filename, '_([0-9]+)\\.parquet$', 1) AS BIGINT)";

/// How one staging column is computed from its epoch source.
#[derive(Debug, Clone, Copy, PartialEq, Eq)]
pub enum EpochExpr {
    /// A column of the base relation, under the same name.
    Same,
    /// A column of the base relation, under a different name.
    Col(&'static str),
    /// A scalar out of the node payload, as text.
    Json(&'static str),
    /// A sub-object or array of the payload kept as JSON text.
    JsonRaw(&'static str),
    /// [`EpochExpr::Json`] with a fallback; the second field is SQL.
    JsonOr(&'static str, &'static str),
    /// A JSON array of strings inside the payload, as a list; absent, null or
    /// not an array is the empty list.
    JsonList(&'static str),
    /// The first non-null of several payload paths, then the fallback SQL.
    JsonFirst(&'static [&'static str], &'static str),
    /// Like [`EpochExpr::Json`], but null for `model` nodes, whose payload the
    /// ingest trims.
    TrimmedJson(&'static str),
    /// [`EpochExpr::JsonRaw`] under the model trim.
    TrimmedJsonRaw(&'static str),
    /// The unnested element itself.
    Elem,
    /// A scalar out of the unnested element, as text.
    ElemJson(&'static str),
    /// A sub-object of the unnested element, kept as JSON text.
    ElemJsonRaw(&'static str),
    /// The first non-null of several paths within the element, then the
    /// fallback SQL.
    ElemJsonFirst(&'static [&'static str], &'static str),
    /// A column of the joined relation, under the name given.
    JoinCol(&'static str),
    /// A column of the joined relation holding a JSON array of strings as text,
    /// as a list; absent or unparseable is the empty list.
    JoinJsonList(&'static str),
    /// Arbitrary SQL over the relations, qualifying its own columns.
    Sql(&'static str),
    /// [`EpochExpr::Sql`] for a column that holds serialised JSON.
    SqlJson(&'static str),
    /// No source in the epoch files: a typed null.
    Null,
    /// The empty list.
    EmptyList,
    /// A literal `true`.
    True,
}

/// How rows of an epoch relation supersede each other.
#[derive(Debug, Clone, Copy, PartialEq, Eq)]
pub enum Supersede {
    /// Keep every row: the append-only run sources.
    KeepAll,
    /// One row per key, from the highest epoch that has it.
    LatestBy(&'static str),
    /// Every row of the highest epoch that mentions the key, and none of the
    /// rows of any older one: a wholesale replacement of the group.
    LatestGroup(&'static str),
}

/// A relation over epoch parquet: one glob, plus how its rows supersede.
///
/// `dir` is relative to the metadata directory, and is either an epoch
/// directory (globbed over its epoch files) or a single snapshot file.
#[derive(Debug, Clone, Copy)]
pub struct EpochRelation {
    /// View name, created in the `dbt_internal` schema.
    pub view: &'static str,
    /// Path under the metadata directory.
    pub dir: &'static str,
    /// True when `dir` names one file rather than an epoch directory.
    pub single_file: bool,
    pub supersede: Supersede,
}

/// The epoch relations, as the contracts see them.
pub open spec fn epoch_relations_model() -> Seq<EpochRelation> {
    seq![
        EpochRelation { view: "epoch_parse_nodes", dir: PARSE_NODES_SUBDIR, single_file: false, supersede: Supersede::LatestBy("unique_id") },
        EpochRelation { view: "epoch_parse_columns", dir: PARSE_COLUMNS_SUBDIR, single_file: false, supersede: Supersede::LatestGroup("unique_id") },
        EpochRelation { view: "epoch_parse_alive", dir: PARSE_ALIVE, single_file: true, supersede: Supersede::KeepAll },
        EpochRelation { view: "epoch_parse_project", dir: PARSE_PROJECT, single_file: true, supersede: Supersede::KeepAll },
        EpochRelation { view: "epoch_parse_resolver_state", dir: PARSE_RESOLVER_STATE, single_file: true, supersede: Supersede::KeepAll },
        EpochRelation { view: "epoch_parse_generation", dir: PARSE_GENERATION, single_file: true, supersede: Supersede::KeepAll },
        EpochRelation { view: "epoch_compile_nodes", dir: COMPILE_NODES_SUBDIR, single_file: false, supersede: Supersede::LatestBy("unique_id") },
        EpochRelation { view: "epoch_compile_columns", dir: COMPILE_COLUMNS_SUBDIR, single_file: false, supersede: Supersede::LatestGroup("unique_id") },
        EpochRelation { view: "epoch_compile_cll", dir: COMPILE_CLL_SUBDIR, single_file: false, supersede: Supersede::LatestGroup("to_node_unique_id") },
        EpochRelation { view: "epoch_catalog_columns", dir: CATALOG_COLUMNS_SUBDIR, single_file: false, supersede: Supersede::LatestGroup("unique_id") },
        EpochRelation { view: "epoch_run_invocations", dir: RUN_INVOCATIONS_SUBDIR, single_file: false, supersede: Supersede::KeepAll },
        EpochRelation { view: "epoch_run_results", dir: RUN_RESULTS_SUBDIR, single_file: false, supersede: Supersede::KeepAll },
        EpochRelation { view: "epoch_run_freshness", dir: RUN_FRESHNESS_SUBDIR, single_file: false, supersede: Supersede::KeepAll },
        EpochRelation { view: "epoch_run_catalog_stats", dir: RUN_CATALOG_STATS_SUBDIR, single_file: false, supersede: Supersede::KeepAll },
    ]
}

/// Every epoch relation the view layer reads, in the order the generated file
/// declares them. A source the ingest consumes and the view layer does not is
/// visible as an absence here.
///
/// The column set of a node is republished whole, so the newest epoch that
/// mentions a node replaces every column row it had; column lineage is
/// republished per target node in the same way.
pub fn epoch_relations() -> (v: Vec<EpochRelation>)
    ensures
        v@ == epoch_relations_model(),
{
    vec![
        EpochRelation { view: "epoch_parse_nodes", dir: PARSE_NODES_SUBDIR, single_file: false, supersede: Supersede::LatestBy("unique_id") },
        EpochRelation { view: "epoch_parse_columns", dir: PARSE_COLUMNS_SUBDIR, single_file: false, supersede: Supersede::LatestGroup("unique_id") },
        EpochRelation { view: "epoch_parse_alive", dir: PARSE_ALIVE, single_file: true, supersede: Supersede::KeepAll },
        EpochRelation { view: "epoch_parse_project", dir: PARSE_PROJECT, single_file: true, supersede: Supersede::KeepAll },
        EpochRelation { view: "epoch_parse_resolver_state", dir: PARSE_RESOLVER_STATE, single_file: true, supersede: Supersede::KeepAll },
        EpochRelation { view: "epoch_parse_generation", dir: PARSE_GENERATION, single_file: true, supersede: Supersede::KeepAll },
        EpochRelation { view: "epoch_compile_nodes", dir: COMPILE_NODES_SUBDIR, single_file: false, supersede: Supersede::LatestBy("unique_id") },
        EpochRelation { view: "epoch_compile_columns", dir: COMPILE_COLUMNS_SUBDIR, single_file: false, supersede: Supersede::LatestGroup("unique_id") },
        EpochRelation { view: "epoch_compile_cll", dir: COMPILE_CLL_SUBDIR, single_file: false, supersede: Supersede::LatestGroup("to_node_unique_id") },
        EpochRelation { view: "epoch_catalog_columns", dir: CATALOG_COLUMNS_SUBDIR, single_file: false, supersede: Supersede::LatestGroup("unique_id") },
        EpochRelation { view: "epoch_run_invocations", dir: RUN_INVOCATIONS_SUBDIR, single_file: false, supersede: Supersede::KeepAll },
        EpochRelation { view: "epoch_run_results", dir: RUN_RESULTS_SUBDIR, single_file: false, supersede: Supersede::KeepAll },
        EpochRelation { view: "epoch_run_freshness", dir: RUN_FRESHNESS_SUBDIR, single_file: false, supersede: Supersede::KeepAll },
        EpochRelation { view: "epoch_run_catalog_stats", dir: RUN_CATALOG_STATS_SUBDIR, single_file: false, supersede: Supersede::KeepAll },
    ]
}

/// `rel` appended to the directory `dir` as a path component: `dir/rel`, with
/// no second separator when `dir` already ends in one, and `rel` alone when
/// `dir` is empty. `rel` is relative.
pub open spec fn join_path(dir: Seq<char>, rel: Seq<char>) -> Seq<char> {
    if dir.len() == 0 {
        rel
    } else if dir.last() == '/' {
        dir + rel
    } else {
        dir + "/"@ + rel
    }
}

/// `rel` appended to `dir` as a path component.
pub fn join_path_str(dir: &str, rel: &str) -> (r: String)
    ensures
        r@ == join_path(dir@, rel@),
{
    let n = dir.unicode_len();
    if n == 0 {
        return owned(rel);
    }
    let mut s = owned(dir);
    if dir.get_char(n - 1) != '/' {
        s.append("/");
    }
    s.append(rel);
    s
}

/// The file or glob a relation reads under `metadata_dir`.
pub open spec fn relation_pattern(rel: EpochRelation, metadata_dir: Seq<char>) -> Seq<char> {
    if rel.single_file {
        join_path(metadata_dir, rel.dir@)
    } else {
        join_path(join_path(metadata_dir, rel.dir@), EPOCH_SCHEMA_VERSION@ + "_*.parquet"@)
    }
}

/// The `read_parquet(...)` call for a relation under `metadata_dir`.
pub open spec fn read_parquet_sql(rel: EpochRelation, metadata_dir: Seq<char>) -> Seq<char> {
    "read_parquet('"@ + double_single_quotes(relation_pattern(rel, metadata_dir))
        + "', union_by_name = true, filename = true)"@
}

/// The view statement of a relation under `metadata_dir`.
pub open spec fn relation_view_sql(rel: EpochRelation, metadata_dir: Seq<char>) -> Seq<char> {
    let read = read_parquet_sql(rel, metadata_dir);
    match rel.supersede {
        Supersede::KeepAll => "CREATE OR REPLACE VIEW dbt_internal."@ + rel.view@
            + " AS\nSELECT * EXCLUDE (filename) FROM "@ + read,
        Supersede::LatestBy(key) => "CREATE OR REPLACE VIEW dbt_internal."@ + rel.view@
            + " AS\nSELECT * EXCLUDE (filename, _epoch_rn) FROM (\n  SELECT *, ROW_NUMBER() OVER (\n    PARTITION BY "@
            + key@ + "\n    ORDER BY "@ + EPOCH_NUMBER@ + " DESC\n  ) AS _epoch_rn\n  FROM "@ + read
            + "\n) WHERE _epoch_rn = 1"@,
        Supersede::LatestGroup(key) => "CREATE OR REPLACE VIEW dbt_internal."@ + rel.view@
            + " AS\nSELECT * EXCLUDE (filename, _epoch, _group_epoch) FROM (\n  SELECT *, "@ + EPOCH_NUMBER@
            + " AS _epoch,\n    max("@ + EPOCH_NUMBER@ + ") OVER (PARTITION BY "@ + key@
            + ") AS _group_epoch\n  FROM "@ + read + "\n) WHERE _epoch = _group_epoch"@,
    }
}

impl EpochRelation {
    /// The file or glob this relation reads under `metadata_dir`: the snapshot
    /// file itself, or every epoch file of the directory.
    pub fn pattern(&self, metadata_dir: &str) -> (r: String)
        ensures
            r@ == relation_pattern(*self, metadata_dir@),
    {
        let path = join_path_str(metadata_dir, self.dir);
        if self.single_file {
            path
        } else {
            let mut glob = owned(EPOCH_SCHEMA_VERSION);
            glob.append("_*.parquet");
            join_path_str(path.as_str(), glob.as_str())
        }
    }

    /// Whether this relation has anything to read, given what is on disk: for
    /// a single file, whether it is a file; for an epoch directory, the names
    /// of its entries, of which at least one must be an epoch file. A glob
    /// that matches no file is a query-time error, so the generator omits a
    /// relation without files and the views over it.
    pub fn has_files(&self, is_file: bool, dir_entries: &Vec<String>) -> (r: bool)
        ensures
            r == if self.single_file {
                is_file
            } else {
                exists|i: int| 0 <= i < dir_entries@.len() && spec_epoch_number(#[trigger] dir_entries@[i]@) is Some
            },
    {
        if self.single_file {
            return is_file;
        }
        let mut i: usize = 0;
        while i < dir_entries.len()
            invariant
                !self.single_file,
                i <= dir_entries@.len(),
                forall|k: int| 0 <= k < i ==> spec_epoch_number(#[trigger] dir_entries@[k]@) is None,
            decreases dir_entries@.len() - i,
        {
            if epoch_number(dir_entries[i].as_str()).is_some() {
                assert(spec_epoch_number(dir_entries@[i as int]@) is Some);
                return true;
            }
            i += 1;
        }
        false
    }

    /// The `read_parquet(...)` call for this relation, with `metadata_dir`
    /// absolute: the database resolves globs against the process working
    /// directory, and the metadata directory is relocatable.
    ///
    /// `union_by_name` because epochs written by different versions may differ
    /// in column set; without it a widened schema is a read error.
    fn read_parquet(&self, metadata_dir: &str) -> (r: String)
        ensures
            r@ == read_parquet_sql(*self, metadata_dir@),
    {
        let pattern = self.pattern(metadata_dir);
        let mut s = owned("read_parquet('");
        s.append(escape_single_quotes(pattern.as_str()).as_str());
        s.append("', union_by_name = true, filename = true)");
        s
    }

    /// `CREATE OR REPLACE VIEW dbt_internal.<view> AS ...`: one statement, no
    /// trailing semicolon, with the latest-wins wrapper when the relation
    /// supersedes by key.
    ///
    /// Precedence is by the epoch number parsed out of the file name, not by
    /// `ingested_at`: the epoch number is what the ingest orders on, and two
    /// rows written in the same second would otherwise tie. A group is kept
    /// whole by comparing each row's epoch with the group's maximum, where a row
    /// number would keep one row.
    pub fn create_view_sql(&self, metadata_dir: &str) -> (r: String)
        ensures
            r@ == relation_view_sql(*self, metadata_dir@),
    {
        let read = self.read_parquet(metadata_dir);
        let mut s = owned("CREATE OR REPLACE VIEW dbt_internal.");
        s.append(self.view);
        match self.supersede {
            Supersede::KeepAll => {
                s.append(" AS\nSELECT * EXCLUDE (filename) FROM ");
                s.append(read.as_str());
            },
            Supersede::LatestBy(key) => {
                s.append(" AS\nSELECT * EXCLUDE (filename, _epoch_rn) FROM (\n  SELECT *, ROW_NUMBER() OVER (\n    PARTITION BY ");
                s.append(key);
                s.append("\n    ORDER BY ");
                s.append(EPOCH_NUMBER);
                s.append(" DESC\n  ) AS _epoch_rn\n  FROM ");
                s.append(read.as_str());
                s.append("\n) WHERE _epoch_rn = 1");
            },
            Supersede::LatestGroup(key) => {
                s.append(" AS\nSELECT * EXCLUDE (filename, _epoch, _group_epoch) FROM (\n  SELECT *, ");
                s.append(EPOCH_NUMBER);
                s.append(" AS _epoch,\n    max(");
                s.append(EPOCH_NUMBER);
                s.append(") OVER (PARTITION BY ");
                s.append(key);
                s.append(") AS _group_epoch\n  FROM ");
                s.append(read.as_str());
                s.append("\n) WHERE _epoch = _group_epoch");
            },
        }
        s
    }
}

/// A second relation joined in to supply columns the base relation lacks:
/// always a LEFT join, always many-to-one.
#[derive(Debug, Clone, Copy)]
pub struct EpochJoin {
    /// An epoch relation's view name.
    pub view: &'static str,
    /// Column present in both relations, joined on equality.
    pub on: &'static str,
}

/// A list inside one base row, expanded to one output row per element. A base
/// row whose list is empty or null contributes no rows.
#[derive(Debug, Clone, Copy)]
pub struct Unnest {
    /// SQL producing the list, qualified with [`BASE`].
    pub list: &'static str,
    /// Predicate on the element, qualified with [`ELEM`].
    pub keep: Option<&'static str>,
}

/// Where a staging table's rows come from in the epoch files.
#[derive(Debug, Clone, Copy)]
pub enum Origin {
    /// One row per row of `view`, columns given by [`epoch_expr`].
    Relation {
        /// An epoch relation's view name.
        view: &'static str,
        /// Row filter, matching the rows the ingest's row builder skips.
        keep: Option<&'static str>,
        /// Column to match against the alive set, keeping only live nodes.
        alive_on: Option<&'static str>,
        /// Second relation supplying [`EpochExpr::JoinCol`] columns.
        join: Option<EpochJoin>,
        /// List to expand, for the tables with many rows per base row.
        unnest: Option<Unnest>,
    },
    /// Assembled by bespoke SQL in the view generator.
    Custom,
    /// No epoch source at all: the view is a typed empty relation.
    Empty,
}

/// One row per `parse/nodes` row that `keep` admits, pruned by liveness.
pub open spec fn node_derived_model(keep: &'static str) -> Origin {
    Origin::Relation { view: "epoch_parse_nodes", keep: Some(keep), alive_on: Some("unique_id"), join: None, unnest: None }
}

fn node_derived(keep: &'static str) -> (r: Origin)
    ensures
        r == node_derived_model(keep),
{
    Origin::Relation { view: "epoch_parse_nodes", keep: Some(keep), alive_on: Some("unique_id"), join: None, unnest: None }
}

/// [`node_derived_model`], one output row per element of a list inside the node.
pub open spec fn node_unnest_model(keep: Option<&'static str>, unnest: Unnest) -> Origin {
    Origin::Relation { view: "epoch_parse_nodes", keep, alive_on: Some("unique_id"), join: None, unnest: Some(unnest) }
}

fn node_unnest(keep: Option<&'static str>, unnest: Unnest) -> (r: Origin)
    ensures
        r == node_unnest_model(keep, unnest),
{
    Origin::Relation { view: "epoch_parse_nodes", keep, alive_on: Some("unique_id"), join: None, unnest: Some(unnest) }
}

/// One of a semantic model's element lists, one row per element with a string
/// `name`.
pub open spec fn semantic_sub_model(list: &'static str) -> Origin {
    node_unnest_model(
        Some("t.resource_type = 'semantic_model'"),
        Unnest { list, keep: Some("json_type(u.e, '$.name') = 'VARCHAR'") },
    )
}

fn semantic_sub(list: &'static str) -> (r: Origin)
    ensures
        r == semantic_sub_model(list),
{
    node_unnest(
        Some("t.resource_type = 'semantic_model'"),
        Unnest { list, keep: Some("json_type(u.e, '$.name') = 'VARCHAR'") },
    )
}


/// Origin of every staging table the information schema reads, as the
/// contracts see it.
pub open spec fn origin_of(table: Seq<char>) -> Option<Origin> {
    if table == "nodes"@ {
        Some(Origin::Relation { view: "epoch_parse_nodes", keep: None, alive_on: Some("unique_id"), join: Some(EpochJoin { view: "epoch_compile_nodes", on: "unique_id" }), unnest: None })
    } else if table == "macros"@ {
        Some(node_derived_model("t.resource_type = 'macro'"))
    } else if table == "docs"@ {
        Some(node_derived_model("t.resource_type = 'docs_macro'"))
    } else if table == "groups"@ {
        Some(node_derived_model("t.resource_type = 'group'"))
    } else if table == "exposures"@ {
        Some(node_derived_model("t.resource_type = 'exposure'"))
    } else if table == "metrics"@ {
        Some(node_derived_model("t.resource_type = 'metric'"))
    } else if table == "unit_tests"@ {
        Some(node_derived_model("t.resource_type = 'unit_test'"))
    } else if table == "saved_queries"@ {
        Some(node_derived_model("t.resource_type = 'saved_query'"))
    } else if table == "semantic_models"@ {
        Some(node_derived_model("t.resource_type = 'semantic_model'"))
    } else if table == "test_metadata"@ {
        Some(node_derived_model("t.resource_type = 'test' AND COALESCE(json_extract(t.payload, '$.__test_attr__.test_metadata'), json_extract(t.payload, '$.test_metadata')) IS NOT NULL"))
    } else if table == "time_spines"@ {
        Some(node_derived_model("t.resource_type = 'model' AND COALESCE(json_type(t.payload, '$.__model_attr__.time_spine'), 'NULL') <> 'NULL'"))
    } else if table == "edges"@ {
        Some(node_unnest_model(None, Unnest { list: "t.depends_on", keep: None }))
    } else if table == "semantic_entities"@ {
        Some(semantic_sub_model("json_extract(t.payload, '$.__semantic_model_attr__.entities[*]')"))
    } else if table == "semantic_measures"@ {
        Some(semantic_sub_model("json_extract(t.payload, '$.__semantic_model_attr__.measures[*]')"))
    } else if table == "semantic_dimensions"@ {
        Some(semantic_sub_model("json_extract(t.payload, '$.__semantic_model_attr__.dimensions[*]')"))
    } else if table == "node_columns"@ {
        Some(Origin::Custom)
    } else if table == "column_lineage"@ {
        Some(Origin::Relation { view: "epoch_compile_cll", keep: None, alive_on: Some("to_node_unique_id"), join: None, unnest: None })
    } else if table == "invocations"@ {
        Some(Origin::Relation { view: "epoch_run_invocations", keep: Some("t.invocation_id IS NOT NULL"), alive_on: None, join: None, unnest: None })
    } else if table == "run_results"@ {
        Some(Origin::Relation { view: "epoch_run_results", keep: Some("t.unique_id IS NOT NULL AND t.invocation_id IS NOT NULL"), alive_on: None, join: None, unnest: None })
    } else if table == "source_freshness"@ {
        Some(Origin::Relation { view: "epoch_run_freshness", keep: Some("t.unique_id IS NOT NULL"), alive_on: None, join: None, unnest: None })
    } else if table == "project"@ {
        Some(Origin::Custom)
    } else if table == "project_vars"@ {
        Some(Origin::Custom)
    } else if table == "project_env_vars"@ {
        Some(Origin::Custom)
    } else if table == "packages"@ {
        Some(Origin::Custom)
    } else if table == "semantic_relationships"@ {
        Some(Origin::Empty)
    } else if table == "diagnostics"@ {
        Some(Origin::Empty)
    } else if table == "adapter_queries"@ {
        Some(Origin::Empty)
    } else if table == "node_input_files"@ {
        Some(Origin::Empty)
    } else {
        None
    }
}

/// Origin of every staging table the information schema reads. Exhaustive over
/// the tables [`referenced_pairs`] can name; an unlisted table is `None`.
///
/// Node-derived tables keep the node rows of their resource type, as the
/// ingest's single pass over the nodes does; `nodes` itself is the one table
/// assembled from two sources, the compiled fields being a left join by key.
/// The single-row snapshots and the column merge are assembled by bespoke SQL,
/// and the tables nothing writes have no epoch source.
pub fn origin(staging_table: &str) -> (r: Option<Origin>)
    ensures
        r == origin_of(staging_table@),
{
    if str_eq(staging_table, "nodes") {
        return Some(Origin::Relation { view: "epoch_parse_nodes", keep: None, alive_on: Some("unique_id"), join: Some(EpochJoin { view: "epoch_compile_nodes", on: "unique_id" }), unnest: None });
    }
    if str_eq(staging_table, "macros") {
        return Some(node_derived("t.resource_type = 'macro'"));
    }
    if str_eq(staging_table, "docs") {
        return Some(node_derived("t.resource_type = 'docs_macro'"));
    }
    if str_eq(staging_table, "groups") {
        return Some(node_derived("t.resource_type = 'group'"));
    }
    if str_eq(staging_table, "exposures") {
        return Some(node_derived("t.resource_type = 'exposure'"));
    }
    if str_eq(staging_table, "metrics") {
        return Some(node_derived("t.resource_type = 'metric'"));
    }
    if str_eq(staging_table, "unit_tests") {
        return Some(node_derived("t.resource_type = 'unit_test'"));
    }
    if str_eq(staging_table, "saved_queries") {
        return Some(node_derived("t.resource_type = 'saved_query'"));
    }
    if str_eq(staging_table, "semantic_models") {
        return Some(node_derived("t.resource_type = 'semantic_model'"));
    }
    if str_eq(staging_table, "test_metadata") {
        return Some(node_derived("t.resource_type = 'test' AND COALESCE(json_extract(t.payload, '$.__test_attr__.test_metadata'), json_extract(t.payload, '$.test_metadata')) IS NOT NULL"));
    }
    if str_eq(staging_table, "time_spines") {
        return Some(node_derived("t.resource_type = 'model' AND COALESCE(json_type(t.payload, '$.__model_attr__.time_spine'), 'NULL') <> 'NULL'"));
    }
    if str_eq(staging_table, "edges") {
        return Some(node_unnest(None, Unnest { list: "t.depends_on", keep: None }));
    }
    if str_eq(staging_table, "semantic_entities") {
        return Some(semantic_sub("json_extract(t.payload, '$.__semantic_model_attr__.entities[*]')"));
    }
    if str_eq(staging_table, "semantic_measures") {
        return Some(semantic_sub("json_extract(t.payload, '$.__semantic_model_attr__.measures[*]')"));
    }
    if str_eq(staging_table, "semantic_dimensions") {
        return Some(semantic_sub("json_extract(t.payload, '$.__semantic_model_attr__.dimensions[*]')"));
    }
    if str_eq(staging_table, "node_columns") {
        return Some(Origin::Custom);
    }
    if str_eq(staging_table, "column_lineage") {
        return Some(Origin::Relation { view: "epoch_compile_cll", keep: None, alive_on: Some("to_node_unique_id"), join: None, unnest: None });
    }
    if str_eq(staging_table, "invocations") {
        return Some(Origin::Relation { view: "epoch_run_invocations", keep: Some("t.invocation_id IS NOT NULL"), alive_on: None, join: None, unnest: None });
    }
    if str_eq(staging_table, "run_results") {
        return Some(Origin::Relation { view: "epoch_run_results", keep: Some("t.unique_id IS NOT NULL AND t.invocation_id IS NOT NULL"), alive_on: None, join: None, unnest: None });
    }
    if str_eq(staging_table, "source_freshness") {
        return Some(Origin::Relation { view: "epoch_run_freshness", keep: Some("t.unique_id IS NOT NULL"), alive_on: None, join: None, unnest: None });
    }
    if str_eq(staging_table, "project") {
        return Some(Origin::Custom);
    }
    if str_eq(staging_table, "project_vars") {
        return Some(Origin::Custom);
    }
    if str_eq(staging_table, "project_env_vars") {
        return Some(Origin::Custom);
    }
    if str_eq(staging_table, "packages") {
        return Some(Origin::Custom);
    }
    if str_eq(staging_table, "semantic_relationships") {
        return Some(Origin::Empty);
    }
    if str_eq(staging_table, "diagnostics") {
        return Some(Origin::Empty);
    }
    if str_eq(staging_table, "adapter_queries") {
        return Some(Origin::Empty);
    }
    if str_eq(staging_table, "node_input_files") {
        return Some(Origin::Empty);
    }
    None
}

/// The staging columns of `run_results`, each with the expression that computes it.
pub open spec fn run_results_exprs_model() -> Seq<(&'static str, EpochExpr)> {
    seq![("unique_id", EpochExpr::Same), ("invocation_id", EpochExpr::Same), ("status", EpochExpr::Same), ("execution_time", EpochExpr::Same), ("thread_id", EpochExpr::Same), ("message", EpochExpr::Same), ("failures", EpochExpr::Same), ("compiled", EpochExpr::Null), ("batch_results", EpochExpr::Null), ("rows_affected", EpochExpr::Null), ("compiled_code_hash", EpochExpr::Same), ("relation_name", EpochExpr::Same), ("adapter_response", EpochExpr::Same), ("timing", EpochExpr::Same), ("created_at", EpochExpr::Col("ingested_at"))]
}

fn run_results_exprs() -> (v: Vec<(&'static str, EpochExpr)>)
    ensures
        v@ == run_results_exprs_model(),
{
    vec![("unique_id", EpochExpr::Same), ("invocation_id", EpochExpr::Same), ("status", EpochExpr::Same), ("execution_time", EpochExpr::Same), ("thread_id", EpochExpr::Same), ("message", EpochExpr::Same), ("failures", EpochExpr::Same), ("compiled", EpochExpr::Null), ("batch_results", EpochExpr::Null), ("rows_affected", EpochExpr::Null), ("compiled_code_hash", EpochExpr::Same), ("relation_name", EpochExpr::Same), ("adapter_response", EpochExpr::Same), ("timing", EpochExpr::Same), ("created_at", EpochExpr::Col("ingested_at"))]
}

/// The staging columns of `invocations`, each with the expression that computes it.
pub open spec fn invocations_exprs_model() -> Seq<(&'static str, EpochExpr)> {
    seq![("invocation_id", EpochExpr::Same), ("command", EpochExpr::Same), ("selector", EpochExpr::Same), ("dbt_version", EpochExpr::Sql("COALESCE(dbt_version, '')")), ("generated_at", EpochExpr::Col("ingested_at")), ("elapsed_time", EpochExpr::Col("elapsed_secs")), ("node_count", EpochExpr::Same), ("target_name", EpochExpr::Same), ("target_type", EpochExpr::Col("adapter_type")), ("git_sha", EpochExpr::Same), ("git_branch", EpochExpr::Same), ("git_is_dirty", EpochExpr::Sql("git_is_dirty = 1")), ("args", EpochExpr::Null), ("target_database", EpochExpr::Null), ("target_schema", EpochExpr::Null), ("target_threads", EpochExpr::Null), ("vars_override", EpochExpr::Null)]
}

fn invocations_exprs() -> (v: Vec<(&'static str, EpochExpr)>)
    ensures
        v@ == invocations_exprs_model(),
{
    vec![("invocation_id", EpochExpr::Same), ("command", EpochExpr::Same), ("selector", EpochExpr::Same), ("dbt_version", EpochExpr::Sql("COALESCE(dbt_version, '')")), ("generated_at", EpochExpr::Col("ingested_at")), ("elapsed_time", EpochExpr::Col("elapsed_secs")), ("node_count", EpochExpr::Same), ("target_name", EpochExpr::Same), ("target_type", EpochExpr::Col("adapter_type")), ("git_sha", EpochExpr::Same), ("git_branch", EpochExpr::Same), ("git_is_dirty", EpochExpr::Sql("git_is_dirty = 1")), ("args", EpochExpr::Null), ("target_database", EpochExpr::Null), ("target_schema", EpochExpr::Null), ("target_threads", EpochExpr::Null), ("vars_override", EpochExpr::Null)]
}

/// The staging columns of `source_freshness`, each with the expression that computes it.
pub open spec fn source_freshness_exprs_model() -> Seq<(&'static str, EpochExpr)> {
    seq![("unique_id", EpochExpr::Same), ("invocation_id", EpochExpr::Same), ("status", EpochExpr::Same), ("max_loaded_at", EpochExpr::Same), ("snapshotted_at", EpochExpr::Same), ("max_loaded_at_time_ago", EpochExpr::Same), ("execution_time", EpochExpr::Same), ("warn_after_count", EpochExpr::Same), ("warn_after_period", EpochExpr::Same), ("error_after_count", EpochExpr::Same), ("error_after_period", EpochExpr::Same), ("ingested_at", EpochExpr::Same), ("adapter_response", EpochExpr::Null), ("created_at", EpochExpr::Null), ("error", EpochExpr::Null), ("freshness_filter", EpochExpr::Null), ("thread_id", EpochExpr::Null), ("timing", EpochExpr::Null)]
}

fn source_freshness_exprs() -> (v: Vec<(&'static str, EpochExpr)>)
    ensures
        v@ == source_freshness_exprs_model(),
{
    vec![("unique_id", EpochExpr::Same), ("invocation_id", EpochExpr::Same), ("status", EpochExpr::Same), ("max_loaded_at", EpochExpr::Same), ("snapshotted_at", EpochExpr::Same), ("max_loaded_at_time_ago", EpochExpr::Same), ("execution_time", EpochExpr::Same), ("warn_after_count", EpochExpr::Same), ("warn_after_period", EpochExpr::Same), ("error_after_count", EpochExpr::Same), ("error_after_period", EpochExpr::Same), ("ingested_at", EpochExpr::Same), ("adapter_response", EpochExpr::Null), ("created_at", EpochExpr::Null), ("error", EpochExpr::Null), ("freshness_filter", EpochExpr::Null), ("thread_id", EpochExpr::Null), ("timing", EpochExpr::Null)]
}

/// The staging columns of `column_lineage`, each with the expression that computes it.
pub open spec fn column_lineage_exprs_model() -> Seq<(&'static str, EpochExpr)> {
    seq![("from_node_unique_id", EpochExpr::Same), ("from_column_name", EpochExpr::Same), ("to_node_unique_id", EpochExpr::Same), ("to_column_name", EpochExpr::Same), ("lineage_kind", EpochExpr::Same), ("ingested_at", EpochExpr::Same)]
}

fn column_lineage_exprs() -> (v: Vec<(&'static str, EpochExpr)>)
    ensures
        v@ == column_lineage_exprs_model(),
{
    vec![("from_node_unique_id", EpochExpr::Same), ("from_column_name", EpochExpr::Same), ("to_node_unique_id", EpochExpr::Same), ("to_column_name", EpochExpr::Same), ("lineage_kind", EpochExpr::Same), ("ingested_at", EpochExpr::Same)]
}

/// The staging columns of `nodes`, each with the expression that computes it.
pub open spec fn nodes_exprs_model() -> Seq<(&'static str, EpochExpr)> {
    seq![("unique_id", EpochExpr::Same), ("name", EpochExpr::Same), ("resource_type", EpochExpr::Same), ("package_name", EpochExpr::Same), ("original_file_path", EpochExpr::Col("original_path")), ("alias", EpochExpr::Same), ("description", EpochExpr::Same), ("relation_name", EpochExpr::Same), ("identifier", EpochExpr::Sql("COALESCE(t.identifier, json_extract_string(t.payload, '$.__source_attr__.identifier'), t.alias)")), ("materialized", EpochExpr::Col("materialization")), ("access_level", EpochExpr::Sql("COALESCE(t.access, json_extract_string(t.payload, '$.__model_attr__.access'))")), ("group_name", EpochExpr::Sql("COALESCE(t.group_name, json_extract_string(t.payload, '$.__model_attr__.group'))")), ("database_name", EpochExpr::Sql("COALESCE(t.\"database\", '')")), ("schema_name", EpochExpr::Sql("COALESCE(t.\"schema\", '')")), ("fqn", EpochExpr::Sql("COALESCE(t.fqn, [])")), ("tags", EpochExpr::Sql("COALESCE(t.tags, [])")), ("enabled", EpochExpr::Sql("COALESCE(t.is_disabled = 0, TRUE)")), ("source_name", EpochExpr::Sql("COALESCE(t.source_name, json_extract_string(t.payload, '$.__source_attr__.source_name'), json_extract_string(t.payload, '$.source_name'))")), ("ingested_at", EpochExpr::Same), ("checksum", EpochExpr::JsonFirst(&["__common_attr__.checksum.checksum", "checksum.checksum"], "NULL")), ("raw_code", EpochExpr::JsonFirst(&["__common_attr__.raw_code", "raw_code"], "NULL")), ("source_description", EpochExpr::JsonFirst(&["__source_attr__.source_description", "source_description"], "NULL")), ("loader", EpochExpr::JsonFirst(&["__source_attr__.loader", "loader"], "NULL")), ("loaded_at_field", EpochExpr::JsonFirst(&["__source_attr__.loaded_at_field", "loaded_at_field"], "NULL")), ("patch_path", EpochExpr::JsonFirst(&["__common_attr__.patch_path", "patch_path"], "NULL")), ("deprecation_date", EpochExpr::JsonFirst(&["__model_attr__.deprecation_date", "deprecation_date"], "NULL")), ("meta", EpochExpr::SqlJson("COALESCE(json_extract(t.payload, '$.__common_attr__.meta'), json_extract(t.payload, '$.meta'))")), ("version", EpochExpr::SqlJson("COALESCE(json_extract(t.payload, '$.__model_attr__.version'), json_extract(t.payload, '$.version'))")), ("latest_version", EpochExpr::SqlJson("COALESCE(json_extract(t.payload, '$.__model_attr__.latest_version'), json_extract(t.payload, '$.latest_version'))")), ("config", EpochExpr::SqlJson("CASE WHEN t.resource_type = 'model' THEN to_json(CAST(json_extract(t.payload, '$.config') AS VARCHAR)) ELSE json_extract(t.payload, '$.config') END")), ("contract_enforced", EpochExpr::Sql("COALESCE(CAST(json_extract(COALESCE(json_extract(t.payload, '$.config.contract'), json_extract(t.payload, '$.__model_attr__.contract'), json_extract(t.payload, '$.contract')), '$.enforced') AS BOOLEAN), FALSE)")), ("primary_key", EpochExpr::Sql("COALESCE(json_extract_string(t.payload, '$.__model_attr__.primary_key[*]'), [])")), ("file_path", EpochExpr::Sql("CASE WHEN t.resource_type = 'model' THEN '' ELSE COALESCE(json_extract_string(t.payload, '$.__common_attr__.path'), '') END")), ("compiled_code", EpochExpr::JoinCol("compiled_code")), ("compiled_code_hash", EpochExpr::JoinCol("compiled_code_hash")), ("compiled_path", EpochExpr::JoinCol("compiled_path")), ("table_role", EpochExpr::JoinCol("table_role")), ("grain", EpochExpr::JoinJsonList("grain")), ("grain_declared", EpochExpr::JoinJsonList("grain_declared")), ("grain_tested", EpochExpr::JoinJsonList("grain_tested")), ("classifiers", EpochExpr::JoinJsonList("classifiers")), ("docs_show", EpochExpr::True), ("grain_inferred", EpochExpr::EmptyList), ("node_language", EpochExpr::Json("__common_attr__.language")), ("incremental_strategy", EpochExpr::Null), ("on_schema_change", EpochExpr::Null), ("unique_key", EpochExpr::Null), ("full_refresh", EpochExpr::Null), ("persist_docs", EpochExpr::Null), ("pre_hook", EpochExpr::Null), ("post_hook", EpochExpr::Null), ("grants", EpochExpr::Null), ("node_constraints", EpochExpr::Null), ("time_spine", EpochExpr::Null), ("ai_context", EpochExpr::Null), ("loaded_at_query", EpochExpr::Null), ("freshness", EpochExpr::Null), ("external_config", EpochExpr::Null), ("source_meta", EpochExpr::Null), ("quoting", EpochExpr::Null), ("extra_ctes", EpochExpr::Null), ("compiled_at", EpochExpr::Null), ("raw_code_hash", EpochExpr::Null), ("search_text", EpochExpr::Null)]
}

fn nodes_exprs() -> (v: Vec<(&'static str, EpochExpr)>)
    ensures
        v@ == nodes_exprs_model(),
{
    vec![("unique_id", EpochExpr::Same), ("name", EpochExpr::Same), ("resource_type", EpochExpr::Same), ("package_name", EpochExpr::Same), ("original_file_path", EpochExpr::Col("original_path")), ("alias", EpochExpr::Same), ("description", EpochExpr::Same), ("relation_name", EpochExpr::Same), ("identifier", EpochExpr::Sql("COALESCE(t.identifier, json_extract_string(t.payload, '$.__source_attr__.identifier'), t.alias)")), ("materialized", EpochExpr::Col("materialization")), ("access_level", EpochExpr::Sql("COALESCE(t.access, json_extract_string(t.payload, '$.__model_attr__.access'))")), ("group_name", EpochExpr::Sql("COALESCE(t.group_name, json_extract_string(t.payload, '$.__model_attr__.group'))")), ("database_name", EpochExpr::Sql("COALESCE(t.\"database\", '')")), ("schema_name", EpochExpr::Sql("COALESCE(t.\"schema\", '')")), ("fqn", EpochExpr::Sql("COALESCE(t.fqn, [])")), ("tags", EpochExpr::Sql("COALESCE(t.tags, [])")), ("enabled", EpochExpr::Sql("COALESCE(t.is_disabled = 0, TRUE)")), ("source_name", EpochExpr::Sql("COALESCE(t.source_name, json_extract_string(t.payload, '$.__source_attr__.source_name'), json_extract_string(t.payload, '$.source_name'))")), ("ingested_at", EpochExpr::Same), ("checksum", EpochExpr::JsonFirst(&["__common_attr__.checksum.checksum", "checksum.checksum"], "NULL")), ("raw_code", EpochExpr::JsonFirst(&["__common_attr__.raw_code", "raw_code"], "NULL")), ("source_description", EpochExpr::JsonFirst(&["__source_attr__.source_description", "source_description"], "NULL")), ("loader", EpochExpr::JsonFirst(&["__source_attr__.loader", "loader"], "NULL")), ("loaded_at_field", EpochExpr::JsonFirst(&["__source_attr__.loaded_at_field", "loaded_at_field"], "NULL")), ("patch_path", EpochExpr::JsonFirst(&["__common_attr__.patch_path", "patch_path"], "NULL")), ("deprecation_date", EpochExpr::JsonFirst(&["__model_attr__.deprecation_date", "deprecation_date"], "NULL")), ("meta", EpochExpr::SqlJson("COALESCE(json_extract(t.payload, '$.__common_attr__.meta'), json_extract(t.payload, '$.meta'))")), ("version", EpochExpr::SqlJson("COALESCE(json_extract(t.payload, '$.__model_attr__.version'), json_extract(t.payload, '$.version'))")), ("latest_version", EpochExpr::SqlJson("COALESCE(json_extract(t.payload, '$.__model_attr__.latest_version'), json_extract(t.payload, '$.latest_version'))")), ("config", EpochExpr::SqlJson("CASE WHEN t.resource_type = 'model' THEN to_json(CAST(json_extract(t.payload, '$.config') AS VARCHAR)) ELSE json_extract(t.payload, '$.config') END")), ("contract_enforced", EpochExpr::Sql("COALESCE(CAST(json_extract(COALESCE(json_extract(t.payload, '$.config.contract'), json_extract(t.payload, '$.__model_attr__.contract'), json_extract(t.payload, '$.contract')), '$.enforced') AS BOOLEAN), FALSE)")), ("primary_key", EpochExpr::Sql("COALESCE(json_extract_string(t.payload, '$.__model_attr__.primary_key[*]'), [])")), ("file_path", EpochExpr::Sql("CASE WHEN t.resource_type = 'model' THEN '' ELSE COALESCE(json_extract_string(t.payload, '$.__common_attr__.path'), '') END")), ("compiled_code", EpochExpr::JoinCol("compiled_code")), ("compiled_code_hash", EpochExpr::JoinCol("compiled_code_hash")), ("compiled_path", EpochExpr::JoinCol("compiled_path")), ("table_role", EpochExpr::JoinCol("table_role")), ("grain", EpochExpr::JoinJsonList("grain")), ("grain_declared", EpochExpr::JoinJsonList("grain_declared")), ("grain_tested", EpochExpr::JoinJsonList("grain_tested")), ("classifiers", EpochExpr::JoinJsonList("classifiers")), ("docs_show", EpochExpr::True), ("grain_inferred", EpochExpr::EmptyList), ("node_language", EpochExpr::Json("__common_attr__.language")), ("incremental_strategy", EpochExpr::Null), ("on_schema_change", EpochExpr::Null), ("unique_key", EpochExpr::Null), ("full_refresh", EpochExpr::Null), ("persist_docs", EpochExpr::Null), ("pre_hook", EpochExpr::Null), ("post_hook", EpochExpr::Null), ("grants", EpochExpr::Null), ("node_constraints", EpochExpr::Null), ("time_spine", EpochExpr::Null), ("ai_context", EpochExpr::Null), ("loaded_at_query", EpochExpr::Null), ("freshness", EpochExpr::Null), ("external_config", EpochExpr::Null), ("source_meta", EpochExpr::Null), ("quoting", EpochExpr::Null), ("extra_ctes", EpochExpr::Null), ("compiled_at", EpochExpr::Null), ("raw_code_hash", EpochExpr::Null), ("search_text", EpochExpr::Null)]
}

/// The staging columns of `edges`, each with the expression that computes it.
pub open spec fn edges_exprs_model() -> Seq<(&'static str, EpochExpr)> {
    seq![("parent_unique_id", EpochExpr::Elem), ("child_unique_id", EpochExpr::Col("unique_id")), ("edge_type", EpochExpr::Sql("'ref'")), ("ingested_at", EpochExpr::Same)]
}

fn edges_exprs() -> (v: Vec<(&'static str, EpochExpr)>)
    ensures
        v@ == edges_exprs_model(),
{
    vec![("parent_unique_id", EpochExpr::Elem), ("child_unique_id", EpochExpr::Col("unique_id")), ("edge_type", EpochExpr::Sql("'ref'")), ("ingested_at", EpochExpr::Same)]
}

/// The staging columns of `semantic_entities`, each with the expression that computes it.
pub open spec fn semantic_entities_exprs_model() -> Seq<(&'static str, EpochExpr)> {
    seq![("unique_id", EpochExpr::Same), ("name", EpochExpr::ElemJson("name")), ("entity_type", EpochExpr::ElemJsonFirst(&["entity_type", "type"], "'unknown'")), ("description", EpochExpr::ElemJson("description")), ("label", EpochExpr::ElemJson("label")), ("entity_role", EpochExpr::ElemJson("role")), ("expr", EpochExpr::ElemJson("expr")), ("config", EpochExpr::Null), ("ingested_at", EpochExpr::Same)]
}

fn semantic_entities_exprs() -> (v: Vec<(&'static str, EpochExpr)>)
    ensures
        v@ == semantic_entities_exprs_model(),
{
    vec![("unique_id", EpochExpr::Same), ("name", EpochExpr::ElemJson("name")), ("entity_type", EpochExpr::ElemJsonFirst(&["entity_type", "type"], "'unknown'")), ("description", EpochExpr::ElemJson("description")), ("label", EpochExpr::ElemJson("label")), ("entity_role", EpochExpr::ElemJson("role")), ("expr", EpochExpr::ElemJson("expr")), ("config", EpochExpr::Null), ("ingested_at", EpochExpr::Same)]
}

/// The staging columns of `semantic_measures`, each with the expression that computes it.
pub open spec fn semantic_measures_exprs_model() -> Seq<(&'static str, EpochExpr)> {
    seq![("unique_id", EpochExpr::Same), ("name", EpochExpr::ElemJson("name")), ("agg", EpochExpr::ElemJsonFirst(&["agg"], "'sum'")), ("description", EpochExpr::ElemJson("description")), ("label", EpochExpr::ElemJson("label")), ("expr", EpochExpr::ElemJson("expr")), ("create_metric", EpochExpr::ElemJsonFirst(&["create_metric"], "FALSE")), ("agg_time_dimension", EpochExpr::ElemJson("agg_time_dimension")), ("agg_params", EpochExpr::ElemJsonRaw("agg_params")), ("non_additive_dimension", EpochExpr::ElemJsonRaw("non_additive_dimension")), ("config", EpochExpr::Null), ("ingested_at", EpochExpr::Same)]
}

fn semantic_measures_exprs() -> (v: Vec<(&'static str, EpochExpr)>)
    ensures
        v@ == semantic_measures_exprs_model(),
{
    vec![("unique_id", EpochExpr::Same), ("name", EpochExpr::ElemJson("name")), ("agg", EpochExpr::ElemJsonFirst(&["agg"], "'sum'")), ("description", EpochExpr::ElemJson("description")), ("label", EpochExpr::ElemJson("label")), ("expr", EpochExpr::ElemJson("expr")), ("create_metric", EpochExpr::ElemJsonFirst(&["create_metric"], "FALSE")), ("agg_time_dimension", EpochExpr::ElemJson("agg_time_dimension")), ("agg_params", EpochExpr::ElemJsonRaw("agg_params")), ("non_additive_dimension", EpochExpr::ElemJsonRaw("non_additive_dimension")), ("config", EpochExpr::Null), ("ingested_at", EpochExpr::Same)]
}

/// The staging columns of `semantic_dimensions`, each with the expression that computes it.
pub open spec fn semantic_dimensions_exprs_model() -> Seq<(&'static str, EpochExpr)> {
    seq![("unique_id", EpochExpr::Same), ("name", EpochExpr::ElemJson("name")), ("dimension_type", EpochExpr::ElemJsonFirst(&["dimension_type", "type"], "'categorical'")), ("description", EpochExpr::ElemJson("description")), ("label", EpochExpr::ElemJson("label")), ("expr", EpochExpr::ElemJson("expr")), ("is_partition", EpochExpr::ElemJsonFirst(&["is_partition"], "FALSE")), ("time_granularity", EpochExpr::ElemJson("type_params.time_granularity")), ("validity_params", EpochExpr::ElemJsonRaw("validity_params")), ("config", EpochExpr::Null), ("ingested_at", EpochExpr::Same)]
}

fn semantic_dimensions_exprs() -> (v: Vec<(&'static str, EpochExpr)>)
    ensures
        v@ == semantic_dimensions_exprs_model(),
{
    vec![("unique_id", EpochExpr::Same), ("name", EpochExpr::ElemJson("name")), ("dimension_type", EpochExpr::ElemJsonFirst(&["dimension_type", "type"], "'categorical'")), ("description", EpochExpr::ElemJson("description")), ("label", EpochExpr::ElemJson("label")), ("expr", EpochExpr::ElemJson("expr")), ("is_partition", EpochExpr::ElemJsonFirst(&["is_partition"], "FALSE")), ("time_granularity", EpochExpr::ElemJson("type_params.time_granularity")), ("validity_params", EpochExpr::ElemJsonRaw("validity_params")), ("config", EpochExpr::Null), ("ingested_at", EpochExpr::Same)]
}

/// The staging columns of `docs`, each with the expression that computes it.
pub open spec fn docs_exprs_model() -> Seq<(&'static str, EpochExpr)> {
    seq![("unique_id", EpochExpr::Same), ("name", EpochExpr::JsonOr("name", "''")), ("package_name", EpochExpr::JsonOr("package_name", "''")), ("original_file_path", EpochExpr::JsonOr("original_file_path", "''")), ("block_contents", EpochExpr::Json("block_contents")), ("ingested_at", EpochExpr::Same)]
}

fn docs_exprs() -> (v: Vec<(&'static str, EpochExpr)>)
    ensures
        v@ == docs_exprs_model(),
{
    vec![("unique_id", EpochExpr::Same), ("name", EpochExpr::JsonOr("name", "''")), ("package_name", EpochExpr::JsonOr("package_name", "''")), ("original_file_path", EpochExpr::JsonOr("original_file_path", "''")), ("block_contents", EpochExpr::Json("block_contents")), ("ingested_at", EpochExpr::Same)]
}

/// The staging columns of `groups`, each with the expression that computes it.
pub open spec fn groups_exprs_model() -> Seq<(&'static str, EpochExpr)> {
    seq![("unique_id", EpochExpr::Same), ("name", EpochExpr::JsonOr("__common_attr__.name", "''")), ("description", EpochExpr::Json("__common_attr__.description")), ("package_name", EpochExpr::Null), ("original_file_path", EpochExpr::Null), ("config", EpochExpr::Null), ("owner_name", EpochExpr::Json("__group_attr__.owner.name")), ("owner_email", EpochExpr::Json("__group_attr__.owner.email")), ("ingested_at", EpochExpr::Same)]
}

fn groups_exprs() -> (v: Vec<(&'static str, EpochExpr)>)
    ensures
        v@ == groups_exprs_model(),
{
    vec![("unique_id", EpochExpr::Same), ("name", EpochExpr::JsonOr("__common_attr__.name", "''")), ("description", EpochExpr::Json("__common_attr__.description")), ("package_name", EpochExpr::Null), ("original_file_path", EpochExpr::Null), ("config", EpochExpr::Null), ("owner_name", EpochExpr::Json("__group_attr__.owner.name")), ("owner_email", EpochExpr::Json("__group_attr__.owner.email")), ("ingested_at", EpochExpr::Same)]
}

/// The staging columns of `macros`, each with the expression that computes it.
pub open spec fn macros_exprs_model() -> Seq<(&'static str, EpochExpr)> {
    seq![("unique_id", EpochExpr::Same), ("name", EpochExpr::JsonOr("name", "''")), ("package_name", EpochExpr::JsonOr("package_name", "''")), ("original_file_path", EpochExpr::JsonOr("original_file_path", "''")), ("macro_sql", EpochExpr::JsonOr("macro_sql", "''")), ("description", EpochExpr::JsonOr("description", "''")), ("depends_on_macros", EpochExpr::JsonList("depends_on.macros")), ("arguments", EpochExpr::SqlJson("COALESCE(json_extract(t.payload, '$.arguments'), json_extract(t.payload, '$.args'))")), ("docs_show", EpochExpr::JsonOr("docs.show", "TRUE")), ("patch_path", EpochExpr::Json("patch_path")), ("meta", EpochExpr::JsonRaw("meta")), ("created_at", EpochExpr::Json("created_at")), ("ingested_at", EpochExpr::Same)]
}

fn macros_exprs() -> (v: Vec<(&'static str, EpochExpr)>)
    ensures
        v@ == macros_exprs_model(),
{
    vec![("unique_id", EpochExpr::Same), ("name", EpochExpr::JsonOr("name", "''")), ("package_name", EpochExpr::JsonOr("package_name", "''")), ("original_file_path", EpochExpr::JsonOr("original_file_path", "''")), ("macro_sql", EpochExpr::JsonOr("macro_sql", "''")), ("description", EpochExpr::JsonOr("description", "''")), ("depends_on_macros", EpochExpr::JsonList("depends_on.macros")), ("arguments", EpochExpr::SqlJson("COALESCE(json_extract(t.payload, '$.arguments'), json_extract(t.payload, '$.args'))")), ("docs_show", EpochExpr::JsonOr("docs.show", "TRUE")), ("patch_path", EpochExpr::Json("patch_path")), ("meta", EpochExpr::JsonRaw("meta")), ("created_at", EpochExpr::Json("created_at")), ("ingested_at", EpochExpr::Same)]
}

/// The staging columns of `test_metadata`, each with the expression that computes it.
pub open spec fn test_metadata_exprs_model() -> Seq<(&'static str, EpochExpr)> {
    seq![("test_name", EpochExpr::Sql("json_extract_string(COALESCE(json_extract(t.payload, '$.__test_attr__.test_metadata'), json_extract(t.payload, '$.test_metadata')), '$.name')")), ("test_namespace", EpochExpr::Sql("json_extract_string(COALESCE(json_extract(t.payload, '$.__test_attr__.test_metadata'), json_extract(t.payload, '$.test_metadata')), '$.namespace')")), ("kwargs", EpochExpr::SqlJson("json_extract(COALESCE(json_extract(t.payload, '$.__test_attr__.test_metadata'), json_extract(t.payload, '$.test_metadata')), '$.kwargs')")), ("column_name", EpochExpr::Json("__test_attr__.column_name")), ("attached_node", EpochExpr::Sql("COALESCE(json_extract_string(t.payload, '$.__test_attr__.attached_node'), json_extract_string(t.payload, '$.attached_node'), json_extract_string(t.payload, '$.file_key_name'))")), ("severity", EpochExpr::Sql("COALESCE(json_extract_string(t.payload, '$.deprecated_config.severity'), json_extract_string(t.payload, '$.config.severity'))")), ("warn_if", EpochExpr::Json("deprecated_config.warn_if")), ("error_if", EpochExpr::Json("deprecated_config.error_if")), ("fail_calc", EpochExpr::Json("deprecated_config.fail_calc")), ("store_failures", EpochExpr::Json("deprecated_config.store_failures")), ("store_failures_as", EpochExpr::Json("deprecated_config.store_failures_as")), ("test_limit", EpochExpr::Null), ("test_where", EpochExpr::Null)]
}

fn test_metadata_exprs() -> (v: Vec<(&'static str, EpochExpr)>)
    ensures
        v@ == test_metadata_exprs_model(),
{
    vec![("test_name", EpochExpr::Sql("json_extract_string(COALESCE(json_extract(t.payload, '$.__test_attr__.test_metadata'), json_extract(t.payload, '$.test_metadata')), '$.name')")), ("test_namespace", EpochExpr::Sql("json_extract_string(COALESCE(json_extract(t.payload, '$.__test_attr__.test_metadata'), json_extract(t.payload, '$.test_metadata')), '$.namespace')")), ("kwargs", EpochExpr::SqlJson("json_extract(COALESCE(json_extract(t.payload, '$.__test_attr__.test_metadata'), json_extract(t.payload, '$.test_metadata')), '$.kwargs')")), ("column_name", EpochExpr::Json("__test_attr__.column_name")), ("attached_node", EpochExpr::Sql("COALESCE(json_extract_string(t.payload, '$.__test_attr__.attached_node'), json_extract_string(t.payload, '$.attached_node'), json_extract_string(t.payload, '$.file_key_name'))")), ("severity", EpochExpr::Sql("COALESCE(json_extract_string(t.payload, '$.deprecated_config.severity'), json_extract_string(t.payload, '$.config.severity'))")), ("warn_if", EpochExpr::Json("deprecated_config.warn_if")), ("error_if", EpochExpr::Json("deprecated_config.error_if")), ("fail_calc", EpochExpr::Json("deprecated_config.fail_calc")), ("store_failures", EpochExpr::Json("deprecated_config.store_failures")), ("store_failures_as", EpochExpr::Json("deprecated_config.store_failures_as")), ("test_limit", EpochExpr::Null), ("test_where", EpochExpr::Null)]
}

/// The staging columns of `unit_tests`, each with the expression that computes it.
pub open spec fn unit_tests_exprs_model() -> Seq<(&'static str, EpochExpr)> {
    seq![("unique_id", EpochExpr::Same), ("name", EpochExpr::JsonFirst(&["__common_attr__.name", "name"], "''")), ("model", EpochExpr::JsonOr("__unit_test_attr__.model", "''")), ("description", EpochExpr::Json("__common_attr__.description")), ("package_name", EpochExpr::JsonOr("__common_attr__.package_name", "''")), ("original_file_path", EpochExpr::JsonOr("__common_attr__.original_file_path", "''")), ("fqn", EpochExpr::JsonList("__base_attr__.fqn")), ("given", EpochExpr::JsonRaw("__unit_test_attr__.given")), ("expect", EpochExpr::JsonRaw("__unit_test_attr__.expect")), ("overrides", EpochExpr::JsonRaw("__unit_test_attr__.overrides")), ("versions", EpochExpr::JsonRaw("__unit_test_attr__.versions")), ("config", EpochExpr::Null), ("created_at", EpochExpr::Null), ("ingested_at", EpochExpr::Same)]
}

fn unit_tests_exprs() -> (v: Vec<(&'static str, EpochExpr)>)
    ensures
        v@ == unit_tests_exprs_model(),
{
    vec![("unique_id", EpochExpr::Same), ("name", EpochExpr::JsonFirst(&["__common_attr__.name", "name"], "''")), ("model", EpochExpr::JsonOr("__unit_test_attr__.model", "''")), ("description", EpochExpr::Json("__common_attr__.description")), ("package_name", EpochExpr::JsonOr("__common_attr__.package_name", "''")), ("original_file_path", EpochExpr::JsonOr("__common_attr__.original_file_path", "''")), ("fqn", EpochExpr::JsonList("__base_attr__.fqn")), ("given", EpochExpr::JsonRaw("__unit_test_attr__.given")), ("expect", EpochExpr::JsonRaw("__unit_test_attr__.expect")), ("overrides", EpochExpr::JsonRaw("__unit_test_attr__.overrides")), ("versions", EpochExpr::JsonRaw("__unit_test_attr__.versions")), ("config", EpochExpr::Null), ("created_at", EpochExpr::Null), ("ingested_at", EpochExpr::Same)]
}

/// The staging columns of `time_spines`, each with the expression that computes it.
pub open spec fn time_spines_exprs_model() -> Seq<(&'static str, EpochExpr)> {
    seq![("unique_id", EpochExpr::Same), ("primary_column", EpochExpr::JsonFirst(&["__model_attr__.time_spine.primary_column.name", "__model_attr__.time_spine.primary_column"], "NULL")), ("primary_granularity", EpochExpr::Json("__model_attr__.time_spine.primary_column.time_granularity")), ("custom_granularities", EpochExpr::JsonRaw("__model_attr__.time_spine.custom_granularities")), ("node_relation", EpochExpr::JsonRaw("__model_attr__.time_spine.node_relation")), ("ingested_at", EpochExpr::Same)]
}

fn time_spines_exprs() -> (v: Vec<(&'static str, EpochExpr)>)
    ensures
        v@ == time_spines_exprs_model(),
{
    vec![("unique_id", EpochExpr::Same), ("primary_column", EpochExpr::JsonFirst(&["__model_attr__.time_spine.primary_column.name", "__model_attr__.time_spine.primary_column"], "NULL")), ("primary_granularity", EpochExpr::Json("__model_attr__.time_spine.primary_column.time_granularity")), ("custom_granularities", EpochExpr::JsonRaw("__model_attr__.time_spine.custom_granularities")), ("node_relation", EpochExpr::JsonRaw("__model_attr__.time_spine.node_relation")), ("ingested_at", EpochExpr::Same)]
}

/// The staging columns of `exposures`, each with the expression that computes it.
pub open spec fn exposures_exprs_model() -> Seq<(&'static str, EpochExpr)> {
    seq![("unique_id", EpochExpr::Same), ("name", EpochExpr::JsonFirst(&["__common_attr__.name", "name"], "''")), ("exposure_type", EpochExpr::JsonOr("__exposure_attr__.type", "'dashboard'")), ("label", EpochExpr::Json("__exposure_attr__.label")), ("owner_name", EpochExpr::Json("__exposure_attr__.owner.name")), ("owner_email", EpochExpr::Json("__exposure_attr__.owner.email")), ("url", EpochExpr::Json("__exposure_attr__.url")), ("maturity", EpochExpr::Json("__exposure_attr__.maturity")), ("description", EpochExpr::Json("__common_attr__.description")), ("package_name", EpochExpr::JsonOr("__common_attr__.package_name", "''")), ("original_file_path", EpochExpr::JsonOr("__common_attr__.original_file_path", "''")), ("fqn", EpochExpr::JsonList("__base_attr__.fqn")), ("depends_on_nodes", EpochExpr::JsonList("depends_on.nodes")), ("tags", EpochExpr::Sql("COALESCE(t.tags, [])")), ("created_at", EpochExpr::Json("__exposure_attr__.created_at")), ("config", EpochExpr::Null), ("meta", EpochExpr::Null), ("ingested_at", EpochExpr::Same)]
}

fn exposures_exprs() -> (v: Vec<(&'static str, EpochExpr)>)
    ensures
        v@ == exposures_exprs_model(),
{
    vec![("unique_id", EpochExpr::Same), ("name", EpochExpr::JsonFirst(&["__common_attr__.name", "name"], "''")), ("exposure_type", EpochExpr::JsonOr("__exposure_attr__.type", "'dashboard'")), ("label", EpochExpr::Json("__exposure_attr__.label")), ("owner_name", EpochExpr::Json("__exposure_attr__.owner.name")), ("owner_email", EpochExpr::Json("__exposure_attr__.owner.email")), ("url", EpochExpr::Json("__exposure_attr__.url")), ("maturity", EpochExpr::Json("__exposure_attr__.maturity")), ("description", EpochExpr::Json("__common_attr__.description")), ("package_name", EpochExpr::JsonOr("__common_attr__.package_name", "''")), ("original_file_path", EpochExpr::JsonOr("__common_attr__.original_file_path", "''")), ("fqn", EpochExpr::JsonList("__base_attr__.fqn")), ("depends_on_nodes", EpochExpr::JsonList("depends_on.nodes")), ("tags", EpochExpr::Sql("COALESCE(t.tags, [])")), ("created_at", EpochExpr::Json("__exposure_attr__.created_at")), ("config", EpochExpr::Null), ("meta", EpochExpr::Null), ("ingested_at", EpochExpr::Same)]
}

/// The staging columns of `saved_queries`, each with the expression that computes it.
pub open spec fn saved_queries_exprs_model() -> Seq<(&'static str, EpochExpr)> {
    seq![("unique_id", EpochExpr::Same), ("name", EpochExpr::JsonFirst(&["__common_attr__.name", "name"], "''")), ("label", EpochExpr::Json("__saved_query_attr__.label")), ("description", EpochExpr::Json("__common_attr__.description")), ("package_name", EpochExpr::JsonOr("__common_attr__.package_name", "''")), ("original_file_path", EpochExpr::JsonOr("__common_attr__.original_file_path", "''")), ("fqn", EpochExpr::JsonList("__base_attr__.fqn")), ("query_params", EpochExpr::JsonRaw("__saved_query_attr__.query_params")), ("exports", EpochExpr::JsonRaw("__saved_query_attr__.exports")), ("depends_on_nodes", EpochExpr::JsonList("depends_on.nodes")), ("tags", EpochExpr::Sql("COALESCE(json_extract_string(t.payload, '$.config.tags[*]'), json_extract_string(t.payload, '$.tags[*]'), [])")), ("group_name", EpochExpr::Json("__saved_query_attr__.group")), ("created_at", EpochExpr::Json("__saved_query_attr__.created_at")), ("config", EpochExpr::Null), ("ingested_at", EpochExpr::Same)]
}

fn saved_queries_exprs() -> (v: Vec<(&'static str, EpochExpr)>)
    ensures
        v@ == saved_queries_exprs_model(),
{
    vec![("unique_id", EpochExpr::Same), ("name", EpochExpr::JsonFirst(&["__common_attr__.name", "name"], "''")), ("label", EpochExpr::Json("__saved_query_attr__.label")), ("description", EpochExpr::Json("__common_attr__.description")), ("package_name", EpochExpr::JsonOr("__common_attr__.package_name", "''")), ("original_file_path", EpochExpr::JsonOr("__common_attr__.original_file_path", "''")), ("fqn", EpochExpr::JsonList("__base_attr__.fqn")), ("query_params", EpochExpr::JsonRaw("__saved_query_attr__.query_params")), ("exports", EpochExpr::JsonRaw("__saved_query_attr__.exports")), ("depends_on_nodes", EpochExpr::JsonList("depends_on.nodes")), ("tags", EpochExpr::Sql("COALESCE(json_extract_string(t.payload, '$.config.tags[*]'), json_extract_string(t.payload, '$.tags[*]'), [])")), ("group_name", EpochExpr::Json("__saved_query_attr__.group")), ("created_at", EpochExpr::Json("__saved_query_attr__.created_at")), ("config", EpochExpr::Null), ("ingested_at", EpochExpr::Same)]
}

/// The staging columns of `semantic_models`, each with the expression that computes it.
pub open spec fn semantic_models_exprs_model() -> Seq<(&'static str, EpochExpr)> {
    seq![("unique_id", EpochExpr::Same), ("name", EpochExpr::JsonFirst(&["__common_attr__.name", "name"], "NULL")), ("model", EpochExpr::JsonOr("__semantic_model_attr__.model", "''")), ("label", EpochExpr::Json("__semantic_model_attr__.label")), ("description", EpochExpr::Json("__common_attr__.description")), ("fqn", EpochExpr::JsonList("__base_attr__.fqn")), ("node_relation", EpochExpr::JsonRaw("__semantic_model_attr__.node_relation")), ("primary_entity", EpochExpr::Json("__semantic_model_attr__.primary_entity")), ("defaults", EpochExpr::JsonRaw("__semantic_model_attr__.defaults")), ("group_name", EpochExpr::Json("__semantic_model_attr__.group")), ("created_at", EpochExpr::Json("__semantic_model_attr__.created_at")), ("package_name", EpochExpr::Null), ("original_file_path", EpochExpr::Null), ("config", EpochExpr::Null), ("ingested_at", EpochExpr::Same)]
}

fn semantic_models_exprs() -> (v: Vec<(&'static str, EpochExpr)>)
    ensures
        v@ == semantic_models_exprs_model(),
{
    vec![("unique_id", EpochExpr::Same), ("name", EpochExpr::JsonFirst(&["__common_attr__.name", "name"], "NULL")), ("model", EpochExpr::JsonOr("__semantic_model_attr__.model", "''")), ("label", EpochExpr::Json("__semantic_model_attr__.label")), ("description", EpochExpr::Json("__common_attr__.description")), ("fqn", EpochExpr::JsonList("__base_attr__.fqn")), ("node_relation", EpochExpr::JsonRaw("__semantic_model_attr__.node_relation")), ("primary_entity", EpochExpr::Json("__semantic_model_attr__.primary_entity")), ("defaults", EpochExpr::JsonRaw("__semantic_model_attr__.defaults")), ("group_name", EpochExpr::Json("__semantic_model_attr__.group")), ("created_at", EpochExpr::Json("__semantic_model_attr__.created_at")), ("package_name", EpochExpr::Null), ("original_file_path", EpochExpr::Null), ("config", EpochExpr::Null), ("ingested_at", EpochExpr::Same)]
}

/// The staging columns of `metrics`, each with the expression that computes it.
pub open spec fn metrics_exprs_model() -> Seq<(&'static str, EpochExpr)> {
    seq![("unique_id", EpochExpr::Same), ("name", EpochExpr::Sql("COALESCE(NULLIF(COALESCE(json_extract_string(t.payload, '$.__common_attr__.name'), json_extract_string(t.payload, '$.name'), ''), ''), t.name, '')")), ("label", EpochExpr::Json("__metric_attr__.label")), ("metric_type", EpochExpr::Sql("CASE json_type(t.payload, '$.__metric_attr__.metric_type') WHEN 'VARCHAR' THEN json_extract_string(t.payload, '$.__metric_attr__.metric_type') WHEN 'OBJECT' THEN json_keys(t.payload, '$.__metric_attr__.metric_type')[1] END")), ("description", EpochExpr::Json("__common_attr__.description")), ("package_name", EpochExpr::JsonOr("__common_attr__.package_name", "''")), ("original_file_path", EpochExpr::JsonOr("__common_attr__.original_file_path", "''")), ("fqn", EpochExpr::JsonList("__base_attr__.fqn")), ("type_params", EpochExpr::JsonRaw("__metric_attr__.type_params")), ("metric_filter", EpochExpr::JsonRaw("__metric_attr__.filter")), ("time_granularity", EpochExpr::Json("__metric_attr__.time_granularity")), ("input_metric_names", EpochExpr::Sql("COALESCE(list_filter(list_transform(json_extract(COALESCE(json_extract(t.payload, '$.__metric_attr__.type_params.input_measures'), json_extract(t.payload, '$.__metric_attr__.type_params.input_metrics')), '$[*]'), e -> COALESCE(json_extract_string(e, '$.name'), json_extract_string(e, '$'))), x -> x IS NOT NULL), [])")), ("group_name", EpochExpr::Json("__metric_attr__.group")), ("tags", EpochExpr::Sql("COALESCE(t.tags, [])")), ("meta", EpochExpr::JsonRaw("__metric_attr__.meta")), ("config", EpochExpr::JsonRaw("__metric_attr__.config")), ("created_at", EpochExpr::Json("__metric_attr__.created_at")), ("ai_context", EpochExpr::Null), ("semantic_model_name", EpochExpr::Null), ("ingested_at", EpochExpr::Same)]
}

fn metrics_exprs() -> (v: Vec<(&'static str, EpochExpr)>)
    ensures
        v@ == metrics_exprs_model(),
{
    vec![("unique_id", EpochExpr::Same), ("name", EpochExpr::Sql("COALESCE(NULLIF(COALESCE(json_extract_string(t.payload, '$.__common_attr__.name'), json_extract_string(t.payload, '$.name'), ''), ''), t.name, '')")), ("label", EpochExpr::Json("__metric_attr__.label")), ("metric_type", EpochExpr::Sql("CASE json_type(t.payload, '$.__metric_attr__.metric_type') WHEN 'VARCHAR' THEN json_extract_string(t.payload, '$.__metric_attr__.metric_type') WHEN 'OBJECT' THEN json_keys(t.payload, '$.__metric_attr__.metric_type')[1] END")), ("description", EpochExpr::Json("__common_attr__.description")), ("package_name", EpochExpr::JsonOr("__common_attr__.package_name", "''")), ("original_file_path", EpochExpr::JsonOr("__common_attr__.original_file_path", "''")), ("fqn", EpochExpr::JsonList("__base_attr__.fqn")), ("type_params", EpochExpr::JsonRaw("__metric_attr__.type_params")), ("metric_filter", EpochExpr::JsonRaw("__metric_attr__.filter")), ("time_granularity", EpochExpr::Json("__metric_attr__.time_granularity")), ("input_metric_names", EpochExpr::Sql("COALESCE(list_filter(list_transform(json_extract(COALESCE(json_extract(t.payload, '$.__metric_attr__.type_params.input_measures'), json_extract(t.payload, '$.__metric_attr__.type_params.input_metrics')), '$[*]'), e -> COALESCE(json_extract_string(e, '$.name'), json_extract_string(e, '$'))), x -> x IS NOT NULL), [])")), ("group_name", EpochExpr::Json("__metric_attr__.group")), ("tags", EpochExpr::Sql("COALESCE(t.tags, [])")), ("meta", EpochExpr::JsonRaw("__metric_attr__.meta")), ("config", EpochExpr::JsonRaw("__metric_attr__.config")), ("created_at", EpochExpr::Json("__metric_attr__.created_at")), ("ai_context", EpochExpr::Null), ("semantic_model_name", EpochExpr::Null), ("ingested_at", EpochExpr::Same)]
}

/// The expression table of a staging table, when the mapping has one.
pub open spec fn expr_rows(table: Seq<char>) -> Option<Seq<(&'static str, EpochExpr)>> {
    if table == "run_results"@ {
        Some(run_results_exprs_model())
    } else if table == "invocations"@ {
        Some(invocations_exprs_model())
    } else if table == "source_freshness"@ {
        Some(source_freshness_exprs_model())
    } else if table == "column_lineage"@ {
        Some(column_lineage_exprs_model())
    } else if table == "nodes"@ {
        Some(nodes_exprs_model())
    } else if table == "edges"@ {
        Some(edges_exprs_model())
    } else if table == "semantic_entities"@ {
        Some(semantic_entities_exprs_model())
    } else if table == "semantic_measures"@ {
        Some(semantic_measures_exprs_model())
    } else if table == "semantic_dimensions"@ {
        Some(semantic_dimensions_exprs_model())
    } else if table == "docs"@ {
        Some(docs_exprs_model())
    } else if table == "groups"@ {
        Some(groups_exprs_model())
    } else if table == "macros"@ {
        Some(macros_exprs_model())
    } else if table == "test_metadata"@ {
        Some(test_metadata_exprs_model())
    } else if table == "unit_tests"@ {
        Some(unit_tests_exprs_model())
    } else if table == "time_spines"@ {
        Some(time_spines_exprs_model())
    } else if table == "exposures"@ {
        Some(exposures_exprs_model())
    } else if table == "saved_queries"@ {
        Some(saved_queries_exprs_model())
    } else if table == "semantic_models"@ {
        Some(semantic_models_exprs_model())
    } else if table == "metrics"@ {
        Some(metrics_exprs_model())
    } else {
        None
    }
}

fn expr_rows_for(table: &str) -> (r: Option<Vec<(&'static str, EpochExpr)>>)
    ensures
        match r {
            Some(v) => expr_rows(table@) == Some(v@),
            None => expr_rows(table@) is None,
        },
{
    if str_eq(table, "run_results") {
        return Some(run_results_exprs());
    }
    if str_eq(table, "invocations") {
        return Some(invocations_exprs());
    }
    if str_eq(table, "source_freshness") {
        return Some(source_freshness_exprs());
    }
    if str_eq(table, "column_lineage") {
        return Some(column_lineage_exprs());
    }
    if str_eq(table, "nodes") {
        return Some(nodes_exprs());
    }
    if str_eq(table, "edges") {
        return Some(edges_exprs());
    }
    if str_eq(table, "semantic_entities") {
        return Some(semantic_entities_exprs());
    }
    if str_eq(table, "semantic_measures") {
        return Some(semantic_measures_exprs());
    }
    if str_eq(table, "semantic_dimensions") {
        return Some(semantic_dimensions_exprs());
    }
    if str_eq(table, "docs") {
        return Some(docs_exprs());
    }
    if str_eq(table, "groups") {
        return Some(groups_exprs());
    }
    if str_eq(table, "macros") {
        return Some(macros_exprs());
    }
    if str_eq(table, "test_metadata") {
        return Some(test_metadata_exprs());
    }
    if str_eq(table, "unit_tests") {
        return Some(unit_tests_exprs());
    }
    if str_eq(table, "time_spines") {
        return Some(time_spines_exprs());
    }
    if str_eq(table, "exposures") {
        return Some(exposures_exprs());
    }
    if str_eq(table, "saved_queries") {
        return Some(saved_queries_exprs());
    }
    if str_eq(table, "semantic_models") {
        return Some(semantic_models_exprs());
    }
    if str_eq(table, "metrics") {
        return Some(metrics_exprs());
    }
    None
}

/// The expression for one staging column, when the mapping covers it.
pub open spec fn spec_epoch_expr(table: Seq<char>, column: Seq<char>) -> Option<EpochExpr> {
    match expr_rows(table) {
        Some(rows) => lookup(rows, column),
        None => None,
    }
}

/// The expression for one staging column, or `None` when the mapping does not
/// cover it yet. An uncovered column means the view layer cannot publish that
/// output table.
pub fn epoch_expr(staging_table: &str, staging_column: &str) -> (r: Option<EpochExpr>)
    ensures
        r == spec_epoch_expr(staging_table@, staging_column@),
{
    match expr_rows_for(staging_table) {
        Some(rows) => lookup_entry(&rows, staging_column),
        None => None,
    }
}

/// Whether an expression yields serialised JSON rather than a scalar.
pub open spec fn is_json_expr(e: Option<EpochExpr>) -> bool {
    match e {
        Some(EpochExpr::JsonRaw(_)) | Some(EpochExpr::TrimmedJsonRaw(_)) | Some(EpochExpr::ElemJsonRaw(_))
        | Some(EpochExpr::SqlJson(_)) => true,
        _ => false,
    }
}

/// True when the staging column holds serialised JSON rather than a scalar.
///
/// The two layers serialise the same object with different key orders, and key
/// order carries no meaning in JSON, so a comparison of the two reads these
/// columns parsed rather than byte for byte.
pub fn is_json_text(staging_table: &str, staging_column: &str) -> (r: bool)
    ensures
        r == is_json_expr(spec_epoch_expr(staging_table@, staging_column@)),
{
    match epoch_expr(staging_table, staging_column) {
        Some(EpochExpr::JsonRaw(_)) | Some(EpochExpr::TrimmedJsonRaw(_)) | Some(EpochExpr::ElemJsonRaw(_))
        | Some(EpochExpr::SqlJson(_)) => true,
        _ => false,
    }
}

/// The staging table a sourced output column resolves against: the one table,
/// or for a join the left side when it has the column and the right otherwise.
/// `None` for an assembled table.
pub open spec fn col_owner(src: Src, col: Seq<char>) -> Option<&'static str> {
    match src {
        Src::Table(t) => Some(t),
        Src::Join { left, right, .. } => if spec_has_column(left@, col) {
            Some(left)
        } else {
            Some(right)
        },
        Src::Own => None,
    }
}

/// The `(staging_table, staging_column)` pairs the columns `cols` read, in
/// order, repeats kept. Null-typed columns read nothing.
pub open spec fn cols_pairs(src: Src, cols: Seq<ColSpec>) -> Seq<(&'static str, &'static str)>
    decreases cols.len(),
{
    if cols.len() == 0 {
        Seq::empty()
    } else {
        let c = cols.last();
        let rest = cols_pairs(src, cols.drop_last());
        if c.ty is None && col_owner(src, c.src@) is Some {
            rest.push((col_owner(src, c.src@)->0, c.src))
        } else {
            rest
        }
    }
}

/// The pairs every table of `m` reads, in schema order, repeats kept.
pub open spec fn schema_pairs(m: Seq<TableModel>) -> Seq<(&'static str, &'static str)>
    decreases m.len(),
{
    if m.len() == 0 {
        Seq::empty()
    } else {
        schema_pairs(m.drop_last()) + cols_pairs(m.last().src, m.last().cols)
    }
}

/// The staging table an output column of `spec` resolves against.
pub fn owning_table(spec: &TableSpec, src_col: &str) -> (r: Option<&'static str>)
    ensures
        r == col_owner(spec.src, src_col@),
{
    match spec.src {
        Src::Table(t) => Some(t),
        Src::Join { left, right, .. } => {
            if crate::index::has_column(left, src_col) {
                Some(left)
            } else {
                Some(right)
            }
        },
        Src::Own => None,
    }
}

/// Every `(staging_table, staging_column)` pair the information schema reads,
/// distinct and in increasing order.
///
/// A joined table resolves a column against the left table first and the
/// right only when the left has no such column. Null-typed columns and
/// assembled tables contribute nothing: they have no staging column to
/// translate.
pub fn referenced_pairs() -> (v: Vec<(&'static str, &'static str)>)
    ensures
        pairs_sorted(pair_views(v@)),
        forall|x: (Seq<char>, Seq<char>)| pair_views(v@).contains(x)
            <==> pair_views(schema_pairs(info_schema_model())).contains(x),
{
    let all = info_schema();
    let ghost m = info_schema_model();
    let mut out: Vec<(&'static str, &'static str)> = Vec::new();
    let mut i: usize = 0;
    while i < all.len()
        invariant
            i <= all@.len(),
            m == info_schema_model(),
            all@.len() == m.len(),
            forall|k: int| 0 <= k < all@.len() ==> model_of(#[trigger] all@[k]) == m[k],
            out@ == schema_pairs(m.subrange(0, i as int)),
        decreases all@.len() - i,
    {
        assert(model_of(all@[i as int]) == m[i as int]);
        assert(m.subrange(0, i + 1).drop_last() =~= m.subrange(0, i as int));
        let spec = &all[i];
        let ghost before = out@;
        let mut j: usize = 0;
        while j < spec.cols.len()
            invariant
                j <= spec.cols@.len(),
                out@ == before + cols_pairs(spec.src, spec.cols@.subrange(0, j as int)),
            decreases spec.cols@.len() - j,
        {
            let col = spec.cols[j];
            assert(spec.cols@.subrange(0, j + 1).drop_last() =~= spec.cols@.subrange(0, j as int));
            if col.ty.is_none() {
                match owning_table(spec, col.src) {
                    Some(table) => {
                        out.push((table, col.src));
                    },
                    None => {},
                }
            }
            assert(out@ =~= before + cols_pairs(spec.src, spec.cols@.subrange(0, j + 1)));
            j += 1;
        }
        assert(spec.cols@.subrange(0, spec.cols@.len() as int) =~= spec.cols@);
        assert(out@ =~= schema_pairs(m.subrange(0, i + 1)));
        i += 1;
    }
    assert(m.subrange(0, m.len() as int) =~= m);
    sorted_distinct_pairs(&out)
}

} // verus!
