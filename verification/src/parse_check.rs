//! What a project quality check may read at parse time, and the warning for a
//! block name dbt silently truncates.
//!
//! A check is SQL over the metadata index, and it runs at parse time, before
//! anything is compiled or materialized. So the `info_schema(view)` helper
//! exposes only views whose every column has its final value by the end of
//! parse, and expands a name only when it is on that list: the result is
//! spliced into the check's SQL, and the list is what makes that safe.

use vstd::prelude::*;
use crate::parse_safe::views_model;
use crate::text::{cat, contains_str, join_seq, join_strs, slice_contains, str_views};

verus! {

/// Views a parse-time check may read.
///
/// The information schema's `dbt` tables minus those that hold nothing at
/// parse (`column_lineage`, `classifiers`, `semantic_relationships`) and minus
/// `dag_nodes`, plus `graph_nodes` and `checks`. `dbt_rt` is absent entirely:
/// it is written from run artifacts.
pub const PARSE_SAFE_VIEWS: [&'static str; 28] = [
    "project",
    "packages",
    "project_vars",
    "project_env_vars",
    "models",
    "seeds",
    "snapshots",
    "functions",
    "analyses",
    "hooks",
    "sources",
    "data_tests",
    "unit_tests",
    "graph_nodes",
    "checks",
    "macros",
    "groups",
    "exposures",
    "metrics",
    "docs_blocks",
    "saved_queries",
    "semantic_models",
    "semantic_entities",
    "semantic_measures",
    "semantic_dimensions",
    "time_spines",
    "edges",
    "node_columns",
];

/// The error when the helper's first argument is not a string.
pub const VIEW_ARGUMENT_ERROR: &'static str = "info_schema(view): first argument must be a view name string";

/// The schema the views live in.
pub const VIEW_SCHEMA_PREFIX: &'static str = "dbt.";

/// The parse-safe views, as values.
pub open spec fn parse_safe_views() -> Seq<Seq<char>> {
    str_views(PARSE_SAFE_VIEWS@)
}

/// The error for a view a parse-time check may not read: it names the view
/// and every view that is available.
pub open spec fn unavailable_view_message(view: Seq<char>) -> Seq<char> {
    "info_schema: '"@ + view + "' is not available to a parse-time check. Available views: "@ + join_seq(
        parse_safe_views(),
        ", "@,
    )
}

/// The `info_schema('<view>')` helper, given its first argument when that is a
/// string: `dbt.<view>` for a parse-safe view, and an error naming what is
/// available for any other name.
pub fn expand_info_schema_view(view: Option<&str>) -> (r: Result<String, String>)
    ensures
        match view {
            None => r is Err && r->Err_0@ == VIEW_ARGUMENT_ERROR@,
            Some(v) => if contains_str(PARSE_SAFE_VIEWS@, v@) {
                r is Ok && r->Ok_0@ == VIEW_SCHEMA_PREFIX@ + v@
            } else {
                r is Err && r->Err_0@ == unavailable_view_message(v@)
            },
        },
{
    match view {
        None => Err(String::from_str(VIEW_ARGUMENT_ERROR)),
        Some(v) => {
            let views: &[&str] = &PARSE_SAFE_VIEWS;
            if slice_contains(views, v) {
                Ok(cat(VIEW_SCHEMA_PREFIX, v))
            } else {
                let mut msg = cat("info_schema: '", v);
                msg.append("' is not available to a parse-time check. Available views: ");
                let all = join_strs(views, ", ");
                msg.append(all.as_str());
                Err(msg)
            }
        },
    }
}

/// The kind of block whose name was malformed.
#[derive(Debug, Clone, Copy, PartialEq, Eq, Structural)]
pub enum BlockNameKind {
    Snapshot,
    Docs,
}

/// The code every malformed-block-name warning carries.
#[derive(Debug, Clone, Copy, PartialEq, Eq, Structural)]
pub enum WarningCode {
    MalformedBlockName,
}

/// A block's label in the warning.
pub open spec fn block_label_text(kind: BlockNameKind) -> Seq<char> {
    match kind {
        BlockNameKind::Snapshot => "Snapshot"@,
        BlockNameKind::Docs => "Docs"@,
    }
}

/// The warning's text for a block of `kind` named `name`.
pub open spec fn malformed_block_message(kind: BlockNameKind, name: Seq<char>) -> Seq<char> {
    block_label_text(kind) + " block name `"@ + name
        + "` is followed by extra characters that dbt silently ignores. Use a name that is a single valid identifier. This will become an error in a future release."@
}

/// A deprecation warning for a `{% snapshot %}` or `{% docs %}` block name
/// followed by a suffix that dbt discards, located at the name.
#[derive(Debug)]
pub struct BlockNameWarning {
    pub code: WarningCode,
    pub line: u32,
    pub col: u32,
    pub offset: u32,
    pub file: String,
    pub context: String,
}

/// Builds the malformed-block-name warnings of one source file.
#[derive(Debug)]
pub struct MalformedBlockNameListener {
    path: String,
}

impl MalformedBlockNameListener {
    /// The source file the warnings are located in.
    pub closed spec fn file(&self) -> Seq<char> {
        self.path@
    }

    /// Creates a new listener for the given source file path.
    pub fn new(path: String) -> (r: Self)
        ensures
            r.file() == path@,
    {
        MalformedBlockNameListener { path }
    }

    /// The block's label in the warning.
    pub fn block_label(kind: BlockNameKind) -> (r: &'static str)
        ensures
            r@ == block_label_text(kind),
    {
        match kind {
            BlockNameKind::Snapshot => "Snapshot",
            BlockNameKind::Docs => "Docs",
        }
    }

    /// The warning for a block of `kind` named `name`, whose name starts at
    /// `line`, `col` and byte `offset` of the file.
    pub fn warning(&self, kind: BlockNameKind, name: &str, line: u32, col: u32, offset: u32) -> (r: BlockNameWarning)
        ensures
            r.code == WarningCode::MalformedBlockName,
            r.line == line,
            r.col == col,
            r.offset == offset,
            r.file@ == self.file(),
            r.context@ == malformed_block_message(kind, name@),
    {
        let mut context = cat(Self::block_label(kind), " block name `");
        context.append(name);
        context.append(
            "` is followed by extra characters that dbt silently ignores. Use a name that is a single valid identifier. This will become an error in a future release.",
        );
        BlockNameWarning {
            code: WarningCode::MalformedBlockName,
            line,
            col,
            offset,
            file: String::from_str(self.path.as_str()),
            context,
        }
    }
}

/// The names of the parse-safe views.
pub open spec fn view_names() -> Seq<Seq<char>> {
    Seq::new(views_model().len(), |j: int| views_model()[j].name@)
}

/// The helper's list and the views agree but for three names: every name the
/// `info_schema()` helper accepts, other than `graph_nodes` and `checks`, is
/// the name of a parse-safe view, and every parse-safe view other than
/// `dag_nodes` is accepted by the helper.
pub proof fn accepted_names_are_parse_safe_views()
    ensures
        forall|i: int| 0 <= i < PARSE_SAFE_VIEWS@.len() && PARSE_SAFE_VIEWS@[i]@ != "graph_nodes"@
            && PARSE_SAFE_VIEWS@[i]@ != "checks"@ ==> view_names().contains(#[trigger] PARSE_SAFE_VIEWS@[i]@),
        forall|j: int| 0 <= j < views_model().len() && views_model()[j].name@ != "dag_nodes"@
            ==> contains_str(PARSE_SAFE_VIEWS@, #[trigger] views_model()[j].name@),
{
    let names = view_names();
    assert forall|i: int| 0 <= i < PARSE_SAFE_VIEWS@.len() && PARSE_SAFE_VIEWS@[i]@ != "graph_nodes"@
        && PARSE_SAFE_VIEWS@[i]@ != "checks"@ implies names.contains(#[trigger] PARSE_SAFE_VIEWS@[i]@) by {
        if i == 0 {
            assert(names[0] == PARSE_SAFE_VIEWS@[0]@);
        } else if i == 1 {
            assert(names[1] == PARSE_SAFE_VIEWS@[1]@);
        } else if i == 2 {
            assert(names[2] == PARSE_SAFE_VIEWS@[2]@);
        } else if i == 3 {
            assert(names[3] == PARSE_SAFE_VIEWS@[3]@);
        } else if i == 4 {
            assert(names[4] == PARSE_SAFE_VIEWS@[4]@);
        } else if i == 5 {
            assert(names[5] == PARSE_SAFE_VIEWS@[5]@);
        } else if i == 6 {
            assert(names[6] == PARSE_SAFE_VIEWS@[6]@);
        } else if i == 7 {
            assert(names[7] == PARSE_SAFE_VIEWS@[7]@);
        } else if i == 8 {
            assert(names[8] == PARSE_SAFE_VIEWS@[8]@);
        } else if i == 9 {
            assert(names[9] == PARSE_SAFE_VIEWS@[9]@);
        } else if i == 10 {
            assert(names[10] == PARSE_SAFE_VIEWS@[10]@);
        } else if i == 11 {
            assert(names[11] == PARSE_SAFE_VIEWS@[11]@);
        } else if i == 12 {
            assert(names[12] == PARSE_SAFE_VIEWS@[12]@);
        } else if i == 13 {
        } else if i == 14 {
        } else if i == 15 {
            assert(names[13] == PARSE_SAFE_VIEWS@[15]@);
        } else if i == 16 {
            assert(names[14] == PARSE_SAFE_VIEWS@[16]@);
        } else if i == 17 {
            assert(names[15] == PARSE_SAFE_VIEWS@[17]@);
        } else if i == 18 {
            assert(names[16] == PARSE_SAFE_VIEWS@[18]@);
        } else if i == 19 {
            assert(names[17] == PARSE_SAFE_VIEWS@[19]@);
        } else if i == 20 {
            assert(names[18] == PARSE_SAFE_VIEWS@[20]@);
        } else if i == 21 {
            assert(names[19] == PARSE_SAFE_VIEWS@[21]@);
        } else if i == 22 {
            assert(names[20] == PARSE_SAFE_VIEWS@[22]@);
        } else if i == 23 {
            assert(names[21] == PARSE_SAFE_VIEWS@[23]@);
        } else if i == 24 {
            assert(names[22] == PARSE_SAFE_VIEWS@[24]@);
        } else if i == 25 {
            assert(names[23] == PARSE_SAFE_VIEWS@[25]@);
        } else if i == 26 {
            assert(names[25] == PARSE_SAFE_VIEWS@[26]@);
        } else if i == 27 {
            assert(names[26] == PARSE_SAFE_VIEWS@[27]@);
        }
    }
    assert forall|j: int| 0 <= j < views_model().len() && views_model()[j].name@ != "dag_nodes"@
        implies contains_str(PARSE_SAFE_VIEWS@, #[trigger] views_model()[j].name@) by {
        if j == 0 {
            assert(PARSE_SAFE_VIEWS@[0]@ == views_model()[0].name@);
        } else if j == 1 {
            assert(PARSE_SAFE_VIEWS@[1]@ == views_model()[1].name@);
        } else if j == 2 {
            assert(PARSE_SAFE_VIEWS@[2]@ == views_model()[2].name@);
        } else if j == 3 {
            assert(PARSE_SAFE_VIEWS@[3]@ == views_model()[3].name@);
        } else if j == 4 {
            assert(PARSE_SAFE_VIEWS@[4]@ == views_model()[4].name@);
        } else if j == 5 {
            assert(PARSE_SAFE_VIEWS@[5]@ == views_model()[5].name@);
        } else if j == 6 {
            assert(PARSE_SAFE_VIEWS@[6]@ == views_model()[6].name@);
        } else if j == 7 {
            assert(PARSE_SAFE_VIEWS@[7]@ == views_model()[7].name@);
        } else if j == 8 {
            assert(PARSE_SAFE_VIEWS@[8]@ == views_model()[8].name@);
        } else if j == 9 {
            assert(PARSE_SAFE_VIEWS@[9]@ == views_model()[9].name@);
        } else if j == 10 {
            assert(PARSE_SAFE_VIEWS@[10]@ == views_model()[10].name@);
        } else if j == 11 {
            assert(PARSE_SAFE_VIEWS@[11]@ == views_model()[11].name@);
        } else if j == 12 {
            assert(PARSE_SAFE_VIEWS@[12]@ == views_model()[12].name@);
        } else if j == 13 {
            assert(PARSE_SAFE_VIEWS@[15]@ == views_model()[13].name@);
        } else if j == 14 {
            assert(PARSE_SAFE_VIEWS@[16]@ == views_model()[14].name@);
        } else if j == 15 {
            assert(PARSE_SAFE_VIEWS@[17]@ == views_model()[15].name@);
        } else if j == 16 {
            assert(PARSE_SAFE_VIEWS@[18]@ == views_model()[16].name@);
        } else if j == 17 {
            assert(PARSE_SAFE_VIEWS@[19]@ == views_model()[17].name@);
        } else if j == 18 {
            assert(PARSE_SAFE_VIEWS@[20]@ == views_model()[18].name@);
        } else if j == 19 {
            assert(PARSE_SAFE_VIEWS@[21]@ == views_model()[19].name@);
        } else if j == 20 {
            assert(PARSE_SAFE_VIEWS@[22]@ == views_model()[20].name@);
        } else if j == 21 {
            assert(PARSE_SAFE_VIEWS@[23]@ == views_model()[21].name@);
        } else if j == 22 {
            assert(PARSE_SAFE_VIEWS@[24]@ == views_model()[22].name@);
        } else if j == 23 {
            assert(PARSE_SAFE_VIEWS@[25]@ == views_model()[23].name@);
        } else if j == 24 {
        } else if j == 25 {
            assert(PARSE_SAFE_VIEWS@[26]@ == views_model()[25].name@);
        } else if j == 26 {
            assert(PARSE_SAFE_VIEWS@[27]@ == views_model()[26].name@);
        }
    }
}

/// The names on one list only: `graph_nodes` and `checks` are accepted by the
/// helper but name no parse-safe view, and the `dag_nodes` view is not
/// accepted by the helper.
pub proof fn names_on_one_list_only()
    ensures
        !view_names().contains("graph_nodes"@),
        !view_names().contains("checks"@),
        view_names().contains("dag_nodes"@),
        !contains_str(PARSE_SAFE_VIEWS@, "dag_nodes"@),
{
    reveal_strlit("analyses");
    reveal_strlit("checks");
    reveal_strlit("dag_nodes");
    reveal_strlit("data_tests");
    reveal_strlit("docs_blocks");
    reveal_strlit("edges");
    reveal_strlit("exposures");
    reveal_strlit("functions");
    reveal_strlit("graph_nodes");
    reveal_strlit("groups");
    reveal_strlit("hooks");
    reveal_strlit("macros");
    reveal_strlit("metrics");
    reveal_strlit("models");
    reveal_strlit("node_columns");
    reveal_strlit("packages");
    reveal_strlit("project");
    reveal_strlit("project_env_vars");
    reveal_strlit("project_vars");
    reveal_strlit("saved_queries");
    reveal_strlit("seeds");
    reveal_strlit("semantic_dimensions");
    reveal_strlit("semantic_entities");
    reveal_strlit("semantic_measures");
    reveal_strlit("semantic_models");
    reveal_strlit("snapshots");
    reveal_strlit("sources");
    reveal_strlit("time_spines");
    reveal_strlit("unit_tests");
    assert("project"@.len() != "graph_nodes"@.len());
    assert("project"@.len() != "checks"@.len());
    assert("packages"@.len() != "graph_nodes"@.len());
    assert("packages"@.len() != "checks"@.len());
    assert("project_vars"@.len() != "graph_nodes"@.len());
    assert("project_vars"@.len() != "checks"@.len());
    assert("project_env_vars"@.len() != "graph_nodes"@.len());
    assert("project_env_vars"@.len() != "checks"@.len());
    assert("models"@.len() != "graph_nodes"@.len());
    assert("models"@[0] != "checks"@[0]);
    assert("seeds"@.len() != "graph_nodes"@.len());
    assert("seeds"@.len() != "checks"@.len());
    assert("snapshots"@.len() != "graph_nodes"@.len());
    assert("snapshots"@.len() != "checks"@.len());
    assert("functions"@.len() != "graph_nodes"@.len());
    assert("functions"@.len() != "checks"@.len());
    assert("analyses"@.len() != "graph_nodes"@.len());
    assert("analyses"@.len() != "checks"@.len());
    assert("hooks"@.len() != "graph_nodes"@.len());
    assert("hooks"@.len() != "checks"@.len());
    assert("sources"@.len() != "graph_nodes"@.len());
    assert("sources"@.len() != "checks"@.len());
    assert("data_tests"@.len() != "graph_nodes"@.len());
    assert("data_tests"@.len() != "checks"@.len());
    assert("unit_tests"@.len() != "graph_nodes"@.len());
    assert("unit_tests"@.len() != "checks"@.len());
    assert("macros"@.len() != "graph_nodes"@.len());
    assert("macros"@[0] != "checks"@[0]);
    assert("groups"@.len() != "graph_nodes"@.len());
    assert("groups"@[0] != "checks"@[0]);
    assert("exposures"@.len() != "graph_nodes"@.len());
    assert("exposures"@.len() != "checks"@.len());
    assert("metrics"@.len() != "graph_nodes"@.len());
    assert("metrics"@.len() != "checks"@.len());
    assert("docs_blocks"@[0] != "graph_nodes"@[0]);
    assert("docs_blocks"@.len() != "checks"@.len());
    assert("saved_queries"@.len() != "graph_nodes"@.len());
    assert("saved_queries"@.len() != "checks"@.len());
    assert("semantic_models"@.len() != "graph_nodes"@.len());
    assert("semantic_models"@.len() != "checks"@.len());
    assert("semantic_entities"@.len() != "graph_nodes"@.len());
    assert("semantic_entities"@.len() != "checks"@.len());
    assert("semantic_measures"@.len() != "graph_nodes"@.len());
    assert("semantic_measures"@.len() != "checks"@.len());
    assert("semantic_dimensions"@.len() != "graph_nodes"@.len());
    assert("semantic_dimensions"@.len() != "checks"@.len());
    assert("time_spines"@[0] != "graph_nodes"@[0]);
    assert("time_spines"@.len() != "checks"@.len());
    assert("dag_nodes"@.len() != "graph_nodes"@.len());
    assert("dag_nodes"@.len() != "checks"@.len());
    assert("edges"@.len() != "graph_nodes"@.len());
    assert("edges"@.len() != "checks"@.len());
    assert("node_columns"@.len() != "graph_nodes"@.len());
    assert("node_columns"@.len() != "checks"@.len());
    assert("project"@.len() != "dag_nodes"@.len());
    assert("packages"@.len() != "dag_nodes"@.len());
    assert("project_vars"@.len() != "dag_nodes"@.len());
    assert("project_env_vars"@.len() != "dag_nodes"@.len());
    assert("models"@.len() != "dag_nodes"@.len());
    assert("seeds"@.len() != "dag_nodes"@.len());
    assert("snapshots"@[0] != "dag_nodes"@[0]);
    assert("functions"@[0] != "dag_nodes"@[0]);
    assert("analyses"@.len() != "dag_nodes"@.len());
    assert("hooks"@.len() != "dag_nodes"@.len());
    assert("sources"@.len() != "dag_nodes"@.len());
    assert("data_tests"@.len() != "dag_nodes"@.len());
    assert("unit_tests"@.len() != "dag_nodes"@.len());
    assert("graph_nodes"@.len() != "dag_nodes"@.len());
    assert("checks"@.len() != "dag_nodes"@.len());
    assert("macros"@.len() != "dag_nodes"@.len());
    assert("groups"@.len() != "dag_nodes"@.len());
    assert("exposures"@[0] != "dag_nodes"@[0]);
    assert("metrics"@.len() != "dag_nodes"@.len());
    assert("docs_blocks"@.len() != "dag_nodes"@.len());
    assert("saved_queries"@.len() != "dag_nodes"@.len());
    assert("semantic_models"@.len() != "dag_nodes"@.len());
    assert("semantic_entities"@.len() != "dag_nodes"@.len());
    assert("semantic_measures"@.len() != "dag_nodes"@.len());
    assert("semantic_dimensions"@.len() != "dag_nodes"@.len());
    assert("time_spines"@.len() != "dag_nodes"@.len());
    assert("edges"@.len() != "dag_nodes"@.len());
    assert("node_columns"@.len() != "dag_nodes"@.len());
    let names = view_names();
    assert(names[24] == "dag_nodes"@);
    assert forall|j: int| 0 <= j < names.len() implies names[j] != "graph_nodes"@ && names[j] != "checks"@ by {
        if j == 0 {
            assert(names[0] == "project"@);
        } else if j == 1 {
            assert(names[1] == "packages"@);
        } else if j == 2 {
            assert(names[2] == "project_vars"@);
        } else if j == 3 {
            assert(names[3] == "project_env_vars"@);
        } else if j == 4 {
            assert(names[4] == "models"@);
        } else if j == 5 {
            assert(names[5] == "seeds"@);
        } else if j == 6 {
            assert(names[6] == "snapshots"@);
        } else if j == 7 {
            assert(names[7] == "functions"@);
        } else if j == 8 {
            assert(names[8] == "analyses"@);
        } else if j == 9 {
            assert(names[9] == "hooks"@);
        } else if j == 10 {
            assert(names[10] == "sources"@);
        } else if j == 11 {
            assert(names[11] == "data_tests"@);
        } else if j == 12 {
            assert(names[12] == "unit_tests"@);
        } else if j == 13 {
            assert(names[13] == "macros"@);
        } else if j == 14 {
            assert(names[14] == "groups"@);
        } else if j == 15 {
            assert(names[15] == "exposures"@);
        } else if j == 16 {
            assert(names[16] == "metrics"@);
        } else if j == 17 {
            assert(names[17] == "docs_blocks"@);
        } else if j == 18 {
            assert(names[18] == "saved_queries"@);
        } else if j == 19 {
            assert(names[19] == "semantic_models"@);
        } else if j == 20 {
            assert(names[20] == "semantic_entities"@);
        } else if j == 21 {
            assert(names[21] == "semantic_measures"@);
        } else if j == 22 {
            assert(names[22] == "semantic_dimensions"@);
        } else if j == 23 {
            assert(names[23] == "time_spines"@);
        } else if j == 24 {
            assert(names[24] == "dag_nodes"@);
        } else if j == 25 {
            assert(names[25] == "edges"@);
        } else if j == 26 {
            assert(names[26] == "node_columns"@);
        }
    }
    assert forall|i: int| 0 <= i < PARSE_SAFE_VIEWS@.len() implies PARSE_SAFE_VIEWS@[i]@ != "dag_nodes"@ by {
        if i == 0 {
            assert(PARSE_SAFE_VIEWS@[0]@ == "project"@);
        } else if i == 1 {
            assert(PARSE_SAFE_VIEWS@[1]@ == "packages"@);
        } else if i == 2 {
            assert(PARSE_SAFE_VIEWS@[2]@ == "project_vars"@);
        } else if i == 3 {
            assert(PARSE_SAFE_VIEWS@[3]@ == "project_env_vars"@);
        } else if i == 4 {
            assert(PARSE_SAFE_VIEWS@[4]@ == "models"@);
        } else if i == 5 {
            assert(PARSE_SAFE_VIEWS@[5]@ == "seeds"@);
        } else if i == 6 {
            assert(PARSE_SAFE_VIEWS@[6]@ == "snapshots"@);
        } else if i == 7 {
            assert(PARSE_SAFE_VIEWS@[7]@ == "functions"@);
        } else if i == 8 {
            assert(PARSE_SAFE_VIEWS@[8]@ == "analyses"@);
        } else if i == 9 {
            assert(PARSE_SAFE_VIEWS@[9]@ == "hooks"@);
        } else if i == 10 {
            assert(PARSE_SAFE_VIEWS@[10]@ == "sources"@);
        } else if i == 11 {
            assert(PARSE_SAFE_VIEWS@[11]@ == "data_tests"@);
        } else if i == 12 {
            assert(PARSE_SAFE_VIEWS@[12]@ == "unit_tests"@);
        } else if i == 13 {
            assert(PARSE_SAFE_VIEWS@[13]@ == "graph_nodes"@);
        } else if i == 14 {
            assert(PARSE_SAFE_VIEWS@[14]@ == "checks"@);
        } else if i == 15 {
            assert(PARSE_SAFE_VIEWS@[15]@ == "macros"@);
        } else if i == 16 {
            assert(PARSE_SAFE_VIEWS@[16]@ == "groups"@);
        } else if i == 17 {
            assert(PARSE_SAFE_VIEWS@[17]@ == "exposures"@);
        } else if i == 18 {
            assert(PARSE_SAFE_VIEWS@[18]@ == "metrics"@);
        } else if i == 19 {
            assert(PARSE_SAFE_VIEWS@[19]@ == "docs_blocks"@);
        } else if i == 20 {
            assert(PARSE_SAFE_VIEWS@[20]@ == "saved_queries"@);
        } else if i == 21 {
            assert(PARSE_SAFE_VIEWS@[21]@ == "semantic_models"@);
        } else if i == 22 {
            assert(PARSE_SAFE_VIEWS@[22]@ == "semantic_entities"@);
        } else if i == 23 {
            assert(PARSE_SAFE_VIEWS@[23]@ == "semantic_measures"@);
        } else if i == 24 {
            assert(PARSE_SAFE_VIEWS@[24]@ == "semantic_dimensions"@);
        } else if i == 25 {
            assert(PARSE_SAFE_VIEWS@[25]@ == "time_spines"@);
        } else if i == 26 {
            assert(PARSE_SAFE_VIEWS@[26]@ == "edges"@);
        } else if i == 27 {
            assert(PARSE_SAFE_VIEWS@[27]@ == "node_columns"@);
        }
    }
}

} // verus!
