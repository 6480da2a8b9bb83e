//! `views.sql` generation, driven off the information schema so a table cannot
//! be added without its view.

use vstd::prelude::*;
use crate::schema::{TableModel, info_schema, info_schema_model, model_of};
use crate::spec::{Ns, ns_prefix, spec_file_name, spec_qualified_name};
use crate::text::owned;

verus! {

/// The file's opening comment.
pub const VIEWS_HEADER: &'static str = "-- dbt information schema. Generated; do not edit.\n--\n-- Query with:\n--   duckdb -cmd \".read views.sql\"\n--\n-- Objects in dbt_internal are not part of the public contract and may\n-- change without notice.\n\n";

/// The one derived view worth shipping: the latest result per node.
/// Compile-only error rows (`status = 'error'` with no execution time) record a
/// failed compile, not a node execution, and are excluded.
pub const RUN_RESULTS_LATEST: &'static str = "\nCREATE OR REPLACE VIEW dbt_rt.run_results_latest AS\nSELECT * FROM dbt_rt.run_results\nWHERE NOT (status = 'error' AND execution_time = 0)\nQUALIFY ROW_NUMBER() OVER (PARTITION BY unique_id ORDER BY created_at DESC) = 1;\n";

/// The view over one table's parquet file.
pub open spec fn table_view_line(m: TableModel) -> Seq<char> {
    "CREATE OR REPLACE VIEW "@ + spec_qualified_name(m.ns, m.name@) + " AS SELECT * FROM read_parquet('"@
        + spec_file_name(m.ns, m.name@) + "');\n"@
}

/// The views of the tables of `ms` in namespace `ns`, in schema order.
pub open spec fn ns_view_lines(ms: Seq<TableModel>, ns: Ns) -> Seq<char>
    decreases ms.len(),
{
    if ms.len() == 0 {
        Seq::empty()
    } else if ms.last().ns == ns {
        ns_view_lines(ms.drop_last(), ns) + table_view_line(ms.last())
    } else {
        ns_view_lines(ms.drop_last(), ns)
    }
}

/// The schema statement of a namespace.
pub open spec fn schema_line(ns: Ns) -> Seq<char> {
    "CREATE SCHEMA IF NOT EXISTS "@ + ns_prefix(ns) + ";\n"@
}

/// The whole of `views.sql`: the schemas, then each namespace's views in
/// publication order, then the derived view.
pub open spec fn views_sql_spec() -> Seq<char> {
    let ms = info_schema_model();
    VIEWS_HEADER@ + schema_line(Ns::Dbt) + schema_line(Ns::DbtRt) + schema_line(Ns::DbtInternal) + "\n"@
        + ns_view_lines(ms, Ns::Dbt) + "\n"@ + ns_view_lines(ms, Ns::DbtRt) + "\n"@ + ns_view_lines(ms, Ns::DbtInternal)
        + "\n"@ + RUN_RESULTS_LATEST@
}

/// The views of one namespace's tables.
fn ns_views(ns: Ns) -> (r: String)
    ensures
        r@ == ns_view_lines(info_schema_model(), ns),
{
    let all = info_schema();
    let ghost ms = info_schema_model();
    let mut s = String::new();
    let mut i: usize = 0;
    while i < all.len()
        invariant
            i <= all@.len(),
            ms == info_schema_model(),
            all@.len() == ms.len(),
            forall|k: int| 0 <= k < all@.len() ==> model_of(#[trigger] all@[k]) == ms[k],
            s@ == ns_view_lines(ms.subrange(0, i as int), ns),
        decreases all@.len() - i,
    {
        assert(model_of(all@[i as int]) == ms[i as int]);
        assert(ms.subrange(0, i + 1).drop_last() =~= ms.subrange(0, i as int));
        assert(ms.subrange(0, i + 1).last() == ms[i as int]);
        if all[i].ns == ns {
            s.append("CREATE OR REPLACE VIEW ");
            s.append(all[i].qualified_name().as_str());
            s.append(" AS SELECT * FROM read_parquet('");
            s.append(all[i].file_name().as_str());
            s.append("');\n");
        }
        i += 1;
    }
    assert(ms.subrange(0, ms.len() as int) =~= ms);
    s
}

fn schema_statement(ns: Ns) -> (r: String)
    ensures
        r@ == schema_line(ns),
{
    let mut s = owned("CREATE SCHEMA IF NOT EXISTS ");
    s.append(ns.prefix());
    s.append(";\n");
    s
}

/// The contents of `views.sql`, written next to the parquet files.
pub fn views_sql() -> (r: String)
    ensures
        r@ == views_sql_spec(),
{
    let mut s = owned(VIEWS_HEADER);
    s.append(schema_statement(Ns::Dbt).as_str());
    s.append(schema_statement(Ns::DbtRt).as_str());
    s.append(schema_statement(Ns::DbtInternal).as_str());
    s.append("\n");
    s.append(ns_views(Ns::Dbt).as_str());
    s.append("\n");
    s.append(ns_views(Ns::DbtRt).as_str());
    s.append("\n");
    s.append(ns_views(Ns::DbtInternal).as_str());
    s.append("\n");
    s.append(RUN_RESULTS_LATEST);
    s
}

} // verus!
