//! Warehouse catalog statistics: each row the warehouse reported for a node
//! becomes a catalog table row, and one statistic row per measurement it
//! carries.

use vstd::prelude::*;
use crate::text::{decimal_i64, owned, signed_decimal};

verus! {

/// One row of a catalog statistics epoch.
#[derive(Debug)]
pub struct CatalogStatsRow {
    pub unique_id: Option<String>,
    pub table_type: Option<String>,
    pub table_owner: Option<String>,
    pub database_name: Option<String>,
    pub schema_name: Option<String>,
    pub table_name: Option<String>,
    pub row_count: Option<i64>,
    pub bytes: Option<i64>,
    pub last_modified: Option<String>,
}

/// A table as the warehouse catalog describes it.
#[derive(Debug)]
pub struct CatalogTable {
    pub unique_id: String,
    pub table_type: Option<String>,
    pub database_name: Option<String>,
    pub schema_name: Option<String>,
    pub table_name: Option<String>,
    pub table_owner: Option<String>,
}

/// One statistic of a table.
#[derive(Debug)]
pub struct CatalogStat {
    pub unique_id: String,
    pub stat_id: &'static str,
    pub stat_label: &'static str,
    pub stat_value: String,
    pub description: &'static str,
    pub include_in_stats: bool,
}

/// An optional text as a value.
pub open spec fn text_of(x: Option<String>) -> Option<Seq<char>> {
    match x {
        Some(s) => Some(s@),
        None => None,
    }
}

/// A catalog table as a value: id, type, database, schema, name, owner.
pub open spec fn table_view(t: CatalogTable) -> (Seq<char>, Option<Seq<char>>, Option<Seq<char>>, Option<Seq<char>>, Option<Seq<char>>, Option<Seq<char>>) {
    (t.unique_id@, text_of(t.table_type), text_of(t.database_name), text_of(t.schema_name), text_of(t.table_name), text_of(t.table_owner))
}

/// A statistic as a value: id, statistic, label, value, description.
pub open spec fn stat_view(s: CatalogStat) -> (Seq<char>, Seq<char>, Seq<char>, Seq<char>, Seq<char>, bool) {
    (s.unique_id@, s.stat_id@, s.stat_label@, s.stat_value@, s.description@, s.include_in_stats)
}

/// The catalog tables of rows, in order: one per row with an id.
pub open spec fn tables_of(rows: Seq<CatalogStatsRow>) -> Seq<(Seq<char>, Option<Seq<char>>, Option<Seq<char>>, Option<Seq<char>>, Option<Seq<char>>, Option<Seq<char>>)>
    decreases rows.len(),
{
    if rows.len() == 0 {
        Seq::empty()
    } else {
        let r = rows.last();
        let prev = tables_of(rows.drop_last());
        match r.unique_id {
            Some(id) => prev.push(
                (id@, text_of(r.table_type), text_of(r.database_name), text_of(r.schema_name), text_of(r.table_name), text_of(r.table_owner)),
            ),
            None => prev,
        }
    }
}

/// The row-count statistic of a row with id `id`, when it has one.
pub open spec fn row_count_stat(id: Seq<char>, r: CatalogStatsRow) -> Seq<(Seq<char>, Seq<char>, Seq<char>, Seq<char>, Seq<char>, bool)> {
    match r.row_count {
        Some(n) => seq![(id, "row_count"@, "Row Count"@, signed_decimal(n as int), "Row count from warehouse catalog"@, true)],
        None => Seq::empty(),
    }
}

/// The size statistic of a row with id `id`, when it has one.
pub open spec fn bytes_stat(id: Seq<char>, r: CatalogStatsRow) -> Seq<(Seq<char>, Seq<char>, Seq<char>, Seq<char>, Seq<char>, bool)> {
    match r.bytes {
        Some(n) => seq![(id, "bytes"@, "Bytes"@, signed_decimal(n as int), "Table size in bytes from warehouse catalog"@, true)],
        None => Seq::empty(),
    }
}

/// The last-modified statistic of a row with id `id`, when it has one.
pub open spec fn last_modified_stat(id: Seq<char>, r: CatalogStatsRow) -> Seq<(Seq<char>, Seq<char>, Seq<char>, Seq<char>, Seq<char>, bool)> {
    match r.last_modified {
        Some(t) => seq![(id, "last_modified"@, "Last Modified"@, t@, "Last modified timestamp from warehouse catalog"@, true)],
        None => Seq::empty(),
    }
}

/// The statistics one row with id `id` carries: its row count, its size in
/// bytes and its last modification, each when present, in that order.
pub open spec fn row_stats(id: Seq<char>, r: CatalogStatsRow) -> Seq<(Seq<char>, Seq<char>, Seq<char>, Seq<char>, Seq<char>, bool)> {
    row_count_stat(id, r) + bytes_stat(id, r) + last_modified_stat(id, r)
}

/// The statistics of rows, in order.
pub open spec fn stats_of(rows: Seq<CatalogStatsRow>) -> Seq<(Seq<char>, Seq<char>, Seq<char>, Seq<char>, Seq<char>, bool)>
    decreases rows.len(),
{
    if rows.len() == 0 {
        Seq::empty()
    } else {
        let r = rows.last();
        let prev = stats_of(rows.drop_last());
        match r.unique_id {
            Some(id) => prev + row_stats(id@, r),
            None => prev,
        }
    }
}

fn copy_text(x: &Option<String>) -> (r: Option<String>)
    ensures
        text_of(r) == text_of(*x),
{
    match x {
        Some(s) => Some(owned(s.as_str())),
        None => None,
    }
}

/// The catalog tables and the statistics of catalog statistics rows: a row
/// without an id is skipped; every other row gives one table, and one
/// statistic for each of its row count, size and last modification present.
pub fn catalog_rows(rows: &Vec<CatalogStatsRow>) -> (r: (Vec<CatalogTable>, Vec<CatalogStat>))
    ensures
        r.0@.map_values(|t: CatalogTable| table_view(t)) == tables_of(rows@),
        r.1@.map_values(|s: CatalogStat| stat_view(s)) == stats_of(rows@),
{
    let mut tables: Vec<CatalogTable> = Vec::new();
    let mut stats: Vec<CatalogStat> = Vec::new();
    let mut i: usize = 0;
    while i < rows.len()
        invariant
            i <= rows@.len(),
            tables@.map_values(|t: CatalogTable| table_view(t)) == tables_of(rows@.subrange(0, i as int)),
            stats@.map_values(|s: CatalogStat| stat_view(s)) == stats_of(rows@.subrange(0, i as int)),
        decreases rows@.len() - i,
    {
        let r = &rows[i];
        proof {
            assert(rows@.subrange(0, i + 1).drop_last() =~= rows@.subrange(0, i as int));
            assert(rows@.subrange(0, i + 1).last() == rows@[i as int]);
        }
        let ghost t0 = tables@;
        let ghost s0 = stats@;
        if let Some(id) = &r.unique_id {
            tables.push(CatalogTable {
                unique_id: owned(id.as_str()),
                table_type: copy_text(&r.table_type),
                database_name: copy_text(&r.database_name),
                schema_name: copy_text(&r.schema_name),
                table_name: copy_text(&r.table_name),
                table_owner: copy_text(&r.table_owner),
            });
            assert(tables@.map_values(|t: CatalogTable| table_view(t)) =~= t0.map_values(|t: CatalogTable| table_view(t)).push(
                (id@, text_of(r.table_type), text_of(r.database_name), text_of(r.schema_name), text_of(r.table_name), text_of(r.table_owner)),
            ));
            let ghost before = stats@;
            let mut added: Vec<CatalogStat> = Vec::new();
            if let Some(n) = r.row_count {
                added.push(CatalogStat {
                    unique_id: owned(id.as_str()),
                    stat_id: "row_count",
                    stat_label: "Row Count",
                    stat_value: decimal_i64(n),
                    description: "Row count from warehouse catalog",
                    include_in_stats: true,
                });
            }
            let ghost a1 = added@;
            if let Some(n) = r.bytes {
                added.push(CatalogStat {
                    unique_id: owned(id.as_str()),
                    stat_id: "bytes",
                    stat_label: "Bytes",
                    stat_value: decimal_i64(n),
                    description: "Table size in bytes from warehouse catalog",
                    include_in_stats: true,
                });
            }
            let ghost a2 = added@;
            if let Some(t) = &r.last_modified {
                added.push(CatalogStat {
                    unique_id: owned(id.as_str()),
                    stat_id: "last_modified",
                    stat_label: "Last Modified",
                    stat_value: owned(t.as_str()),
                    description: "Last modified timestamp from warehouse catalog",
                    include_in_stats: true,
                });
            }
            proof {
                let f = |s: CatalogStat| stat_view(s);
                assert(a1.map_values(f) =~= row_count_stat(id@, *r));
                assert(a2.map_values(f) =~= row_count_stat(id@, *r) + bytes_stat(id@, *r));
                assert(added@.map_values(f) =~= row_stats(id@, *r));
            }
            let ghost added_v = added@;
            stats.append(&mut added);
            assert(stats@.map_values(|s: CatalogStat| stat_view(s)) =~= before.map_values(|s: CatalogStat| stat_view(s))
                + added_v.map_values(|s: CatalogStat| stat_view(s)));
        }
        i += 1;
    }
    assert(rows@.subrange(0, rows@.len() as int) =~= rows@);
    (tables, stats)
}

/// Whether catalog table `t` is the table of source row `r`: the row has the
/// table's id, and each field of the table is the row's field of that name.
pub open spec fn table_of_row(
    t: (Seq<char>, Option<Seq<char>>, Option<Seq<char>>, Option<Seq<char>>, Option<Seq<char>>, Option<Seq<char>>),
    r: CatalogStatsRow,
) -> bool {
    &&& r.unique_id is Some && r.unique_id->0@ == t.0
    &&& t.1 == text_of(r.table_type)
    &&& t.2 == text_of(r.database_name)
    &&& t.3 == text_of(r.schema_name)
    &&& t.4 == text_of(r.table_name)
    &&& t.5 == text_of(r.table_owner)
}

/// Every catalog table comes from a source row with that id and carries that
/// row's fields, each in the field of the same name (its database in
/// `database_name`, its schema in `schema_name`, and so on); and every source
/// row with an id gives such a table.
pub proof fn catalog_tables_carry_their_row(rows: Seq<CatalogStatsRow>)
    ensures
        forall|k: int| #![trigger tables_of(rows)[k]] 0 <= k < tables_of(rows).len()
            ==> exists|i: int| 0 <= i < rows.len() && table_of_row(tables_of(rows)[k], #[trigger] rows[i]),
        forall|i: int| 0 <= i < rows.len() && (#[trigger] rows[i]).unique_id is Some
            ==> exists|k: int| 0 <= k < tables_of(rows).len() && table_of_row(#[trigger] tables_of(rows)[k], rows[i]),
    decreases rows.len(),
{
    if rows.len() > 0 {
        let prev = rows.drop_last();
        catalog_tables_carry_their_row(prev);
        let p = tables_of(prev);
        let t = tables_of(rows);
        let last = rows.len() - 1;
        assert(rows[last] == rows.last());
        assert forall|k: int| #![trigger t[k]] 0 <= k < t.len()
            implies exists|i: int| 0 <= i < rows.len() && table_of_row(t[k], #[trigger] rows[i]) by {
            if k < p.len() {
                assert(t[k] == p[k]);
                let i = choose|i: int| 0 <= i < prev.len() && table_of_row(p[k], #[trigger] prev[i]);
                assert(rows[i] == prev[i]);
            } else {
                assert(table_of_row(t[k], rows[last]));
            }
        }
        assert forall|i: int| 0 <= i < rows.len() && (#[trigger] rows[i]).unique_id is Some
            implies exists|k: int| 0 <= k < t.len() && table_of_row(#[trigger] t[k], rows[i]) by {
            if i < prev.len() {
                assert(prev[i] == rows[i]);
                let k = choose|k: int| 0 <= k < p.len() && table_of_row(#[trigger] p[k], prev[i]);
                assert(t[k] == p[k]);
            } else {
                assert(table_of_row(t[t.len() - 1], rows[i]));
            }
        }
    }
}

} // verus!
