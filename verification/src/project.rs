//! Projection of source tables into the information schema's shape, described
//! over plain values: the output schema of a table, which source rows a table
//! keeps, and how the two sides of a joined table pair up.
//!
//! Output types come from the source column, so a rename never changes a
//! column's type.

use vstd::prelude::*;
use crate::error::{IndexError, error_message};
use crate::index::{column_type, spec_column_type};
use crate::schema::{TableModel, model_of};
use crate::spec::{ColSpec, ColType, Filter, Src, TableSpec, col_ty_type, spec_qualified_name};
use crate::text::{contains_str, owned, slice_contains, str_eq, string_views};

verus! {

/// The type of the source column `col` behind a table's source, honouring join
/// side order: the left table first, the right only when the left lacks it.
pub open spec fn source_type(src: Src, col: Seq<char>) -> Option<ColType> {
    match src {
        Src::Table(t) => spec_column_type(t@, col),
        Src::Join { left, right, .. } => match spec_column_type(left@, col) {
            Some(ty) => Some(ty),
            None => spec_column_type(right@, col),
        },
        Src::Own => None,
    }
}

/// Why an output column has no type.
pub open spec fn no_source_msg(m: TableModel, c: ColSpec) -> Seq<char> {
    "info schema: "@ + spec_qualified_name(m.ns, m.name@) + " column '"@ + c.out@ + "' has no source column '"@
        + c.src@ + "'"@
}

/// The output fields of the columns `cols` of table `m`, in order: declared
/// columns with their declared type, sourced ones with their source's type; or
/// the message of the first sourced column that has no source.
pub open spec fn out_fields(m: TableModel, cols: Seq<ColSpec>) -> Result<Seq<(&'static str, ColType)>, Seq<char>>
    decreases cols.len(),
{
    if cols.len() == 0 {
        Ok(Seq::empty())
    } else {
        match out_fields(m, cols.drop_last()) {
            Err(e) => Err(e),
            Ok(fs) => {
                let c = cols.last();
                match c.ty {
                    Some(ty) => Ok(fs.push((c.out, col_ty_type(ty)))),
                    None => match source_type(m.src, c.src@) {
                        Some(t) => Ok(fs.push((c.out, t))),
                        None => Err(no_source_msg(m, c)),
                    },
                }
            },
        }
    }
}

/// The output schema of a table.
pub open spec fn spec_out_schema(m: TableModel) -> Result<Seq<(&'static str, ColType)>, Seq<char>> {
    out_fields(m, m.cols)
}

/// A schema has one field per column, named as the column is.
pub proof fn lemma_out_fields_shape(m: TableModel, cols: Seq<ColSpec>)
    requires
        out_fields(m, cols) is Ok,
    ensures
        out_fields(m, cols)->Ok_0.len() == cols.len(),
        forall|i: int| 0 <= i < cols.len() ==> (#[trigger] out_fields(m, cols)->Ok_0[i]).0 == cols[i].out,
    decreases cols.len(),
{
    if cols.len() > 0 {
        lemma_out_fields_shape(m, cols.drop_last());
    }
}

/// An error in a prefix of the columns is the error of the whole schema.
proof fn lemma_out_fields_err(m: TableModel, cols: Seq<ColSpec>, k: int)
    requires
        0 <= k <= cols.len(),
        out_fields(m, cols.subrange(0, k)) is Err,
    ensures
        out_fields(m, cols) == out_fields(m, cols.subrange(0, k)),
    decreases cols.len(),
{
    if k == cols.len() {
        assert(cols.subrange(0, k) =~= cols);
    } else {
        assert(cols.drop_last().subrange(0, k) =~= cols.subrange(0, k));
        lemma_out_fields_err(m, cols.drop_last(), k);
    }
}

/// The type of the source column `col` behind `src`.
fn source_field(src: Src, col: &str) -> (r: Option<ColType>)
    ensures
        r == source_type(src, col@),
{
    match src {
        Src::Table(t) => column_type(t, col),
        Src::Join { left, right, .. } => match column_type(left, col) {
            Some(ty) => Some(ty),
            None => column_type(right, col),
        },
        Src::Own => None,
    }
}

/// The output schema of a table, as `(name, type)` per column. Pure: it is the
/// same whether or not the source table was ever written. Every output column
/// is nullable.
pub fn out_schema(spec: &TableSpec) -> (r: Result<Vec<(&'static str, ColType)>, IndexError>)
    ensures
        match spec_out_schema(model_of(*spec)) {
            Ok(fs) => r is Ok && r->Ok_0@ == fs,
            Err(m) => r is Err && error_message(r->Err_0) == m,
        },
{
    let ghost m = model_of(*spec);
    let mut fields: Vec<(&'static str, ColType)> = Vec::new();
    let mut i: usize = 0;
    assert(spec.cols@.subrange(0, 0) =~= Seq::<ColSpec>::empty());
    while i < spec.cols.len()
        invariant
            i <= spec.cols@.len(),
            m == model_of(*spec),
            out_fields(m, spec.cols@.subrange(0, i as int)) == Ok::<Seq<(&'static str, ColType)>, Seq<char>>(fields@),
        decreases spec.cols@.len() - i,
    {
        let col = spec.cols[i];
        assert(spec.cols@.subrange(0, i + 1).drop_last() =~= spec.cols@.subrange(0, i as int));
        assert(spec.cols@.subrange(0, i + 1).last() == col);
        match col.ty {
            Some(ty) => {
                fields.push((col.out, ty.data_type()));
            },
            None => match source_field(spec.src, col.src) {
                Some(t) => {
                    fields.push((col.out, t));
                },
                None => {
                    let mut msg = owned("info schema: ");
                    msg.append(spec.qualified_name().as_str());
                    msg.append(" column '");
                    msg.append(col.out);
                    msg.append("' has no source column '");
                    msg.append(col.src);
                    msg.append("'");
                    proof { lemma_out_fields_err(m, spec.cols@, i + 1); }
                    return Err(IndexError::Other(msg));
                },
            },
        }
        i += 1;
    }
    assert(spec.cols@.subrange(0, spec.cols@.len() as int) =~= spec.cols@);
    Ok(fields)
}

/// The first position of `name` in `names` at or after `i`.
pub open spec fn first_index_from(names: Seq<Seq<char>>, name: Seq<char>, i: int) -> Option<int>
    decreases names.len() - i,
{
    if i < 0 || i >= names.len() {
        None
    } else if names[i] == name {
        Some(i)
    } else {
        first_index_from(names, name, i + 1)
    }
}

/// The first position of `name` in `names`, as a schema looks a field up.
pub open spec fn first_index(names: Seq<Seq<char>>, name: Seq<char>) -> Option<int> {
    first_index_from(names, name, 0)
}

/// The last position of `name` among the first `n` of `names`.
pub open spec fn last_index_upto(names: Seq<Seq<char>>, name: Seq<char>, n: int) -> Option<int>
    decreases n,
{
    if n <= 0 || n > names.len() {
        None
    } else if names[n - 1] == name {
        Some(n - 1)
    } else {
        last_index_upto(names, name, n - 1)
    }
}

/// The last position of `name` in `names`, as a map filled field by field
/// keeps it.
pub open spec fn last_index(names: Seq<Seq<char>>, name: Seq<char>) -> Option<int> {
    last_index_upto(names, name, names.len() as int)
}

/// An optional position as an integer.
pub open spec fn opt_int(x: Option<usize>) -> Option<int> {
    match x {
        Some(i) => Some(i as int),
        None => None,
    }
}

fn first_position(names: &Vec<String>, name: &str) -> (r: Option<usize>)
    ensures
        opt_int(r) == first_index(string_views(names@), name@),
{
    let ghost ns = string_views(names@);
    let mut i: usize = 0;
    while i < names.len()
        invariant
            ns == string_views(names@),
            i <= names@.len(),
            first_index(ns, name@) == first_index_from(ns, name@, i as int),
        decreases names@.len() - i,
    {
        if str_eq(names[i].as_str(), name) {
            assert(ns[i as int] == name@);
            return Some(i);
        }
        assert(ns[i as int] != name@);
        i += 1;
    }
    None
}

fn last_position(names: &Vec<String>, name: &str) -> (r: Option<usize>)
    ensures
        opt_int(r) == last_index(string_views(names@), name@),
{
    let ghost ns = string_views(names@);
    let mut n: usize = names.len();
    while n > 0
        invariant
            ns == string_views(names@),
            n <= names@.len(),
            last_index(ns, name@) == last_index_upto(ns, name@, n as int),
        decreases n,
    {
        if str_eq(names[n - 1].as_str(), name) {
            assert(ns[n - 1] == name@);
            return Some(n - 1);
        }
        assert(ns[n - 1] != name@);
        n -= 1;
    }
    None
}

/// Where each output column of a single-table projection comes from: a null
/// column for a typed column or a source that predates the column, else the
/// position of the source column in the batch.
pub open spec fn table_column_plan(cols: Seq<ColSpec>, source: Seq<Seq<char>>) -> Seq<Option<int>> {
    Seq::new(cols.len(), |k: int| if cols[k].ty is Some { None } else { first_index(source, cols[k].src@) })
}

/// Where each output column of a single-table projection comes from, given
/// the names of the source batch's columns: `None` for a null column.
pub fn table_plan(spec: &TableSpec, source_columns: &Vec<String>) -> (r: Vec<Option<usize>>)
    ensures
        r@.len() == spec.cols@.len(),
        forall|k: int| 0 <= k < r@.len() ==> opt_int(#[trigger] r@[k]) == table_column_plan(spec.cols@, string_views(source_columns@))[k],
{
    let mut out: Vec<Option<usize>> = Vec::new();
    let mut k: usize = 0;
    while k < spec.cols.len()
        invariant
            k <= spec.cols@.len(),
            out@.len() == k,
            forall|q: int| 0 <= q < k ==> opt_int(#[trigger] out@[q]) == table_column_plan(spec.cols@, string_views(source_columns@))[q],
        decreases spec.cols@.len() - k,
    {
        let col = spec.cols[k];
        let at = match col.ty {
            Some(_) => None,
            None => first_position(source_columns, col.src),
        };
        out.push(at);
        k += 1;
    }
    out
}

/// Where one output column of a joined table comes from.
#[derive(Debug, Clone, Copy, PartialEq, Eq, Structural)]
pub enum JoinColumn {
    /// A null column.
    Null,
    /// The left column at this position.
    Left(usize),
    /// The right column at this position, taken row by row.
    Right(usize),
}

/// Where output column `col` of a join comes from: a typed column is null; the
/// left side wins; the right side supplies a column only when it has rows.
pub open spec fn join_column(col: ColSpec, left: Seq<Seq<char>>, right: Seq<Seq<char>>, right_has_rows: bool) -> JoinColumn {
    if col.ty is Some {
        JoinColumn::Null
    } else {
        match first_index(left, col.src@) {
            Some(i) => JoinColumn::Left(i as usize),
            None => if right_has_rows {
                match last_index(right, col.src@) {
                    Some(j) => JoinColumn::Right(j as usize),
                    None => JoinColumn::Null,
                }
            } else {
                JoinColumn::Null
            },
        }
    }
}

/// Where each output column of a joined table comes from, given the column
/// names of both sides and whether the right side has any rows.
pub fn join_plan(spec: &TableSpec, left_columns: &Vec<String>, right_columns: &Vec<String>, right_has_rows: bool) -> (r: Vec<JoinColumn>)
    ensures
        r@.len() == spec.cols@.len(),
        forall|k: int| 0 <= k < r@.len() ==> #[trigger] r@[k] == join_column(spec.cols@[k], string_views(left_columns@), string_views(right_columns@), right_has_rows),
{
    let mut out: Vec<JoinColumn> = Vec::new();
    let mut k: usize = 0;
    while k < spec.cols.len()
        invariant
            k <= spec.cols@.len(),
            out@.len() == k,
            forall|q: int| 0 <= q < k ==> #[trigger] out@[q] == join_column(spec.cols@[q], string_views(left_columns@), string_views(right_columns@), right_has_rows),
        decreases spec.cols@.len() - k,
    {
        let col = spec.cols[k];
        let c = match col.ty {
            Some(_) => JoinColumn::Null,
            None => match first_position(left_columns, col.src) {
                Some(i) => JoinColumn::Left(i),
                None => if right_has_rows {
                    match last_position(right_columns, col.src) {
                        Some(j) => JoinColumn::Right(j),
                        None => JoinColumn::Null,
                    }
                } else {
                    JoinColumn::Null
                },
            },
        };
        out.push(c);
        k += 1;
    }
    out
}

/// Whether a row with this `resource_type` passes a resource-type filter.
pub open spec fn resource_type_kept(types: Seq<&'static str>, rt: Option<String>) -> bool {
    rt is Some && contains_str(types, rt->0@)
}

/// The row mask of a table's filter over a batch whose `resource_type` column
/// is `resource_type` (`None` when the batch has no such text column). `None`
/// means keep every row: the table has no filter, or there is nothing to
/// filter on.
pub fn filter_mask(spec: &TableSpec, resource_type: Option<&Vec<Option<String>>>) -> (r: Option<Vec<bool>>)
    ensures
        match (spec.filter, resource_type) {
            (Filter::ResourceTypeIn(types), Some(col)) => r is Some && r->0@.len() == col@.len() && forall|i: int|
                0 <= i < col@.len() ==> #[trigger] r->0@[i] == resource_type_kept(types@, col@[i]),
            _ => r is None,
        },
{
    let types = match spec.filter {
        Filter::All => return None,
        Filter::ResourceTypeIn(types) => types,
    };
    let col = match resource_type {
        Some(c) => c,
        None => return None,
    };
    let mut keep: Vec<bool> = Vec::new();
    let mut i: usize = 0;
    while i < col.len()
        invariant
            spec.filter == Filter::ResourceTypeIn(types),
            i <= col@.len(),
            keep@.len() == i,
            forall|q: int| 0 <= q < i ==> #[trigger] keep@[q] == resource_type_kept(types@, col@[q]),
        decreases col@.len() - i,
    {
        let k = match &col[i] {
            Some(v) => slice_contains(types, v.as_str()),
            None => false,
        };
        keep.push(k);
        i += 1;
    }
    Some(keep)
}

/// The last right row whose key is `key`, among the first `n`.
pub open spec fn last_key_upto(keys: Seq<Option<String>>, key: Seq<char>, n: int) -> Option<int>
    decreases n,
{
    if n <= 0 || n > keys.len() {
        None
    } else if keys[n - 1] is Some && keys[n - 1]->0@ == key {
        Some(n - 1)
    } else {
        last_key_upto(keys, key, n - 1)
    }
}

/// The right row a left row joins to: the last right row with its key, later
/// rows winning; none for a null key, or when either side has no key column.
pub open spec fn join_match(left_key: Option<Option<String>>, right_keys: Option<Seq<Option<String>>>) -> Option<int> {
    match (left_key, right_keys) {
        (Some(Some(k)), Some(rk)) => last_key_upto(rk, k@, rk.len() as int),
        _ => None,
    }
}

fn last_key(keys: &Vec<Option<String>>, key: &str) -> (r: Option<usize>)
    ensures
        opt_int(r) == last_key_upto(keys@, key@, keys@.len() as int),
        r matches Some(j) ==> j < keys@.len(),
{
    let mut n: usize = keys.len();
    while n > 0
        invariant
            n <= keys@.len(),
            last_key_upto(keys@, key@, keys@.len() as int) == last_key_upto(keys@, key@, n as int),
        decreases n,
    {
        match &keys[n - 1] {
            Some(k) => {
                if str_eq(k.as_str(), key) {
                    return Some(n - 1);
                }
            },
            None => {},
        }
        n -= 1;
    }
    None
}

/// An optional row number as an integer.
pub open spec fn u32_index(x: Option<u32>) -> Option<int> {
    match x {
        Some(j) => Some(j as int),
        None => None,
    }
}

/// A key column as values.
pub open spec fn key_column(k: Option<&Vec<Option<String>>>) -> Option<Seq<Option<String>>> {
    match k {
        Some(v) => Some(v@),
        None => None,
    }
}

/// The key of left row `i`, when the left side has a key column.
pub open spec fn left_key_at(k: Option<Seq<Option<String>>>, i: int) -> Option<Option<String>> {
    match k {
        Some(v) => Some(v[i]),
        None => None,
    }
}

/// Per left row, the right row it joins to, or `None` when it has no match
/// and is kept with the right-hand columns null. `left_keys` and `right_keys`
/// are the key columns, `None` when a side has no such text column.
pub fn join_take_indices(left_rows: usize, left_keys: Option<&Vec<Option<String>>>, right_keys: Option<&Vec<Option<String>>>) -> (r: Vec<Option<u32>>)
    requires
        left_keys matches Some(k) ==> k@.len() == left_rows,
        right_keys matches Some(k) ==> k@.len() <= u32::MAX + 1,
    ensures
        r@.len() == left_rows,
        forall|i: int| 0 <= i < left_rows ==> u32_index(#[trigger] r@[i]) == join_match(left_key_at(key_column(left_keys), i), key_column(right_keys)),
{
    let mut out: Vec<Option<u32>> = Vec::new();
    let mut i: usize = 0;
    while i < left_rows
        invariant
            left_keys matches Some(k) ==> k@.len() == left_rows,
            right_keys matches Some(k) ==> k@.len() <= u32::MAX + 1,
            i <= left_rows,
            out@.len() == i,
            forall|q: int| 0 <= q < i ==> u32_index(#[trigger] out@[q]) == join_match(left_key_at(key_column(left_keys), q), key_column(right_keys)),
        decreases left_rows - i,
    {
        let m: Option<u32> = match (left_keys, right_keys) {
            (Some(lk), Some(rk)) => match &lk[i] {
                Some(key) => match last_key(rk, key.as_str()) {
                    Some(j) => {
                        assert(j < rk@.len());
                        Some(j as u32)
                    },
                    None => None,
                },
                None => None,
            },
            _ => None,
        };
        out.push(m);
        i += 1;
    }
    out
}

} // verus!
