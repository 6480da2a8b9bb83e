//! Generator for the information schema as views straight over the epoch files,
//! with no materialization step.
//!
//! The SQL it produces declares the same schema names, table names, column
//! names and column order as `views.sql`; the difference is only where the rows
//! come from. `views.sql` reads the parquet snapshot beside it; this reads the
//! epoch files live, so a query sees the state of the last invocation without a
//! conversion having run.
//!
//! Tables whose staging columns are not fully mapped in [`crate::epoch`] are
//! skipped rather than half-emitted: a partially mapped table would publish
//! silently-null columns, the exact failure the mapping exists to prevent.

use vstd::prelude::*;
use crate::epoch::{
    BASE, ELEM, ELEM_REL, EpochExpr, EpochJoin, EpochRelation, JOINED, Origin, Unnest, col_owner, epoch_expr,
    epoch_relations, epoch_relations_model, origin, origin_of, owning_table, spec_epoch_expr,
};
use crate::error::{IndexError, error_message};
use crate::info::{version_string, version_text};
use crate::order::{lemma_sorted_unique, sorted_distinct, strictly_sorted, views};
use crate::project::{lemma_out_fields_shape, out_schema, spec_out_schema};
use crate::schema::{TableModel, dag_resource_types, dag_resource_types_model, info_schema, info_schema_model, model_of};
use crate::spec::{ColSpec, ColType, Filter, Ns, Src, TableSpec, ns_prefix, spec_qualified_name};
use crate::text::{
    contains_str, join, join_seq, literal_list, lookup, lookup_entry, owned, quote, quoted, slice_contains,
    sql_literals, str_eq,
    string_views,
};

verus! {

/// The database type of a stored column type, for the casts every generated
/// column carries.
pub open spec fn duckdb_type_sql(ty: ColType) -> Seq<char> {
    match ty {
        ColType::Utf8 => "VARCHAR"@,
        ColType::Boolean => "BOOLEAN"@,
        ColType::Int32 => "INTEGER"@,
        ColType::Int64 => "BIGINT"@,
        ColType::Float64 => "DOUBLE"@,
        ColType::TimestampUtc => "TIMESTAMP WITH TIME ZONE"@,
        ColType::ListUtf8 => "VARCHAR[]"@,
    }
}

/// The database type of a stored column type.
pub fn duckdb_type(ty: ColType) -> (r: String)
    ensures
        r@ == duckdb_type_sql(ty),
{
    match ty {
        ColType::Utf8 => owned("VARCHAR"),
        ColType::Boolean => owned("BOOLEAN"),
        ColType::Int32 => owned("INTEGER"),
        ColType::Int64 => owned("BIGINT"),
        ColType::Float64 => owned("DOUBLE"),
        ColType::TimestampUtc => owned("TIMESTAMP WITH TIME ZONE"),
        ColType::ListUtf8 => owned("VARCHAR[]"),
    }
}

/// One cast extraction per path, for a first-non-null chain: the text read at
/// `prefix` followed by the path, cast to `ty`.
pub open spec fn first_args(prefix: Seq<char>, paths: Seq<&'static str>, ty: Seq<char>) -> Seq<Seq<char>> {
    Seq::new(paths.len(), |i: int| "CAST("@ + prefix + paths[i]@ + "') AS "@ + ty + ")"@)
}

/// `json_extract_string(t.payload, '$.`: the payload read every payload path
/// goes through.
pub open spec fn payload_text() -> Seq<char> {
    "json_extract_string("@ + BASE@ + ".payload, '$."@
}

/// `json_extract_string(u.e, '$.`: the element read every element path goes
/// through.
pub open spec fn elem_text() -> Seq<char> {
    "json_extract_string("@ + ELEM@ + ", '$."@
}

/// The SQL an expression computes, before the cast; `out` is the output
/// column's name and `ty` its database type.
pub open spec fn expr_body(e: EpochExpr, out: Seq<char>, ty: Seq<char>) -> Seq<char> {
    match e {
        EpochExpr::Same => BASE@ + "."@ + quoted(out),
        EpochExpr::Col(c) => BASE@ + "."@ + quoted(c@),
        EpochExpr::Json(p) => payload_text() + p@ + "')"@,
        EpochExpr::JsonRaw(p) => "json_extract("@ + BASE@ + ".payload, '$."@ + p@ + "')"@,
        EpochExpr::JsonOr(p, d) => "COALESCE(CAST("@ + payload_text() + p@ + "') AS "@ + ty + "), "@ + d@ + ")"@,
        EpochExpr::JsonFirst(ps, d) => "COALESCE("@ + join_seq(first_args(payload_text(), ps@, ty).push(d@), ", "@) + ")"@,
        EpochExpr::JsonList(p) => "COALESCE("@ + payload_text() + p@ + "[*]'), [])"@,
        EpochExpr::TrimmedJson(p) => "CASE WHEN "@ + BASE@ + ".resource_type = 'model' THEN NULL ELSE "@ + payload_text()
            + p@ + "') END"@,
        EpochExpr::TrimmedJsonRaw(p) => "CASE WHEN "@ + BASE@ + ".resource_type = 'model' THEN NULL ELSE json_extract("@
            + BASE@ + ".payload, '$."@ + p@ + "') END"@,
        EpochExpr::Elem => ELEM@,
        EpochExpr::ElemJson(p) => elem_text() + p@ + "')"@,
        EpochExpr::ElemJsonRaw(p) => "json_extract("@ + ELEM@ + ", '$."@ + p@ + "')"@,
        EpochExpr::ElemJsonFirst(ps, d) => "COALESCE("@ + join_seq(first_args(elem_text(), ps@, ty).push(d@), ", "@) + ")"@,
        EpochExpr::JoinCol(c) => JOINED@ + "."@ + quoted(c@),
        EpochExpr::JoinJsonList(c) => "COALESCE(json_extract_string("@ + JOINED@ + "."@ + quoted(c@) + ", '$[*]'), [])"@,
        EpochExpr::Sql(s) => s@,
        EpochExpr::SqlJson(s) => s@,
        EpochExpr::Null => "NULL"@,
        EpochExpr::EmptyList => "[]"@,
        EpochExpr::True => "TRUE"@,
    }
}

/// One output column: the expression, null outside `guard` when there is one,
/// cast to the declared type and named.
pub open spec fn column_sql_spec(e: EpochExpr, out: Seq<char>, ty: ColType, guard: Option<&'static str>) -> Seq<char> {
    let t = duckdb_type_sql(ty);
    let body = expr_body(e, out, t);
    let body = match guard {
        Some(g) => "CASE WHEN "@ + g@ + " THEN "@ + body + " END"@,
        None => body,
    };
    "CAST("@ + body + " AS "@ + t + ") AS "@ + quoted(out)
}

fn payload_prefix() -> (r: String)
    ensures
        r@ == payload_text(),
{
    let mut s = owned("json_extract_string(");
    s.append(BASE);
    s.append(".payload, '$.");
    s
}

fn elem_prefix() -> (r: String)
    ensures
        r@ == elem_text(),
{
    let mut s = owned("json_extract_string(");
    s.append(ELEM);
    s.append(", '$.");
    s
}

/// `COALESCE(<cast extraction per path>, <fallback>)`.
fn first_non_null(prefix: &str, paths: &[&'static str], ty: &str, fallback: &str) -> (r: String)
    ensures
        r@ == "COALESCE("@ + join_seq(first_args(prefix@, paths@, ty@).push(fallback@), ", "@) + ")"@,
{
    let mut args: Vec<String> = Vec::new();
    let mut i: usize = 0;
    while i < paths.len()
        invariant
            i <= paths@.len(),
            args@.len() == i,
            forall|k: int| 0 <= k < i ==> #[trigger] args@[k]@ == first_args(prefix@, paths@, ty@)[k],
        decreases paths@.len() - i,
    {
        let mut a = owned("CAST(");
        a.append(prefix);
        a.append(paths[i]);
        a.append("') AS ");
        a.append(ty);
        a.append(")");
        args.push(a);
        i += 1;
    }
    args.push(owned(fallback));
    assert(string_views(args@) =~= first_args(prefix@, paths@, ty@).push(fallback@));
    let mut s = owned("COALESCE(");
    s.append(join(&args, ", ").as_str());
    s.append(")");
    s
}

/// The SQL an expression computes, before the cast.
fn expr_sql(e: EpochExpr, out: &str, ty: &str) -> (r: String)
    ensures
        r@ == expr_body(e, out@, ty@),
{
    match e {
        EpochExpr::Same => {
            let mut s = owned(BASE);
            s.append(".");
            s.append(quote(out).as_str());
            s
        },
        EpochExpr::Col(c) => {
            let mut s = owned(BASE);
            s.append(".");
            s.append(quote(c).as_str());
            s
        },
        EpochExpr::Json(p) => {
            let mut s = payload_prefix();
            s.append(p);
            s.append("')");
            s
        },
        EpochExpr::JsonRaw(p) => {
            let mut s = owned("json_extract(");
            s.append(BASE);
            s.append(".payload, '$.");
            s.append(p);
            s.append("')");
            s
        },
        EpochExpr::JsonOr(p, d) => {
            let mut s = owned("COALESCE(CAST(");
            s.append(payload_prefix().as_str());
            s.append(p);
            s.append("') AS ");
            s.append(ty);
            s.append("), ");
            s.append(d);
            s.append(")");
            s
        },
        EpochExpr::JsonFirst(ps, d) => first_non_null(payload_prefix().as_str(), ps, ty, d),
        EpochExpr::JsonList(p) => {
            let mut s = owned("COALESCE(");
            s.append(payload_prefix().as_str());
            s.append(p);
            s.append("[*]'), [])");
            s
        },
        EpochExpr::TrimmedJson(p) => {
            let mut s = owned("CASE WHEN ");
            s.append(BASE);
            s.append(".resource_type = 'model' THEN NULL ELSE ");
            s.append(payload_prefix().as_str());
            s.append(p);
            s.append("') END");
            s
        },
        EpochExpr::TrimmedJsonRaw(p) => {
            let mut s = owned("CASE WHEN ");
            s.append(BASE);
            s.append(".resource_type = 'model' THEN NULL ELSE json_extract(");
            s.append(BASE);
            s.append(".payload, '$.");
            s.append(p);
            s.append("') END");
            s
        },
        EpochExpr::Elem => owned(ELEM),
        EpochExpr::ElemJson(p) => {
            let mut s = elem_prefix();
            s.append(p);
            s.append("')");
            s
        },
        EpochExpr::ElemJsonRaw(p) => {
            let mut s = owned("json_extract(");
            s.append(ELEM);
            s.append(", '$.");
            s.append(p);
            s.append("')");
            s
        },
        EpochExpr::ElemJsonFirst(ps, d) => first_non_null(elem_prefix().as_str(), ps, ty, d),
        EpochExpr::JoinCol(c) => {
            let mut s = owned(JOINED);
            s.append(".");
            s.append(quote(c).as_str());
            s
        },
        EpochExpr::JoinJsonList(c) => {
            let mut s = owned("COALESCE(json_extract_string(");
            s.append(JOINED);
            s.append(".");
            s.append(quote(c).as_str());
            s.append(", '$[*]'), [])");
            s
        },
        EpochExpr::Sql(sql) => owned(sql),
        EpochExpr::SqlJson(sql) => owned(sql),
        EpochExpr::Null => owned("NULL"),
        EpochExpr::EmptyList => owned("[]"),
        EpochExpr::True => owned("TRUE"),
    }
}

/// SQL for one output column, given the staging column it reads.
///
/// Always cast, never inferred: the declared type is the contract, while the
/// epoch parquet's own type is a detail of whichever writer produced it, and
/// the two do differ. `guard` is a row predicate the column is null outside of.
pub fn column_sql(expr: EpochExpr, out_name: &str, ty: ColType, guard: Option<&'static str>) -> (r: String)
    ensures
        r@ == column_sql_spec(expr, out_name@, ty, guard),
{
    let ty_sql = duckdb_type(ty);
    let body = expr_sql(expr, out_name, ty_sql.as_str());
    let body = match guard {
        Some(g) => {
            let mut s = owned("CASE WHEN ");
            s.append(g);
            s.append(" THEN ");
            s.append(body.as_str());
            s.append(" END");
            s
        },
        None => body,
    };
    let mut s = owned("CAST(");
    s.append(body.as_str());
    s.append(" AS ");
    s.append(ty_sql.as_str());
    s.append(") AS ");
    s.append(quote(out_name).as_str());
    s
}

/// The body given for `name`, first match first.
pub open spec fn body_of(bodies: Seq<(&'static str, Seq<char>)>, name: Seq<char>) -> Option<Seq<char>>
    decreases bodies.len(),
{
    if bodies.len() == 0 {
        None
    } else if bodies[0].0@ == name {
        Some(bodies[0].1)
    } else {
        body_of(bodies.drop_first(), name)
    }
}

/// The bodies with each SQL text taken by its view.
pub open spec fn body_views(bodies: Seq<(&'static str, String)>) -> Seq<(&'static str, Seq<char>)> {
    Seq::new(bodies.len(), |i: int| (bodies[i].0, bodies[i].1@))
}

/// `CAST(<body> AS <type>) AS "<name>"`, with a typed null where no body is
/// given.
pub open spec fn cast_col(bodies: Seq<(&'static str, Seq<char>)>, name: Seq<char>, ty: ColType) -> Seq<char> {
    let body = match body_of(bodies, name) {
        Some(b) => b,
        None => "NULL"@,
    };
    "CAST("@ + body + " AS "@ + duckdb_type_sql(ty) + ") AS "@ + quoted(name)
}

/// The select list of a hand-written view over the output fields `fields`.
pub open spec fn cast_list(bodies: Seq<(&'static str, Seq<char>)>, fields: Seq<(&'static str, ColType)>) -> Seq<Seq<char>> {
    Seq::new(fields.len(), |i: int| cast_col(bodies, fields[i].0@, fields[i].1))
}

/// The select list of a hand-written view, or why the output schema has none.
pub open spec fn cast_cols_spec(m: TableModel, bodies: Seq<(&'static str, Seq<char>)>) -> Result<Seq<Seq<char>>, Seq<char>> {
    match spec_out_schema(m) {
        Ok(fields) => Ok(cast_list(bodies, fields)),
        Err(e) => Err(e),
    }
}

fn find_body(bodies: &Vec<(&'static str, String)>, name: &str) -> (r: Option<String>)
    ensures
        match r {
            Some(s) => body_of(body_views(bodies@), name@) == Some(s@),
            None => body_of(body_views(bodies@), name@) is None,
        },
{
    let mut i: usize = 0;
    let ghost bs = body_views(bodies@);
    assert(bs.subrange(0, bs.len() as int) =~= bs);
    while i < bodies.len()
        invariant
            i <= bs.len(),
            bs == body_views(bodies@),
            body_of(bs, name@) == body_of(bs.subrange(i as int, bs.len() as int), name@),
        decreases bs.len() - i,
    {
        let ghost rest = bs.subrange(i as int, bs.len() as int);
        assert(rest[0] == bs[i as int]);
        assert(rest.drop_first() =~= bs.subrange(i + 1, bs.len() as int));
        if str_eq(bodies[i].0, name) {
            return Some(bodies[i].1.clone());
        }
        i += 1;
    }
    None
}

/// The select list of a hand-written view: one cast column per field of the
/// output schema, in declaration order, with the body given per output name and
/// a typed null for a column with no body. Driving the list off the output
/// schema is what keeps name, order and type from drifting from the
/// materialized layer.
fn cast_cols(spec: &TableSpec, bodies: &Vec<(&'static str, String)>) -> (r: Result<Vec<String>, IndexError>)
    ensures
        match cast_cols_spec(model_of(*spec), body_views(bodies@)) {
            Ok(list) => r is Ok && string_views(r->Ok_0@) == list,
            Err(m) => r is Err && error_message(r->Err_0) == m,
        },
{
    let fields = match out_schema(spec) {
        Ok(f) => f,
        Err(e) => return Err(e),
    };
    let mut out: Vec<String> = Vec::new();
    let mut i: usize = 0;
    while i < fields.len()
        invariant
            i <= fields@.len(),
            out@.len() == i,
            forall|k: int| 0 <= k < i ==> #[trigger] out@[k]@ == cast_col(body_views(bodies@), fields@[k].0@, fields@[k].1),
        decreases fields@.len() - i,
    {
        let (name, ty) = fields[i];
        let body = match find_body(bodies, name) {
            Some(b) => b,
            None => owned("NULL"),
        };
        let mut s = owned("CAST(");
        s.append(body.as_str());
        s.append(" AS ");
        s.append(duckdb_type(ty).as_str());
        s.append(") AS ");
        s.append(quote(name).as_str());
        out.push(s);
        i += 1;
    }
    assert(string_views(out@) =~= cast_list(body_views(bodies@), fields@));
    Ok(out)
}

/// `[{key, val}, ..]` for a JSON object held as text.
pub open spec fn json_entries_sql(obj: Seq<char>) -> Seq<char> {
    "list_transform(list_zip(json_keys("@ + obj + "), json_extract("@ + obj
        + ", '$.*')), z -> struct_pack(key := struct_extract(z, 1), val := struct_extract(z, 2)))"@
}

/// `[{key, val}, ..]` for a JSON object held as text.
///
/// `json_extract(.., '$.*')` returns the values in key order, so zipping it
/// with `json_keys` pairs each key with its own value; the transform names the
/// fields so everything downstream reads `.key` and `.val`.
pub fn json_entries(obj: &str) -> (r: String)
    ensures
        r@ == json_entries_sql(obj@),
{
    let mut s = owned("list_transform(list_zip(json_keys(");
    s.append(obj);
    s.append("), json_extract(");
    s.append(obj);
    s.append(", '$.*')), z -> struct_pack(key := struct_extract(z, 1), val := struct_extract(z, 2)))");
    s
}

/// One side of the column merge: a projection of an epoch relation, or a typed
/// empty relation when that relation has no files.
pub open spec fn merge_side_sql(
    view: &'static str,
    present: Seq<&'static str>,
    cols: Seq<(&'static str, &'static str, &'static str)>,
    wheres: Seq<Seq<char>>,
    dedup_by: Option<&'static str>,
) -> Seq<char> {
    if !contains_str(present, view@) {
        "SELECT "@ + join_seq(Seq::new(cols.len(), |i: int| "CAST(NULL AS "@ + cols[i].2@ + ") AS "@ + cols[i].1@), ", "@)
            + " WHERE FALSE"@
    } else {
        let base = "SELECT "@ + join_seq(Seq::new(cols.len(), |i: int| cols[i].0@ + " AS "@ + cols[i].1@), ", "@)
            + " FROM dbt_internal."@ + view@;
        let filtered = if wheres.len() == 0 {
            base
        } else {
            base + " WHERE "@ + join_seq(wheres, " AND "@)
        };
        match dedup_by {
            Some(k) => filtered + " QUALIFY row_number() OVER (PARTITION BY "@ + k@ + ") = 1"@,
            None => filtered,
        }
    }
}

/// One side of the column merge, as [`merge_side_sql`] states.
///
/// Substituting an empty relation rather than generating a different query
/// shape keeps the merge uniform: a FULL join against an empty side is exactly
/// "this source contributed nothing". `cols` is `(expression, name, type)` per
/// output column; the type is only used for the empty case. `dedup_by` keeps
/// one row per key, so a join cannot multiply the other side.
fn merge_side(
    view: &'static str,
    present: &[&'static str],
    cols: &[(&'static str, &'static str, &'static str)],
    wheres: &Vec<String>,
    dedup_by: Option<&'static str>,
) -> (r: String)
    ensures
        r@ == merge_side_sql(view, present@, cols@, string_views(wheres@), dedup_by),
{
    if !slice_contains(present, view) {
        let mut items: Vec<String> = Vec::new();
        let mut i: usize = 0;
        while i < cols.len()
            invariant
                i <= cols@.len(),
                items@.len() == i,
                forall|k: int| 0 <= k < i ==> #[trigger] items@[k]@ == "CAST(NULL AS "@ + cols@[k].2@ + ") AS "@ + cols@[k].1@,
            decreases cols@.len() - i,
        {
            let mut s = owned("CAST(NULL AS ");
            s.append(cols[i].2);
            s.append(") AS ");
            s.append(cols[i].1);
            items.push(s);
            i += 1;
        }
        assert(string_views(items@) =~= Seq::new(cols@.len(), |i: int| "CAST(NULL AS "@ + cols@[i].2@ + ") AS "@ + cols@[i].1@));
        let mut s = owned("SELECT ");
        s.append(join(&items, ", ").as_str());
        s.append(" WHERE FALSE");
        return s;
    }
    let mut items: Vec<String> = Vec::new();
    let mut i: usize = 0;
    while i < cols.len()
        invariant
            i <= cols@.len(),
            items@.len() == i,
            forall|k: int| 0 <= k < i ==> #[trigger] items@[k]@ == cols@[k].0@ + " AS "@ + cols@[k].1@,
        decreases cols@.len() - i,
    {
        let mut s = owned(cols[i].0);
        s.append(" AS ");
        s.append(cols[i].1);
        items.push(s);
        i += 1;
    }
    assert(string_views(items@) =~= Seq::new(cols@.len(), |i: int| cols@[i].0@ + " AS "@ + cols@[i].1@));
    let mut s = owned("SELECT ");
    s.append(join(&items, ", ").as_str());
    s.append(" FROM dbt_internal.");
    s.append(view);
    if wheres.len() != 0 {
        s.append(" WHERE ");
        s.append(join(wheres, " AND ").as_str());
    }
    match dedup_by {
        Some(k) => {
            s.append(" QUALIFY row_number() OVER (PARTITION BY ");
            s.append(k);
            s.append(") = 1");
        },
        None => {},
    }
    s
}

/// The project snapshot up to its resolver subquery.
pub const SNAPSHOT_HEAD: &'static str = "(\n  SELECT\n    COALESCE(NULLIF(g.project_name, ''), '') AS project_name,\n    COALESCE(NULLIF(g.dbt_version, ''), '') AS dbt_version,\n    COALESCE(NULLIF(g.adapter_type, ''), '') AS adapter_type,\n    COALESCE(NULLIF(g.vars_json, ''), NULLIF(r.vars_json, '')) AS vars_json,\n    COALESCE(NULLIF(g.env_vars_json, ''), NULLIF(r.env_vars_json, '')) AS env_vars_json,\n    NULLIF(r.git_sha, '') AS git_sha,\n    NULLIF(r.git_branch, '') AS git_branch,\n    r.git_is_dirty <> 0 AS git_is_dirty,\n    NULLIF(r.pkg_kinds_json, '') AS pkg_kinds_json,\n    COALESCE(json_keys(NULLIF(r.pkg_kinds_json, '')), []) AS installed_packages,\n    g.ingested_at AS ingested_at\n  FROM (SELECT * FROM dbt_internal.epoch_parse_generation LIMIT 1) g\n  LEFT JOIN (";

/// The project snapshot after its resolver subquery, up to its alias.
pub const SNAPSHOT_TAIL: &'static str = ") r ON TRUE\n  WHERE NULLIF(g.project_name, '') IS NOT NULL\n) ";

/// The resolver-state row when that relation has files.
pub const RESOLVER_PRESENT: &'static str = "SELECT * FROM dbt_internal.epoch_parse_resolver_state LIMIT 1";

/// A typed all-null resolver-state row when it has none.
pub const RESOLVER_ABSENT: &'static str = "SELECT CAST(NULL AS VARCHAR) AS vars_json, CAST(NULL AS VARCHAR) AS env_vars_json, CAST(NULL AS VARCHAR) AS git_sha, CAST(NULL AS VARCHAR) AS git_branch, CAST(NULL AS INTEGER) AS git_is_dirty, CAST(NULL AS VARCHAR) AS pkg_kinds_json";

/// The column merge up to its parse side.
pub const MERGE_HEAD: &'static str = "FROM (\n  SELECT\n    COALESCE(m.unique_id, k.unique_id) AS unique_id,\n    COALESCE(m.column_name, k.column_name) AS column_name,\n    COALESCE(k.column_index, m.column_index) AS column_index,\n    m.declared_type AS declared_type,\n    m.inferred_type AS inferred_type,\n    k.catalog_type AS catalog_type,\n    CASE WHEN k.unique_id IS NULL THEN NULL\n         WHEN k.catalog_type IS NOT NULL THEN k.catalog_type\n         ELSE m.inferred_type END AS data_type,\n    m.description AS description,\n    COALESCE(m.tags, []) AS tags,\n    COALESCE(m.classifiers, []) AS classifiers,\n    k.catalog_comment AS catalog_comment,\n    COALESCE(m.ingested_at, k.ingested_at) AS ingested_at\n  FROM (\n    SELECT\n      COALESCE(p.unique_id, c.unique_id) AS unique_id,\n      COALESCE(p.column_name, c.column_name) AS column_name,\n      c.column_index AS column_index,\n      p.declared_type AS declared_type,\n      c.inferred_type AS inferred_type,\n      COALESCE(c.description, p.description) AS description,\n      COALESCE(p.tags, []) AS tags,\n      COALESCE(c.classifiers, []) AS classifiers,\n      COALESCE(p.ingested_at, c.ingested_at) AS ingested_at\n    FROM (";

/// Between the parse side and the compile side of the column merge.
pub const MERGE_AFTER_PARSE: &'static str = ") p\n    FULL JOIN (";

/// Between the compile side and the catalog side of the column merge.
pub const MERGE_AFTER_COMPILE: &'static str = ") c\n      ON p.unique_id = c.unique_id\n     AND lower(p.column_name) = lower(c.column_name)\n  ) m\n  FULL JOIN (";

/// After the catalog side of the column merge.
pub const MERGE_TAIL: &'static str = ") k\n    ON m.unique_id = k.unique_id AND m.column_name = k.column_name\n) ";

/// The skipped packages, before the adapter.
pub const SKIP_HEAD: &'static str = "'dbt', 'dbt_' || ";

/// The skipped packages, between the adapter and its parent.
pub const SKIP_MID: &'static str = ".adapter_type, COALESCE(CASE ";

/// The skipped packages, after the adapter's parent.
pub const SKIP_TAIL: &'static str = ".adapter_type WHEN 'redshift' THEN 'dbt_postgres' WHEN 'databricks' THEN 'dbt_spark' END, '')";

/// A scope variable's value: a plain string bare, anything else as JSON.
pub const VAR_VALUE: &'static str = "CASE WHEN json_type(q.val) = 'VARCHAR' THEN json_extract_string(q.val, '$') ELSE CAST(q.val AS VARCHAR) END";

/// An inherited variable's value, rendered the same way.
pub const INHERITED_VALUE: &'static str = "CASE WHEN json_type(r.val) = 'VARCHAR' THEN json_extract_string(r.val, '$') ELSE CAST(r.val AS VARCHAR) END";

/// Whether a variable is a package scope, before the installed list.
pub const SCOPE_HEAD: &'static str = "json_type(q.val) = 'OBJECT' AND list_contains(";

/// Whether a variable is a package scope, after the installed list.
pub const SCOPE_TAIL: &'static str = ", q.key)";

/// A fixed part of the flattened variable list.
pub const VARS_OPEN: &'static str = "flatten(list_transform(list_filter(";

/// A fixed part of the flattened variable list.
pub const VARS_SKIP_PACKAGES: &'static str = ", p -> p.key NOT IN (";

/// A fixed part of the flattened variable list.
pub const VARS_PARENT_SCALARS: &'static str = ")), p -> list_concat(list_transform(";

/// A fixed part of the flattened variable list.
pub const VARS_SCALAR_ROW: &'static str = ", q -> struct_pack(package := p.key, name := q.key, value := ";

/// A fixed part of the flattened variable list.
pub const VARS_SCOPES: &'static str = ")), flatten(list_transform(list_filter(";

/// A fixed part of the flattened variable list.
pub const VARS_SCOPE_TEST: &'static str = ", q -> ";

/// A fixed part of the flattened variable list.
pub const VARS_SCOPE_SKIP: &'static str = " AND q.key NOT IN (";

/// A fixed part of the flattened variable list.
pub const VARS_INHERIT: &'static str = ")), q -> list_transform(list_concat(list_filter(";

/// A fixed part of the flattened variable list.
pub const VARS_UNSHADOWED: &'static str = ", s -> NOT list_contains(COALESCE(json_keys(q.val), []), s.key)), ";

/// A fixed part of the flattened variable list.
pub const VARS_SCOPED_ROW: &'static str = "), r -> struct_pack(package := q.key, name := r.key, value := ";

/// A fixed part of the flattened variable list.
pub const VARS_CLOSE: &'static str = ")))))))";

/// The expression a staging column is published with: `Same` names the
/// staging column, which for a renamed output column is not the output name,
/// and the joined columns degrade to what an empty lookup gives when the join
/// relation has no files.
pub open spec fn adjust_expr(e: EpochExpr, src: &'static str, joined: bool) -> EpochExpr {
    match e {
        EpochExpr::Same => EpochExpr::Col(src),
        EpochExpr::JoinCol(_) => if joined { e } else { EpochExpr::Null },
        EpochExpr::JoinJsonList(_) => if joined { e } else { EpochExpr::EmptyList },
        _ => e,
    }
}

/// The row predicate guarding the columns of staging table `table`, first
/// match first.
pub open spec fn guard_of(guards: Seq<(Seq<char>, &'static str)>, table: Seq<char>) -> Option<&'static str>
    decreases guards.len(),
{
    if guards.len() == 0 {
        None
    } else if guards[0].0 == table {
        Some(guards[0].1)
    } else {
        guard_of(guards.drop_first(), table)
    }
}

/// The guards with each staging table taken by its view.
pub open spec fn guard_views(guards: Seq<(&'static str, &'static str)>) -> Seq<(Seq<char>, &'static str)> {
    Seq::new(guards.len(), |i: int| (guards[i].0@, guards[i].1))
}

fn find_guard(guards: &Vec<(&'static str, &'static str)>, table: &str) -> (r: Option<&'static str>)
    ensures
        r == guard_of(guard_views(guards@), table@),
{
    let mut i: usize = 0;
    let ghost gs = guard_views(guards@);
    assert(gs.subrange(0, gs.len() as int) =~= gs);
    while i < guards.len()
        invariant
            i <= gs.len(),
            gs == guard_views(guards@),
            guard_of(gs, table@) == guard_of(gs.subrange(i as int, gs.len() as int), table@),
        decreases gs.len() - i,
    {
        let ghost rest = gs.subrange(i as int, gs.len() as int);
        assert(rest[0] == gs[i as int]);
        assert(rest.drop_first() =~= gs.subrange(i + 1, gs.len() as int));
        if str_eq(guards[i].0, table) {
            return Some(guards[i].1);
        }
        i += 1;
    }
    None
}

/// The SQL of one output column `c` of table `m`, of type `ty`; or why it has
/// none.
pub open spec fn resolve_one(
    m: TableModel,
    joined: bool,
    guards: Seq<(Seq<char>, &'static str)>,
    c: ColSpec,
    ty: ColType,
) -> Result<Seq<char>, Seq<char>> {
    if c.ty is Some {
        Ok(column_sql_spec(EpochExpr::Null, c.out@, ty, None))
    } else {
        match col_owner(m.src, c.src@) {
            None => Err(spec_qualified_name(m.ns, m.name@) + " is assembled in Rust"@),
            Some(table) => {
                let e = match origin_of(table@) {
                    Some(Origin::Empty) => Some(EpochExpr::Null),
                    _ => spec_epoch_expr(table@, c.src@),
                };
                match e {
                    None => Err(table@ + "."@ + c.src@ + " is unmapped"@),
                    Some(e) => Ok(column_sql_spec(adjust_expr(e, c.src, joined), c.out@, ty, guard_of(guards, table@))),
                }
            },
        }
    }
}

/// The SQL of the first `n` output columns, or the reason of the first one
/// that has none.
pub open spec fn resolve_prefix(
    m: TableModel,
    joined: bool,
    guards: Seq<(Seq<char>, &'static str)>,
    fields: Seq<(&'static str, ColType)>,
    n: nat,
) -> Result<Seq<Seq<char>>, Seq<char>>
    decreases n,
{
    if n == 0 {
        Ok(Seq::empty())
    } else {
        match resolve_prefix(m, joined, guards, fields, (n - 1) as nat) {
            Err(e) => Err(e),
            Ok(items) => match resolve_one(m, joined, guards, m.cols[n - 1], fields[n - 1].1) {
                Err(e) => Err(e),
                Ok(s) => Ok(items.push(s)),
            },
        }
    }
}

/// Every column of a table resolved to its SQL, or the first that cannot be;
/// the outer error is a table without an output schema.
pub open spec fn resolve_cols_spec(
    m: TableModel,
    joined: bool,
    guards: Seq<(Seq<char>, &'static str)>,
) -> Result<Result<Seq<Seq<char>>, Seq<char>>, Seq<char>> {
    match spec_out_schema(m) {
        Err(e) => Err(e),
        Ok(fields) => Ok(resolve_prefix(m, joined, guards, fields, m.cols.len())),
    }
}

/// A failed prefix fails the whole list with the same reason.
proof fn lemma_resolve_prefix_err(
    m: TableModel,
    joined: bool,
    guards: Seq<(Seq<char>, &'static str)>,
    fields: Seq<(&'static str, ColType)>,
    k: nat,
    n: nat,
)
    requires
        k <= n,
        resolve_prefix(m, joined, guards, fields, k) is Err,
    ensures
        resolve_prefix(m, joined, guards, fields, n) == resolve_prefix(m, joined, guards, fields, k),
    decreases n,
{
    if k < n {
        lemma_resolve_prefix_err(m, joined, guards, fields, k, (n - 1) as nat);
    }
}

/// Resolve every column of a spec, or report the first staging column with no
/// epoch expression.
///
/// `joined` is false when the join relation has no files, in which case its
/// columns degrade to what an empty lookup gives. `guards` carries per
/// staging table the row predicate its columns are null outside of.
fn resolve_cols(
    spec: &TableSpec,
    joined: bool,
    guards: &Vec<(&'static str, &'static str)>,
) -> (r: Result<Result<Vec<String>, String>, IndexError>)
    ensures
        match resolve_cols_spec(model_of(*spec), joined, guard_views(guards@)) {
            Err(e) => r is Err && error_message(r->Err_0) == e,
            Ok(Err(why)) => r is Ok && r->Ok_0 is Err && r->Ok_0->Err_0@ == why,
            Ok(Ok(cols)) => r is Ok && r->Ok_0 is Ok && string_views(r->Ok_0->Ok_0@) == cols,
        },
{
    let ghost m = model_of(*spec);
    let fields = match out_schema(spec) {
        Ok(f) => f,
        Err(e) => return Err(e),
    };
    proof { crate::project::lemma_out_fields_shape(m, m.cols); }
    let mut items: Vec<String> = Vec::new();
    let mut i: usize = 0;
    assert(string_views(items@) =~= Seq::<Seq<char>>::empty());
    while i < spec.cols.len()
        invariant
            i <= spec.cols@.len(),
            m == model_of(*spec),
            spec_out_schema(m) == Ok::<Seq<(&'static str, ColType)>, Seq<char>>(fields@),
            fields@.len() == spec.cols@.len(),
            resolve_prefix(m, joined, guard_views(guards@), fields@, i as nat) == Ok::<Seq<Seq<char>>, Seq<char>>(string_views(items@)),
        decreases spec.cols@.len() - i,
    {
        let col = spec.cols[i];
        let ty = fields[i].1;
        let one: Result<String, String> = if col.ty.is_some() {
            Ok(column_sql(EpochExpr::Null, col.out, ty, None))
        } else {
            match owning_table(spec, col.src) {
                None => {
                    let mut why = spec.qualified_name();
                    why.append(" is assembled in Rust");
                    Err(why)
                },
                Some(table) => {
                    let expr = match origin(table) {
                        Some(Origin::Empty) => Some(EpochExpr::Null),
                        _ => epoch_expr(table, col.src),
                    };
                    match expr {
                        None => {
                            let mut why = owned(table);
                            why.append(".");
                            why.append(col.src);
                            why.append(" is unmapped");
                            Err(why)
                        },
                        Some(e) => {
                            let e = match e {
                                EpochExpr::Same => EpochExpr::Col(col.src),
                                EpochExpr::JoinCol(_) => if joined { e } else { EpochExpr::Null },
                                EpochExpr::JoinJsonList(_) => if joined { e } else { EpochExpr::EmptyList },
                                _ => e,
                            };
                            let guard = find_guard(guards, table);
                            Ok(column_sql(e, col.out, ty, guard))
                        },
                    }
                },
            }
        };
        match one {
            Ok(sql) => {
                let ghost before = items@;
                items.push(sql);
                assert(string_views(items@) =~= string_views(before).push(items@.last()@));
            },
            Err(why) => {
                proof { lemma_resolve_prefix_err(m, joined, guard_views(guards@), fields@, (i + 1) as nat, spec.cols@.len()); }
                return Ok(Err(why));
            },
        }
        i += 1;
    }
    Ok(Ok(items))
}

/// `"  <col>"` per select-list entry.
pub open spec fn indented(cols: Seq<Seq<char>>) -> Seq<Seq<char>> {
    Seq::new(cols.len(), |i: int| "  "@ + cols[i])
}

/// `CREATE OR REPLACE VIEW <name> AS`, then the select list one entry per line.
pub open spec fn header_sql(qname: Seq<char>, cols: Seq<Seq<char>>) -> Seq<char> {
    "CREATE OR REPLACE VIEW "@ + qname + " AS\nSELECT\n"@ + join_seq(indented(cols), ",\n"@) + "\n"@
}

fn header(qname: &str, cols: &Vec<String>) -> (r: String)
    ensures
        r@ == header_sql(qname@, string_views(cols@)),
{
    let mut lines: Vec<String> = Vec::new();
    let mut i: usize = 0;
    while i < cols.len()
        invariant
            i <= cols@.len(),
            lines@.len() == i,
            forall|k: int| 0 <= k < i ==> #[trigger] lines@[k]@ == "  "@ + cols@[k]@,
        decreases cols@.len() - i,
    {
        let mut l = owned("  ");
        l.append(cols[i].as_str());
        lines.push(l);
        i += 1;
    }
    assert(string_views(lines@) =~= indented(string_views(cols@)));
    let mut s = owned("CREATE OR REPLACE VIEW ");
    s.append(qname);
    s.append(" AS\nSELECT\n");
    s.append(join(&lines, ",\n").as_str());
    s.append("\n");
    s
}

/// The row-filter lines: `WHERE` before the first predicate, `  AND` before
/// each later one, one per line.
pub open spec fn where_lines(ws: Seq<Seq<char>>) -> Seq<char> {
    join_seq(Seq::new(ws.len(), |i: int| (if i == 0 { "WHERE "@ } else { "  AND "@ }) + ws[i]), "\n"@)
}

fn where_clause(ws: &Vec<String>) -> (r: String)
    ensures
        r@ == where_lines(string_views(ws@)),
{
    let mut lines: Vec<String> = Vec::new();
    let mut i: usize = 0;
    while i < ws.len()
        invariant
            i <= ws@.len(),
            lines@.len() == i,
            forall|k: int| 0 <= k < i ==> #[trigger] lines@[k]@ == (if k == 0 { "WHERE "@ } else { "  AND "@ }) + ws@[k]@,
        decreases ws@.len() - i,
    {
        let mut l = if i == 0 { owned("WHERE ") } else { owned("  AND ") };
        l.append(ws[i].as_str());
        lines.push(l);
        i += 1;
    }
    assert(string_views(lines@) =~= Seq::new(ws@.len(), |i: int| (if i == 0 { "WHERE "@ } else { "  AND "@ }) + string_views(ws@)[i]));
    join(&lines, "\n")
}

/// The one project-level row the ingest assembles, as a subquery aliased
/// [`BASE`]: the generation snapshot's fields with the resolver state's git
/// fields beside them, or no row at all.
pub open spec fn project_snapshot_sql(present: Seq<&'static str>) -> Seq<char> {
    let resolver = if contains_str(present, "epoch_parse_resolver_state"@) { RESOLVER_PRESENT@ } else { RESOLVER_ABSENT@ };
    SNAPSHOT_HEAD@ + resolver + SNAPSHOT_TAIL@ + BASE@
}

/// The project snapshot subquery.
///
/// Both sources are single-row snapshots overwritten on every parse, and the
/// ingest reads row 0 of each, hence `LIMIT 1`. `LEFT JOIN .. ON TRUE` rather
/// than a cross join: the git fields stay null when the resolver state is
/// missing, where a cross join with an empty side would drop the only row.
/// Empty strings read as absent throughout, as the ingest's field reads do.
fn project_snapshot(present: &[&'static str]) -> (r: String)
    ensures
        r@ == project_snapshot_sql(present@),
{
    let mut s = owned(SNAPSHOT_HEAD);
    if slice_contains(present, "epoch_parse_resolver_state") {
        s.append(RESOLVER_PRESENT);
    } else {
        s.append(RESOLVER_ABSENT);
    }
    s.append(SNAPSHOT_TAIL);
    s.append(BASE);
    s
}


/// `<col> IN (<the alive ids>)`: liveness as a semi-join on the alive set.
pub open spec fn alive_test(col: Seq<char>) -> Seq<char> {
    col + " IN (SELECT unique_id FROM dbt_internal.epoch_parse_alive)"@
}

fn alive_filter(col: &str) -> (r: String)
    ensures
        r@ == alive_test(col@),
{
    let mut s = owned(col);
    s.append(" IN (SELECT unique_id FROM dbt_internal.epoch_parse_alive)");
    s
}

/// `t.<field>`
pub open spec fn base_field(field: Seq<char>) -> Seq<char> {
    BASE@ + field
}

fn base_dot(field: &str) -> (r: String)
    ensures
        r@ == base_field(field@),
{
    let mut s = owned(BASE);
    s.append(field);
    s
}

/// The typed, empty shape of a table whose columns are all declared rather
/// than sourced: no source of its data exists on either path.
pub open spec fn own_classifiers_spec(m: TableModel) -> Result<(Seq<char>, Option<&'static str>), Seq<char>> {
    match resolve_cols_spec(m, false, Seq::empty()) {
        Err(e) => Err(e),
        Ok(Err(why)) => Err(why),
        Ok(Ok(cols)) => Ok((header_sql(spec_qualified_name(m.ns, m.name@), cols) + "WHERE FALSE"@, None)),
    }
}

fn own_classifiers(spec: &TableSpec) -> (r: Result<(String, Option<&'static str>), IndexError>)
    ensures
        match own_classifiers_spec(model_of(*spec)) {
            Ok((sql, reads)) => r is Ok && r->Ok_0.0@ == sql && r->Ok_0.1 == reads,
            Err(e) => r is Err && error_message(r->Err_0) == e,
        },
{
    let guards: Vec<(&'static str, &'static str)> = Vec::new();
    assert(guard_views(guards@) =~= Seq::<(Seq<char>, &'static str)>::empty());
    let cols = match resolve_cols(spec, false, &guards) {
        Err(e) => return Err(e),
        Ok(Err(why)) => return Err(IndexError::Other(why)),
        Ok(Ok(cols)) => cols,
    };
    let mut sql = header(spec.qualified_name().as_str(), &cols);
    sql.append("WHERE FALSE");
    Ok((sql, None))
}

/// The select bodies of `dbt.dag_nodes`.
pub open spec fn dag_bodies() -> Seq<(&'static str, Seq<char>)> {
    seq![
        ("unique_id", base_field(".unique_id"@)),
        ("resource_type", base_field(".resource_type"@)),
        ("ingested_at", base_field(".ingested_at"@)),
    ]
}

/// The row filters of `dbt.dag_nodes`: live when liveness is known, a DAG
/// resource type, and enabled, a missing value meaning enabled.
pub open spec fn dag_wheres(alive_exists: bool) -> Seq<Seq<char>> {
    (if alive_exists { seq![alive_test(base_field(".unique_id"@))] } else { Seq::empty() }) + seq![
        base_field(".resource_type IN ("@) + join_seq(sql_literals(dag_resource_types_model()), ", "@) + ")"@,
        "COALESCE("@ + base_field(".is_disabled = 0, TRUE)"@),
    ]
}

/// Every live, enabled node whose resource type participates in the DAG, in
/// one pass over the nodes relation: the side tables the ingest unions in come
/// from that relation in the first place.
pub open spec fn own_dag_nodes_spec(m: TableModel, alive_exists: bool) -> Result<(Seq<char>, Option<&'static str>), Seq<char>> {
    match cast_cols_spec(m, dag_bodies()) {
        Err(e) => Err(e),
        Ok(cols) => Ok((
            header_sql(spec_qualified_name(m.ns, m.name@), cols) + "FROM dbt_internal.epoch_parse_nodes "@ + BASE@ + "\n"@
                + where_lines(dag_wheres(alive_exists)),
            Some("epoch_parse_nodes"),
        )),
    }
}

fn own_dag_nodes(spec: &TableSpec, alive_exists: bool) -> (r: Result<(String, Option<&'static str>), IndexError>)
    ensures
        match own_dag_nodes_spec(model_of(*spec), alive_exists) {
            Ok((sql, reads)) => r is Ok && r->Ok_0.0@ == sql && r->Ok_0.1 == reads,
            Err(e) => r is Err && error_message(r->Err_0) == e,
        },
{
    let b0 = base_dot(".unique_id");
    let b1 = base_dot(".resource_type");
    let b2 = base_dot(".ingested_at");
    let bodies = vec![("unique_id", b0), ("resource_type", b1), ("ingested_at", b2)];
    assert(body_views(bodies@) =~= dag_bodies());
    let cols = match cast_cols(spec, &bodies) {
        Ok(c) => c,
        Err(e) => return Err(e),
    };
    let mut wheres: Vec<String> = Vec::new();
    if alive_exists {
        wheres.push(alive_filter(base_dot(".unique_id").as_str()));
    }
    let mut types = base_dot(".resource_type IN (");
    types.append(literal_list(dag_resource_types()).as_str());
    types.append(")");
    wheres.push(types);
    let mut enabled = owned("COALESCE(");
    enabled.append(base_dot(".is_disabled = 0, TRUE)").as_str());
    wheres.push(enabled);
    assert(string_views(wheres@) =~= dag_wheres(alive_exists));
    let mut sql = header(spec.qualified_name().as_str(), &cols);
    sql.append("FROM dbt_internal.epoch_parse_nodes ");
    sql.append(BASE);
    sql.append("\n");
    sql.append(where_clause(&wheres).as_str());
    Ok((sql, Some("epoch_parse_nodes")))
}

/// The select bodies of `dbt.project`: the snapshot's fields, and the schema
/// version this build declares.
pub open spec fn project_bodies() -> Seq<(&'static str, Seq<char>)> {
    seq![
        ("project_name", base_field(".project_name"@)),
        ("dbt_version", base_field(".dbt_version"@)),
        ("adapter_type", base_field(".adapter_type"@)),
        ("git_sha", base_field(".git_sha"@)),
        ("git_branch", base_field(".git_branch"@)),
        ("git_uncommitted_changes", base_field(".git_is_dirty"@)),
        ("ingested_at", base_field(".ingested_at"@)),
        ("schema_version", version_text()),
    ]
}

/// The single-row project snapshot.
pub open spec fn own_project_spec(m: TableModel, present: Seq<&'static str>) -> Result<(Seq<char>, Option<&'static str>), Seq<char>> {
    match cast_cols_spec(m, project_bodies()) {
        Err(e) => Err(e),
        Ok(cols) => Ok((
            header_sql(spec_qualified_name(m.ns, m.name@), cols) + "FROM "@ + project_snapshot_sql(present),
            Some("epoch_parse_generation"),
        )),
    }
}

fn own_project(spec: &TableSpec, present: &[&'static str]) -> (r: Result<(String, Option<&'static str>), IndexError>)
    ensures
        match own_project_spec(model_of(*spec), present@) {
            Ok((sql, reads)) => r is Ok && r->Ok_0.0@ == sql && r->Ok_0.1 == reads,
            Err(e) => r is Err && error_message(r->Err_0) == e,
        },
{
    let b0 = base_dot(".project_name");
    let b1 = base_dot(".dbt_version");
    let b2 = base_dot(".adapter_type");
    let b3 = base_dot(".git_sha");
    let b4 = base_dot(".git_branch");
    let b5 = base_dot(".git_is_dirty");
    let b6 = base_dot(".ingested_at");
    let b7 = version_string();
    let bodies = vec![
        ("project_name", b0),
        ("dbt_version", b1),
        ("adapter_type", b2),
        ("git_sha", b3),
        ("git_branch", b4),
        ("git_uncommitted_changes", b5),
        ("ingested_at", b6),
        ("schema_version", b7),
    ];
    assert(body_views(bodies@) =~= project_bodies());
    let cols = match cast_cols(spec, &bodies) {
        Ok(c) => c,
        Err(e) => return Err(e),
    };
    let mut sql = header(spec.qualified_name().as_str(), &cols);
    sql.append("FROM ");
    sql.append(project_snapshot(present).as_str());
    Ok((sql, Some("epoch_parse_generation")))
}

/// The select bodies of `dbt.project_env_vars`.
pub open spec fn env_var_bodies() -> Seq<(&'static str, Seq<char>)> {
    seq![("env_var_name", ELEM@), ("ingested_at", base_field(".ingested_at"@))]
}

/// One row per key of the snapshot's environment-variable map; a null or
/// absent map unnests to no rows.
pub open spec fn own_env_vars_spec(m: TableModel, present: Seq<&'static str>) -> Result<(Seq<char>, Option<&'static str>), Seq<char>> {
    match cast_cols_spec(m, env_var_bodies()) {
        Err(e) => Err(e),
        Ok(cols) => Ok((
            header_sql(spec_qualified_name(m.ns, m.name@), cols) + "FROM "@ + project_snapshot_sql(present)
                + "\n  , unnest(json_keys("@ + BASE@ + ".env_vars_json)) AS "@ + ELEM_REL@,
            Some("epoch_parse_generation"),
        )),
    }
}

fn own_env_vars(spec: &TableSpec, present: &[&'static str]) -> (r: Result<(String, Option<&'static str>), IndexError>)
    ensures
        match own_env_vars_spec(model_of(*spec), present@) {
            Ok((sql, reads)) => r is Ok && r->Ok_0.0@ == sql && r->Ok_0.1 == reads,
            Err(e) => r is Err && error_message(r->Err_0) == e,
        },
{
    let b0 = owned(ELEM);
    let b1 = base_dot(".ingested_at");
    let bodies = vec![("env_var_name", b0), ("ingested_at", b1)];
    assert(body_views(bodies@) =~= env_var_bodies());
    let cols = match cast_cols(spec, &bodies) {
        Ok(c) => c,
        Err(e) => return Err(e),
    };
    let mut sql = header(spec.qualified_name().as_str(), &cols);
    sql.append("FROM ");
    sql.append(project_snapshot(present).as_str());
    sql.append("\n  , unnest(json_keys(");
    sql.append(BASE);
    sql.append(".env_vars_json)) AS ");
    sql.append(ELEM_REL);
    Ok((sql, Some("epoch_parse_generation")))
}

/// The packages whose vars are not the user's: `dbt`, the adapter's package,
/// and that package's parent where it has one.
pub open spec fn skip_list() -> Seq<char> {
    SKIP_HEAD@ + BASE@ + SKIP_MID@ + BASE@ + SKIP_TAIL@
}

/// Whether the variable `q` is a package scope: an object whose key names an
/// installed package.
pub open spec fn scope_test() -> Seq<char> {
    SCOPE_HEAD@ + base_field(".installed_packages"@) + SCOPE_TAIL@
}

/// A package's variables that are not scopes.
pub open spec fn parent_scalars() -> Seq<char> {
    "list_filter("@ + json_entries_sql("p.val"@) + ", q -> NOT ("@ + scope_test() + "))"@
}

/// One `{package, name, value}` per variable: each package's own scalars, then
/// for each scope the parent's scalars it does not shadow followed by its own.
pub open spec fn vars_list() -> Seq<char> {
    VARS_OPEN@ + json_entries_sql(base_field(".vars_json"@)) + VARS_SKIP_PACKAGES@ + skip_list()
        + VARS_PARENT_SCALARS@ + parent_scalars() + VARS_SCALAR_ROW@ + VAR_VALUE@ + VARS_SCOPES@
        + json_entries_sql("p.val"@) + VARS_SCOPE_TEST@ + scope_test() + VARS_SCOPE_SKIP@ + skip_list()
        + VARS_INHERIT@ + parent_scalars() + VARS_UNSHADOWED@ + json_entries_sql("q.val"@) + VARS_SCOPED_ROW@
        + INHERITED_VALUE@ + VARS_CLOSE@
}

fn skip_sql() -> (r: String)
    ensures
        r@ == skip_list(),
{
    let mut s = owned(SKIP_HEAD);
    s.append(BASE);
    s.append(SKIP_MID);
    s.append(BASE);
    s.append(SKIP_TAIL);
    s
}

fn scope_sql() -> (r: String)
    ensures
        r@ == scope_test(),
{
    let mut s = owned(SCOPE_HEAD);
    s.append(base_dot(".installed_packages").as_str());
    s.append(SCOPE_TAIL);
    s
}

fn parent_scalars_sql() -> (r: String)
    ensures
        r@ == parent_scalars(),
{
    let mut s = owned("list_filter(");
    s.append(json_entries("p.val").as_str());
    s.append(", q -> NOT (");
    s.append(scope_sql().as_str());
    s.append("))");
    s
}

fn vars_list_sql() -> (r: String)
    ensures
        r@ == vars_list(),
{
    let skip = skip_sql();
    let scope = scope_sql();
    let parents = parent_scalars_sql();
    let mut s = owned(VARS_OPEN);
    s.append(json_entries(base_dot(".vars_json").as_str()).as_str());
    s.append(VARS_SKIP_PACKAGES);
    s.append(skip.as_str());
    s.append(VARS_PARENT_SCALARS);
    s.append(parents.as_str());
    s.append(VARS_SCALAR_ROW);
    s.append(VAR_VALUE);
    s.append(VARS_SCOPES);
    s.append(json_entries("p.val").as_str());
    s.append(VARS_SCOPE_TEST);
    s.append(scope.as_str());
    s.append(VARS_SCOPE_SKIP);
    s.append(skip.as_str());
    s.append(VARS_INHERIT);
    s.append(parents.as_str());
    s.append(VARS_UNSHADOWED);
    s.append(json_entries("q.val").as_str());
    s.append(VARS_SCOPED_ROW);
    s.append(INHERITED_VALUE);
    s.append(VARS_CLOSE);
    s
}

/// The select bodies of `dbt.project_vars`.
pub open spec fn project_var_bodies() -> Seq<(&'static str, Seq<char>)> {
    seq![
        ("project_name", ELEM@ + ".package"@),
        ("var_name", ELEM@ + ".name"@),
        ("var_value", ELEM@ + ".value"@),
        ("ingested_at", base_field(".ingested_at"@)),
    ]
}

/// One row per (package, variable) of the snapshot's two-level variable map,
/// flattened to one list and unnested once. `project_name` holds the package
/// name: a package's vars are scoped to it.
pub open spec fn own_project_vars_spec(m: TableModel, present: Seq<&'static str>) -> Result<(Seq<char>, Option<&'static str>), Seq<char>> {
    match cast_cols_spec(m, project_var_bodies()) {
        Err(e) => Err(e),
        Ok(cols) => Ok((
            header_sql(spec_qualified_name(m.ns, m.name@), cols) + "FROM "@ + project_snapshot_sql(present)
                + "\n  , unnest("@ + vars_list() + ") AS "@ + ELEM_REL@,
            Some("epoch_parse_generation"),
        )),
    }
}

fn own_project_vars(spec: &TableSpec, present: &[&'static str]) -> (r: Result<(String, Option<&'static str>), IndexError>)
    ensures
        match own_project_vars_spec(model_of(*spec), present@) {
            Ok((sql, reads)) => r is Ok && r->Ok_0.0@ == sql && r->Ok_0.1 == reads,
            Err(e) => r is Err && error_message(r->Err_0) == e,
        },
{
    let mut b0 = owned(ELEM);
    b0.append(".package");
    let mut b1 = owned(ELEM);
    b1.append(".name");
    let mut b2 = owned(ELEM);
    b2.append(".value");
    let b3 = base_dot(".ingested_at");
    let bodies = vec![("project_name", b0), ("var_name", b1), ("var_value", b2), ("ingested_at", b3)];
    assert(body_views(bodies@) =~= project_var_bodies());
    let cols = match cast_cols(spec, &bodies) {
        Ok(c) => c,
        Err(e) => return Err(e),
    };
    let mut sql = header(spec.qualified_name().as_str(), &cols);
    sql.append("FROM ");
    sql.append(project_snapshot(present).as_str());
    sql.append("\n  , unnest(");
    sql.append(vars_list_sql().as_str());
    sql.append(") AS ");
    sql.append(ELEM_REL);
    Ok((sql, Some("epoch_parse_generation")))
}

/// The select bodies of `dbt.packages`: the package name, and nulls for the
/// columns with no epoch source yet.
pub open spec fn package_bodies() -> Seq<(&'static str, Seq<char>)> {
    seq![
        ("package_name", ELEM@),
        ("package_source", "NULL"@),
        ("version", "NULL"@),
        ("git_url", "NULL"@),
        ("git_revision", "NULL"@),
        ("local_path", "NULL"@),
        ("ingested_at", base_field(".ingested_at"@)),
    ]
}

/// One row per installed package of the snapshot.
pub open spec fn own_packages_spec(m: TableModel, present: Seq<&'static str>) -> Result<(Seq<char>, Option<&'static str>), Seq<char>> {
    match cast_cols_spec(m, package_bodies()) {
        Err(e) => Err(e),
        Ok(cols) => Ok((
            header_sql(spec_qualified_name(m.ns, m.name@), cols) + "FROM "@ + project_snapshot_sql(present)
                + "\n  , unnest("@ + BASE@ + ".installed_packages) AS "@ + ELEM_REL@,
            Some("epoch_parse_generation"),
        )),
    }
}

fn own_packages(spec: &TableSpec, present: &[&'static str]) -> (r: Result<(String, Option<&'static str>), IndexError>)
    ensures
        match own_packages_spec(model_of(*spec), present@) {
            Ok((sql, reads)) => r is Ok && r->Ok_0.0@ == sql && r->Ok_0.1 == reads,
            Err(e) => r is Err && error_message(r->Err_0) == e,
        },
{
    let b0 = owned(ELEM);
    let b1 = owned("NULL");
    let b2 = owned("NULL");
    let b3 = owned("NULL");
    let b4 = owned("NULL");
    let b5 = owned("NULL");
    let b6 = base_dot(".ingested_at");
    let bodies = vec![
        ("package_name", b0),
        ("package_source", b1),
        ("version", b2),
        ("git_url", b3),
        ("git_revision", b4),
        ("local_path", b5),
        ("ingested_at", b6),
    ];
    assert(body_views(bodies@) =~= package_bodies());
    let cols = match cast_cols(spec, &bodies) {
        Ok(c) => c,
        Err(e) => return Err(e),
    };
    let mut sql = header(spec.qualified_name().as_str(), &cols);
    sql.append("FROM ");
    sql.append(project_snapshot(present).as_str());
    sql.append("\n  , unnest(");
    sql.append(BASE);
    sql.append(".installed_packages) AS ");
    sql.append(ELEM_REL);
    Ok((sql, Some("epoch_parse_generation")))
}


/// The parse side's columns: the documented column, as written at parse.
pub open spec fn parse_side_cols() -> Seq<(&'static str, &'static str, &'static str)> {
    seq![
        ("unique_id", "unique_id", "VARCHAR"),
        ("COALESCE(column_name, '')", "column_name", "VARCHAR"),
        ("declared_type", "declared_type", "VARCHAR"),
        ("description", "description", "VARCHAR"),
        ("COALESCE(tags, [])", "tags", "VARCHAR[]"),
        ("ingested_at", "ingested_at", "TIMESTAMP WITH TIME ZONE"),
    ]
}

/// The compile side's columns: the inferred type and position.
pub open spec fn compile_side_cols() -> Seq<(&'static str, &'static str, &'static str)> {
    seq![
        ("unique_id", "unique_id", "VARCHAR"),
        ("column_name", "column_name", "VARCHAR"),
        ("CAST(column_index AS BIGINT)", "column_index", "BIGINT"),
        ("column_type", "inferred_type", "VARCHAR"),
        ("description", "description", "VARCHAR"),
        ("COALESCE(classifiers, [])", "classifiers", "VARCHAR[]"),
        ("ingested_at", "ingested_at", "TIMESTAMP WITH TIME ZONE"),
    ]
}

/// The catalog side's columns: what the warehouse actually has.
pub open spec fn catalog_side_cols() -> Seq<(&'static str, &'static str, &'static str)> {
    seq![
        ("unique_id", "unique_id", "VARCHAR"),
        ("column_name", "column_name", "VARCHAR"),
        ("CAST(column_index AS BIGINT)", "column_index", "BIGINT"),
        ("catalog_type", "catalog_type", "VARCHAR"),
        ("catalog_comment", "catalog_comment", "VARCHAR"),
        ("ingested_at", "ingested_at", "TIMESTAMP WITH TIME ZONE"),
    ]
}

/// `base` followed by the liveness test on `unique_id` when liveness is known.
pub open spec fn with_alive(base: Seq<Seq<char>>, alive_exists: bool) -> Seq<Seq<char>> {
    if alive_exists { base.push(alive_test("unique_id"@)) } else { base }
}

/// The select bodies of `dbt.node_columns`.
pub open spec fn node_column_bodies() -> Seq<(&'static str, Seq<char>)> {
    seq![
        ("node_unique_id", base_field(".unique_id"@)),
        ("column_name", base_field(".column_name"@)),
        ("column_index", base_field(".column_index"@)),
        ("data_type_declared", base_field(".declared_type"@)),
        ("data_type_inferred", base_field(".inferred_type"@)),
        ("data_type_actual", base_field(".catalog_type"@)),
        ("data_type", base_field(".data_type"@)),
        ("description", base_field(".description"@)),
        ("tags", base_field(".tags"@)),
        ("classifiers", base_field(".classifiers"@)),
        ("comment", base_field(".catalog_comment"@)),
        ("ingested_at", base_field(".ingested_at"@)),
    ]
}

/// The three-way column merge: the parse side supplies the documented column,
/// the compile side its inferred type and position, the catalog side what the
/// warehouse has; each pass both updates matching rows and appends its own,
/// which is a FULL join, twice, in that order. The compile join is
/// case-insensitive on the column name and the catalog join is not.
pub open spec fn own_node_columns_spec(m: TableModel, present: Seq<&'static str>, alive_exists: bool) -> Result<(Seq<char>, Option<&'static str>), Seq<char>> {
    let parse = merge_side_sql("epoch_parse_columns", present, parse_side_cols(),
        with_alive(seq!["unique_id IS NOT NULL"@], alive_exists), None);
    let compile = merge_side_sql("epoch_compile_columns", present, compile_side_cols(),
        with_alive(seq!["unique_id IS NOT NULL"@, "column_name IS NOT NULL"@], alive_exists), Some("unique_id, lower(column_name)"));
    let catalog = merge_side_sql("epoch_catalog_columns", present, catalog_side_cols(),
        with_alive(seq!["unique_id IS NOT NULL"@, "column_name IS NOT NULL"@], alive_exists), Some("unique_id, column_name"));
    match cast_cols_spec(m, node_column_bodies()) {
        Err(e) => Err(e),
        Ok(cols) => Ok((
            header_sql(spec_qualified_name(m.ns, m.name@), cols) + MERGE_HEAD@ + parse + MERGE_AFTER_PARSE@ + compile
                + MERGE_AFTER_COMPILE@ + catalog + MERGE_TAIL@ + BASE@,
            None,
        )),
    }
}

fn merge_wheres(base: Vec<String>, alive_exists: bool) -> (r: Vec<String>)
    ensures
        string_views(r@) == with_alive(string_views(base@), alive_exists),
{
    let mut w = base;
    let ghost before = w@;
    if alive_exists {
        w.push(alive_filter("unique_id"));
        assert(string_views(w@) =~= string_views(before).push(alive_test("unique_id"@)));
    }
    w
}

fn own_node_columns(spec: &TableSpec, present: &[&'static str], alive_exists: bool) -> (r: Result<(String, Option<&'static str>), IndexError>)
    ensures
        match own_node_columns_spec(model_of(*spec), present@, alive_exists) {
            Ok((sql, reads)) => r is Ok && r->Ok_0.0@ == sql && r->Ok_0.1 == reads,
            Err(e) => r is Err && error_message(r->Err_0) == e,
        },
{
    let parse_cols: &[(&'static str, &'static str, &'static str)] = &[
        ("unique_id", "unique_id", "VARCHAR"),
        ("COALESCE(column_name, '')", "column_name", "VARCHAR"),
        ("declared_type", "declared_type", "VARCHAR"),
        ("description", "description", "VARCHAR"),
        ("COALESCE(tags, [])", "tags", "VARCHAR[]"),
        ("ingested_at", "ingested_at", "TIMESTAMP WITH TIME ZONE"),
    ];
    assert(parse_cols@ =~= parse_side_cols());
    let compile_cols: &[(&'static str, &'static str, &'static str)] = &[
        ("unique_id", "unique_id", "VARCHAR"),
        ("column_name", "column_name", "VARCHAR"),
        ("CAST(column_index AS BIGINT)", "column_index", "BIGINT"),
        ("column_type", "inferred_type", "VARCHAR"),
        ("description", "description", "VARCHAR"),
        ("COALESCE(classifiers, [])", "classifiers", "VARCHAR[]"),
        ("ingested_at", "ingested_at", "TIMESTAMP WITH TIME ZONE"),
    ];
    assert(compile_cols@ =~= compile_side_cols());
    let catalog_cols: &[(&'static str, &'static str, &'static str)] = &[
        ("unique_id", "unique_id", "VARCHAR"),
        ("column_name", "column_name", "VARCHAR"),
        ("CAST(column_index AS BIGINT)", "column_index", "BIGINT"),
        ("catalog_type", "catalog_type", "VARCHAR"),
        ("catalog_comment", "catalog_comment", "VARCHAR"),
        ("ingested_at", "ingested_at", "TIMESTAMP WITH TIME ZONE"),
    ];
    assert(catalog_cols@ =~= catalog_side_cols());
    let w0 = owned("unique_id IS NOT NULL");
    let pw = vec![w0];
    assert(string_views(pw@) =~= seq!["unique_id IS NOT NULL"@]);
    let parse = merge_side("epoch_parse_columns", present, parse_cols, &merge_wheres(pw, alive_exists), None);
    let w1 = owned("unique_id IS NOT NULL");
    let w2 = owned("column_name IS NOT NULL");
    let cw = vec![w1, w2];
    assert(string_views(cw@) =~= seq!["unique_id IS NOT NULL"@, "column_name IS NOT NULL"@]);
    let compile = merge_side(
        "epoch_compile_columns",
        present,
        compile_cols,
        &merge_wheres(cw, alive_exists),
        Some("unique_id, lower(column_name)"),
    );
    let w3 = owned("unique_id IS NOT NULL");
    let w4 = owned("column_name IS NOT NULL");
    let kw = vec![w3, w4];
    assert(string_views(kw@) =~= seq!["unique_id IS NOT NULL"@, "column_name IS NOT NULL"@]);
    let catalog = merge_side(
        "epoch_catalog_columns",
        present,
        catalog_cols,
        &merge_wheres(kw, alive_exists),
        Some("unique_id, column_name"),
    );
    let b0 = base_dot(".unique_id");
    let b1 = base_dot(".column_name");
    let b2 = base_dot(".column_index");
    let b3 = base_dot(".declared_type");
    let b4 = base_dot(".inferred_type");
    let b5 = base_dot(".catalog_type");
    let b6 = base_dot(".data_type");
    let b7 = base_dot(".description");
    let b8 = base_dot(".tags");
    let b9 = base_dot(".classifiers");
    let b10 = base_dot(".catalog_comment");
    let b11 = base_dot(".ingested_at");
    let bodies = vec![
        ("node_unique_id", b0),
        ("column_name", b1),
        ("column_index", b2),
        ("data_type_declared", b3),
        ("data_type_inferred", b4),
        ("data_type_actual", b5),
        ("data_type", b6),
        ("description", b7),
        ("tags", b8),
        ("classifiers", b9),
        ("comment", b10),
        ("ingested_at", b11),
    ];
    assert(body_views(bodies@) =~= node_column_bodies());
    let cols = match cast_cols(spec, &bodies) {
        Ok(c) => c,
        Err(e) => return Err(e),
    };
    let mut sql = header(spec.qualified_name().as_str(), &cols);
    sql.append(MERGE_HEAD);
    sql.append(parse.as_str());
    sql.append(MERGE_AFTER_PARSE);
    sql.append(compile.as_str());
    sql.append(MERGE_AFTER_COMPILE);
    sql.append(catalog.as_str());
    sql.append(MERGE_TAIL);
    sql.append(BASE);
    Ok((sql, None))
}

/// The bespoke SQL of a table written out by hand rather than derived from the
/// per-column mapping, with the epoch relation it reads; `None` for a table
/// that has none.
pub open spec fn own_sql_spec(m: TableModel, present: Seq<&'static str>, alive_exists: bool) -> Result<Option<(Seq<char>, Option<&'static str>)>, Seq<char>> {
    let r = if m.name@ == "classifiers"@ {
        Some(own_classifiers_spec(m))
    } else if m.name@ == "dag_nodes"@ {
        Some(own_dag_nodes_spec(m, alive_exists))
    } else if m.name@ == "project"@ {
        Some(own_project_spec(m, present))
    } else if m.name@ == "project_env_vars"@ {
        Some(own_env_vars_spec(m, present))
    } else if m.name@ == "project_vars"@ {
        Some(own_project_vars_spec(m, present))
    } else if m.name@ == "packages"@ {
        Some(own_packages_spec(m, present))
    } else if m.name@ == "node_columns"@ {
        Some(own_node_columns_spec(m, present, alive_exists))
    } else {
        None
    };
    match r {
        None => Ok(None),
        Some(Ok(v)) => Ok(Some(v)),
        Some(Err(e)) => Err(e),
    }
}

/// The output tables written out by hand rather than derived from the
/// per-column mapping: the assembled tables, and the ones whose staging source
/// is a single-row snapshot read field by field. Column names, order and types
/// still follow the output schema exactly, every column being cast.
fn own_sql(spec: &TableSpec, present: &[&'static str], alive_exists: bool) -> (r: Result<Option<(String, Option<&'static str>)>, IndexError>)
    ensures
        match own_sql_spec(model_of(*spec), present@, alive_exists) {
            Ok(None) => r is Ok && r->Ok_0 is None,
            Ok(Some((sql, reads))) => r is Ok && r->Ok_0 is Some && (r->Ok_0->0).0@ == sql && (r->Ok_0->0).1 == reads,
            Err(e) => r is Err && error_message(r->Err_0) == e,
        },
{
    let res = if str_eq(spec.name, "classifiers") {
        own_classifiers(spec)
    } else if str_eq(spec.name, "dag_nodes") {
        own_dag_nodes(spec, alive_exists)
    } else if str_eq(spec.name, "project") {
        own_project(spec, present)
    } else if str_eq(spec.name, "project_env_vars") {
        own_env_vars(spec, present)
    } else if str_eq(spec.name, "project_vars") {
        own_project_vars(spec, present)
    } else if str_eq(spec.name, "packages") {
        own_packages(spec, present)
    } else if str_eq(spec.name, "node_columns") {
        own_node_columns(spec, present, alive_exists)
    } else {
        return Ok(None);
    };
    match res {
        Ok(v) => Ok(Some(v)),
        Err(e) => Err(e),
    }
}


/// The staging tables the sourced columns `cols` resolve against, in order,
/// repeats kept.
pub open spec fn staging_owners(src: Src, cols: Seq<ColSpec>) -> Seq<&'static str>
    decreases cols.len(),
{
    if cols.len() == 0 {
        Seq::empty()
    } else {
        let c = cols.last();
        let rest = staging_owners(src, cols.drop_last());
        if c.ty is None && col_owner(src, c.src@) is Some {
            rest.push(col_owner(src, c.src@)->0)
        } else {
            rest
        }
    }
}

/// The staging tables a table's columns resolve against, distinct and in
/// increasing order.
pub open spec fn staging_of(m: TableModel) -> Seq<Seq<char>> {
    choose|s: Seq<Seq<char>>|
        strictly_sorted(s) && forall|x: Seq<char>| s.contains(x) <==> views(staging_owners(m.src, m.cols)).contains(x)
}

/// The staging tables a spec's columns resolve against, deduplicated.
fn staging_tables(spec: &TableSpec) -> (r: Vec<&'static str>)
    ensures
        views(r@) == staging_of(model_of(*spec)),
{
    let ghost m = model_of(*spec);
    let mut owners: Vec<&'static str> = Vec::new();
    let mut i: usize = 0;
    while i < spec.cols.len()
        invariant
            i <= spec.cols@.len(),
            m == model_of(*spec),
            owners@ == staging_owners(spec.src, spec.cols@.subrange(0, i as int)),
        decreases spec.cols@.len() - i,
    {
        let col = spec.cols[i];
        assert(spec.cols@.subrange(0, i + 1).drop_last() =~= spec.cols@.subrange(0, i as int));
        if col.ty.is_none() {
            match owning_table(spec, col.src) {
                Some(t) => owners.push(t),
                None => {},
            }
        }
        i += 1;
    }
    assert(spec.cols@.subrange(0, spec.cols@.len() as int) =~= spec.cols@);
    let r = sorted_distinct(&owners);
    proof {
        let w = views(r@);
        assert(strictly_sorted(w) && forall|x: Seq<char>| w.contains(x) <==> views(staging_owners(m.src, m.cols)).contains(x));
        let c = staging_of(m);
        lemma_sorted_unique(w, c);
    }
    r
}

/// What the staging tables' origins say about a table: the one epoch relation
/// it reads, the base rows to keep and prune, the join and the list to expand,
/// and the predicates guarding the right side's columns.
pub struct Scan {
    pub view: Option<&'static str>,
    pub keep: Option<&'static str>,
    pub alive_on: Option<&'static str>,
    pub join: Option<EpochJoin>,
    pub unnest: Option<Unnest>,
    pub guards: Seq<(Seq<char>, &'static str)>,
}

/// The first of two options that is set.
pub open spec fn either<T>(a: Option<T>, b: Option<T>) -> Option<T> {
    match a {
        Some(_) => a,
        None => b,
    }
}

/// The origins of the staging tables `tables`, read in order, of a table whose
/// base staging table is `base`; or why the table cannot be published from the
/// epoch files.
pub open spec fn scan_origins(tables: Seq<Seq<char>>, base: Seq<char>, qname: Seq<char>) -> Result<Scan, Seq<char>>
    decreases tables.len(),
{
    if tables.len() == 0 {
        Ok(Scan { view: None, keep: None, alive_on: None, join: None, unnest: None, guards: Seq::empty() })
    } else {
        match scan_origins(tables.drop_last(), base, qname) {
            Err(e) => Err(e),
            Ok(st) => {
                let table = tables.last();
                match origin_of(table) {
                    Some(Origin::Relation { view: v, keep: k, alive_on: a, join: j, unnest: u }) => {
                        if st.view is Some && st.view->0@ != v@ {
                            Err(qname + " reads two epoch relations"@)
                        } else {
                            Ok(Scan {
                                view: Some(v),
                                keep: if table == base { either(st.keep, k) } else { st.keep },
                                alive_on: if table == base { either(st.alive_on, a) } else { st.alive_on },
                                join: either(st.join, j),
                                unnest: either(st.unnest, u),
                                guards: if table != base && k is Some { st.guards.push((table, k->0)) } else { st.guards },
                            })
                        }
                    },
                    Some(Origin::Empty) => Ok(st),
                    Some(Origin::Custom) => Err(table + " needs bespoke SQL"@),
                    None => Err(table + " has no declared origin"@),
                }
            },
        }
    }
}

/// A failed prefix fails the whole scan with the same reason.
proof fn lemma_scan_err(tables: Seq<Seq<char>>, base: Seq<char>, qname: Seq<char>, k: int)
    requires
        0 <= k <= tables.len(),
        scan_origins(tables.subrange(0, k), base, qname) is Err,
    ensures
        scan_origins(tables, base, qname) == scan_origins(tables.subrange(0, k), base, qname),
    decreases tables.len(),
{
    if k == tables.len() {
        assert(tables.subrange(0, k) =~= tables);
    } else {
        assert(tables.drop_last().subrange(0, k) =~= tables.subrange(0, k));
        lemma_scan_err(tables.drop_last(), base, qname, k);
    }
}

/// The base staging table of a sourced table.
pub open spec fn base_table_of(src: Src) -> Seq<char> {
    match src {
        Src::Table(t) => t@,
        Src::Join { left, .. } => left@,
        Src::Own => Seq::empty(),
    }
}

/// The join a view carries: the origins' join when its relation has files,
/// none otherwise, matching the ingest's empty lookup for a missing relation.
pub open spec fn present_join(join: Option<EpochJoin>, present: Seq<&'static str>) -> Option<EpochJoin> {
    match join {
        Some(j) => if contains_str(present, j.view@) { Some(j) } else { None },
        None => None,
    }
}

/// The row filters of a derived view: liveness, the base row filter, the
/// element filter, and the declared resource types, in that order.
pub open spec fn derived_wheres(st: Scan, alive_exists: bool, filter: Filter) -> Seq<Seq<char>> {
    let alive = match st.alive_on {
        Some(on) => if alive_exists { seq![alive_test(base_field("."@ + on@))] } else { Seq::empty() },
        None => Seq::empty(),
    };
    let keep = match st.keep {
        Some(k) => seq![k@],
        None => Seq::empty(),
    };
    let elem = match st.unnest {
        Some(u) => match u.keep {
            Some(k) => seq![k@],
            None => Seq::empty(),
        },
        None => Seq::empty(),
    };
    let types = match filter {
        Filter::ResourceTypeIn(ts) => seq![base_field(".resource_type IN ("@) + join_seq(sql_literals(ts@), ", "@) + ")"@],
        Filter::All => Seq::empty(),
    };
    alive + keep + elem + types
}

/// The lines after the select list of a derived view: the base relation, the
/// lateral expansion, the join, then the row filters.
pub open spec fn derived_lines(view: &'static str, st: Scan, join: Option<EpochJoin>, alive_exists: bool, filter: Filter) -> Seq<Seq<char>> {
    let from = seq!["FROM dbt_internal."@ + view@ + " "@ + BASE@];
    let unnest = match st.unnest {
        Some(u) => seq!["  , unnest("@ + u.list@ + ") AS "@ + ELEM_REL@],
        None => Seq::empty(),
    };
    let joined = match join {
        Some(j) => seq!["LEFT JOIN dbt_internal."@ + j.view@ + " "@ + JOINED@ + " ON "@ + BASE@ + "."@ + j.on@ + " = "@
            + JOINED@ + "."@ + j.on@],
        None => Seq::empty(),
    };
    let ws = derived_wheres(st, alive_exists, filter);
    from + unnest + joined + Seq::new(ws.len(), |i: int| (if i == 0 { "WHERE "@ } else { "  AND "@ }) + ws[i])
}

/// A table's view over the epoch files, with the relation it reads; or why it
/// cannot be published from them. The outer error is a table without an output
/// schema.
pub open spec fn table_view_spec(
    m: TableModel,
    present: Seq<&'static str>,
    alive_exists: bool,
) -> Result<Result<(Seq<char>, Option<&'static str>), Seq<char>>, Seq<char>> {
    let qn = spec_qualified_name(m.ns, m.name@);
    match own_sql_spec(m, present, alive_exists) {
        Err(e) => Err(e),
        Ok(Some(v)) => Ok(Ok(v)),
        Ok(None) => if m.src is Own {
            Ok(Err(qn + " is assembled in Rust"@))
        } else {
            match scan_origins(staging_of(m), base_table_of(m.src), qn) {
                Err(why) => Ok(Err(why)),
                Ok(st) => {
                    let join = present_join(st.join, present);
                    match resolve_cols_spec(m, join is Some, st.guards) {
                        Err(e) => Err(e),
                        Ok(Err(why)) => Ok(Err(why)),
                        Ok(Ok(cols)) => match st.view {
                            None => Ok(Ok((header_sql(qn, cols) + "WHERE FALSE"@, None))),
                            Some(view) => if st.unnest is Some && join is Some {
                                Ok(Err(qn + " would unnest and join at once"@))
                            } else {
                                Ok(Ok((
                                    header_sql(qn, cols) + join_seq(derived_lines(view, st, join, alive_exists, m.filter), "\n"@),
                                    Some(view),
                                )))
                            },
                        },
                    }
                },
            }
        },
    }
}


/// What the origins of a table's staging tables say, as the generator holds it.
struct ScanState {
    view: Option<&'static str>,
    keep: Option<&'static str>,
    alive_on: Option<&'static str>,
    join: Option<EpochJoin>,
    unnest: Option<Unnest>,
    guards: Vec<(&'static str, &'static str)>,
}

/// The scan a state stands for.
spec fn scan_of(s: ScanState) -> Scan {
    Scan { view: s.view, keep: s.keep, alive_on: s.alive_on, join: s.join, unnest: s.unnest, guards: guard_views(s.guards@) }
}

fn or_opt<T: Copy>(a: Option<T>, b: Option<T>) -> (r: Option<T>)
    ensures
        r == either(a, b),
{
    match a {
        Some(_) => a,
        None => b,
    }
}

/// Read the origins of `tables` in order.
///
/// The row predicate does one of two jobs depending on which side of the spec
/// its table is on. For the base table it selects rows. For the right side of a
/// join it cannot: the join is a LEFT join, so a node with no row on the right
/// still appears, with that table's columns null; there the same predicate
/// guards the columns instead.
fn scan(tables: &Vec<&'static str>, base: &str, qname: &str) -> (r: Result<ScanState, String>)
    ensures
        match scan_origins(views(tables@), base@, qname@) {
            Ok(st) => r is Ok && scan_of(r->Ok_0) == st,
            Err(why) => r is Err && r->Err_0@ == why,
        },
{
    let ghost ts = views(tables@);
    let mut st = ScanState { view: None, keep: None, alive_on: None, join: None, unnest: None, guards: Vec::new() };
    assert(ts.subrange(0, 0) =~= Seq::<Seq<char>>::empty());
    assert(guard_views(st.guards@) =~= Seq::<(Seq<char>, &'static str)>::empty());
    let mut i: usize = 0;
    while i < tables.len()
        invariant
            i <= tables@.len(),
            ts == views(tables@),
            scan_origins(ts.subrange(0, i as int), base@, qname@) == Ok::<Scan, Seq<char>>(scan_of(st)),
        decreases tables@.len() - i,
    {
        let table = tables[i];
        assert(ts.subrange(0, i + 1).drop_last() =~= ts.subrange(0, i as int));
        assert(ts.subrange(0, i + 1).last() == table@);
        match origin(table) {
            Some(Origin::Relation { view: v, keep: k, alive_on: a, join: j, unnest: u }) => {
                let clash = match st.view {
                    Some(prev) => !str_eq(prev, v),
                    None => false,
                };
                if clash {
                    let mut why = owned(qname);
                    why.append(" reads two epoch relations");
                    proof { lemma_scan_err(ts, base@, qname@, i + 1); }
                    return Err(why);
                }
                st.view = Some(v);
                if str_eq(table, base) {
                    st.keep = or_opt(st.keep, k);
                    st.alive_on = or_opt(st.alive_on, a);
                } else {
                    match k {
                        Some(kk) => {
                            let ghost before = st.guards@;
                            st.guards.push((table, kk));
                            assert(guard_views(st.guards@) =~= guard_views(before).push((table@, kk)));
                        },
                        None => {},
                    }
                }
                st.join = or_opt(st.join, j);
                st.unnest = or_opt(st.unnest, u);
            },
            Some(Origin::Empty) => {},
            Some(Origin::Custom) => {
                let mut why = owned(table);
                why.append(" needs bespoke SQL");
                proof { lemma_scan_err(ts, base@, qname@, i + 1); }
                return Err(why);
            },
            None => {
                let mut why = owned(table);
                why.append(" has no declared origin");
                proof { lemma_scan_err(ts, base@, qname@, i + 1); }
                return Err(why);
            },
        }
        i += 1;
    }
    assert(ts.subrange(0, ts.len() as int) =~= ts);
    Ok(st)
}

/// The row filters of a derived view.
fn derived_filters(st: &ScanState, alive_exists: bool, filter: Filter) -> (r: Vec<String>)
    ensures
        string_views(r@) == derived_wheres(scan_of(*st), alive_exists, filter),
{
    let mut ws: Vec<String> = Vec::new();
    match st.alive_on {
        Some(on) => if alive_exists {
            let mut col = owned(".");
            col.append(on);
            ws.push(alive_filter(base_dot(col.as_str()).as_str()));
        },
        None => {},
    }
    match st.keep {
        Some(k) => ws.push(owned(k)),
        None => {},
    }
    match st.unnest {
        Some(u) => match u.keep {
            Some(k) => ws.push(owned(k)),
            None => {},
        },
        None => {},
    }
    match filter {
        Filter::ResourceTypeIn(types) => {
            let mut w = base_dot(".resource_type IN (");
            w.append(literal_list(types).as_str());
            w.append(")");
            ws.push(w);
        },
        Filter::All => {},
    }
    assert(string_views(ws@) =~= derived_wheres(scan_of(*st), alive_exists, filter));
    ws
}

/// The lines after the select list of a derived view.
fn derived(view: &'static str, st: &ScanState, rel_join: Option<EpochJoin>, alive_exists: bool, filter: Filter) -> (r: String)
    ensures
        r@ == join_seq(derived_lines(view, scan_of(*st), rel_join, alive_exists, filter), "\n"@),
{
    let mut lines: Vec<String> = Vec::new();
    let mut from = owned("FROM dbt_internal.");
    from.append(view);
    from.append(" ");
    from.append(BASE);
    lines.push(from);
    match st.unnest {
        Some(u) => {
            let mut l = owned("  , unnest(");
            l.append(u.list);
            l.append(") AS ");
            l.append(ELEM_REL);
            lines.push(l);
        },
        None => {},
    }
    match rel_join {
        Some(j) => {
            let mut l = owned("LEFT JOIN dbt_internal.");
            l.append(j.view);
            l.append(" ");
            l.append(JOINED);
            l.append(" ON ");
            l.append(BASE);
            l.append(".");
            l.append(j.on);
            l.append(" = ");
            l.append(JOINED);
            l.append(".");
            l.append(j.on);
            lines.push(l);
        },
        None => {},
    }
    let ws = derived_filters(st, alive_exists, filter);
    let ghost wsv = derived_wheres(scan_of(*st), alive_exists, filter);
    let ghost head = string_views(lines@);
    let mut i: usize = 0;
    while i < ws.len()
        invariant
            i <= ws@.len(),
            string_views(ws@) == wsv,
            string_views(lines@) == head + Seq::new(i as nat, |k: int| (if k == 0 { "WHERE "@ } else { "  AND "@ }) + wsv[k]),
        decreases ws@.len() - i,
    {
        let mut l = if i == 0 { owned("WHERE ") } else { owned("  AND ") };
        l.append(ws[i].as_str());
        let ghost before = string_views(lines@);
        assert(ws@[i as int]@ == wsv[i as int]);
        assert(l@ == (if i == 0 { "WHERE "@ } else { "  AND "@ }) + wsv[i as int]);
        lines.push(l);
        assert(string_views(lines@) =~= before.push(l@));
        assert(string_views(lines@) =~= head + Seq::new((i + 1) as nat, |k: int| (if k == 0 { "WHERE "@ } else { "  AND "@ }) + wsv[k]));
        i += 1;
    }
    assert(string_views(lines@) =~= derived_lines(view, scan_of(*st), rel_join, alive_exists, filter));
    join(&lines, "\n")
}

/// `CREATE OR REPLACE VIEW <ns>.<name> AS ...` plus the epoch relation it
/// reads, or the reason the table cannot be published from the epoch files.
///
/// Bespoke SQL first; then every staging column of the table must come from
/// one base epoch relation. A join whose relation has no files is dropped
/// rather than skipping the table, as the ingest publishes the same table with
/// the joined columns unset. The lateral expansion and the join are never
/// emitted together. Liveness is a semi-join on the alive set, omitted when
/// that set has not been written, which prunes nothing.
fn table_view_sql(spec: &TableSpec, present: &[&'static str], alive_exists: bool) -> (r: Result<Result<(String, Option<&'static str>), String>, IndexError>)
    ensures
        match table_view_spec(model_of(*spec), present@, alive_exists) {
            Err(e) => r is Err && error_message(r->Err_0) == e,
            Ok(Err(why)) => r is Ok && r->Ok_0 is Err && r->Ok_0->Err_0@ == why,
            Ok(Ok((sql, reads))) => r is Ok && r->Ok_0 is Ok && r->Ok_0->Ok_0.0@ == sql && r->Ok_0->Ok_0.1 == reads,
        },
{
    let ghost m = model_of(*spec);
    match own_sql(spec, present, alive_exists) {
        Err(e) => return Err(e),
        Ok(Some(v)) => return Ok(Ok(v)),
        Ok(None) => {},
    }
    let qname = spec.qualified_name();
    let base: &'static str = match spec.src {
        Src::Table(t) => t,
        Src::Join { left, .. } => left,
        Src::Own => {
            let mut why = qname;
            why.append(" is assembled in Rust");
            return Ok(Err(why));
        },
    };
    let tables = staging_tables(spec);
    let st = match scan(&tables, base, qname.as_str()) {
        Ok(st) => st,
        Err(why) => return Ok(Err(why)),
    };
    let join = match st.join {
        Some(j) => if slice_contains(present, j.view) { Some(j) } else { None },
        None => None,
    };
    let cols = match resolve_cols(spec, join.is_some(), &st.guards) {
        Err(e) => return Err(e),
        Ok(Err(why)) => return Ok(Err(why)),
        Ok(Ok(cols)) => cols,
    };
    let mut sql = header(qname.as_str(), &cols);
    match st.view {
        None => {
            sql.append("WHERE FALSE");
            Ok(Ok((sql, None)))
        },
        Some(view) => {
            if st.unnest.is_some() && join.is_some() {
                let mut why = qname;
                why.append(" would unnest and join at once");
                return Ok(Err(why));
            }
            sql.append(derived(view, &st, join, alive_exists, spec.filter).as_str());
            Ok(Ok((sql, Some(view))))
        },
    }
}


/// A generated view file plus what it could not cover.
#[derive(Debug)]
pub struct Generated {
    /// The file contents.
    pub sql: String,
    /// The same statements one by one, in order, for a caller that executes
    /// rather than writes them. Kept beside `sql` rather than split back out of
    /// it: splitting SQL on `;` is only correct until a literal contains one.
    pub statements: Vec<String>,
    /// Qualified names of the output tables with no view in `sql`.
    pub skipped: Vec<String>,
}

/// The statements, each followed by `term`, one after another.
pub open spec fn terminated(stmts: Seq<Seq<char>>, term: Seq<char>) -> Seq<char>
    decreases stmts.len(),
{
    if stmts.len() == 0 {
        Seq::empty()
    } else {
        terminated(stmts.drop_last(), term) + stmts.last() + term
    }
}

/// The relations of `rels` whose view is in `with_files`, in order.
pub open spec fn present_relations(rels: Seq<EpochRelation>, with_files: Seq<&str>) -> Seq<EpochRelation>
    decreases rels.len(),
{
    if rels.len() == 0 {
        Seq::empty()
    } else {
        let rest = present_relations(rels.drop_last(), with_files);
        if contains_str(with_files, rels.last().view@) { rest.push(rels.last()) } else { rest }
    }
}

/// The file's opening comment.
pub open spec fn file_comment(metadata_dir: Seq<char>) -> Seq<char> {
    "-- dbt information schema v"@ + version_text() + ", as views over the epoch files under\n-- "@ + metadata_dir
        + "\n-- Generated; edits are overwritten. Same schemas, tables, columns and\n-- column order as views.sql, which reads the parquet snapshot instead.\n\n"@
}

/// `CREATE SCHEMA IF NOT EXISTS` for every namespace, in publication order.
pub open spec fn schema_statements() -> Seq<Seq<char>> {
    seq![
        "CREATE SCHEMA IF NOT EXISTS "@ + ns_prefix(Ns::Dbt),
        "CREATE SCHEMA IF NOT EXISTS "@ + ns_prefix(Ns::DbtRt),
        "CREATE SCHEMA IF NOT EXISTS "@ + ns_prefix(Ns::DbtInternal),
    ]
}

/// What one output table contributes: its view, or nothing when it is skipped,
/// either because the mapping cannot express it or because the relation it
/// reads has no files.
pub open spec fn table_outcome(m: TableModel, present: Seq<&'static str>, alive_exists: bool) -> Result<Option<Seq<char>>, Seq<char>> {
    match table_view_spec(m, present, alive_exists) {
        Err(e) => Err(e),
        Ok(Err(_)) => Ok(None),
        Ok(Ok((sql, reads))) => match reads {
            Some(r) => if contains_str(present, r@) { Ok(Some(sql)) } else { Ok(None) },
            None => Ok(Some(sql)),
        },
    }
}

/// The views and the skipped names of the tables `ms`, in schema order.
pub open spec fn tables_fold(ms: Seq<TableModel>, present: Seq<&'static str>, alive_exists: bool) -> Result<(Seq<Seq<char>>, Seq<Seq<char>>), Seq<char>>
    decreases ms.len(),
{
    if ms.len() == 0 {
        Ok((Seq::empty(), Seq::empty()))
    } else {
        match tables_fold(ms.drop_last(), present, alive_exists) {
            Err(e) => Err(e),
            Ok((views, skipped)) => {
                let m = ms.last();
                match table_outcome(m, present, alive_exists) {
                    Err(e) => Err(e),
                    Ok(Some(v)) => Ok((views.push(v), skipped)),
                    Ok(None) => Ok((views, skipped.push(spec_qualified_name(m.ns, m.name@)))),
                }
            },
        }
    }
}

/// The whole generated file for `metadata_dir`, given the views of the
/// relations that have files there.
pub open spec fn generated_spec(metadata_dir: Seq<char>, with_files: Seq<&str>) -> Result<(Seq<char>, Seq<Seq<char>>, Seq<Seq<char>>), Seq<char>> {
    let rels = present_relations(epoch_relations_model(), with_files);
    let rel_stmts = Seq::new(rels.len(), |i: int| crate::epoch::relation_view_sql(rels[i], metadata_dir));
    let present = Seq::new(rels.len(), |i: int| rels[i].view);
    let alive_exists = contains_str(present, "epoch_parse_alive"@);
    match tables_fold(info_schema_model(), present, alive_exists) {
        Err(e) => Err(e),
        Ok((views, skipped)) => Ok((
            file_comment(metadata_dir) + terminated(schema_statements(), ";\n"@) + "\n"@ + terminated(rel_stmts, ";\n\n"@)
                + terminated(views, ";\n\n"@),
            schema_statements() + rel_stmts + views,
            skipped,
        )),
    }
}

/// The relations with files are exactly those of `rels` whose view is named
/// in `with_files`, in order.
proof fn lemma_present_relations(rels: Seq<EpochRelation>, with_files: Seq<&str>)
    ensures
        forall|x: EpochRelation| present_relations(rels, with_files).contains(x)
            <==> (rels.contains(x) && contains_str(with_files, x.view@)),
    decreases rels.len(),
{
    if rels.len() > 0 {
        let prev = rels.drop_last();
        let y = rels.last();
        lemma_present_relations(prev, with_files);
        let rest = present_relations(prev, with_files);
        let all = present_relations(rels, with_files);
        assert(all == if contains_str(with_files, y.view@) { rest.push(y) } else { rest });
        assert forall|x: EpochRelation| rels.contains(x) <==> (prev.contains(x) || x == y) by {
            if rels.contains(x) {
                let k = choose|k: int| 0 <= k < rels.len() && rels[k] == x;
                if k < prev.len() {
                    assert(prev[k] == x);
                }
            }
            if prev.contains(x) {
                let k = choose|k: int| 0 <= k < prev.len() && prev[k] == x;
                assert(rels[k] == x);
            }
            if x == y {
                assert(rels[rels.len() - 1] == x);
            }
        }
        assert forall|x: EpochRelation| rest.push(y).contains(x) <==> (rest.contains(x) || x == y) by {
            let w = rest.push(y);
            if w.contains(x) {
                let k = choose|k: int| 0 <= k < w.len() && w[k] == x;
                if k < rest.len() {
                    assert(rest[k] == x);
                }
            }
            if rest.contains(x) {
                let k = choose|k: int| 0 <= k < rest.len() && rest[k] == x;
                assert(w[k] == x);
            }
            if x == y {
                assert(w[rest.len() as int] == x);
            }
        }
    }
}

/// The statements of a generated file: the schema statements, then one per
/// relation with files, then the views.
proof fn lemma_relation_block(rp: Seq<EpochRelation>, metadata_dir: Seq<char>, views: Seq<Seq<char>>)
    ensures
        ({
            let rel_stmts = Seq::new(rp.len(), |i: int| crate::epoch::relation_view_sql(rp[i], metadata_dir));
            let statements = schema_statements() + rel_stmts + views;
            forall|q: int| 0 <= q < rp.len() ==> #[trigger] statements[3 + q] == crate::epoch::relation_view_sql(rp[q], metadata_dir)
        }),
{
    let rel_stmts = Seq::new(rp.len(), |i: int| crate::epoch::relation_view_sql(rp[i], metadata_dir));
    let statements = schema_statements() + rel_stmts + views;
    assert(schema_statements().len() == 3);
    assert forall|q: int| 0 <= q < rp.len() implies #[trigger] statements[3 + q] == crate::epoch::relation_view_sql(rp[q], metadata_dir) by {
        assert(statements[3 + q] == rel_stmts[q]);
    }
}

/// Statements holding the views of the relations with files right after
/// three others hold each such view, and only views of relations with files
/// there.
proof fn lemma_relation_statements(rels: Seq<EpochRelation>, with_files: Seq<&str>, statements: Seq<Seq<char>>, metadata_dir: Seq<char>)
    requires
        statements.len() >= 3 + present_relations(rels, with_files).len(),
        forall|q: int| 0 <= q < present_relations(rels, with_files).len() ==> #[trigger] statements[3 + q]
            == crate::epoch::relation_view_sql(present_relations(rels, with_files)[q], metadata_dir),
    ensures
        forall|r: int| 0 <= r < rels.len() && contains_str(with_files, (#[trigger] rels[r]).view@)
            ==> statements.contains(crate::epoch::relation_view_sql(rels[r], metadata_dir)),
        forall|q: int| 0 <= q < present_relations(rels, with_files).len() ==> {
            let x = #[trigger] present_relations(rels, with_files)[q];
            &&& rels.contains(x)
            &&& contains_str(with_files, x.view@)
            &&& statements[3 + q] == crate::epoch::relation_view_sql(x, metadata_dir)
        },
{
    let rp = present_relations(rels, with_files);
    lemma_present_relations(rels, with_files);
    assert forall|r: int| 0 <= r < rels.len() && contains_str(with_files, (#[trigger] rels[r]).view@)
        implies statements.contains(crate::epoch::relation_view_sql(rels[r], metadata_dir)) by {
        assert(rels.contains(rels[r]));
        assert(rp.contains(rels[r]));
        let q = choose|q: int| 0 <= q < rp.len() && rp[q] == rels[r];
        assert(statements[3 + q] == crate::epoch::relation_view_sql(rp[q], metadata_dir));
    }
    assert forall|q: int| 0 <= q < rp.len() implies rels.contains(#[trigger] rp[q]) && contains_str(with_files, rp[q].view@) by {
        assert(rp.contains(rp[q]));
    }
}

/// The statements of the generated file for `metadata_dir`, given the views
/// of the relations that have files there.
#[verifier::opaque]
pub open spec fn generated_statements(metadata_dir: Seq<char>, with_files: Seq<&str>) -> Seq<Seq<char>> {
    generated_spec(metadata_dir, with_files)->Ok_0.1
}

#[verifier::spinoff_prover]
proof fn lemma_generated_relation_statements(metadata_dir: Seq<char>, with_files: Seq<&str>)
    requires
        generated_spec(metadata_dir, with_files) is Ok,
    ensures
        generated_statements(metadata_dir, with_files).len() >= 3 + present_relations(epoch_relations_model(), with_files).len(),
        forall|q: int| 0 <= q < present_relations(epoch_relations_model(), with_files).len() ==> #[trigger] generated_statements(metadata_dir, with_files)[3 + q]
            == crate::epoch::relation_view_sql(present_relations(epoch_relations_model(), with_files)[q], metadata_dir),
{
    reveal(generated_statements);
    let rp = present_relations(epoch_relations_model(), with_files);
    let rel_stmts = Seq::new(rp.len(), |i: int| crate::epoch::relation_view_sql(rp[i], metadata_dir));
    let present = Seq::new(rp.len(), |i: int| rp[i].view);
    let alive_exists = contains_str(present, "epoch_parse_alive"@);
    let views = tables_fold(info_schema_model(), present, alive_exists)->Ok_0.0;
    assert(generated_statements(metadata_dir, with_files) == schema_statements() + rel_stmts + views);
    lemma_relation_block(rp, metadata_dir, views);
}

/// The generated statements carry one view per epoch relation that has
/// files, and only those: right after the three schema statements come the
/// views of the relations named in `with_files`, in declaration order, so a
/// relation's view is among the statements whenever it has files, and every
/// relation view there is that of a relation with files.
pub proof fn relations_with_files_get_their_views(metadata_dir: Seq<char>, with_files: Seq<&str>)
    requires
        generated_spec(metadata_dir, with_files) is Ok,
    ensures
        forall|r: int| 0 <= r < epoch_relations_model().len()
            && contains_str(with_files, (#[trigger] epoch_relations_model()[r]).view@)
            ==> generated_statements(metadata_dir, with_files).contains(crate::epoch::relation_view_sql(epoch_relations_model()[r], metadata_dir)),
        forall|q: int| 0 <= q < present_relations(epoch_relations_model(), with_files).len() ==> {
            let x = #[trigger] present_relations(epoch_relations_model(), with_files)[q];
            &&& epoch_relations_model().contains(x)
            &&& contains_str(with_files, x.view@)
            &&& generated_statements(metadata_dir, with_files)[3 + q] == crate::epoch::relation_view_sql(x, metadata_dir)
        },
{
    lemma_generated_relation_statements(metadata_dir, with_files);
    lemma_relation_statements(epoch_relations_model(), with_files, generated_statements(metadata_dir, with_files), metadata_dir);
}

/// Generating views accounts for every table exactly once: each table of the
/// schema either contributes its view or is skipped, by its qualified name;
/// every skipped name is that of a table without a view; and there are as
/// many views and skipped names together as tables.
pub proof fn each_table_is_viewed_or_skipped(ms: Seq<TableModel>, present: Seq<&'static str>, alive_exists: bool)
    requires
        tables_fold(ms, present, alive_exists) is Ok,
    ensures
        ({
            let (views, skipped) = tables_fold(ms, present, alive_exists)->Ok_0;
            &&& views.len() + skipped.len() == ms.len()
            &&& forall|k: int| 0 <= k < ms.len() ==> (#[trigger] table_outcome(ms[k], present, alive_exists)) is Ok
            &&& forall|k: int| 0 <= k < ms.len() && (#[trigger] table_outcome(ms[k], present, alive_exists)) == Ok::<Option<Seq<char>>, Seq<char>>(None)
                ==> skipped.contains(spec_qualified_name(ms[k].ns, ms[k].name@))
            &&& forall|k: int| 0 <= k < ms.len() ==> ((#[trigger] table_outcome(ms[k], present, alive_exists)) matches Ok(Some(v))
                ==> views.contains(v))
            &&& forall|s: int| #![trigger skipped[s]] 0 <= s < skipped.len() ==> exists|k: int| 0 <= k < ms.len()
                && (#[trigger] table_outcome(ms[k], present, alive_exists)) == Ok::<Option<Seq<char>>, Seq<char>>(None)
                && spec_qualified_name(ms[k].ns, ms[k].name@) == skipped[s]
        }),
    decreases ms.len(),
{
    if ms.len() > 0 {
        let prev = ms.drop_last();
        assert(tables_fold(prev, present, alive_exists) is Ok);
        each_table_is_viewed_or_skipped(prev, present, alive_exists);
        let (pv, ps) = tables_fold(prev, present, alive_exists)->Ok_0;
        let (views, skipped) = tables_fold(ms, present, alive_exists)->Ok_0;
        let last = ms.len() - 1;
        assert(ms[last] == ms.last());
        assert forall|k: int| 0 <= k < prev.len() implies #[trigger] ms[k] == prev[k] by {}
        assert forall|k: int| 0 <= k < ms.len() implies (#[trigger] table_outcome(ms[k], present, alive_exists)) is Ok by {
            if k < prev.len() {
                assert(ms[k] == prev[k]);
                assert(table_outcome(prev[k], present, alive_exists) is Ok);
            }
        }
        assert forall|k: int| 0 <= k < ms.len() && (#[trigger] table_outcome(ms[k], present, alive_exists)) == Ok::<Option<Seq<char>>, Seq<char>>(None)
            implies skipped.contains(spec_qualified_name(ms[k].ns, ms[k].name@)) by {
            if k < prev.len() {
                assert(ms[k] == prev[k]);
                assert(ps.contains(spec_qualified_name(prev[k].ns, prev[k].name@)));
                let s = choose|s: int| 0 <= s < ps.len() && ps[s] == spec_qualified_name(prev[k].ns, prev[k].name@);
                assert(skipped[s] == ps[s]);
            } else {
                assert(skipped[skipped.len() - 1] == spec_qualified_name(ms[k].ns, ms[k].name@));
            }
        }
        assert forall|k: int| 0 <= k < ms.len() implies ((#[trigger] table_outcome(ms[k], present, alive_exists)) matches Ok(Some(v))
            ==> views.contains(v)) by {
            if k < prev.len() && table_outcome(ms[k], present, alive_exists) is Ok && table_outcome(ms[k], present, alive_exists)->Ok_0 is Some {
                let v = table_outcome(ms[k], present, alive_exists)->Ok_0->0;
                assert(ms[k] == prev[k]);
                assert(pv.contains(v));
                let s = choose|s: int| 0 <= s < pv.len() && pv[s] == v;
                assert(views[s] == pv[s]);
            } else if table_outcome(ms[k], present, alive_exists) is Ok && table_outcome(ms[k], present, alive_exists)->Ok_0 is Some {
                assert(views[views.len() - 1] == table_outcome(ms[k], present, alive_exists)->Ok_0->0);
            }
        }
        assert forall|s: int| #![trigger skipped[s]] 0 <= s < skipped.len() implies exists|k: int| 0 <= k < ms.len()
            && (#[trigger] table_outcome(ms[k], present, alive_exists)) == Ok::<Option<Seq<char>>, Seq<char>>(None)
            && spec_qualified_name(ms[k].ns, ms[k].name@) == skipped[s] by {
            if s < ps.len() {
                assert(skipped[s] == ps[s]);
                let k = choose|k: int| 0 <= k < prev.len()
                    && (#[trigger] table_outcome(prev[k], present, alive_exists)) == Ok::<Option<Seq<char>>, Seq<char>>(None)
                    && spec_qualified_name(prev[k].ns, prev[k].name@) == ps[s];
                assert(ms[k] == prev[k]);
            } else {
                assert(table_outcome(ms[last], present, alive_exists) == Ok::<Option<Seq<char>>, Seq<char>>(None));
            }
        }
    }
}

/// An error part way through the tables is the error of all of them.
proof fn lemma_tables_fold_err(ms: Seq<TableModel>, present: Seq<&'static str>, alive_exists: bool, k: int)
    requires
        0 <= k <= ms.len(),
        tables_fold(ms.subrange(0, k), present, alive_exists) is Err,
    ensures
        tables_fold(ms, present, alive_exists) == tables_fold(ms.subrange(0, k), present, alive_exists),
    decreases ms.len(),
{
    if k == ms.len() {
        assert(ms.subrange(0, k) =~= ms);
    } else {
        assert(ms.drop_last().subrange(0, k) =~= ms.subrange(0, k));
        lemma_tables_fold_err(ms.drop_last(), present, alive_exists, k);
    }
}

/// Append each statement followed by `term`.
fn append_terminated(sql: &mut String, stmts: &Vec<String>, term: &str)
    ensures
        final(sql)@ == old(sql)@ + terminated(string_views(stmts@), term@),
{
    let ghost start = sql@;
    let mut i: usize = 0;
    assert(string_views(stmts@).subrange(0, 0) =~= Seq::<Seq<char>>::empty());
    while i < stmts.len()
        invariant
            i <= stmts@.len(),
            sql@ == start + terminated(string_views(stmts@).subrange(0, i as int), term@),
        decreases stmts@.len() - i,
    {
        let ghost all = string_views(stmts@);
        assert(all.subrange(0, i + 1).drop_last() =~= all.subrange(0, i as int));
        assert(all.subrange(0, i + 1).last() == stmts@[i as int]@);
        sql.append(stmts[i].as_str());
        sql.append(term);
        i += 1;
    }
    assert(string_views(stmts@).subrange(0, stmts@.len() as int) =~= string_views(stmts@));
}

/// What one output table contributes to the generated file.
fn table_contribution(spec: &TableSpec, present: &[&'static str], alive_exists: bool) -> (r: Result<Option<String>, IndexError>)
    ensures
        match table_outcome(model_of(*spec), present@, alive_exists) {
            Err(e) => r is Err && error_message(r->Err_0) == e,
            Ok(None) => r is Ok && r->Ok_0 is None,
            Ok(Some(v)) => r is Ok && r->Ok_0 is Some && r->Ok_0->0@ == v,
        },
{
    match table_view_sql(spec, present, alive_exists) {
        Err(e) => Err(e),
        Ok(Err(_)) => Ok(None),
        Ok(Ok((view_sql, reads))) => match reads {
            Some(rd) => if slice_contains(present, rd) { Ok(Some(view_sql)) } else { Ok(None) },
            None => Ok(Some(view_sql)),
        },
    }
}

/// The views and skipped names of every output table.
fn tables_part(present: &[&'static str], alive_exists: bool) -> (r: Result<(Vec<String>, Vec<String>), IndexError>)
    ensures
        match tables_fold(info_schema_model(), present@, alive_exists) {
            Ok((v, k)) => r is Ok && string_views(r->Ok_0.0@) == v && string_views(r->Ok_0.1@) == k,
            Err(e) => r is Err && error_message(r->Err_0) == e,
        },
{
    let all = info_schema();
    let ghost ms = info_schema_model();
    let mut views: Vec<String> = Vec::new();
    let mut skipped: Vec<String> = Vec::new();
    let mut j: usize = 0;
    assert(ms.subrange(0, 0) =~= Seq::<TableModel>::empty());
    assert(string_views(views@) =~= Seq::<Seq<char>>::empty());
    assert(string_views(skipped@) =~= Seq::<Seq<char>>::empty());
    while j < all.len()
        invariant
            j <= all@.len(),
            ms == info_schema_model(),
            all@.len() == ms.len(),
            forall|k: int| 0 <= k < all@.len() ==> model_of(#[trigger] all@[k]) == ms[k],
            tables_fold(ms.subrange(0, j as int), present@, alive_exists)
                == Ok::<(Seq<Seq<char>>, Seq<Seq<char>>), Seq<char>>((string_views(views@), string_views(skipped@))),
        decreases all@.len() - j,
    {
        let spec = &all[j];
        assert(model_of(*spec) == ms[j as int]);
        assert(ms.subrange(0, j + 1).drop_last() =~= ms.subrange(0, j as int));
        assert(ms.subrange(0, j + 1).last() == ms[j as int]);
        match table_contribution(spec, present, alive_exists) {
            Err(e) => {
                proof { lemma_tables_fold_err(ms, present@, alive_exists, j + 1); }
                return Err(e);
            },
            Ok(Some(v)) => {
                let ghost before = string_views(views@);
                views.push(v);
                assert(string_views(views@) =~= before.push(views@.last()@));
            },
            Ok(None) => {
                let ghost before = string_views(skipped@);
                skipped.push(spec.qualified_name());
                assert(string_views(skipped@) =~= before.push(skipped@.last()@));
            },
        }
        j += 1;
    }
    assert(ms.subrange(0, ms.len() as int) =~= ms);
    Ok((views, skipped))
}

/// Generate the whole file for one metadata directory.
///
/// `metadata_dir` is embedded in every `read_parquet`, so it should be
/// absolute. `with_files` names the epoch relations that have files there: a
/// relation without files is omitted, with the views over it, rather than
/// emitted as SQL that fails on use, so a project that has only ever parsed
/// gets a file covering the parse tables and nothing about runs.
pub fn generate(metadata_dir: &str, with_files: &[&str]) -> (r: Result<Generated, IndexError>)
    ensures
        match generated_spec(metadata_dir@, with_files@) {
            Ok((sql, statements, skipped)) => r is Ok && r->Ok_0.sql@ == sql && string_views(r->Ok_0.statements@) == statements
                && string_views(r->Ok_0.skipped@) == skipped,
            Err(e) => r is Err && error_message(r->Err_0) == e,
        },
{
    let mut sql = owned("-- dbt information schema v");
    sql.append(version_string().as_str());
    sql.append(", as views over the epoch files under\n-- ");
    sql.append(metadata_dir);
    sql.append("\n-- Generated; edits are overwritten. Same schemas, tables, columns and\n-- column order as views.sql, which reads the parquet snapshot instead.\n\n");
    let mut statements: Vec<String> = Vec::new();
    let namespaces = Ns::all();
    let ghost ss = schema_statements();
    let mut n: usize = 0;
    while n < namespaces.len()
        invariant
            n <= namespaces@.len(),
            namespaces@ == seq![Ns::Dbt, Ns::DbtRt, Ns::DbtInternal],
            ss == schema_statements(),
            sql@ == file_comment(metadata_dir@) + terminated(ss.subrange(0, n as int), ";\n"@),
            string_views(statements@) == ss.subrange(0, n as int),
        decreases namespaces@.len() - n,
    {
        let mut stmt = owned("CREATE SCHEMA IF NOT EXISTS ");
        stmt.append(namespaces[n].prefix());
        assert(stmt@ == ss[n as int]);
        assert(ss.subrange(0, n + 1).drop_last() =~= ss.subrange(0, n as int));
        sql.append(stmt.as_str());
        sql.append(";\n");
        let ghost before = string_views(statements@);
        statements.push(stmt);
        assert(string_views(statements@) =~= ss.subrange(0, n + 1));
        n += 1;
    }
    assert(ss.subrange(0, 3) =~= ss);
    sql.append("\n");

    let rels = epoch_relations();
    let ghost rm = epoch_relations_model();
    let ghost head_sql = sql@;
    let ghost head_stmts = string_views(statements@);
    let mut present: Vec<&'static str> = Vec::new();
    let mut i: usize = 0;
    while i < rels.len()
        invariant
            i <= rels@.len(),
            rels@ == rm,
            rm == epoch_relations_model(),
            present@ == Seq::new(present_relations(rm.subrange(0, i as int), with_files@).len(),
                |k: int| present_relations(rm.subrange(0, i as int), with_files@)[k].view),
            sql@ == head_sql + terminated(Seq::new(present_relations(rm.subrange(0, i as int), with_files@).len(),
                |k: int| crate::epoch::relation_view_sql(present_relations(rm.subrange(0, i as int), with_files@)[k], metadata_dir@)), ";\n\n"@),
            string_views(statements@) == head_stmts + Seq::new(present_relations(rm.subrange(0, i as int), with_files@).len(),
                |k: int| crate::epoch::relation_view_sql(present_relations(rm.subrange(0, i as int), with_files@)[k], metadata_dir@)),
        decreases rels@.len() - i,
    {
        let rel = rels[i];
        let ghost pre = present_relations(rm.subrange(0, i as int), with_files@);
        assert(rm.subrange(0, i + 1).drop_last() =~= rm.subrange(0, i as int));
        assert(rm.subrange(0, i + 1).last() == rel);
        if slice_contains(with_files, rel.view) {
            let stmt = rel.create_view_sql(metadata_dir);
            let ghost post = present_relations(rm.subrange(0, i + 1), with_files@);
            assert(post =~= pre.push(rel));
            let ghost pre_stmts = Seq::new(pre.len(), |k: int| crate::epoch::relation_view_sql(pre[k], metadata_dir@));
            let ghost post_stmts = Seq::new(post.len(), |k: int| crate::epoch::relation_view_sql(post[k], metadata_dir@));
            assert(post_stmts =~= pre_stmts.push(stmt@));
            assert(post_stmts.drop_last() =~= pre_stmts);
            sql.append(stmt.as_str());
            sql.append(";\n\n");
            let ghost before = string_views(statements@);
            statements.push(stmt);
            assert(string_views(statements@) =~= before.push(post_stmts.last()));
            present.push(rel.view);
            assert(present@ =~= Seq::new(post.len(), |k: int| post[k].view));
        } else {
            let ghost post = present_relations(rm.subrange(0, i + 1), with_files@);
            assert(post =~= pre);
        }
        i += 1;
    }
    assert(rm.subrange(0, rm.len() as int) =~= rm);
    let ghost rels_p = present_relations(rm, with_files@);
    let ghost rel_stmts = Seq::new(rels_p.len(), |k: int| crate::epoch::relation_view_sql(rels_p[k], metadata_dir@));
    assert(string_views(statements@) =~= schema_statements() + rel_stmts);

    let alive_exists = slice_contains(present.as_slice(), "epoch_parse_alive");
    let (mut views, skipped) = match tables_part(present.as_slice(), alive_exists) {
        Ok(v) => v,
        Err(e) => return Err(e),
    };
    append_terminated(&mut sql, &views, ";\n\n");
    let ghost before = string_views(statements@);
    let ghost vs = string_views(views@);
    statements.append(&mut views);
    assert(string_views(statements@) =~= before + vs);
    Ok(Generated { sql, statements, skipped })
}

/// The names of the tables `ms` the mapping cannot express, in schema order.
pub open spec fn unmappable_fold(ms: Seq<TableModel>, present: Seq<&'static str>) -> Result<Seq<Seq<char>>, Seq<char>>
    decreases ms.len(),
{
    if ms.len() == 0 {
        Ok(Seq::empty())
    } else {
        match unmappable_fold(ms.drop_last(), present) {
            Err(e) => Err(e),
            Ok(names) => {
                let m = ms.last();
                match table_view_spec(m, present, true) {
                    Err(e) => Err(e),
                    Ok(Err(_)) => Ok(names.push(spec_qualified_name(m.ns, m.name@))),
                    Ok(Ok(_)) => Ok(names),
                }
            },
        }
    }
}

/// The view names of every epoch relation.
pub open spec fn all_relation_views() -> Seq<&'static str> {
    Seq::new(epoch_relations_model().len(), |i: int| epoch_relations_model()[i].view)
}

/// An error part way through the tables is the error of all of them.
proof fn lemma_unmappable_err(ms: Seq<TableModel>, present: Seq<&'static str>, k: int)
    requires
        0 <= k <= ms.len(),
        unmappable_fold(ms.subrange(0, k), present) is Err,
    ensures
        unmappable_fold(ms, present) == unmappable_fold(ms.subrange(0, k), present),
    decreases ms.len(),
{
    if k == ms.len() {
        assert(ms.subrange(0, k) =~= ms);
    } else {
        assert(ms.drop_last().subrange(0, k) =~= ms.subrange(0, k));
        lemma_unmappable_err(ms.drop_last(), present, k);
    }
}

/// Whether the mapping cannot express a table when the relations `present`
/// all have files.
fn is_unmappable(spec: &TableSpec, present: &[&'static str]) -> (r: Result<bool, IndexError>)
    ensures
        match table_view_spec(model_of(*spec), present@, true) {
            Err(e) => r is Err && error_message(r->Err_0) == e,
            Ok(Err(_)) => r == Ok::<bool, IndexError>(true),
            Ok(Ok(_)) => r == Ok::<bool, IndexError>(false),
        },
{
    match table_view_sql(spec, present, true) {
        Err(e) => Err(e),
        Ok(Err(_)) => Ok(true),
        Ok(Ok(_)) => Ok(false),
    }
}

/// Output tables the mapping cannot express at all, whatever files exist.
///
/// Computed by generating against a directory where every relation is
/// present, so it is a property of this library rather than of a metadata
/// directory; the rest of what [`generate`] skips is tables whose relation has
/// no files yet.
pub fn unmappable_tables() -> (r: Result<Vec<String>, IndexError>)
    ensures
        match unmappable_fold(info_schema_model(), all_relation_views()) {
            Ok(names) => r is Ok && string_views(r->Ok_0@) == names,
            Err(e) => r is Err && error_message(r->Err_0) == e,
        },
{
    let rels = epoch_relations();
    let mut all_views: Vec<&'static str> = Vec::new();
    let mut i: usize = 0;
    while i < rels.len()
        invariant
            i <= rels@.len(),
            rels@ == epoch_relations_model(),
            all_views@ == Seq::new(i as nat, |k: int| epoch_relations_model()[k].view),
        decreases rels@.len() - i,
    {
        all_views.push(rels[i].view);
        assert(all_views@ =~= Seq::new((i + 1) as nat, |k: int| epoch_relations_model()[k].view));
        i += 1;
    }
    assert(all_views@ =~= all_relation_views());
    let all = info_schema();
    let ghost ms = info_schema_model();
    let mut out: Vec<String> = Vec::new();
    let mut j: usize = 0;
    assert(ms.subrange(0, 0) =~= Seq::<TableModel>::empty());
    assert(string_views(out@) =~= Seq::<Seq<char>>::empty());
    while j < all.len()
        invariant
            j <= all@.len(),
            ms == info_schema_model(),
            all_views@ == all_relation_views(),
            all@.len() == ms.len(),
            forall|k: int| 0 <= k < all@.len() ==> model_of(#[trigger] all@[k]) == ms[k],
            unmappable_fold(ms.subrange(0, j as int), all_views@) == Ok::<Seq<Seq<char>>, Seq<char>>(string_views(out@)),
        decreases all@.len() - j,
    {
        let spec = &all[j];
        assert(model_of(*spec) == ms[j as int]);
        assert(ms.subrange(0, j + 1).drop_last() =~= ms.subrange(0, j as int));
        assert(ms.subrange(0, j + 1).last() == ms[j as int]);
        match is_unmappable(spec, all_views.as_slice()) {
            Err(e) => {
                proof { lemma_unmappable_err(ms, all_views@, j + 1); }
                return Err(e);
            },
            Ok(true) => {
                let ghost before = string_views(out@);
                out.push(spec.qualified_name());
                assert(string_views(out@) =~= before.push(out@.last()@));
            },
            Ok(false) => {},
        }
        j += 1;
    }
    assert(ms.subrange(0, ms.len() as int) =~= ms);
    Ok(out)
}

/// The end of a selected column: cast to the output type, under the output
/// name.
pub open spec fn column_alias(out: Seq<char>, ty: ColType) -> Seq<char> {
    " AS "@ + duckdb_type_sql(ty) + ") AS "@ + quoted(out)
}

/// Whether `s` ends with `suffix`.
pub open spec fn ends_with(s: Seq<char>, suffix: Seq<char>) -> bool {
    suffix.len() <= s.len() && s.subrange(s.len() - suffix.len(), s.len() as int) == suffix
}

proof fn lemma_column_alias(e: EpochExpr, out: Seq<char>, ty: ColType, guard: Option<&'static str>)
    ensures
        ends_with(column_sql_spec(e, out, ty, guard), column_alias(out, ty)),
{
    let t = duckdb_type_sql(ty);
    let body = expr_body(e, out, t);
    let body = match guard {
        Some(g) => "CASE WHEN "@ + g@ + " THEN "@ + body + " END"@,
        None => body,
    };
    let s = column_sql_spec(e, out, ty, guard);
    let p = "CAST("@ + body;
    let sfx = column_alias(out, ty);
    assert(s =~= p + sfx);
    assert(s.subrange(s.len() - sfx.len(), s.len() as int) =~= sfx);
}

proof fn lemma_resolve_prefix_aliases(
    m: TableModel,
    joined: bool,
    guards: Seq<(Seq<char>, &'static str)>,
    fields: Seq<(&'static str, ColType)>,
    n: nat,
)
    requires
        n <= m.cols.len(),
        n <= fields.len(),
        resolve_prefix(m, joined, guards, fields, n) is Ok,
    ensures
        resolve_prefix(m, joined, guards, fields, n)->Ok_0.len() == n,
        forall|k: int| 0 <= k < n ==> ends_with(
            #[trigger] resolve_prefix(m, joined, guards, fields, n)->Ok_0[k],
            column_alias(m.cols[k].out@, fields[k].1),
        ),
    decreases n,
{
    if n > 0 {
        lemma_resolve_prefix_aliases(m, joined, guards, fields, (n - 1) as nat);
        let c = m.cols[n - 1];
        let ty = fields[n - 1].1;
        if c.ty is Some {
            lemma_column_alias(EpochExpr::Null, c.out@, ty, None);
        } else {
            let table = col_owner(m.src, c.src@)->0;
            let e = match origin_of(table@) {
                Some(Origin::Empty) => Some(EpochExpr::Null),
                _ => spec_epoch_expr(table@, c.src@),
            };
            lemma_column_alias(adjust_expr(e->0, c.src, joined), c.out@, ty, guard_of(guards, table@));
        }
    }
}

/// A derived epoch view reads as the table does in `views.sql`: it selects
/// every output column of the table, in the table's order, each cast to its
/// output type and named as the output schema names it.
pub proof fn epoch_view_columns_follow_the_schema(m: TableModel, joined: bool, guards: Seq<(Seq<char>, &'static str)>)
    requires
        resolve_cols_spec(m, joined, guards) matches Ok(Ok(_)),
    ensures
        spec_out_schema(m) is Ok,
        resolve_cols_spec(m, joined, guards)->Ok_0->Ok_0.len() == spec_out_schema(m)->Ok_0.len(),
        forall|k: int| 0 <= k < spec_out_schema(m)->Ok_0.len() ==> ends_with(
            #[trigger] resolve_cols_spec(m, joined, guards)->Ok_0->Ok_0[k],
            column_alias(spec_out_schema(m)->Ok_0[k].0@, spec_out_schema(m)->Ok_0[k].1),
        ),
{
    let fields = spec_out_schema(m)->Ok_0;
    lemma_out_fields_shape(m, m.cols);
    lemma_resolve_prefix_aliases(m, joined, guards, fields, m.cols.len());
    assert forall|k: int| 0 <= k < fields.len() implies m.cols[k].out@ == fields[k].0@ by {
        assert(fields[k].0 == m.cols[k].out);
    }
}

/// The types generated columns are cast to keep the kind of the declared type:
/// a floating-point column, and only one, is cast to `DOUBLE`, and distinct
/// declared types are cast to distinct database types.
pub proof fn casts_keep_the_declared_type()
    ensures
        forall|ty: ColType| duckdb_type_sql(ty) == "DOUBLE"@ <==> ty == ColType::Float64,
        forall|ty: ColType| (ty == ColType::Int32 || ty == ColType::Int64) <==> (duckdb_type_sql(ty) == "INTEGER"@ || duckdb_type_sql(ty) == "BIGINT"@),
        forall|a: ColType, b: ColType| duckdb_type_sql(a) == duckdb_type_sql(b) ==> a == b,
{
    reveal_strlit("VARCHAR");
    reveal_strlit("BOOLEAN");
    reveal_strlit("INTEGER");
    reveal_strlit("BIGINT");
    reveal_strlit("DOUBLE");
    reveal_strlit("TIMESTAMP WITH TIME ZONE");
    reveal_strlit("VARCHAR[]");
    assert("VARCHAR"@[0] != "BOOLEAN"@[0]);
    assert("VARCHAR"@[0] != "INTEGER"@[0]);
    assert("BOOLEAN"@[0] != "INTEGER"@[0]);
    assert("BIGINT"@[0] != "DOUBLE"@[0]);
    assert("VARCHAR"@.len() != "BIGINT"@.len());
    assert("VARCHAR[]"@.len() != "TIMESTAMP WITH TIME ZONE"@.len());
}

} // verus!
