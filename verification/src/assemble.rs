//! The rows of the tables the information schema assembles rather than
//! projects: `dbt.dag_nodes` and `dbt.project_vars`.
//!
//! Both read source rows as plain values: a missing column or a null value is
//! `None`.

use vstd::prelude::*;
use crate::order::{lemma_lt_transitive, lemma_lt_trichotomy, seq_lt, str_lt};
use crate::schema::{dag_resource_types, dag_resource_types_model};
use crate::text::{cat, contains_str, owned, slice_contains, str_eq, string_views};
use crate::json_value::{json_object_members, json_string_value, pair_texts, parse_json_string, parse_object_members};

verus! {

// ---------------------------------------------------------------------------
// dbt.dag_nodes
// ---------------------------------------------------------------------------

/// One row of the node set: the columns `dag_nodes` reads.
#[derive(Debug)]
pub struct NodeRow {
    pub unique_id: Option<String>,
    pub resource_type: Option<String>,
    pub enabled: Option<bool>,
    pub ingested_at: Option<i64>,
}

/// One row of a table that holds a single resource type outside the node set
/// (exposures, metrics, unit tests).
#[derive(Debug)]
pub struct SideRow {
    pub unique_id: Option<String>,
    pub enabled: Option<bool>,
    pub ingested_at: Option<i64>,
}

/// One row of `dbt.dag_nodes`.
#[derive(Debug)]
pub struct DagNode {
    pub unique_id: String,
    pub resource_type: String,
    pub ingested_at: i64,
}

/// `enabled`, defaulting to true: a missing value means enabled, matching the
/// config default.
pub open spec fn enabled_or_default(enabled: Option<bool>) -> bool {
    match enabled {
        Some(b) => b,
        None => true,
    }
}

/// `ingested_at`, or 0 where it is absent.
pub open spec fn stamp_or_zero(stamp: Option<i64>) -> i64 {
    match stamp {
        Some(s) => s,
        None => 0,
    }
}

/// A node row is in the DAG when it has an id and a DAG resource type and is
/// enabled.
pub open spec fn node_in_dag(r: NodeRow) -> bool {
    &&& r.unique_id is Some
    &&& r.resource_type is Some
    &&& contains_str(dag_resource_types_model(), r.resource_type->0@)
    &&& enabled_or_default(r.enabled)
}

/// The `dag_nodes` rows of the node set, in row order.
pub open spec fn dag_from_nodes(rows: Seq<NodeRow>) -> Seq<(Seq<char>, Seq<char>, i64)>
    decreases rows.len(),
{
    if rows.len() == 0 {
        Seq::empty()
    } else {
        let prev = dag_from_nodes(rows.drop_last());
        let r = rows.last();
        if node_in_dag(r) {
            prev.push((r.unique_id->0@, r.resource_type->0@, stamp_or_zero(r.ingested_at)))
        } else {
            prev
        }
    }
}

/// The `dag_nodes` rows of a table holding resources of type `ty`: every
/// enabled row with an id.
pub open spec fn dag_from_side(rows: Seq<SideRow>, ty: Seq<char>) -> Seq<(Seq<char>, Seq<char>, i64)>
    decreases rows.len(),
{
    if rows.len() == 0 {
        Seq::empty()
    } else {
        let prev = dag_from_side(rows.drop_last(), ty);
        let r = rows.last();
        if r.unique_id is Some && enabled_or_default(r.enabled) {
            prev.push((r.unique_id->0@, ty, stamp_or_zero(r.ingested_at)))
        } else {
            prev
        }
    }
}

/// A side table's rows, when its resource type participates in the DAG.
pub open spec fn dag_from_side_if_listed(rows: Seq<SideRow>, ty: Seq<char>) -> Seq<(Seq<char>, Seq<char>, i64)> {
    if contains_str(dag_resource_types_model(), ty) {
        dag_from_side(rows, ty)
    } else {
        Seq::empty()
    }
}

/// The rows as values.
pub open spec fn dag_views(v: Seq<DagNode>) -> Seq<(Seq<char>, Seq<char>, i64)> {
    Seq::new(v.len(), |i: int| (v[i].unique_id@, v[i].resource_type@, v[i].ingested_at))
}

fn push_node_rows(out: &mut Vec<DagNode>, rows: &Vec<NodeRow>)
    ensures
        dag_views(final(out)@) == dag_views(old(out)@) + dag_from_nodes(rows@),
{
    let types = dag_resource_types();
    let ghost start = dag_views(out@);
    let mut i: usize = 0;
    while i < rows.len()
        invariant
            types@ == dag_resource_types_model(),
            i <= rows@.len(),
            dag_views(out@) == start + dag_from_nodes(rows@.subrange(0, i as int)),
        decreases rows@.len() - i,
    {
        let ghost before = dag_views(out@);
        let r = &rows[i];
        proof {
            assert(rows@.subrange(0, i + 1).drop_last() =~= rows@.subrange(0, i as int));
            assert(rows@.subrange(0, i + 1).last() == rows@[i as int]);
        }
        match (&r.unique_id, &r.resource_type) {
            (Some(id), Some(ty)) => {
                if slice_contains(types, ty.as_str()) && match r.enabled { Some(b) => b, None => true } {
                    let stamp = match r.ingested_at { Some(s) => s, None => 0 };
                    out.push(DagNode { unique_id: owned(id.as_str()), resource_type: owned(ty.as_str()), ingested_at: stamp });
                    assert(dag_views(out@) =~= before.push((id@, ty@, stamp)));
                }
            },
            _ => {},
        }
        i += 1;
    }
    assert(rows@.subrange(0, rows@.len() as int) =~= rows@);
}

fn push_side_rows(out: &mut Vec<DagNode>, rows: &Vec<SideRow>, ty: &str)
    ensures
        dag_views(final(out)@) == dag_views(old(out)@) + dag_from_side(rows@, ty@),
{
    let ghost start = dag_views(out@);
    let mut i: usize = 0;
    while i < rows.len()
        invariant
            i <= rows@.len(),
            dag_views(out@) == start + dag_from_side(rows@.subrange(0, i as int), ty@),
        decreases rows@.len() - i,
    {
        let ghost before = dag_views(out@);
        let r = &rows[i];
        proof {
            assert(rows@.subrange(0, i + 1).drop_last() =~= rows@.subrange(0, i as int));
            assert(rows@.subrange(0, i + 1).last() == rows@[i as int]);
        }
        match &r.unique_id {
            Some(id) => {
                if match r.enabled { Some(b) => b, None => true } {
                    let stamp = match r.ingested_at { Some(s) => s, None => 0 };
                    out.push(DagNode { unique_id: owned(id.as_str()), resource_type: owned(ty), ingested_at: stamp });
                    assert(dag_views(out@) =~= before.push((id@, ty@, stamp)));
                }
            },
            None => {},
        }
        i += 1;
    }
    assert(rows@.subrange(0, rows@.len() as int) =~= rows@);
}

/// `dbt.dag_nodes`: every enabled resource that participates in the DAG.
///
/// Most resource types come from the node set, which carries `resource_type`
/// and `enabled`. Exposures, metrics and unit tests are only kept in their own
/// tables, so they follow with their type supplied literally; a disabled one
/// is dropped just as a disabled node is.
pub fn build_dag_nodes(nodes: &Vec<NodeRow>, exposures: &Vec<SideRow>, metrics: &Vec<SideRow>, unit_tests: &Vec<SideRow>) -> (r: Vec<DagNode>)
    ensures
        dag_views(r@) == dag_from_nodes(nodes@) + dag_from_side_if_listed(exposures@, "exposure"@)
            + dag_from_side_if_listed(metrics@, "metric"@) + dag_from_side_if_listed(unit_tests@, "unit_test"@),
{
    let types = dag_resource_types();
    let mut out: Vec<DagNode> = Vec::new();
    assert(dag_views(out@) =~= Seq::empty());
    push_node_rows(&mut out, nodes);
    let ghost a = dag_views(out@);
    if slice_contains(types, "exposure") {
        push_side_rows(&mut out, exposures, "exposure");
    } else {
        assert(dag_views(out@) =~= a + Seq::empty());
    }
    let ghost b = dag_views(out@);
    if slice_contains(types, "metric") {
        push_side_rows(&mut out, metrics, "metric");
    } else {
        assert(dag_views(out@) =~= b + Seq::empty());
    }
    let ghost c = dag_views(out@);
    if slice_contains(types, "unit_test") {
        push_side_rows(&mut out, unit_tests, "unit_test");
    } else {
        assert(dag_views(out@) =~= c + Seq::empty());
    }
    out
}

/// Every `dag_nodes` row from the node set is an enabled node of a DAG
/// resource type, with its own id and type.
pub proof fn dag_rows_come_from_enabled_nodes(rows: Seq<NodeRow>, k: int)
    requires
        0 <= k < dag_from_nodes(rows).len(),
    ensures
        exists|i: int|
            0 <= i < rows.len() && node_in_dag(#[trigger] rows[i]) && dag_from_nodes(rows)[k] == (
                rows[i].unique_id->0@,
                rows[i].resource_type->0@,
                stamp_or_zero(rows[i].ingested_at),
            ),
    decreases rows.len(),
{
    let prev = dag_from_nodes(rows.drop_last());
    if k < prev.len() {
        dag_rows_come_from_enabled_nodes(rows.drop_last(), k);
        let i = choose|i: int|
            0 <= i < rows.drop_last().len() && node_in_dag(#[trigger] rows.drop_last()[i]) && prev[k] == (
                rows.drop_last()[i].unique_id->0@,
                rows.drop_last()[i].resource_type->0@,
                stamp_or_zero(rows.drop_last()[i].ingested_at),
            );
        assert(rows[i] == rows.drop_last()[i]);
    } else {
        assert(node_in_dag(rows[rows.len() - 1]));
    }
}

// ---------------------------------------------------------------------------
// dbt.project_vars
// ---------------------------------------------------------------------------

/// The adapter's built-in packages, whose vars are not the user's: the adapter
/// package, its parent where one exists, then `dbt`.
pub open spec fn internal_packages_model(adapter_type: Option<Seq<char>>) -> Seq<Seq<char>> {
    match adapter_type {
        Some(a) => seq!["dbt_"@ + a] + (if a == "redshift"@ {
            seq!["dbt_postgres"@]
        } else if a == "databricks"@ {
            seq!["dbt_spark"@]
        } else {
            Seq::empty()
        }) + seq!["dbt"@],
        None => seq!["dbt"@],
    }
}

/// The adapter's built-in packages, whose vars are not the user's.
///
/// The package resolution order used when building the macro namespace: the
/// adapter package, its parent where one exists, then `dbt`.
pub fn internal_packages(adapter_type: Option<&str>) -> (r: Vec<String>)
    ensures
        string_views(r@) == internal_packages_model(match adapter_type {
            Some(a) => Some(a@),
            None => None,
        }),
{
    let mut v: Vec<String> = Vec::new();
    proof {
        reveal_strlit("redshift");
        reveal_strlit("databricks");
    }
    if let Some(adapter) = adapter_type {
        v.push(cat("dbt_", adapter));
        if str_eq(adapter, "redshift") {
            v.push(owned("dbt_postgres"));
        } else if str_eq(adapter, "databricks") {
            v.push(owned("dbt_spark"));
        }
    }
    v.push(owned("dbt"));
    proof {
        assert(string_views(v@) =~= internal_packages_model(match adapter_type {
            Some(a) => Some(a@),
            None => None,
        }));
    }
    v
}

/// One top-level variable of a package's var map: its name, its value as
/// rendered (a string bare, anything else as JSON), and, when the value is an
/// object, that object's members with their values rendered the same way.
#[derive(Debug)]
pub struct VarEntry {
    pub name: String,
    pub rendered: String,
    pub members: Option<Vec<(String, String)>>,
}

/// One source row of `project_vars`: the package, its var map as the JSON
/// text the row stores, and when it was ingested.
#[derive(Debug)]
pub struct VarSourceRow {
    pub package: Option<String>,
    pub var_value: Option<String>,
    pub ingested_at: Option<i64>,
}

/// A variable as values: its name, its rendered value, and its members when
/// the value is an object.
pub open spec fn var_view(e: VarEntry) -> (Seq<char>, Seq<char>, Option<Seq<(Seq<char>, Seq<char>)>>) {
    (e.name@, e.rendered@, match e.members {
        Some(m) => Some(string_pairs(m@)),
        None => None,
    })
}

/// Variables as values.
pub open spec fn var_views(v: Seq<VarEntry>) -> Seq<(Seq<char>, Seq<char>, Option<Seq<(Seq<char>, Seq<char>)>>)> {
    Seq::new(v.len(), |i: int| var_view(v[i]))
}

/// A JSON value rendered the way the var rows show it: a string bare, anything
/// else as its compact JSON text.
pub open spec fn rendered_value(c: Seq<char>) -> Seq<char> {
    match json_string_value(c) {
        Some(s) => s,
        None => c,
    }
}

/// Object members with their values rendered.
pub open spec fn rendered_members(ms: Seq<(Seq<char>, Seq<char>)>) -> Seq<(Seq<char>, Seq<char>)> {
    Seq::new(ms.len(), |j: int| (ms[j].0, rendered_value(ms[j].1)))
}

/// The var map the JSON text `text` holds, as variables; `None` when the text
/// is not a JSON object.
pub open spec fn var_map_model(text: Seq<char>) -> Option<Seq<(Seq<char>, Seq<char>, Option<Seq<(Seq<char>, Seq<char>)>>)>> {
    match json_object_members(text) {
        Some(ms) => Some(Seq::new(ms.len(), |i: int| (ms[i].0, rendered_value(ms[i].1), match json_object_members(ms[i].1) {
            Some(n) => Some(rendered_members(n)),
            None => None,
        }))),
        None => None,
    }
}

fn render_value(c: &str) -> (r: String)
    ensures
        r@ == rendered_value(c@),
{
    match parse_json_string(c) {
        Some(s) => s,
        None => owned(c),
    }
}

fn render_members(ms: &Vec<(String, String)>) -> (r: Vec<(String, String)>)
    ensures
        string_pairs(r@) == rendered_members(pair_texts(ms@)),
{
    let mut out: Vec<(String, String)> = Vec::new();
    let mut j: usize = 0;
    while j < ms.len()
        invariant
            j <= ms@.len(),
            string_pairs(out@) == rendered_members(pair_texts(ms@)).subrange(0, j as int),
        decreases ms@.len() - j,
    {
        let ghost before = string_pairs(out@);
        out.push((owned(ms[j].0.as_str()), render_value(ms[j].1.as_str())));
        assert(string_pairs(out@) =~= before.push(rendered_members(pair_texts(ms@))[j as int]));
        assert(rendered_members(pair_texts(ms@)).subrange(0, j + 1) =~= rendered_members(pair_texts(ms@)).subrange(0, j as int).push(rendered_members(pair_texts(ms@))[j as int]));
        j += 1;
    }
    assert(rendered_members(pair_texts(ms@)).subrange(0, ms@.len() as int) =~= rendered_members(pair_texts(ms@)));
    out
}

/// The variables of one var map, in the order the parsed map keeps them,
/// each rendered (a string bare, anything else as JSON) and, when it is an
/// object, with its members rendered the same way; `None` when the text is not
/// a JSON object.
pub fn parse_var_map(text: &str) -> (r: Option<Vec<VarEntry>>)
    ensures
        match var_map_model(text@) {
            Some(m) => r is Some && var_views(r->0@) == m,
            None => r is None,
        },
{
    let ms = match parse_object_members(text) {
        Some(ms) => ms,
        None => return None,
    };
    let ghost pm = pair_texts(ms@);
    let ghost model = var_map_model(text@)->0;
    let mut out: Vec<VarEntry> = Vec::new();
    let mut i: usize = 0;
    while i < ms.len()
        invariant
            pm == pair_texts(ms@),
            json_object_members(text@) == Some(pm),
            model == var_map_model(text@)->0,
            i <= ms@.len(),
            var_views(out@) == model.subrange(0, i as int),
        decreases ms@.len() - i,
    {
        let c = ms[i].1.as_str();
        let rendered = render_value(c);
        let members = match parse_object_members(c) {
            Some(n) => Some(render_members(&n)),
            None => None,
        };
        let ghost before = var_views(out@);
        out.push(VarEntry { name: owned(ms[i].0.as_str()), rendered, members });
        assert(var_views(out@) =~= before.push(model[i as int]));
        assert(model.subrange(0, i + 1) =~= model.subrange(0, i as int).push(model[i as int]));
        i += 1;
    }
    assert(model.subrange(0, ms@.len() as int) =~= model);
    Some(out)
}

/// One row of `dbt.project_vars`.
#[derive(Debug)]
pub struct ProjectVarRow {
    pub project_name: String,
    pub var_name: String,
    pub var_value: String,
    pub ingested_at: i64,
}

/// Pairs of strings as values.
pub open spec fn string_pairs(v: Seq<(String, String)>) -> Seq<(Seq<char>, Seq<char>)> {
    Seq::new(v.len(), |i: int| (v[i].0@, v[i].1@))
}

/// Whether `name` is an installed package: a non-null `package_name`.
pub open spec fn is_installed(packages: Seq<Option<String>>, name: Seq<char>) -> bool {
    exists|i: int| 0 <= i < packages.len() && packages[i] is Some && packages[i]->0@ == name
}

/// An entry is a package scope when its value is an object and its name is an
/// installed package.
pub open spec fn is_scope(packages: Seq<Option<String>>, e: (Seq<char>, Seq<char>, Option<Seq<(Seq<char>, Seq<char>)>>)) -> bool {
    e.2 is Some && is_installed(packages, e.0)
}

/// The variables that stay on the package itself, as (name, rendered value),
/// in map order.
pub open spec fn scalar_vars(vars: Seq<(Seq<char>, Seq<char>, Option<Seq<(Seq<char>, Seq<char>)>>)>, packages: Seq<Option<String>>) -> Seq<(Seq<char>, Seq<char>)>
    decreases vars.len(),
{
    if vars.len() == 0 {
        Seq::empty()
    } else {
        let prev = scalar_vars(vars.drop_last(), packages);
        let e = vars.last();
        if is_scope(packages, e) {
            prev
        } else {
            prev.push((e.0, e.1))
        }
    }
}

/// The package scopes, as (package, its members), in map order.
pub open spec fn scoped_vars(vars: Seq<(Seq<char>, Seq<char>, Option<Seq<(Seq<char>, Seq<char>)>>)>, packages: Seq<Option<String>>) -> Seq<(Seq<char>, Seq<(Seq<char>, Seq<char>)>)>
    decreases vars.len(),
{
    if vars.len() == 0 {
        Seq::empty()
    } else {
        let prev = scoped_vars(vars.drop_last(), packages);
        let e = vars.last();
        if is_scope(packages, e) {
            prev.push((e.0, e.2->0))
        } else {
            prev
        }
    }
}

/// Two var maps in key order, the second overlaid on the first: a key in both
/// takes the second's value.
pub open spec fn overlay(a: Seq<(Seq<char>, Seq<char>)>, b: Seq<(Seq<char>, Seq<char>)>) -> Seq<(Seq<char>, Seq<char>)>
    decreases a.len() + b.len(),
{
    if a.len() == 0 {
        b
    } else if b.len() == 0 {
        a
    } else if seq_lt(a[0].0, b[0].0) {
        seq![a[0]] + overlay(a.drop_first(), b)
    } else if a[0].0 == b[0].0 {
        seq![b[0]] + overlay(a.drop_first(), b.drop_first())
    } else {
        seq![b[0]] + overlay(a, b.drop_first())
    }
}

/// The rows of one package's variables.
pub open spec fn var_rows(package: Seq<char>, vars: Seq<(Seq<char>, Seq<char>)>, stamp: i64) -> Seq<(Seq<char>, Seq<char>, Seq<char>, i64)> {
    Seq::new(vars.len(), |i: int| (package, vars[i].0, vars[i].1, stamp))
}

/// The rows of the package scopes: each scope not skipped gets the parent's
/// variables with its own overlaid.
pub open spec fn scope_rows(
    skip: Seq<Seq<char>>,
    scopes: Seq<(Seq<char>, Seq<(Seq<char>, Seq<char>)>)>,
    parent: Seq<(Seq<char>, Seq<char>)>,
    stamp: i64,
) -> Seq<(Seq<char>, Seq<char>, Seq<char>, i64)>
    decreases scopes.len(),
{
    if scopes.len() == 0 {
        Seq::empty()
    } else {
        let prev = scope_rows(skip, scopes.drop_last(), parent, stamp);
        let (pkg, nested) = scopes.last();
        if skip.contains(pkg) {
            prev
        } else {
            prev + var_rows(pkg, overlay(parent, nested), stamp)
        }
    }
}

/// The rows of one source row: none when it lacks a package or a var map, its
/// package is internal, or its var map is not a JSON object; otherwise its own variables, then each installed
/// package scope in it.
pub open spec fn source_var_rows(skip: Seq<Seq<char>>, packages: Seq<Option<String>>, row: VarSourceRow) -> Seq<(Seq<char>, Seq<char>, Seq<char>, i64)> {
    match (row.package, row.var_value) {
        (Some(p), Some(t)) => if skip.contains(p@) {
            Seq::empty()
        } else {
            match var_map_model(t@) {
                Some(vars) => {
                    let parent = scalar_vars(vars, packages);
                    var_rows(p@, parent, stamp_or_zero(row.ingested_at)) + scope_rows(
                        skip,
                        scoped_vars(vars, packages),
                        parent,
                        stamp_or_zero(row.ingested_at),
                    )
                },
                None => Seq::empty(),
            }
        },
        _ => Seq::empty(),
    }
}

/// Every row of `dbt.project_vars`, source row by source row.
pub open spec fn project_var_rows(skip: Seq<Seq<char>>, packages: Seq<Option<String>>, rows: Seq<VarSourceRow>) -> Seq<(Seq<char>, Seq<char>, Seq<char>, i64)>
    decreases rows.len(),
{
    if rows.len() == 0 {
        Seq::empty()
    } else {
        project_var_rows(skip, packages, rows.drop_last()) + source_var_rows(skip, packages, rows.last())
    }
}

/// The rows as values.
pub open spec fn var_row_views(v: Seq<ProjectVarRow>) -> Seq<(Seq<char>, Seq<char>, Seq<char>, i64)> {
    Seq::new(v.len(), |i: int| (v[i].project_name@, v[i].var_name@, v[i].var_value@, v[i].ingested_at))
}

fn strings_contain(v: &Vec<String>, s: &str) -> (r: bool)
    ensures
        r == string_views(v@).contains(s@),
{
    let mut i: usize = 0;
    while i < v.len()
        invariant
            i <= v@.len(),
            forall|k: int| 0 <= k < i ==> v@[k]@ != s@,
        decreases v@.len() - i,
    {
        if str_eq(v[i].as_str(), s) {
            assert(string_views(v@)[i as int] == s@);
            return true;
        }
        i += 1;
    }
    assert forall|k: int| 0 <= k < string_views(v@).len() implies string_views(v@)[k] != s@ by {
        assert(string_views(v@)[k] == v@[k]@);
    }
    false
}

/// The installed packages: every non-null `package_name`.
fn installed_packages(packages: &Vec<Option<String>>) -> (r: Vec<String>)
    ensures
        forall|x: Seq<char>| string_views(r@).contains(x) <==> is_installed(packages@, x),
{
    let mut out: Vec<String> = Vec::new();
    let mut i: usize = 0;
    while i < packages.len()
        invariant
            i <= packages@.len(),
            forall|x: Seq<char>| string_views(out@).contains(x) <==> is_installed(packages@.subrange(0, i as int), x),
        decreases packages@.len() - i,
    {
        let ghost before = string_views(out@);
        if let Some(p) = &packages[i] {
            out.push(owned(p.as_str()));
        }
        proof {
            let pre = packages@.subrange(0, i as int);
            let post = packages@.subrange(0, i + 1);
            assert forall|x: Seq<char>| string_views(out@).contains(x) <==> is_installed(post, x) by {
                if string_views(out@).contains(x) {
                    let k = choose|k: int| 0 <= k < string_views(out@).len() && string_views(out@)[k] == x;
                    if k < before.len() {
                        assert(before[k] == x);
                        assert(before.contains(x));
                        let j = choose|j: int| 0 <= j < pre.len() && pre[j] is Some && pre[j]->0@ == x;
                        assert(post[j] == pre[j]);
                    } else {
                        assert(post[i as int] == packages@[i as int]);
                    }
                }
                if is_installed(post, x) {
                    let j = choose|j: int| 0 <= j < post.len() && post[j] is Some && post[j]->0@ == x;
                    if j < i {
                        assert(pre[j] == post[j]);
                        assert(is_installed(pre, x));
                        assert(before.contains(x));
                        let k = choose|k: int| 0 <= k < before.len() && before[k] == x;
                        assert(string_views(out@)[k] == x);
                    } else {
                        assert(string_views(out@)[before.len() as int] == x);
                    }
                }
            }
        }
        i += 1;
    }
    assert(packages@.subrange(0, packages@.len() as int) =~= packages@);
    out
}

fn copy_pairs(v: &Vec<(String, String)>) -> (r: Vec<(String, String)>)
    ensures
        string_pairs(r@) == string_pairs(v@),
{
    let mut out: Vec<(String, String)> = Vec::new();
    let mut i: usize = 0;
    while i < v.len()
        invariant
            i <= v@.len(),
            string_pairs(out@) == string_pairs(v@).subrange(0, i as int),
        decreases v@.len() - i,
    {
        let ghost before = string_pairs(out@);
        out.push((owned(v[i].0.as_str()), owned(v[i].1.as_str())));
        assert(string_pairs(out@) =~= before.push(string_pairs(v@)[i as int]));
        assert(string_pairs(v@).subrange(0, i + 1) =~= string_pairs(v@).subrange(0, i as int).push(string_pairs(v@)[i as int]));
        i += 1;
    }
    assert(string_pairs(v@).subrange(0, v@.len() as int) =~= string_pairs(v@));
    out
}

/// Split a package's vars into the variables that stay on it and the
/// package-scoped nested maps. A nested object is a scope only when its key
/// is an installed package; otherwise it stays an object-valued variable.
pub fn split_scoped_vars(vars: &Vec<VarEntry>, installed: &Vec<String>) -> (r: (Vec<(String, String)>, Vec<(String, Vec<(String, String)>)>))
    ensures
        string_pairs(r.0@) == scalar_vars(var_views(vars@), installed_as_rows(installed@)),
        scope_views(r.1@) == scoped_vars(var_views(vars@), installed_as_rows(installed@)),
{
    let ghost pk = installed_as_rows(installed@);
    let mut scalars: Vec<(String, String)> = Vec::new();
    let mut scopes: Vec<(String, Vec<(String, String)>)> = Vec::new();
    let mut i: usize = 0;
    while i < vars.len()
        invariant
            pk == installed_as_rows(installed@),
            i <= vars@.len(),
            string_pairs(scalars@) == scalar_vars(var_views(vars@).subrange(0, i as int), pk),
            scope_views(scopes@) == scoped_vars(var_views(vars@).subrange(0, i as int), pk),
        decreases vars@.len() - i,
    {
        let e = &vars[i];
        proof {
            assert(var_views(vars@).subrange(0, i + 1).drop_last() =~= var_views(vars@).subrange(0, i as int));
            assert(var_views(vars@).subrange(0, i + 1).last() == var_view(vars@[i as int]));
            lemma_installed_as_rows(installed@, e.name@);
        }
        let ghost s0 = string_pairs(scalars@);
        let ghost c0 = scope_views(scopes@);
        match &e.members {
            Some(members) => {
                if strings_contain(installed, e.name.as_str()) {
                    scopes.push((owned(e.name.as_str()), copy_pairs(members)));
                    assert(scope_views(scopes@) =~= c0.push((e.name@, string_pairs(members@))));
                } else {
                    scalars.push((owned(e.name.as_str()), owned(e.rendered.as_str())));
                    assert(string_pairs(scalars@) =~= s0.push((e.name@, e.rendered@)));
                }
            },
            None => {
                scalars.push((owned(e.name.as_str()), owned(e.rendered.as_str())));
                assert(string_pairs(scalars@) =~= s0.push((e.name@, e.rendered@)));
            },
        }
        i += 1;
    }
    assert(var_views(vars@).subrange(0, vars@.len() as int) =~= var_views(vars@));
    (scalars, scopes)
}

/// A list of installed package names, as the `package_name` column it came
/// from.
pub open spec fn installed_as_rows(installed: Seq<String>) -> Seq<Option<String>> {
    Seq::new(installed.len(), |i: int| Some(installed[i]))
}

/// Scopes as values.
pub open spec fn scope_views(v: Seq<(String, Vec<(String, String)>)>) -> Seq<(Seq<char>, Seq<(Seq<char>, Seq<char>)>)> {
    Seq::new(v.len(), |i: int| (v[i].0@, string_pairs(v[i].1@)))
}

proof fn lemma_installed_as_rows(installed: Seq<String>, x: Seq<char>)
    ensures
        is_installed(installed_as_rows(installed), x) <==> string_views(installed).contains(x),
{
    let rows = installed_as_rows(installed);
    if is_installed(rows, x) {
        let i = choose|i: int| 0 <= i < rows.len() && rows[i] is Some && rows[i]->0@ == x;
        assert(string_views(installed)[i] == x);
    }
    if string_views(installed).contains(x) {
        let i = choose|i: int| 0 <= i < string_views(installed).len() && string_views(installed)[i] == x;
        assert(rows[i] is Some && rows[i]->0@ == x);
    }
}

/// Whether two package lists name the same packages.
proof fn lemma_same_installed(a: Seq<Option<String>>, b: Seq<Option<String>>, vars: Seq<(Seq<char>, Seq<char>, Option<Seq<(Seq<char>, Seq<char>)>>)>)
    requires
        forall|x: Seq<char>| is_installed(a, x) <==> is_installed(b, x),
    ensures
        scalar_vars(vars, a) == scalar_vars(vars, b),
        scoped_vars(vars, a) == scoped_vars(vars, b),
    decreases vars.len(),
{
    if vars.len() > 0 {
        lemma_same_installed(a, b, vars.drop_last());
        assert(is_scope(a, vars.last()) == is_scope(b, vars.last()));
    }
}

/// `b` overlaid on `a`: both in key order, a key in both taking `b`'s value.
pub fn overlay_vars(a: &Vec<(String, String)>, b: &Vec<(String, String)>) -> (r: Vec<(String, String)>)
    ensures
        string_pairs(r@) == overlay(string_pairs(a@), string_pairs(b@)),
{
    let ghost av = string_pairs(a@);
    let ghost bv = string_pairs(b@);
    let mut out: Vec<(String, String)> = Vec::new();
    let mut i: usize = 0;
    let mut j: usize = 0;
    assert(av.subrange(0, av.len() as int) =~= av);
    assert(bv.subrange(0, bv.len() as int) =~= bv);
    while i < a.len() || j < b.len()
        invariant
            av == string_pairs(a@),
            bv == string_pairs(b@),
            i <= a@.len(),
            j <= b@.len(),
            string_pairs(out@) + overlay(av.subrange(i as int, av.len() as int), bv.subrange(j as int, bv.len() as int))
                == overlay(av, bv),
        decreases a@.len() + b@.len() - i - j,
    {
        let ghost ar = av.subrange(i as int, av.len() as int);
        let ghost br = bv.subrange(j as int, bv.len() as int);
        let ghost before = string_pairs(out@);
        if i == a.len() {
            out.push((owned(b[j].0.as_str()), owned(b[j].1.as_str())));
            proof {
                assert(ar.len() == 0);
                assert(br.drop_first() =~= bv.subrange(j + 1, bv.len() as int));
                assert(overlay(ar, br.drop_first()) == br.drop_first());
                assert(br =~= seq![br[0]] + br.drop_first());
                assert(string_pairs(out@) =~= before.push(br[0]));
            }
            j += 1;
        } else if j == b.len() {
            out.push((owned(a[i].0.as_str()), owned(a[i].1.as_str())));
            proof {
                assert(br.len() == 0);
                assert(ar.drop_first() =~= av.subrange(i + 1, av.len() as int));
                assert(overlay(ar.drop_first(), br) == ar.drop_first()) by {
                    if ar.drop_first().len() > 0 {
                    }
                }
                assert(ar =~= seq![ar[0]] + ar.drop_first());
                assert(string_pairs(out@) =~= before.push(ar[0]));
            }
            i += 1;
        } else {
            let ka = a[i].0.as_str();
            let kb = b[j].0.as_str();
            proof {
                assert(ar[0] == av[i as int]);
                assert(br[0] == bv[j as int]);
                assert(ar.drop_first() =~= av.subrange(i + 1, av.len() as int));
                assert(br.drop_first() =~= bv.subrange(j + 1, bv.len() as int));
            }
            if str_lt(ka, kb) {
                out.push((owned(ka), owned(a[i].1.as_str())));
                assert(string_pairs(out@) =~= before.push(ar[0]));
                i += 1;
            } else if str_eq(ka, kb) {
                out.push((owned(kb), owned(b[j].1.as_str())));
                assert(string_pairs(out@) =~= before.push(br[0]));
                i += 1;
                j += 1;
            } else {
                out.push((owned(kb), owned(b[j].1.as_str())));
                assert(string_pairs(out@) =~= before.push(br[0]));
                j += 1;
            }
        }
    }
    proof {
        let ar = av.subrange(i as int, av.len() as int);
        let br = bv.subrange(j as int, bv.len() as int);
        assert(ar.len() == 0 && br.len() == 0);
        assert(overlay(ar, br) =~= Seq::empty());
        assert(string_pairs(out@) + overlay(ar, br) =~= string_pairs(out@));
    }
    out
}

fn push_var_rows(out: &mut Vec<ProjectVarRow>, package: &str, vars: &Vec<(String, String)>, stamp: i64)
    ensures
        var_row_views(final(out)@) == var_row_views(old(out)@) + var_rows(package@, string_pairs(vars@), stamp),
{
    let ghost start = var_row_views(out@);
    let mut i: usize = 0;
    while i < vars.len()
        invariant
            i <= vars@.len(),
            var_row_views(out@) == start + var_rows(package@, string_pairs(vars@).subrange(0, i as int), stamp),
        decreases vars@.len() - i,
    {
        let ghost before = var_row_views(out@);
        out.push(ProjectVarRow {
            project_name: owned(package),
            var_name: owned(vars[i].0.as_str()),
            var_value: owned(vars[i].1.as_str()),
            ingested_at: stamp,
        });
        let ghost pv = string_pairs(vars@);
        assert(var_row_views(out@) =~= before.push((package@, pv[i as int].0, pv[i as int].1, stamp)));
        assert(var_rows(package@, pv.subrange(0, i + 1), stamp) =~= var_rows(package@, pv.subrange(0, i as int), stamp).push(
            (package@, pv[i as int].0, pv[i as int].1, stamp),
        ));
        assert(var_row_views(out@) =~= start + var_rows(package@, pv.subrange(0, i + 1), stamp));
        i += 1;
    }
    assert(string_pairs(vars@).subrange(0, vars@.len() as int) =~= string_pairs(vars@));
}

/// `dbt.project_vars`, one row per (project, variable).
///
/// Each source row holds one package's whole var map. Each variable becomes
/// its own row, with the package it applies to in its own column. A nested
/// object whose key names an installed package becomes rows of that package,
/// inheriting the parent's other variables and overlaying its own. The
/// adapter's built-in packages are left out.
pub fn build_project_vars(adapter_type: Option<&str>, package_names: &Vec<Option<String>>, rows: &Vec<VarSourceRow>) -> (r: Vec<ProjectVarRow>)
    ensures
        var_row_views(r@) == project_var_rows(
            internal_packages_model(match adapter_type {
                Some(a) => Some(a@),
                None => None,
            }),
            package_names@,
            rows@,
        ),
{
    let skip = internal_packages(adapter_type);
    let ghost skip_v = string_views(skip@);
    let installed = installed_packages(package_names);
    let ghost pk = installed_as_rows(installed@);
    proof {
        assert forall|x: Seq<char>| is_installed(pk, x) <==> is_installed(package_names@, x) by {
            lemma_installed_as_rows(installed@, x);
        }
    }
    let mut out: Vec<ProjectVarRow> = Vec::new();
    let mut i: usize = 0;
    assert(var_row_views(out@) =~= Seq::empty());
    while i < rows.len()
        invariant
            skip_v == string_views(skip@),
            pk == installed_as_rows(installed@),
            forall|x: Seq<char>| is_installed(pk, x) <==> is_installed(package_names@, x),
            i <= rows@.len(),
            var_row_views(out@) == project_var_rows(skip_v, package_names@, rows@.subrange(0, i as int)),
        decreases rows@.len() - i,
    {
        let row = &rows[i];
        proof {
            assert(rows@.subrange(0, i + 1).drop_last() =~= rows@.subrange(0, i as int));
            assert(rows@.subrange(0, i + 1).last() == rows@[i as int]);
        }
        let ghost before = var_row_views(out@);
        match (&row.package, &row.var_value) {
            (Some(package), Some(text)) => {
                let parsed = if strings_contain(&skip, package.as_str()) {
                    None
                } else {
                    parse_var_map(text.as_str())
                };
                if let Some(vars) = parsed {
                    let stamp = match row.ingested_at { Some(s) => s, None => 0 };
                    let (scalars, scopes) = split_scoped_vars(&vars, &installed);
                    proof {
                        lemma_same_installed(pk, package_names@, var_views(vars@));
                    }
                    push_var_rows(&mut out, package.as_str(), &scalars, stamp);
                    let ghost mid = var_row_views(out@);
                    let mut k: usize = 0;
                    while k < scopes.len()
                        invariant
                            skip_v == string_views(skip@),
                            k <= scopes@.len(),
                            var_row_views(out@) == mid + scope_rows(skip_v, scope_views(scopes@).subrange(0, k as int), string_pairs(scalars@), stamp),
                        decreases scopes@.len() - k,
                    {
                        let ghost sv = scope_views(scopes@);
                        proof {
                            assert(sv.subrange(0, k + 1).drop_last() =~= sv.subrange(0, k as int));
                            assert(sv.subrange(0, k + 1).last() == sv[k as int]);
                        }
                        let ghost at_k = var_row_views(out@);
                        let scope_pkg = scopes[k].0.as_str();
                        if !strings_contain(&skip, scope_pkg) {
                            let inherited = overlay_vars(&scalars, &scopes[k].1);
                            push_var_rows(&mut out, scope_pkg, &inherited, stamp);
                            assert(var_row_views(out@) =~= at_k + var_rows(sv[k as int].0, overlay(string_pairs(scalars@), sv[k as int].1), stamp));
                        }
                        k += 1;
                    }
                    assert(scope_views(scopes@).subrange(0, scopes@.len() as int) =~= scope_views(scopes@));
                    assert(var_row_views(out@) =~= before + source_var_rows(skip_v, package_names@, rows@[i as int]));
                }
            },
            _ => {},
        }
        i += 1;
    }
    assert(rows@.subrange(0, rows@.len() as int) =~= rows@);
    out
}

/// A var map's keys are strictly increasing, as a map iterates them.
pub open spec fn keys_sorted(v: Seq<(Seq<char>, Seq<char>)>) -> bool {
    forall|i: int, j: int| 0 <= i < j < v.len() ==> seq_lt(v[i].0, v[j].0)
}

/// Whether `k` is a key of `v`.
pub open spec fn has_key(v: Seq<(Seq<char>, Seq<char>)>, k: Seq<char>) -> bool {
    exists|i: int| 0 <= i < v.len() && v[i].0 == k
}

proof fn lemma_sorted_tail(v: Seq<(Seq<char>, Seq<char>)>)
    requires
        keys_sorted(v),
        v.len() > 0,
    ensures
        keys_sorted(v.drop_first()),
        forall|p: (Seq<char>, Seq<char>)| v.drop_first().contains(p) ==> seq_lt(v[0].0, p.0),
{
    assert forall|i: int, j: int| 0 <= i < j < v.drop_first().len() implies seq_lt(v.drop_first()[i].0, v.drop_first()[j].0) by {
        assert(v.drop_first()[i] == v[i + 1] && v.drop_first()[j] == v[j + 1]);
    }
    assert forall|p: (Seq<char>, Seq<char>)| v.drop_first().contains(p) implies seq_lt(v[0].0, p.0) by {
        let i = choose|i: int| 0 <= i < v.drop_first().len() && v.drop_first()[i] == p;
        assert(v[i + 1] == p);
    }
}

proof fn lemma_sorted_cons(h: (Seq<char>, Seq<char>), rest: Seq<(Seq<char>, Seq<char>)>)
    requires
        keys_sorted(rest),
        forall|p: (Seq<char>, Seq<char>)| rest.contains(p) ==> seq_lt(h.0, p.0),
    ensures
        keys_sorted(seq![h] + rest),
{
    let v = seq![h] + rest;
    assert forall|i: int, j: int| 0 <= i < j < v.len() implies seq_lt(v[i].0, v[j].0) by {
        if i == 0 {
            assert(v[j] == rest[j - 1]);
            assert(rest.contains(rest[j - 1]));
        } else {
            assert(v[i] == rest[i - 1] && v[j] == rest[j - 1]);
        }
    }
}

/// What an overlay holds: every pair comes from one side, every pair of the
/// overlaid map is there, and so is every pair of the base whose key it does
/// not have; keys stay strictly increasing.
proof fn lemma_overlay(a: Seq<(Seq<char>, Seq<char>)>, b: Seq<(Seq<char>, Seq<char>)>)
    requires
        keys_sorted(a),
        keys_sorted(b),
    ensures
        keys_sorted(overlay(a, b)),
        forall|p: (Seq<char>, Seq<char>)| overlay(a, b).contains(p) ==> a.contains(p) || b.contains(p),
        forall|p: (Seq<char>, Seq<char>)| b.contains(p) ==> overlay(a, b).contains(p),
        forall|p: (Seq<char>, Seq<char>)| a.contains(p) && !has_key(b, p.0) ==> overlay(a, b).contains(p),
    decreases a.len() + b.len(),
{
    if a.len() == 0 || b.len() == 0 {
        if a.len() > 0 {
            assert forall|p: (Seq<char>, Seq<char>)| a.contains(p) && !has_key(b, p.0) implies overlay(a, b).contains(p) by {}
        }
        return;
    }
    let o = overlay(a, b);
    lemma_sorted_tail(a);
    lemma_sorted_tail(b);
    lemma_lt_trichotomy(a[0].0, b[0].0);
    if seq_lt(a[0].0, b[0].0) {
        let rest = overlay(a.drop_first(), b);
        lemma_overlay(a.drop_first(), b);
        assert(o == seq![a[0]] + rest);
        assert forall|p: (Seq<char>, Seq<char>)| rest.contains(p) implies seq_lt(a[0].0, p.0) by {
            if b.contains(p) {
                let j = choose|j: int| 0 <= j < b.len() && b[j] == p;
                if j > 0 {
                    lemma_lt_transitive(a[0].0, b[0].0, p.0);
                }
            }
        }
        lemma_sorted_cons(a[0], rest);
        lemma_membership_step(a, b, a.drop_first(), b, rest, a[0], true, false);
    } else if a[0].0 == b[0].0 {
        let rest = overlay(a.drop_first(), b.drop_first());
        lemma_overlay(a.drop_first(), b.drop_first());
        assert(o == seq![b[0]] + rest);
        assert forall|p: (Seq<char>, Seq<char>)| rest.contains(p) implies seq_lt(b[0].0, p.0) by {
            if a.drop_first().contains(p) {
                assert(seq_lt(a[0].0, p.0));
            } else {
                assert(b.drop_first().contains(p));
            }
        }
        lemma_sorted_cons(b[0], rest);
        lemma_membership_step(a, b, a.drop_first(), b.drop_first(), rest, b[0], true, true);
    } else {
        let rest = overlay(a, b.drop_first());
        lemma_overlay(a, b.drop_first());
        assert(o == seq![b[0]] + rest);
        assert forall|p: (Seq<char>, Seq<char>)| rest.contains(p) implies seq_lt(b[0].0, p.0) by {
            if a.contains(p) {
                let i = choose|i: int| 0 <= i < a.len() && a[i] == p;
                if i > 0 {
                    lemma_lt_transitive(b[0].0, a[0].0, p.0);
                }
            }
        }
        lemma_sorted_cons(b[0], rest);
        lemma_membership_step(a, b, a, b.drop_first(), rest, b[0], false, true);
    }
}

/// The membership facts of one overlay step: `h` is emitted ahead of `rest`,
/// the overlay of `ra` and `rb`, what remains of `a` and `b` once `h` is
/// taken from `a` (when `from_a`) and from `b` (when `from_b`).
proof fn lemma_membership_step(
    a: Seq<(Seq<char>, Seq<char>)>,
    b: Seq<(Seq<char>, Seq<char>)>,
    ra: Seq<(Seq<char>, Seq<char>)>,
    rb: Seq<(Seq<char>, Seq<char>)>,
    rest: Seq<(Seq<char>, Seq<char>)>,
    h: (Seq<char>, Seq<char>),
    from_a: bool,
    from_b: bool,
)
    requires
        a.len() > 0,
        b.len() > 0,
        from_a || from_b,
        from_a ==> ra == a.drop_first(),
        !from_a ==> ra == a,
        from_b ==> rb == b.drop_first(),
        !from_b ==> rb == b,
        from_a && !from_b ==> h == a[0],
        from_b ==> h == b[0],
        from_a && from_b ==> a[0].0 == b[0].0,
        forall|p: (Seq<char>, Seq<char>)| rest.contains(p) ==> ra.contains(p) || rb.contains(p),
        forall|p: (Seq<char>, Seq<char>)| rb.contains(p) ==> rest.contains(p),
        forall|p: (Seq<char>, Seq<char>)| ra.contains(p) && !has_key(rb, p.0) ==> rest.contains(p),
    ensures
        forall|p: (Seq<char>, Seq<char>)| (seq![h] + rest).contains(p) ==> a.contains(p) || b.contains(p),
        forall|p: (Seq<char>, Seq<char>)| b.contains(p) ==> (seq![h] + rest).contains(p),
        forall|p: (Seq<char>, Seq<char>)| a.contains(p) && !has_key(b, p.0) ==> (seq![h] + rest).contains(p),
{
    let o = seq![h] + rest;
    assert(o[0] == h);
    assert forall|p: (Seq<char>, Seq<char>)| rest.contains(p) implies o.contains(p) by {
        let i = choose|i: int| 0 <= i < rest.len() && rest[i] == p;
        assert(o[i + 1] == p);
    }
    assert forall|p: (Seq<char>, Seq<char>)| ra.contains(p) implies a.contains(p) by {
        let k = choose|k: int| 0 <= k < ra.len() && ra[k] == p;
        if from_a {
            assert(a[k + 1] == p);
        } else {
            assert(a[k] == p);
        }
    }
    assert forall|p: (Seq<char>, Seq<char>)| rb.contains(p) implies b.contains(p) by {
        let k = choose|k: int| 0 <= k < rb.len() && rb[k] == p;
        if from_b {
            assert(b[k + 1] == p);
        } else {
            assert(b[k] == p);
        }
    }
    assert forall|p: (Seq<char>, Seq<char>)| o.contains(p) implies a.contains(p) || b.contains(p) by {
        let i = choose|i: int| 0 <= i < o.len() && o[i] == p;
        if i == 0 {
            if from_b {
                assert(b[0] == p);
            } else {
                assert(a[0] == p);
            }
        } else {
            assert(rest[i - 1] == p);
            assert(rest.contains(p));
        }
    }
    assert forall|p: (Seq<char>, Seq<char>)| b.contains(p) implies o.contains(p) by {
        let j = choose|j: int| 0 <= j < b.len() && b[j] == p;
        if from_b && j == 0 {
        } else if from_b {
            assert(rb[j - 1] == p);
            assert(rb.contains(p));
        } else {
            assert(rb[j] == p);
            assert(rb.contains(p));
        }
    }
    assert forall|p: (Seq<char>, Seq<char>)| a.contains(p) && !has_key(b, p.0) implies o.contains(p) by {
        let i = choose|i: int| 0 <= i < a.len() && a[i] == p;
        if has_key(rb, p.0) {
            let k = choose|k: int| 0 <= k < rb.len() && rb[k].0 == p.0;
            if from_b {
                assert(b[k + 1].0 == p.0);
            } else {
                assert(b[k].0 == p.0);
            }
        } else if from_a && i == 0 {
            if from_b {
                assert(b[0].0 == p.0);
            } else {
                assert(o[0] == p);
            }
        } else if from_a {
            assert(ra[i - 1] == p);
            assert(ra.contains(p));
        } else {
            assert(ra[i] == p);
            assert(ra.contains(p));
        }
    }
}

/// A package scope inherits its parent's variables under its own values: with
/// both maps in key order, the scope's rows hold exactly its own variables and
/// each parent variable it does not set, still in key order.
pub proof fn scope_overlays_its_parent(parent: Seq<(Seq<char>, Seq<char>)>, scope: Seq<(Seq<char>, Seq<char>)>)
    requires
        keys_sorted(parent),
        keys_sorted(scope),
    ensures
        keys_sorted(overlay(parent, scope)),
        forall|p: (Seq<char>, Seq<char>)|
            overlay(parent, scope).contains(p) <==> (scope.contains(p) || (parent.contains(p) && !has_key(scope, p.0))),
{
    lemma_overlay(parent, scope);
    let o = overlay(parent, scope);
    assert forall|p: (Seq<char>, Seq<char>)| o.contains(p) implies (scope.contains(p) || (parent.contains(p)
        && !has_key(scope, p.0))) by {
        if !scope.contains(p) && has_key(scope, p.0) {
            let k = choose|k: int| 0 <= k < scope.len() && scope[k].0 == p.0;
            let q = scope[k];
            assert(scope.contains(q));
            assert(o.contains(q));
            let i = choose|i: int| 0 <= i < o.len() && o[i] == p;
            let j = choose|j: int| 0 <= j < o.len() && o[j] == q;
            assert(i != j);
            lemma_lt_trichotomy(p.0, q.0);
        }
    }
}

} // verus!
