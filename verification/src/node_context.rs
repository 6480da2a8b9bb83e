//! Decisions taken while building a node's compile context: which relation
//! `this` is, and the resource roots a model's Jinja `path` is relative to.

use vstd::prelude::*;
use crate::text::{copy_strings, owned, str_eq, string_views};

verus! {

/// The name of the REPL's model.
pub const REPL_MODEL_NAME: &'static str = "__repl__";

/// The kind of node a context is built for, as far as `this` cares.
#[derive(Debug, Clone, Copy, PartialEq, Eq, Structural)]
pub enum NodeKind {
    UnitTest,
    Model,
    Other,
}

/// Where a node's `this` comes from.
#[derive(Debug, Clone, Copy, PartialEq, Eq, Structural)]
pub enum ThisRelation {
    /// The relation of the unit test's first ref.
    FirstRef,
    /// A relation built from the node's own database, schema and alias.
    Built,
    /// The relation the resolver holds for the node itself, looked up by
    /// identity so a name shared with another node does not make it ambiguous.
    OwnLookup,
}

/// Where `this` comes from: a unit test's first ref; for a model, a built
/// relation for the REPL model and for an ephemeral model (whose stored
/// relation would render as its own CTE), else its own lookup; for any other
/// node, a built relation.
pub open spec fn this_relation_model(kind: NodeKind, name: Seq<char>, ephemeral: bool) -> ThisRelation {
    match kind {
        NodeKind::UnitTest => ThisRelation::FirstRef,
        NodeKind::Model => if name == REPL_MODEL_NAME@ || ephemeral {
            ThisRelation::Built
        } else {
            ThisRelation::OwnLookup
        },
        NodeKind::Other => ThisRelation::Built,
    }
}

/// Where a node's `this` comes from, given its kind, its name and whether it
/// is materialized ephemeral.
pub fn this_relation(kind: NodeKind, name: &str, ephemeral: bool) -> (r: ThisRelation)
    ensures
        r == this_relation_model(kind, name@, ephemeral),
{
    match kind {
        NodeKind::UnitTest => ThisRelation::FirstRef,
        NodeKind::Model => if str_eq(name, REPL_MODEL_NAME) || ephemeral {
            ThisRelation::Built
        } else {
            ThisRelation::OwnLookup
        },
        NodeKind::Other => ThisRelation::Built,
    }
}

/// Whether a model's own lookup yields its deferred relation rather than its
/// own: when there is one, and static analysis or introspection makes the
/// model unsafe to render against its own.
pub fn uses_deferred(has_deferred: bool, static_analysis_unsafe: bool, introspection_unsafe: bool) -> (r: bool)
    ensures
        r == (has_deferred && (static_analysis_unsafe || introspection_unsafe)),
{
    has_deferred && (static_analysis_unsafe || introspection_unsafe)
}

/// The resource roots configured for a package, before the default applies:
/// the root project's own, a dependency's from its config, none for an
/// unknown package.
pub open spec fn configured_paths(
    root_name: Seq<char>,
    root_paths: Seq<Seq<char>>,
    deps: Seq<(Seq<char>, Seq<Seq<char>>)>,
    package: Seq<char>,
) -> Seq<Seq<char>> {
    if root_name == package {
        root_paths
    } else {
        match first_dep(deps, package, 0) {
            Some(i) => deps[i].1,
            None => Seq::empty(),
        }
    }
}

/// The first dependency entry at or after `i` named `package`.
pub open spec fn first_dep(deps: Seq<(Seq<char>, Seq<Seq<char>>)>, package: Seq<char>, i: int) -> Option<int>
    decreases deps.len() - i,
{
    if i < 0 || i >= deps.len() {
        None
    } else if deps[i].0 == package {
        Some(i)
    } else {
        first_dep(deps, package, i + 1)
    }
}

/// The resource roots of a package, `models` when none are configured.
pub open spec fn model_paths_model(
    root_name: Seq<char>,
    root_paths: Seq<Seq<char>>,
    deps: Seq<(Seq<char>, Seq<Seq<char>>)>,
    package: Seq<char>,
) -> Seq<Seq<char>> {
    let p = configured_paths(root_name, root_paths, deps, package);
    if p.len() == 0 {
        seq!["models"@]
    } else {
        p
    }
}

/// Dependencies as values.
pub open spec fn dep_views(deps: Seq<(String, Vec<String>)>) -> Seq<(Seq<char>, Seq<Seq<char>>)> {
    Seq::new(deps.len(), |i: int| (deps[i].0@, string_views(deps[i].1@)))
}

fn find_dep(deps: &Vec<(String, Vec<String>)>, package: &str) -> (r: Option<usize>)
    ensures
        match r {
            Some(k) => first_dep(dep_views(deps@), package@, 0) == Some(k as int) && k < deps@.len(),
            None => first_dep(dep_views(deps@), package@, 0) is None,
        },
{
    let ghost dv = dep_views(deps@);
    let mut i: usize = 0;
    while i < deps.len()
        invariant
            dv == dep_views(deps@),
            i <= deps@.len(),
            first_dep(dv, package@, 0) == first_dep(dv, package@, i as int),
        decreases deps@.len() - i,
    {
        if str_eq(deps[i].0.as_str(), package) {
            assert(dv[i as int].0 == package@);
            return Some(i);
        }
        assert(dv[i as int].0 != package@);
        i += 1;
    }
    None
}

/// The configured resource roots (`model-paths`) of a node's package, which
/// a model's Jinja `path` is relative to: the root project's own, a
/// dependency's from its own config, and `models`, the default, when none are
/// configured.
pub fn model_paths_for_package(
    root_project_name: &str,
    root_model_paths: &Vec<String>,
    dependencies: &Vec<(String, Vec<String>)>,
    package_name: &str,
) -> (r: Vec<String>)
    ensures
        string_views(r@) == model_paths_model(root_project_name@, string_views(root_model_paths@), dep_views(dependencies@), package_name@),
{
    let ghost dv = dep_views(dependencies@);
    let paths = if str_eq(root_project_name, package_name) {
        copy_strings(root_model_paths)
    } else {
        let found = find_dep(dependencies, package_name);
        match found {
            Some(k) => copy_strings(&dependencies[k].1),
            None => {
                let v: Vec<String> = Vec::new();
                assert(string_views(v@) =~= Seq::<Seq<char>>::empty());
                v
            },
        }
    };
    if paths.len() == 0 {
        let v = vec![owned("models")];
        assert(string_views(v@) =~= seq!["models"@]);
        v
    } else {
        paths
    }
}

/// One pre- or post-hook of a node: the SQL it runs, and whether it runs in
/// the surrounding transaction.
#[derive(Debug)]
pub struct HookConfig {
    /// SQL template the hook executes.
    pub sql: String,
    /// Whether this hook participates in the surrounding transaction.
    pub transaction: bool,
}

/// A hook entry as the node's config holds it.
#[derive(Debug)]
pub enum HookItem {
    /// A bare SQL string.
    Text(String),
    /// A mapping: its `sql` when that is a string, its `transaction` when
    /// that is a boolean.
    Mapping { sql: Option<String>, transaction: Option<bool> },
    /// Anything else.
    Other,
}

/// A hook entry as a hook: a bare string runs in the transaction; a mapping
/// needs its `sql` and runs in the transaction unless it says otherwise;
/// anything else is no hook.
pub fn parse_hook_item(item: &HookItem) -> (r: Option<HookConfig>)
    ensures
        match item {
            HookItem::Text(s) => r is Some && r->0.sql@ == s@ && r->0.transaction,
            HookItem::Mapping { sql, transaction } => match sql {
                Some(q) => r is Some && r->0.sql@ == q@ && r->0.transaction == match transaction {
                    Some(t) => *t,
                    None => true,
                },
                None => r is None,
            },
            HookItem::Other => r is None,
        },
{
    match item {
        HookItem::Text(s) => Some(HookConfig { sql: owned(s.as_str()), transaction: true }),
        HookItem::Mapping { sql, transaction } => match sql {
            Some(q) => Some(HookConfig {
                sql: owned(q.as_str()),
                transaction: match transaction {
                    Some(t) => *t,
                    None => true,
                },
            }),
            None => None,
        },
        HookItem::Other => None,
    }
}

/// The packages a `doc()` reference in a node's documentation searches, in
/// order: the root project first, so it wins over a dependency defining the
/// same doc name, then the node's own package when that is another one.
pub fn doc_package_search_order(root_project_name: &str, node_package_name: &str) -> (r: Vec<String>)
    ensures
        string_views(r@) == if node_package_name@ == root_project_name@ {
            seq![root_project_name@]
        } else {
            seq![root_project_name@, node_package_name@]
        },
{
    let mut order = vec![owned(root_project_name)];
    if !str_eq(node_package_name, root_project_name) {
        order.push(owned(node_package_name));
    }
    assert(string_views(order@) =~= if node_package_name@ == root_project_name@ {
        seq![root_project_name@]
    } else {
        seq![root_project_name@, node_package_name@]
    });
    order
}

} // verus!
