//! The project's own metadata, resolved from the files a parse writes.
//!
//! `generation.parquet` holds the fields written only on a cold start (project
//! name, adapter, dbt version, the vars and env vars); `resolver_state.parquet`
//! holds what every parse updates (git state, package kinds), and the vars for
//! metadata written before the generation file carried them. A metadata
//! directory older still keeps the project fields in `project.parquet` as
//! key/value rows.
//!
//! The vars, env vars and package kinds are JSON objects; each becomes rows
//! of its own table, one per member.
//!
//! Each file is read as the first row of each of its batches: a field is
//! `None` when the batch is empty, lacks the column, or holds null there.

use vstd::prelude::*;
use crate::json_value::{json_array_items, json_object_members, pair_texts, parse_array_items, parse_object_members};
use crate::parse_nodes::{string_items, string_items_of};
use crate::text::{owned, str_eq, string_views};

verus! {

/// The first row of one batch of `generation.parquet`.
#[derive(Debug)]
pub struct GenerationHead {
    pub project_name: Option<String>,
    pub adapter_type: Option<String>,
    pub dbt_version: Option<String>,
    pub vars_json: Option<String>,
    pub env_vars_json: Option<String>,
}

/// The first row of one batch of `resolver_state.parquet`.
#[derive(Debug)]
pub struct ResolverHead {
    pub vars_json: Option<String>,
    pub env_vars_json: Option<String>,
    pub pkg_kinds_json: Option<String>,
    pub git_sha: Option<String>,
    pub git_branch: Option<String>,
    pub git_is_dirty: Option<i32>,
}

/// The project's metadata.
#[derive(Debug)]
pub struct ProjectRecord {
    pub project_name: String,
    pub dbt_version: String,
    pub adapter_type: String,
    pub git_sha: Option<String>,
    pub git_branch: Option<String>,
    pub git_is_dirty: Option<bool>,
    pub vars_json: Option<String>,
    pub env_vars_json: Option<String>,
    pub pkg_kinds_json: Option<String>,
}

/// The first non-empty text among `s`.
pub open spec fn first_text(s: Seq<Option<String>>) -> Option<Seq<char>>
    decreases s.len(),
{
    if s.len() == 0 {
        None
    } else {
        match s[0] {
            Some(x) => if x@.len() > 0 {
                Some(x@)
            } else {
                first_text(s.drop_first())
            },
            None => first_text(s.drop_first()),
        }
    }
}

/// The value of the last key/value row whose key is `key`; rows with a null
/// key or value are not entries.
pub open spec fn kv_last(kv: Seq<(Option<String>, Option<String>)>, key: Seq<char>) -> Option<Seq<char>>
    decreases kv.len(),
{
    if kv.len() == 0 {
        None
    } else {
        match kv.last() {
            (Some(k), Some(v)) => if k@ == key {
                Some(v@)
            } else {
                kv_last(kv.drop_last(), key)
            },
            _ => kv_last(kv.drop_last(), key),
        }
    }
}

/// One field of every generation batch.
pub open spec fn gen_field(g: Seq<GenerationHead>, f: int) -> Seq<Option<String>> {
    Seq::new(
        g.len(),
        |i: int|
            if f == 0 {
                g[i].project_name
            } else if f == 1 {
                g[i].adapter_type
            } else if f == 2 {
                g[i].dbt_version
            } else if f == 3 {
                g[i].vars_json
            } else {
                g[i].env_vars_json
            },
    )
}

/// One text field of every resolver batch.
pub open spec fn res_field(r: Seq<ResolverHead>, f: int) -> Seq<Option<String>> {
    Seq::new(
        r.len(),
        |i: int|
            if f == 0 {
                r[i].vars_json
            } else if f == 1 {
                r[i].env_vars_json
            } else if f == 2 {
                r[i].pkg_kinds_json
            } else if f == 3 {
                r[i].git_sha
            } else {
                r[i].git_branch
            },
    )
}

/// The first git dirtiness flag the resolver batches hold.
pub open spec fn first_dirty(r: Seq<ResolverHead>) -> Option<bool>
    decreases r.len(),
{
    if r.len() == 0 {
        None
    } else {
        match r[0].git_is_dirty {
            Some(d) => Some(d != 0),
            None => first_dirty(r.drop_first()),
        }
    }
}

/// A text, or the empty text.
pub open spec fn or_empty(x: Option<Seq<char>>) -> Seq<char> {
    match x {
        Some(s) => s,
        None => Seq::empty(),
    }
}

/// A text of the generation file, else of the legacy key/value file when the
/// generation file has no project name.
pub open spec fn with_legacy(
    gen: Option<Seq<char>>,
    gen_name: Option<Seq<char>>,
    legacy: Option<Seq<(Option<String>, Option<String>)>>,
    key: Seq<char>,
) -> Seq<char> {
    match gen {
        Some(s) => s,
        None => match (gen_name, legacy) {
            (None, Some(kv)) => or_empty(kv_last(kv, key)),
            _ => Seq::empty(),
        },
    }
}

/// The project name: the generation file's, else the legacy file's.
pub open spec fn resolved_name(g: Seq<GenerationHead>, legacy: Option<Seq<(Option<String>, Option<String>)>>) -> Seq<char> {
    with_legacy(first_text(gen_field(g, 0)), first_text(gen_field(g, 0)), legacy, "project_name"@)
}

/// An optional text as a value.
pub open spec fn opt_view(x: Option<String>) -> Option<Seq<char>> {
    match x {
        Some(s) => Some(s@),
        None => None,
    }
}

/// The first non-empty text of one field over the batches.
fn first_text_of(s: &Vec<Option<String>>) -> (r: Option<String>)
    ensures
        opt_view(r) == first_text(s@),
{
    let mut i: usize = 0;
    assert(s@.subrange(0, s@.len() as int) =~= s@);
    while i < s.len()
        invariant
            i <= s@.len(),
            first_text(s@) == first_text(s@.subrange(i as int, s@.len() as int)),
        decreases s@.len() - i,
    {
        let ghost rest = s@.subrange(i as int, s@.len() as int);
        assert(rest[0] == s@[i as int]);
        assert(rest.drop_first() =~= s@.subrange(i + 1, s@.len() as int));
        match &s[i] {
            Some(x) => {
                if x.as_str().unicode_len() > 0 {
                    return Some(owned(x.as_str()));
                }
            },
            None => {},
        }
        i += 1;
    }
    assert(s@.subrange(i as int, s@.len() as int).len() == 0);
    None
}

fn kv_last_of(kv: &Vec<(Option<String>, Option<String>)>, key: &str) -> (r: Option<String>)
    ensures
        opt_view(r) == kv_last(kv@, key@),
{
    let mut n: usize = kv.len();
    assert(kv@.subrange(0, kv@.len() as int) =~= kv@);
    while n > 0
        invariant
            n <= kv@.len(),
            kv_last(kv@, key@) == kv_last(kv@.subrange(0, n as int), key@),
        decreases n,
    {
        let ghost pre = kv@.subrange(0, n as int);
        assert(pre.last() == kv@[n - 1]);
        assert(pre.drop_last() =~= kv@.subrange(0, n - 1));
        match &kv[n - 1] {
            (Some(k), Some(v)) => {
                if str_eq(k.as_str(), key) {
                    return Some(owned(v.as_str()));
                }
            },
            _ => {},
        }
        n -= 1;
    }
    None
}

fn first_dirty_of(r: &Vec<ResolverHead>) -> (d: Option<bool>)
    ensures
        d == first_dirty(r@),
{
    let mut i: usize = 0;
    assert(r@.subrange(0, r@.len() as int) =~= r@);
    while i < r.len()
        invariant
            i <= r@.len(),
            first_dirty(r@) == first_dirty(r@.subrange(i as int, r@.len() as int)),
        decreases r@.len() - i,
    {
        let ghost rest = r@.subrange(i as int, r@.len() as int);
        assert(rest[0] == r@[i as int]);
        assert(rest.drop_first() =~= r@.subrange(i + 1, r@.len() as int));
        if let Some(d) = r[i].git_is_dirty {
            return Some(d != 0);
        }
        i += 1;
    }
    None
}

fn gen_column(g: &Vec<GenerationHead>, f: usize) -> (r: Vec<Option<String>>)
    ensures
        r@.len() == g@.len(),
        forall|i: int| 0 <= i < g@.len() ==> opt_view(#[trigger] r@[i]) == opt_view(gen_field(g@, f as int)[i]),
{
    let mut out: Vec<Option<String>> = Vec::new();
    let mut i: usize = 0;
    while i < g.len()
        invariant
            i <= g@.len(),
            out@.len() == i,
            forall|k: int| 0 <= k < i ==> opt_view(#[trigger] out@[k]) == opt_view(gen_field(g@, f as int)[k]),
        decreases g@.len() - i,
    {
        let h = &g[i];
        let x = if f == 0 {
            &h.project_name
        } else if f == 1 {
            &h.adapter_type
        } else if f == 2 {
            &h.dbt_version
        } else if f == 3 {
            &h.vars_json
        } else {
            &h.env_vars_json
        };
        let c = match x {
            Some(s) => Some(owned(s.as_str())),
            None => None,
        };
        out.push(c);
        i += 1;
    }
    out
}

fn res_column(r: &Vec<ResolverHead>, f: usize) -> (out: Vec<Option<String>>)
    ensures
        out@.len() == r@.len(),
        forall|i: int| 0 <= i < r@.len() ==> opt_view(#[trigger] out@[i]) == opt_view(res_field(r@, f as int)[i]),
{
    let mut out: Vec<Option<String>> = Vec::new();
    let mut i: usize = 0;
    while i < r.len()
        invariant
            i <= r@.len(),
            out@.len() == i,
            forall|k: int| 0 <= k < i ==> opt_view(#[trigger] out@[k]) == opt_view(res_field(r@, f as int)[k]),
        decreases r@.len() - i,
    {
        let h = &r[i];
        let x = if f == 0 {
            &h.vars_json
        } else if f == 1 {
            &h.env_vars_json
        } else if f == 2 {
            &h.pkg_kinds_json
        } else if f == 3 {
            &h.git_sha
        } else {
            &h.git_branch
        };
        let c = match x {
            Some(s) => Some(owned(s.as_str())),
            None => None,
        };
        out.push(c);
        i += 1;
    }
    out
}

/// Only the views of the texts matter to `first_text`.
proof fn lemma_first_text_views(a: Seq<Option<String>>, b: Seq<Option<String>>)
    requires
        a.len() == b.len(),
        forall|i: int| 0 <= i < a.len() ==> opt_view(a[i]) == opt_view(b[i]),
    ensures
        first_text(a) == first_text(b),
    decreases a.len(),
{
    if a.len() > 0 {
        assert(opt_view(a[0]) == opt_view(b[0]));
        lemma_first_text_views(a.drop_first(), b.drop_first());
    }
}

/// `first_text` over two sequences one after the other.
proof fn lemma_first_text_concat(a: Seq<Option<String>>, b: Seq<Option<String>>)
    ensures
        first_text(a + b) == match first_text(a) {
            Some(x) => Some(x),
            None => first_text(b),
        },
    decreases a.len(),
{
    if a.len() == 0 {
        assert(a + b =~= b);
    } else {
        assert((a + b).drop_first() =~= a.drop_first() + b);
        assert((a + b)[0] == a[0]);
        lemma_first_text_concat(a.drop_first(), b);
    }
}

/// The project's metadata from the first rows of the generation batches, the
/// legacy key/value rows when that file exists, and the first rows of the
/// resolver-state batches. `None` when no project name is found: there is
/// no project to describe.
///
/// Each text comes from the first batch holding a non-empty one; the vars and
/// env vars fall back from the generation file to the resolver state. The
/// project name, adapter and version fall back to the legacy rows, the last
/// row of a key winning, when the generation file names no project.
pub fn resolve_project(
    generation: &Vec<GenerationHead>,
    legacy: Option<&Vec<(Option<String>, Option<String>)>>,
    resolver: &Vec<ResolverHead>,
) -> (r: Option<ProjectRecord>)
    ensures
        ({
            let leg = match legacy {
                Some(kv) => Some(kv@),
                None => None,
            };
            let name = resolved_name(generation@, leg);
            let gen_name = first_text(gen_field(generation@, 0));
            match r {
                None => name.len() == 0,
                Some(p) => {
                    &&& name.len() > 0
                    &&& p.project_name@ == name
                    &&& p.adapter_type@ == with_legacy(first_text(gen_field(generation@, 1)), gen_name, leg, "adapter_type"@)
                    &&& p.dbt_version@ == with_legacy(first_text(gen_field(generation@, 2)), gen_name, leg, "dbt_version"@)
                    &&& opt_view(p.vars_json) == first_text(gen_field(generation@, 3) + res_field(resolver@, 0))
                    &&& opt_view(p.env_vars_json) == first_text(gen_field(generation@, 4) + res_field(resolver@, 1))
                    &&& opt_view(p.pkg_kinds_json) == first_text(res_field(resolver@, 2))
                    &&& opt_view(p.git_sha) == first_text(res_field(resolver@, 3))
                    &&& opt_view(p.git_branch) == first_text(res_field(resolver@, 4))
                    &&& p.git_is_dirty == first_dirty(resolver@)
                }
            }
        }),
{
    let ghost leg = match legacy {
        Some(kv) => Some(kv@),
        None => None,
    };
    let mut cols: Vec<Option<String>> = Vec::new();
    let mut f: usize = 0;
    while f < 5
        invariant
            f <= 5,
            cols@.len() == f,
            forall|k: int| 0 <= k < f ==> opt_view(#[trigger] cols@[k]) == first_text(gen_field(generation@, k)),
        decreases 5 - f,
    {
        let col = gen_column(generation, f);
        proof {
            lemma_first_text_views(col@, gen_field(generation@, f as int));
        }
        cols.push(first_text_of(&col));
        f += 1;
    }
    let mut rcols: Vec<Option<String>> = Vec::new();
    let mut f: usize = 0;
    while f < 5
        invariant
            f <= 5,
            rcols@.len() == f,
            forall|k: int| 0 <= k < f ==> opt_view(#[trigger] rcols@[k]) == first_text(res_field(resolver@, k)),
        decreases 5 - f,
    {
        let col = res_column(resolver, f);
        proof {
            lemma_first_text_views(col@, res_field(resolver@, f as int));
        }
        rcols.push(first_text_of(&col));
        f += 1;
    }
    let gen_name = &cols[0];
    proof {
        reveal_strlit("");
    }
    let (name, adapter, version) = match gen_name {
        Some(n) => (
            owned(n.as_str()),
            or_empty_string(&cols[1]),
            or_empty_string(&cols[2]),
        ),
        None => match legacy {
            Some(kv) => (
                or_empty_string(&kv_last_of(kv, "project_name")),
                match &cols[1] {
                    Some(a) => owned(a.as_str()),
                    None => or_empty_string(&kv_last_of(kv, "adapter_type")),
                },
                match &cols[2] {
                    Some(v) => owned(v.as_str()),
                    None => or_empty_string(&kv_last_of(kv, "dbt_version")),
                },
            ),
            None => (owned(""), or_empty_string(&cols[1]), or_empty_string(&cols[2])),
        },
    };
    let name_len = name.as_str().unicode_len();
    if name_len == 0 {
        return None;
    }
    let vars = match &cols[3] {
        Some(v) => Some(owned(v.as_str())),
        None => match &rcols[0] {
            Some(v) => Some(owned(v.as_str())),
            None => None,
        },
    };
    let env = match &cols[4] {
        Some(v) => Some(owned(v.as_str())),
        None => match &rcols[1] {
            Some(v) => Some(owned(v.as_str())),
            None => None,
        },
    };
    proof {
        lemma_first_text_concat(gen_field(generation@, 3), res_field(resolver@, 0));
        lemma_first_text_concat(gen_field(generation@, 4), res_field(resolver@, 1));
    }
    Some(ProjectRecord {
        project_name: name,
        dbt_version: version,
        adapter_type: adapter,
        git_sha: copy_opt(&rcols[3]),
        git_branch: copy_opt(&rcols[4]),
        git_is_dirty: first_dirty_of(resolver),
        vars_json: vars,
        env_vars_json: env,
        pkg_kinds_json: copy_opt(&rcols[2]),
    })
}

fn copy_opt(x: &Option<String>) -> (r: Option<String>)
    ensures
        opt_view(r) == opt_view(*x),
{
    match x {
        Some(s) => Some(owned(s.as_str())),
        None => None,
    }
}

fn or_empty_string(x: &Option<String>) -> (r: String)
    ensures
        r@ == or_empty(opt_view(*x)),
{
    proof {
        reveal_strlit("");
    }
    match x {
        Some(s) => owned(s.as_str()),
        None => owned(""),
    }
}

/// The members of the JSON object a project text holds, in the order the
/// parsed map keeps them; none when the text is absent or not an object.
pub open spec fn text_members(text: Option<&str>) -> Seq<(Seq<char>, Seq<char>)> {
    match text {
        Some(t) => match json_object_members(t@) {
            Some(ms) => ms,
            None => Seq::empty(),
        },
        None => Seq::empty(),
    }
}

/// The strings among the items of a JSON array; none when it is not an array.
pub open spec fn array_strings(v: Seq<char>) -> Seq<Seq<char>> {
    match json_array_items(v) {
        Some(items) => string_items(items),
        None => Seq::empty(),
    }
}

fn members_of_text(text: Option<&str>) -> (r: Vec<(String, String)>)
    ensures
        pair_texts(r@) == text_members(text),
{
    let none: Vec<(String, String)> = Vec::new();
    proof { assert(pair_texts(none@) =~= Seq::empty()); }
    match text {
        Some(t) => match parse_object_members(t) {
            Some(ms) => ms,
            None => none,
        },
        None => none,
    }
}

/// The `project_vars` rows of the project: one per top-level member of its
/// vars text, the member's name and its value as JSON text. The top-level
/// keys are packages, each holding that package's var map. None when the text
/// is absent or not a JSON object.
pub fn project_var_source_rows(vars_json: Option<&str>) -> (r: Vec<(String, String)>)
    ensures
        pair_texts(r@) == text_members(vars_json),
{
    members_of_text(vars_json)
}

/// The `project_env_vars` rows of the project: one per member of its env-vars
/// text, the variable's name and, as `used_in`, the string items of the
/// member's array (none when it is not an array). None when the text is absent
/// or not a JSON object.
pub fn project_env_var_rows(env_vars_json: Option<&str>) -> (r: Vec<(String, Vec<String>)>)
    ensures
        r@.len() == text_members(env_vars_json).len(),
        forall|i: int| 0 <= i < r@.len() ==> (#[trigger] r@[i]).0@ == text_members(env_vars_json)[i].0
            && string_views(r@[i].1@) == array_strings(text_members(env_vars_json)[i].1),
{
    let ms = members_of_text(env_vars_json);
    let ghost pm = pair_texts(ms@);
    let mut out: Vec<(String, Vec<String>)> = Vec::new();
    let mut i: usize = 0;
    while i < ms.len()
        invariant
            i <= ms@.len(),
            pm == pair_texts(ms@),
            pm == text_members(env_vars_json),
            out@.len() == i,
            forall|k: int| 0 <= k < i ==> (#[trigger] out@[k]).0@ == pm[k].0 && string_views(out@[k].1@) == array_strings(pm[k].1),
        decreases ms@.len() - i,
    {
        let used_in = match parse_array_items(ms[i].1.as_str()) {
            Some(items) => string_items_of(&items),
            None => {
                let e: Vec<String> = Vec::new();
                assert(string_views(e@) =~= Seq::empty());
                e
            },
        };
        out.push((owned(ms[i].0.as_str()), used_in));
        i += 1;
    }
    out
}

/// The `packages` rows of the project: one per member key of its package-kinds
/// text (`{package: kinds}`), in order. None when the text is absent or not a
/// JSON object.
pub fn package_rows(pkg_kinds_json: Option<&str>) -> (r: Vec<String>)
    ensures
        string_views(r@) == Seq::new(text_members(pkg_kinds_json).len(), |i: int| text_members(pkg_kinds_json)[i].0),
{
    let ms = members_of_text(pkg_kinds_json);
    let ghost pm = pair_texts(ms@);
    let ghost keys = Seq::new(pm.len(), |i: int| pm[i].0);
    let mut out: Vec<String> = Vec::new();
    let mut i: usize = 0;
    while i < ms.len()
        invariant
            i <= ms@.len(),
            pm == pair_texts(ms@),
            keys == Seq::new(pm.len(), |k: int| pm[k].0),
            string_views(out@) == keys.subrange(0, i as int),
        decreases ms@.len() - i,
    {
        let ghost before = string_views(out@);
        out.push(owned(ms[i].0.as_str()));
        assert(string_views(out@) =~= before.push(keys[i as int]));
        assert(keys.subrange(0, i + 1) =~= keys.subrange(0, i as int).push(keys[i as int]));
        i += 1;
    }
    assert(keys.subrange(0, ms@.len() as int) =~= keys);
    out
}

/// The project's dirty flag is that of the first resolver row carrying one:
/// dirty when the flag is non-zero, clean when it is 0; unknown when no row
/// carries one.
pub proof fn the_first_dirty_flag_decides(r: Seq<ResolverHead>, i: int)
    requires
        0 <= i < r.len(),
        r[i].git_is_dirty is Some,
        forall|j: int| 0 <= j < i ==> (#[trigger] r[j]).git_is_dirty is None,
    ensures
        first_dirty(r) == Some(r[i].git_is_dirty->0 != 0),
        r[i].git_is_dirty == Some(0i32) ==> first_dirty(r) == Some(false),
    decreases i,
{
    if i > 0 {
        assert(r[0].git_is_dirty is None);
        assert forall|j: int| 0 <= j < i - 1 implies (#[trigger] r.drop_first()[j]).git_is_dirty is None by {
            assert(r.drop_first()[j] == r[j + 1]);
        }
        assert(r.drop_first()[i - 1] == r[i]);
        the_first_dirty_flag_decides(r.drop_first(), i - 1);
    }
}

/// With no resolver row carrying a dirty flag, whether the tree is dirty is
/// unknown.
pub proof fn no_dirty_flag_is_unknown(r: Seq<ResolverHead>)
    requires
        forall|j: int| 0 <= j < r.len() ==> (#[trigger] r[j]).git_is_dirty is None,
    ensures
        first_dirty(r) is None,
    decreases r.len(),
{
    if r.len() > 0 {
        assert(r[0].git_is_dirty is None);
        assert forall|j: int| 0 <= j < r.drop_first().len() implies (#[trigger] r.drop_first()[j]).git_is_dirty is None by {
            assert(r.drop_first()[j] == r[j + 1]);
        }
        no_dirty_flag_is_unknown(r.drop_first());
    }
}

} // verus!
