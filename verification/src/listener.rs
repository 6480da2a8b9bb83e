//! What rendering and type-checking listeners collect: the macros a node's
//! render invoked, and the macro dependency graph type-checking observes.

use vstd::prelude::*;
use crate::order::{lemma_lt_transitive, lemma_lt_trichotomy, seq_lt, str_lt, strictly_sorted};
use crate::text::{copy_strings, owned, str_eq, string_views};

verus! {

/// The prefix of a macro's unique id.
pub const MACRO_ID_PREFIX: &'static str = "macro.";

/// Insert `s` into the strictly increasing `v`, keeping it so; nothing happens
/// when `s` is already there.
pub fn insert_sorted_string(v: &mut Vec<String>, s: String)
    requires
        strictly_sorted(string_views(old(v)@)),
    ensures
        strictly_sorted(string_views(final(v)@)),
        forall|x: Seq<char>| string_views(final(v)@).contains(x) <==> (string_views(old(v)@).contains(x) || x == s@),
{
    let ghost old_v = string_views(v@);
    let mut p: usize = 0;
    while p < v.len() && str_lt(v[p].as_str(), s.as_str())
        invariant
            p <= v@.len(),
            string_views(v@) == old_v,
            strictly_sorted(old_v),
            forall|k: int| 0 <= k < p ==> seq_lt(#[trigger] old_v[k], s@),
        decreases v@.len() - p,
    {
        p += 1;
    }
    if p < v.len() && str_eq(v[p].as_str(), s.as_str()) {
        assert(old_v[p as int] == s@);
        return;
    }
    proof {
        if p < old_v.len() {
            lemma_lt_trichotomy(old_v[p as int], s@);
            assert forall|k: int| p <= k < old_v.len() implies seq_lt(s@, #[trigger] old_v[k]) by {
                if k > p {
                    lemma_lt_transitive(s@, old_v[p as int], old_v[k]);
                }
            }
        }
    }
    let ghost sv = s@;
    v.insert(p, s);
    proof {
        let nv = string_views(v@);
        assert(nv =~= old_v.insert(p as int, sv));
        assert forall|i: int, j: int| 0 <= i < j < nv.len() implies seq_lt(nv[i], nv[j]) by {
            if i < p && j > p {
                lemma_lt_transitive(nv[i], sv, nv[j]);
            }
        }
        assert forall|x: Seq<char>| nv.contains(x) <==> (old_v.contains(x) || x == sv) by {
            if nv.contains(x) {
                let k = choose|k: int| 0 <= k < nv.len() && nv[k] == x;
                if k < p {
                    assert(old_v[k] == x);
                } else if k > p {
                    assert(old_v[k - 1] == x);
                }
            }
            if old_v.contains(x) {
                let k = choose|k: int| 0 <= k < old_v.len() && old_v[k] == x;
                if k < p {
                    assert(nv[k] == x);
                } else {
                    assert(nv[k + 1] == x);
                }
            }
            if x == sv {
                assert(nv[p as int] == x);
            }
        }
    }
}

/// Tracks which macros are invoked during rendering, to fill a node's
/// `depends_on.macros`.
#[derive(Debug)]
pub struct MacroDependencyListener {
    macro_deps: Vec<String>,
}

impl MacroDependencyListener {
    /// The template names collected since the last drain, in arrival order.
    pub closed spec fn collected(&self) -> Seq<Seq<char>> {
        string_views(self.macro_deps@)
    }

    /// Creates a new, empty dependency tracker.
    pub fn new() -> (r: Self)
        ensures
            r.collected() == Seq::<Seq<char>>::empty(),
    {
        let r = MacroDependencyListener { macro_deps: Vec::new() };
        assert(r.collected() =~= Seq::<Seq<char>>::empty());
        r
    }

    /// A template was invoked while rendering.
    pub fn on_macro_dependency(&mut self, template_name: &str)
        ensures
            final(self).collected() == old(self).collected().push(template_name@),
    {
        self.macro_deps.push(owned(template_name));
        assert(self.collected() =~= old(self).collected().push(template_name@));
    }

    /// Drains the collected template names and returns them, without
    /// duplicates and in increasing order, as `macro.<package>.<name>` unique
    /// ids.
    pub fn drain_macro_unique_ids(&mut self) -> (r: Vec<String>)
        ensures
            final(self).collected() == Seq::<Seq<char>>::empty(),
            exists|names: Seq<Seq<char>>|
                {
                    &&& strictly_sorted(names)
                    &&& forall|x: Seq<char>| names.contains(x) <==> old(self).collected().contains(x)
                    &&& r@.len() == names.len()
                    &&& forall|i: int| 0 <= i < names.len() ==> #[trigger] r@[i]@ == MACRO_ID_PREFIX@ + names[i]
                },
    {
        let mut names: Vec<String> = Vec::new();
        let mut i: usize = 0;
        let ghost all = string_views(self.macro_deps@);
        while i < self.macro_deps.len()
            invariant
                all == string_views(self.macro_deps@),
                i <= all.len(),
                strictly_sorted(string_views(names@)),
                forall|x: Seq<char>| string_views(names@).contains(x) <==> all.subrange(0, i as int).contains(x),
            decreases all.len() - i,
        {
            let s = owned(self.macro_deps[i].as_str());
            insert_sorted_string(&mut names, s);
            proof {
                let a = all.subrange(0, i as int);
                let b = all.subrange(0, i + 1);
                assert(b =~= a.push(all[i as int]));
                assert forall|x: Seq<char>| b.contains(x) <==> (a.contains(x) || x == all[i as int]) by {
                    if b.contains(x) {
                        let k = choose|k: int| 0 <= k < b.len() && b[k] == x;
                        if k < a.len() {
                            assert(a[k] == x);
                        }
                    }
                    if a.contains(x) {
                        let k = choose|k: int| 0 <= k < a.len() && a[k] == x;
                        assert(b[k] == x);
                    }
                    if x == all[i as int] {
                        assert(b[i as int] == x);
                    }
                }
            }
            i += 1;
        }
        assert(all.subrange(0, all.len() as int) =~= all);
        let mut out: Vec<String> = Vec::new();
        let mut k: usize = 0;
        while k < names.len()
            invariant
                k <= names@.len(),
                out@.len() == k,
                forall|q: int| 0 <= q < k ==> #[trigger] out@[q]@ == MACRO_ID_PREFIX@ + names@[q]@,
            decreases names@.len() - k,
        {
            let mut id = owned(MACRO_ID_PREFIX);
            id.append(names[k].as_str());
            out.push(id);
            k += 1;
        }
        assert(forall|q: int| 0 <= q < names@.len() ==> string_views(names@)[q] == names@[q]@);
        self.macro_deps = Vec::new();
        assert(self.collected() =~= Seq::<Seq<char>>::empty());
        out
    }
}

// ---------------------------------------------------------------------------
// The macro dependency graph type-checking observes
// ---------------------------------------------------------------------------

/// The keys of a dependency graph held as (macro, dependencies) entries.
pub open spec fn entry_keys(v: Seq<(String, Vec<String>)>) -> Seq<Seq<char>> {
    Seq::new(v.len(), |i: int| v[i].0@)
}

/// The dependencies of entry `i`.
pub open spec fn entry_deps(v: Seq<(String, Vec<String>)>, i: int) -> Seq<Seq<char>> {
    string_views(v[i].1@)
}

/// Keys strictly increasing, and each entry's dependencies too: a map of
/// sets, iterated in order.
pub open spec fn graph_wf(v: Seq<(String, Vec<String>)>) -> bool {
    &&& strictly_sorted(entry_keys(v))
    &&& forall|i: int| 0 <= i < v.len() ==> strictly_sorted(#[trigger] entry_deps(v, i))
}

/// Whether macro `r` has an entry.
pub open spec fn graph_has(v: Seq<(String, Vec<String>)>, r: Seq<char>) -> bool {
    entry_keys(v).contains(r)
}

/// Whether macro `r` is recorded as depending on macro `d`.
pub open spec fn graph_depends(v: Seq<(String, Vec<String>)>, r: Seq<char>, d: Seq<char>) -> bool {
    exists|i: int| 0 <= i < v.len() && #[trigger] v[i].0@ == r && entry_deps(v, i).contains(d)
}

/// In a strictly increasing sequence a value sits at one position only.
proof fn lemma_sorted_distinct(s: Seq<Seq<char>>, i: int, j: int)
    requires
        strictly_sorted(s),
        0 <= i < s.len(),
        0 <= j < s.len(),
        s[i] == s[j],
    ensures
        i == j,
{
    if i < j {
        lemma_lt_trichotomy(s[i], s[j]);
    } else if j < i {
        lemma_lt_trichotomy(s[j], s[i]);
    }
}

/// Where `r` belongs among the keys: every key before `p` is smaller, and the
/// key at `p`, if any, is not. `found` when the key at `p` is `r`.
fn find_key(v: &Vec<(String, Vec<String>)>, r: &str) -> (res: (bool, usize))
    requires
        graph_wf(v@),
    ensures
        res.1 <= v@.len(),
        forall|i: int| 0 <= i < res.1 ==> seq_lt(#[trigger] entry_keys(v@)[i], r@),
        res.1 < v@.len() ==> !seq_lt(entry_keys(v@)[res.1 as int], r@),
        res.0 <==> (res.1 < v@.len() && entry_keys(v@)[res.1 as int] == r@),
        res.0 <==> graph_has(v@, r@),
{
    let ghost ks = entry_keys(v@);
    let mut p: usize = 0;
    while p < v.len() && str_lt(v[p].0.as_str(), r)
        invariant
            ks == entry_keys(v@),
            p <= v@.len(),
            forall|i: int| 0 <= i < p ==> seq_lt(#[trigger] ks[i], r@),
        decreases v@.len() - p,
    {
        assert(ks[p as int] == v@[p as int].0@);
        p += 1;
    }
    let found = p < v.len() && str_eq(v[p].0.as_str(), r);
    proof {
        if p < v@.len() {
            assert(ks[p as int] == v@[p as int].0@);
        }
        if graph_has(v@, r@) && !found {
            let k = choose|k: int| 0 <= k < ks.len() && ks[k] == r@;
            if k < p {
                lemma_lt_trichotomy(ks[k], r@);
            } else {
                lemma_lt_trichotomy(ks[p as int], r@);
                lemma_lt_transitive(r@, ks[p as int], ks[k]);
                lemma_lt_trichotomy(r@, r@);
            }
        }
        if found {
            assert(ks.contains(r@));
        }
    }
    (found, p)
}

/// Remove macro `r`'s entry, giving back its dependencies.
fn graph_take(v: &mut Vec<(String, Vec<String>)>, r: &str) -> (res: Option<Vec<String>>)
    requires
        graph_wf(old(v)@),
    ensures
        graph_wf(final(v)@),
        res is Some <==> graph_has(old(v)@, r@),
        res matches Some(ds) ==> strictly_sorted(string_views(ds@)) && forall|d: Seq<char>|
            string_views(ds@).contains(d) <==> graph_depends(old(v)@, r@, d),
        forall|x: Seq<char>| graph_has(final(v)@, x) <==> (graph_has(old(v)@, x) && x != r@),
        forall|x: Seq<char>, d: Seq<char>| graph_depends(final(v)@, x, d) <==> (graph_depends(old(v)@, x, d) && x != r@),
{
    let (found, p) = find_key(v, r);
    if !found {
        proof {
            assert forall|x: Seq<char>, d: Seq<char>| graph_depends(v@, x, d) implies x != r@ by {
                let i = choose|i: int| 0 <= i < v@.len() && #[trigger] v@[i].0@ == x && entry_deps(v@, i).contains(d);
                assert(entry_keys(v@)[i] == x);
            }
        }
        return None;
    }
    let ghost ov = v@;
    let ghost ok = entry_keys(ov);
    let entry = v.remove(p);
    proof {
        let nk = entry_keys(v@);
        assert(nk =~= ok.remove(p as int));
        assert(forall|i: int| 0 <= i < v@.len() ==> v@[i] == ov[if i < p { i } else { i + 1 }]);
        assert forall|i: int, j: int| 0 <= i < j < nk.len() implies seq_lt(nk[i], nk[j]) by {
            let oi = if i < p { i } else { i + 1 };
            let oj = if j < p { j } else { j + 1 };
            assert(nk[i] == ok[oi] && nk[j] == ok[oj]);
        }
        assert forall|i: int| 0 <= i < v@.len() implies strictly_sorted(#[trigger] entry_deps(v@, i)) by {
            let oi = if i < p { i } else { i + 1 };
            assert(entry_deps(v@, i) == entry_deps(ov, oi));
        }
        assert(entry_deps(ov, p as int) == string_views(entry.1@));
        assert forall|x: Seq<char>| graph_has(v@, x) <==> (graph_has(ov, x) && x != r@) by {
            if graph_has(v@, x) {
                let i = choose|i: int| 0 <= i < nk.len() && nk[i] == x;
                let oi = if i < p { i } else { i + 1 };
                assert(ok[oi] == x);
                if x == r@ {
                    lemma_sorted_distinct(ok, oi, p as int);
                }
            }
            if graph_has(ov, x) && x != r@ {
                let oi = choose|oi: int| 0 <= oi < ok.len() && ok[oi] == x;
                assert(oi != p);
                let i = if oi < p { oi } else { oi - 1 };
                assert(nk[i] == x);
            }
        }
        assert forall|x: Seq<char>, d: Seq<char>| graph_depends(v@, x, d) <==> (graph_depends(ov, x, d) && x != r@) by {
            if graph_depends(v@, x, d) {
                let i = choose|i: int| 0 <= i < v@.len() && #[trigger] v@[i].0@ == x && entry_deps(v@, i).contains(d);
                let oi = if i < p { i } else { i + 1 };
                assert(ov[oi].0@ == x && entry_deps(ov, oi) == entry_deps(v@, i));
                assert(ok[oi] == x);
                if x == r@ {
                    lemma_sorted_distinct(ok, oi, p as int);
                }
            }
            if graph_depends(ov, x, d) && x != r@ {
                let oi = choose|oi: int| 0 <= oi < ov.len() && #[trigger] ov[oi].0@ == x && entry_deps(ov, oi).contains(d);
                assert(ok[oi] == x);
                assert(oi != p);
                let i = if oi < p { oi } else { oi - 1 };
                assert(v@[i].0@ == x && entry_deps(v@, i) == entry_deps(ov, oi));
            }
        }
        assert forall|d: Seq<char>| string_views(entry.1@).contains(d) <==> graph_depends(ov, r@, d) by {
            if string_views(entry.1@).contains(d) {
                assert(ov[p as int].0@ == r@);
            }
            if graph_depends(ov, r@, d) {
                let oi = choose|oi: int| 0 <= oi < ov.len() && #[trigger] ov[oi].0@ == r@ && entry_deps(ov, oi).contains(d);
                assert(ok[oi] == r@);
                lemma_sorted_distinct(ok, oi, p as int);
            }
        }
    }
    Some(entry.1)
}

/// Give macro `r`, which has no entry, the dependencies `ds`.
fn graph_put(v: &mut Vec<(String, Vec<String>)>, r: String, ds: Vec<String>)
    requires
        graph_wf(old(v)@),
        !graph_has(old(v)@, r@),
        strictly_sorted(string_views(ds@)),
    ensures
        graph_wf(final(v)@),
        forall|x: Seq<char>| graph_has(final(v)@, x) <==> (graph_has(old(v)@, x) || x == r@),
        forall|x: Seq<char>, d: Seq<char>|
            graph_depends(final(v)@, x, d) <==> (graph_depends(old(v)@, x, d) || (x == r@ && string_views(ds@).contains(d))),
{
    let (found, p) = find_key(v, r.as_str());
    let ghost ov = v@;
    let ghost ok = entry_keys(ov);
    let ghost rv = r@;
    let ghost dv = string_views(ds@);
    proof {
        if p < ok.len() {
            lemma_lt_trichotomy(ok[p as int], rv);
            assert forall|k: int| p <= k < ok.len() implies seq_lt(rv, #[trigger] ok[k]) by {
                if k > p {
                    lemma_lt_transitive(rv, ok[p as int], ok[k]);
                }
            }
        }
    }
    v.insert(p, (r, ds));
    proof {
        let nk = entry_keys(v@);
        assert(nk =~= ok.insert(p as int, rv));
        assert(forall|i: int| 0 <= i < v@.len() && i != p ==> v@[i] == ov[if i < p { i } else { i - 1 }]);
        assert forall|i: int, j: int| 0 <= i < j < nk.len() implies seq_lt(nk[i], nk[j]) by {
            if i < p && j > p {
                lemma_lt_transitive(nk[i], rv, nk[j]);
            }
        }
        assert forall|i: int| 0 <= i < v@.len() implies strictly_sorted(#[trigger] entry_deps(v@, i)) by {
            if i != p {
                let oi = if i < p { i } else { i - 1 };
                assert(entry_deps(v@, i) == entry_deps(ov, oi));
            }
        }
        assert(entry_deps(v@, p as int) == dv);
        assert forall|x: Seq<char>| graph_has(v@, x) <==> (graph_has(ov, x) || x == rv) by {
            if graph_has(v@, x) {
                let i = choose|i: int| 0 <= i < nk.len() && nk[i] == x;
                if i != p {
                    let oi = if i < p { i } else { i - 1 };
                    assert(ok[oi] == x);
                }
            }
            if graph_has(ov, x) {
                let oi = choose|oi: int| 0 <= oi < ok.len() && ok[oi] == x;
                let i = if oi < p { oi } else { oi + 1 };
                assert(nk[i] == x);
            }
            if x == rv {
                assert(nk[p as int] == x);
            }
        }
        assert forall|x: Seq<char>, d: Seq<char>| graph_depends(v@, x, d) <==> (graph_depends(ov, x, d) || (x == rv
            && dv.contains(d))) by {
            if graph_depends(v@, x, d) {
                let i = choose|i: int| 0 <= i < v@.len() && #[trigger] v@[i].0@ == x && entry_deps(v@, i).contains(d);
                if i != p {
                    let oi = if i < p { i } else { i - 1 };
                    assert(ov[oi].0@ == x && entry_deps(ov, oi) == entry_deps(v@, i));
                }
            }
            if graph_depends(ov, x, d) {
                let oi = choose|oi: int| 0 <= oi < ov.len() && #[trigger] ov[oi].0@ == x && entry_deps(ov, oi).contains(d);
                let i = if oi < p { oi } else { oi + 1 };
                assert(v@[i].0@ == x && entry_deps(v@, i) == entry_deps(ov, oi));
            }
            if x == rv && dv.contains(d) {
                assert(v@[p as int].0@ == x);
            }
        }
    }
}

/// Record that macro `r` depends on macro `d`.
fn graph_add(v: &mut Vec<(String, Vec<String>)>, r: &str, d: &str)
    requires
        graph_wf(old(v)@),
    ensures
        graph_wf(final(v)@),
        forall|x: Seq<char>| graph_has(final(v)@, x) <==> (graph_has(old(v)@, x) || x == r@),
        forall|x: Seq<char>, y: Seq<char>| graph_depends(final(v)@, x, y) <==> (graph_depends(old(v)@, x, y) || (x == r@ && y == d@)),
{
    let ghost ov = v@;
    let mut ds = match graph_take(v, r) {
        Some(ds) => ds,
        None => Vec::new(),
    };
    proof {
        assert(strictly_sorted(string_views(ds@))) by {
            if ds@.len() == 0 {
                assert(string_views(ds@) =~= Seq::<Seq<char>>::empty());
            }
        }
    }
    let ghost before = string_views(ds@);
    insert_sorted_string(&mut ds, owned(d));
    graph_put(v, owned(r), ds);
    proof {
        assert forall|x: Seq<char>, y: Seq<char>| graph_depends(v@, x, y) <==> (graph_depends(ov, x, y) || (x == r@
            && y == d@)) by {
            if x == r@ && graph_depends(ov, x, y) && !graph_has(ov, r@) {
                let i = choose|i: int| 0 <= i < ov.len() && #[trigger] ov[i].0@ == x && entry_deps(ov, i).contains(y);
                assert(entry_keys(ov)[i] == x);
            }
        }
    }
}

/// Collects, while one macro is type-checked, the macros it calls and whether
/// it calls an introspective method directly.
#[derive(Debug)]
pub struct DagExtractListener {
    unique_id: String,
    depends_on: Vec<(String, String)>,
    introspective_call: bool,
}

impl DagExtractListener {
    /// The macro being type-checked.
    pub closed spec fn owner(&self) -> Seq<char> {
        self.unique_id@
    }

    /// The (caller, callee) pairs seen, in order.
    pub closed spec fn calls(&self) -> Seq<(Seq<char>, Seq<char>)> {
        Seq::new(self.depends_on@.len(), |i: int| (self.depends_on@[i].0@, self.depends_on@[i].1@))
    }

    /// Whether an introspective method was called directly.
    pub closed spec fn introspective(&self) -> bool {
        self.introspective_call
    }

    /// A listener for the macro `unique_id`, with nothing seen yet.
    pub fn new(unique_id: &str) -> (r: Self)
        ensures
            r.owner() == unique_id@,
            r.calls() == Seq::<(Seq<char>, Seq<char>)>::empty(),
            !r.introspective(),
    {
        let r = DagExtractListener { unique_id: owned(unique_id), depends_on: Vec::new(), introspective_call: false };
        assert(r.calls() =~= Seq::<(Seq<char>, Seq<char>)>::empty());
        r
    }

    /// The macro called `def_unique_id`; a call of itself is not a dependency.
    pub fn on_function_call(&mut self, def_unique_id: &str)
        ensures
            final(self).owner() == old(self).owner(),
            final(self).introspective() == old(self).introspective(),
            final(self).calls() == if def_unique_id@ == old(self).owner() {
                old(self).calls()
            } else {
                old(self).calls().push((old(self).owner(), def_unique_id@))
            },
    {
        if str_eq(def_unique_id, self.unique_id.as_str()) {
            return;
        }
        let caller = owned(self.unique_id.as_str());
        self.depends_on.push((caller, owned(def_unique_id)));
        assert(self.calls() =~= old(self).calls().push((old(self).owner(), def_unique_id@)));
    }

    /// The macro called an introspective method.
    pub fn on_introspective_call(&mut self)
        ensures
            final(self).owner() == old(self).owner(),
            final(self).calls() == old(self).calls(),
            final(self).introspective(),
    {
        self.introspective_call = true;
    }
}

/// The macro dependency graph of every type-checked macro, and the macros
/// observed calling an introspective adapter method directly.
#[derive(Debug)]
pub struct DefaultJinjaTypeCheckEventListenerFactory {
    all_depends_on: Vec<(String, Vec<String>)>,
    direct_introspective: Vec<String>,
}

impl DefaultJinjaTypeCheckEventListenerFactory {
    /// The graph's entries and the introspective set are in order.
    pub closed spec fn wf(&self) -> bool {
        graph_wf(self.all_depends_on@) && strictly_sorted(string_views(self.direct_introspective@))
    }

    /// Whether macro `r` has an entry in the graph.
    pub closed spec fn has_entry(&self, r: Seq<char>) -> bool {
        graph_has(self.all_depends_on@, r)
    }

    /// Whether macro `r` is recorded as depending on macro `d`.
    pub closed spec fn depends(&self, r: Seq<char>, d: Seq<char>) -> bool {
        graph_depends(self.all_depends_on@, r, d)
    }

    /// Whether macro `m` was observed calling an introspective method directly.
    pub closed spec fn introspective(&self, m: Seq<char>) -> bool {
        string_views(self.direct_introspective@).contains(m)
    }

    /// Nothing recorded.
    pub fn new() -> (r: Self)
        ensures
            r.wf(),
            forall|x: Seq<char>| !r.has_entry(x) && !r.introspective(x),
            forall|x: Seq<char>, d: Seq<char>| !r.depends(x, d),
    {
        let r = DefaultJinjaTypeCheckEventListenerFactory { all_depends_on: Vec::new(), direct_introspective: Vec::new() };
        assert(entry_keys(r.all_depends_on@) =~= Seq::<Seq<char>>::empty());
        assert(string_views(r.direct_introspective@) =~= Seq::<Seq<char>>::empty());
        r
    }

    /// A listener for the macro `unique_id`.
    pub fn create_listener(&self, unique_id: &str) -> (r: DagExtractListener)
        ensures
            r.owner() == unique_id@,
            r.calls() == Seq::<(Seq<char>, Seq<char>)>::empty(),
            !r.introspective(),
    {
        DagExtractListener::new(unique_id)
    }

    /// Fold a finished listener in: each call it saw becomes a dependency of
    /// its caller, and its macro joins the introspective set when it made an
    /// introspective call.
    pub fn destroy_listener(&mut self, listener: DagExtractListener)
        requires
            old(self).wf(),
        ensures
            final(self).wf(),
            forall|x: Seq<char>| final(self).has_entry(x) <==> (old(self).has_entry(x) || exists|j: int|
                0 <= j < listener.calls().len() && #[trigger] listener.calls()[j].0 == x),
            forall|x: Seq<char>, d: Seq<char>| final(self).depends(x, d) <==> (old(self).depends(x, d) || listener.calls().contains((x, d))),
            forall|x: Seq<char>| final(self).introspective(x) <==> (old(self).introspective(x) || (listener.introspective() && x == listener.owner())),
    {
        let ghost calls = listener.calls();
        let mut i: usize = 0;
        while i < listener.depends_on.len()
            invariant
                calls == listener.calls(),
                graph_wf(self.all_depends_on@),
                strictly_sorted(string_views(self.direct_introspective@)),
                self.direct_introspective@ == old(self).direct_introspective@,
                i <= calls.len(),
                forall|x: Seq<char>| graph_has(self.all_depends_on@, x) <==> (graph_has(old(self).all_depends_on@, x)
                    || exists|j: int| 0 <= j < i && #[trigger] calls[j].0 == x),
                forall|x: Seq<char>, d: Seq<char>| graph_depends(self.all_depends_on@, x, d) <==> (graph_depends(
                    old(self).all_depends_on@,
                    x,
                    d,
                ) || calls.subrange(0, i as int).contains((x, d))),
            decreases calls.len() - i,
        {
            let (r, d) = (&listener.depends_on[i].0, &listener.depends_on[i].1);
            graph_add(&mut self.all_depends_on, r.as_str(), d.as_str());
            proof {
                assert(calls[i as int] == (r@, d@));
                assert forall|x: Seq<char>| graph_has(self.all_depends_on@, x) <==> (graph_has(old(self).all_depends_on@, x)
                    || exists|j: int| 0 <= j < i + 1 && #[trigger] calls[j].0 == x) by {
                    if x == r@ {
                        assert(calls[i as int].0 == x);
                    }
                    if exists|j: int| 0 <= j < i + 1 && #[trigger] calls[j].0 == x {
                        let j = choose|j: int| 0 <= j < i + 1 && #[trigger] calls[j].0 == x;
                        if j < i {
                            assert(exists|j2: int| 0 <= j2 < i && #[trigger] calls[j2].0 == x);
                        }
                    }
                }
                let pre = calls.subrange(0, i as int);
                let post = calls.subrange(0, i + 1);
                assert(post =~= pre.push((r@, d@)));
                assert forall|x: Seq<char>, y: Seq<char>| post.contains((x, y)) <==> (pre.contains((x, y)) || (x == r@ && y == d@)) by {
                    if post.contains((x, y)) {
                        let k = choose|k: int| 0 <= k < post.len() && post[k] == (x, y);
                        if k < pre.len() {
                            assert(pre[k] == (x, y));
                        }
                    }
                    if pre.contains((x, y)) {
                        let k = choose|k: int| 0 <= k < pre.len() && pre[k] == (x, y);
                        assert(post[k] == (x, y));
                    }
                    if x == r@ && y == d@ {
                        assert(post[i as int] == (x, y));
                    }
                }
            }
            i += 1;
        }
        assert(calls.subrange(0, calls.len() as int) =~= calls);
        if listener.introspective_call {
            insert_sorted_string(&mut self.direct_introspective, owned(listener.unique_id.as_str()));
        }
    }

    /// A macro's unique id changed: its entry and its introspective mark move
    /// to the new id, replacing whatever the new id had.
    pub fn update_unique_id(&mut self, old_unique_id: &str, new_unique_id: &str)
        requires
            old(self).wf(),
        ensures
            final(self).wf(),
            old(self).has_entry(old_unique_id@) ==> forall|x: Seq<char>| final(self).has_entry(x) <==> ((old(self).has_entry(
                x,
            ) && x != old_unique_id@) || x == new_unique_id@),
            old(self).has_entry(old_unique_id@) ==> forall|x: Seq<char>, d: Seq<char>| final(self).depends(x, d) <==> (
            if x == new_unique_id@ {
                old(self).depends(old_unique_id@, d)
            } else {
                x != old_unique_id@ && old(self).depends(x, d)
            }),
            !old(self).has_entry(old_unique_id@) ==> forall|x: Seq<char>| final(self).has_entry(x) <==> old(self).has_entry(x),
            !old(self).has_entry(old_unique_id@) ==> forall|x: Seq<char>, d: Seq<char>| final(self).depends(x, d) <==> old(
                self,
            ).depends(x, d),
            forall|x: Seq<char>| final(self).introspective(x) <==> if old(self).introspective(old_unique_id@) {
                (old(self).introspective(x) && x != old_unique_id@) || x == new_unique_id@
            } else {
                old(self).introspective(x)
            },
    {
        let ghost ov = self.all_depends_on@;
        match graph_take(&mut self.all_depends_on, old_unique_id) {
            Some(ds) => {
                let ghost mid = self.all_depends_on@;
                let _ = graph_take(&mut self.all_depends_on, new_unique_id);
                graph_put(&mut self.all_depends_on, owned(new_unique_id), ds);
                proof {
                    let nv = self.all_depends_on@;
                    assert forall|x: Seq<char>, d: Seq<char>| graph_depends(nv, x, d) <==> (if x == new_unique_id@ {
                        graph_depends(ov, old_unique_id@, d)
                    } else {
                        x != old_unique_id@ && graph_depends(ov, x, d)
                    }) by {}
                }
            },
            None => {
                proof {
                    assert forall|x: Seq<char>, d: Seq<char>| graph_depends(ov, x, d) implies x != old_unique_id@ by {
                        let i = choose|i: int| 0 <= i < ov.len() && #[trigger] ov[i].0@ == x && entry_deps(ov, i).contains(d);
                        assert(entry_keys(ov)[i] == x);
                    }
                }
            },
        }
        let ghost oi = string_views(self.direct_introspective@);
        let (found, p) = find_string(&self.direct_introspective, old_unique_id);
        if found {
            self.direct_introspective.remove(p);
            proof {
                let ni = string_views(self.direct_introspective@);
                assert(ni =~= oi.remove(p as int));
                assert forall|i: int, j: int| 0 <= i < j < ni.len() implies seq_lt(ni[i], ni[j]) by {
                    let a = if i < p { i } else { i + 1 };
                    let b = if j < p { j } else { j + 1 };
                    assert(ni[i] == oi[a] && ni[j] == oi[b]);
                }
                assert forall|x: Seq<char>| ni.contains(x) <==> (oi.contains(x) && x != old_unique_id@) by {
                    if ni.contains(x) {
                        let i = choose|i: int| 0 <= i < ni.len() && ni[i] == x;
                        let a = if i < p { i } else { i + 1 };
                        assert(oi[a] == x);
                        if x == old_unique_id@ {
                            lemma_sorted_distinct(oi, a, p as int);
                        }
                    }
                    if oi.contains(x) && x != old_unique_id@ {
                        let a = choose|a: int| 0 <= a < oi.len() && oi[a] == x;
                        assert(a != p);
                        let i = if a < p { a } else { a - 1 };
                        assert(ni[i] == x);
                    }
                }
            }
            insert_sorted_string(&mut self.direct_introspective, owned(new_unique_id));
        }
    }

    /// The macros `unique_id` depends on, in order.
    pub fn get_macro_depends_on(&self, unique_id: &str) -> (r: Vec<String>)
        requires
            self.wf(),
        ensures
            strictly_sorted(string_views(r@)),
            forall|d: Seq<char>| string_views(r@).contains(d) <==> self.depends(unique_id@, d),
    {
        let (found, p) = find_key(&self.all_depends_on, unique_id);
        if !found {
            proof {
                assert forall|d: Seq<char>| !self.depends(unique_id@, d) by {
                    if self.depends(unique_id@, d) {
                        let i = choose|i: int| 0 <= i < self.all_depends_on@.len() && #[trigger] self.all_depends_on@[i].0@
                            == unique_id@ && entry_deps(self.all_depends_on@, i).contains(d);
                        assert(entry_keys(self.all_depends_on@)[i] == unique_id@);
                    }
                }
            }
            let r: Vec<String> = Vec::new();
            assert(string_views(r@) =~= Seq::<Seq<char>>::empty());
            return r;
        }
        let ghost v = self.all_depends_on@;
        let r = copy_strings(&self.all_depends_on[p].1);
        proof {
            assert(entry_deps(v, p as int) == string_views(r@));
            assert forall|d: Seq<char>| string_views(r@).contains(d) <==> graph_depends(v, unique_id@, d) by {
                if string_views(r@).contains(d) {
                    assert(v[p as int].0@ == unique_id@);
                }
                if graph_depends(v, unique_id@, d) {
                    let i = choose|i: int| 0 <= i < v.len() && #[trigger] v[i].0@ == unique_id@ && entry_deps(v, i).contains(d);
                    assert(entry_keys(v)[i] == unique_id@);
                    lemma_sorted_distinct(entry_keys(v), i, p as int);
                }
            }
        }
        r
    }

    /// The whole graph, in key order, each entry's dependencies in order.
    pub fn all_macro_depends_on(&self) -> (r: Vec<(String, Vec<String>)>)
        requires
            self.wf(),
        ensures
            graph_wf(r@),
            forall|x: Seq<char>| graph_has(r@, x) <==> self.has_entry(x),
            forall|x: Seq<char>, d: Seq<char>| graph_depends(r@, x, d) <==> self.depends(x, d),
    {
        let v = &self.all_depends_on;
        let mut out: Vec<(String, Vec<String>)> = Vec::new();
        let mut i: usize = 0;
        while i < v.len()
            invariant
                graph_wf(v@),
                i <= v@.len(),
                out@.len() == i,
                forall|k: int| #![trigger out@[k]] 0 <= k < i ==> out@[k].0@ == v@[k].0@ && entry_deps(out@, k) == entry_deps(v@, k),
            decreases v@.len() - i,
        {
            let ghost before = out@;
            let e = (owned(v[i].0.as_str()), copy_strings(&v[i].1));
            out.push(e);
            proof {
                assert(out@[i as int] == e);
                assert forall|k: int| #![trigger out@[k]] 0 <= k < i + 1 implies out@[k].0@ == v@[k].0@ && entry_deps(out@, k)
                    == entry_deps(v@, k) by {
                    if k < i {
                        assert(out@[k] == before[k]);
                        assert(entry_deps(out@, k) == entry_deps(before, k));
                    }
                }
            }
            i += 1;
        }
        proof {
            assert(entry_keys(out@) =~= entry_keys(v@));
            assert forall|k: int| 0 <= k < out@.len() implies strictly_sorted(#[trigger] entry_deps(out@, k)) by {
                assert(out@[k].0@ == v@[k].0@);
                assert(entry_deps(out@, k) == entry_deps(v@, k));
            }
            assert forall|x: Seq<char>, d: Seq<char>| graph_depends(out@, x, d) <==> graph_depends(v@, x, d) by {
                if graph_depends(out@, x, d) {
                    let k = choose|k: int| 0 <= k < out@.len() && #[trigger] out@[k].0@ == x && entry_deps(out@, k).contains(d);
                    assert(out@[k].0@ == v@[k].0@);
                    assert(v@[k].0@ == x);
                }
                if graph_depends(v@, x, d) {
                    let k = choose|k: int| 0 <= k < v@.len() && #[trigger] v@[k].0@ == x && entry_deps(v@, k).contains(d);
                    assert(out@[k].0@ == v@[k].0@);
                    assert(out@[k].0@ == x);
                }
            }
        }
        out
    }

    /// The graph, as [`Self::all_macro_depends_on`].
    pub fn depends_on(&self) -> (r: Vec<(String, Vec<String>)>)
        requires
            self.wf(),
        ensures
            graph_wf(r@),
            forall|x: Seq<char>| graph_has(r@, x) <==> self.has_entry(x),
            forall|x: Seq<char>, d: Seq<char>| graph_depends(r@, x, d) <==> self.depends(x, d),
    {
        self.all_macro_depends_on()
    }

    /// The macros observed calling an introspective method directly, in order.
    pub fn direct_introspective(&self) -> (r: Vec<String>)
        requires
            self.wf(),
        ensures
            strictly_sorted(string_views(r@)),
            forall|x: Seq<char>| string_views(r@).contains(x) <==> self.introspective(x),
    {
        copy_strings(&self.direct_introspective)
    }
}

/// A copy of a list of strings.
/// Where `s` sits in the strictly increasing `v`, if it is there.
fn find_string(v: &Vec<String>, s: &str) -> (res: (bool, usize))
    requires
        strictly_sorted(string_views(v@)),
    ensures
        res.0 <==> string_views(v@).contains(s@),
        res.0 ==> res.1 < v@.len() && string_views(v@)[res.1 as int] == s@,
{
    let mut i: usize = 0;
    while i < v.len()
        invariant
            i <= v@.len(),
            forall|k: int| 0 <= k < i ==> string_views(v@)[k] != s@,
        decreases v@.len() - i,
    {
        if str_eq(v[i].as_str(), s) {
            assert(string_views(v@)[i as int] == s@);
            return (true, i);
        }
        assert(string_views(v@)[i as int] != s@);
        i += 1;
    }
    (false, 0)
}

// ---------------------------------------------------------------------------
// Diagnostics of type-checking a YAML-embedded template
// ---------------------------------------------------------------------------

/// A diagnostic found while type-checking a template embedded in YAML, placed
/// at the template's span in its file.
#[derive(Debug)]
pub struct YamlDiagnostic {
    pub message: String,
    pub file: String,
    pub line: u32,
    pub col: u32,
    pub offset: u32,
}

/// The diagnostic as a value: message, file, line, column, offset.
pub open spec fn diagnostic_view(d: YamlDiagnostic) -> (Seq<char>, Seq<char>, u32, u32, u32) {
    (d.message@, d.file@, d.line, d.col, d.offset)
}

/// A side-effect-free type-checking listener that collects the diagnostics of
/// a YAML-embedded template, every one placed at the template's own span.
#[derive(Debug)]
pub struct YamlTypecheckingEventListener {
    current_path: String,
    line: u32,
    col: u32,
    offset: u32,
    diagnostics: Vec<YamlDiagnostic>,
}

impl YamlTypecheckingEventListener {
    /// The file the template is in.
    pub closed spec fn path(&self) -> Seq<char> {
        self.current_path@
    }

    /// Where the template starts: line, column, offset.
    pub closed spec fn span(&self) -> (u32, u32, u32) {
        (self.line, self.col, self.offset)
    }

    /// The diagnostics collected since the last drain, in order.
    pub closed spec fn collected(&self) -> Seq<(Seq<char>, Seq<char>, u32, u32, u32)> {
        self.diagnostics@.map_values(|d: YamlDiagnostic| diagnostic_view(d))
    }

    /// A listener for the template at `line`, `col` and `offset` of
    /// `current_path`, with nothing collected.
    pub fn new(current_path: String, line: u32, col: u32, offset: u32) -> (r: Self)
        ensures
            r.path() == current_path@,
            r.span() == (line, col, offset),
            r.collected() == Seq::<(Seq<char>, Seq<char>, u32, u32, u32)>::empty(),
    {
        let r = YamlTypecheckingEventListener { current_path, line, col, offset, diagnostics: Vec::new() };
        assert(r.collected() =~= Seq::<(Seq<char>, Seq<char>, u32, u32, u32)>::empty());
        r
    }

    /// A filtered warning: collected as a diagnostic at the template's span.
    pub fn warn_filter(&mut self, message: &str)
        ensures
            final(self).path() == old(self).path(),
            final(self).span() == old(self).span(),
            final(self).collected() == old(self).collected().push(
                (message@, old(self).path(), old(self).span().0, old(self).span().1, old(self).span().2),
            ),
    {
        let d = YamlDiagnostic {
            message: owned(message),
            file: owned(self.current_path.as_str()),
            line: self.line,
            col: self.col,
            offset: self.offset,
        };
        self.diagnostics.push(d);
        assert(self.collected() =~= old(self).collected().push(diagnostic_view(d)));
    }

    /// Drains and returns the collected diagnostics in reporting order.
    pub fn drain_diagnostics(&mut self) -> (r: Vec<YamlDiagnostic>)
        ensures
            r@.map_values(|d: YamlDiagnostic| diagnostic_view(d)) == old(self).collected(),
            final(self).collected() == Seq::<(Seq<char>, Seq<char>, u32, u32, u32)>::empty(),
            final(self).path() == old(self).path(),
            final(self).span() == old(self).span(),
    {
        let mut r: Vec<YamlDiagnostic> = Vec::new();
        std::mem::swap(&mut r, &mut self.diagnostics);
        assert(self.collected() =~= Seq::<(Seq<char>, Seq<char>, u32, u32, u32)>::empty());
        r
    }
}

} // verus!
