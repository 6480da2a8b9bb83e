//! The ingest's decisions over what it observed of the metadata directory:
//! whether the index is current, what a delta pass has to do, which rows of
//! the epochs survive, and the state that is persisted between runs.
//!
//! The directory itself is read by the caller; these functions take what it
//! saw as plain values: a file's time as its distance from the Unix epoch
//! (`None` for an absent or unreadable file), and the epochs a directory holds.

use vstd::prelude::*;
use crate::ingest_state::{
    keys_distinct,
    CATALOG_COLUMNS_SUBDIR, COMPILE_CLL_SUBDIR, COMPILE_COLUMNS_SUBDIR, COMPILE_NODES_SUBDIR, IngestState,
    PARSE_COLUMNS_SUBDIR, PARSE_NODES_SUBDIR, RUN_CATALOG_STATS_SUBDIR, RUN_FRESHNESS_SUBDIR,
    RUN_INVOCATIONS_SUBDIR, RUN_RESULTS_SUBDIR, mtime_us, spec_mtime_us,
};
use crate::text::{lookup, owned, str_eq, string_views};

verus! {

/// Name of the file, in the index directory, the ingest state is persisted to.
pub const STATE_FILE: &'static str = ".fusion_state.json";

/// The compile-phase subdirectories, which can gain epochs without a reparse.
pub open spec fn compile_subdirs_model() -> Seq<&'static str> {
    seq![COMPILE_NODES_SUBDIR, COMPILE_COLUMNS_SUBDIR, COMPILE_CLL_SUBDIR, CATALOG_COLUMNS_SUBDIR]
}

/// The compile-phase subdirectories, in the order they are checked.
pub fn compile_subdirs() -> (r: Vec<&'static str>)
    ensures
        r@ == compile_subdirs_model(),
{
    vec![COMPILE_NODES_SUBDIR, COMPILE_COLUMNS_SUBDIR, COMPILE_CLL_SUBDIR, CATALOG_COLUMNS_SUBDIR]
}

/// Every subdirectory whose epoch is recorded: a subdirectory missing here
/// never has its epoch restored from persisted state.
pub open spec fn tracked_subdirs_model() -> Seq<&'static str> {
    seq![
        PARSE_NODES_SUBDIR,
        PARSE_COLUMNS_SUBDIR,
        COMPILE_NODES_SUBDIR,
        COMPILE_COLUMNS_SUBDIR,
        COMPILE_CLL_SUBDIR,
        CATALOG_COLUMNS_SUBDIR,
        RUN_INVOCATIONS_SUBDIR,
        RUN_RESULTS_SUBDIR,
        RUN_FRESHNESS_SUBDIR,
        RUN_CATALOG_STATS_SUBDIR,
    ]
}

/// Every subdirectory whose epoch is recorded, in order.
pub fn tracked_subdirs() -> (r: Vec<&'static str>)
    ensures
        r@ == tracked_subdirs_model(),
{
    vec![
        PARSE_NODES_SUBDIR,
        PARSE_COLUMNS_SUBDIR,
        COMPILE_NODES_SUBDIR,
        COMPILE_COLUMNS_SUBDIR,
        COMPILE_CLL_SUBDIR,
        CATALOG_COLUMNS_SUBDIR,
        RUN_INVOCATIONS_SUBDIR,
        RUN_RESULTS_SUBDIR,
        RUN_FRESHNESS_SUBDIR,
        RUN_CATALOG_STATS_SUBDIR,
    ]
}

/// What was seen of one epoch subdirectory.
#[derive(Debug, Clone, Copy)]
pub struct DirObservation {
    /// The subdirectory, relative to the metadata directory.
    pub subdir: &'static str,
    /// Whether the subdirectory exists.
    pub exists: bool,
    /// The base epoch file's time: `None` when it is absent or its time
    /// unreadable, otherwise its distance from the Unix epoch, `None` inside
    /// for a time before it.
    pub base: Option<Option<(u64, u32)>>,
    /// The highest epoch number on disk, if any.
    pub max_epoch: Option<u32>,
}

/// Whether one subdirectory holds epochs beyond what was ingested, or had its
/// base epoch rewritten in place. Any epoch number other than the last
/// ingested means something changed: higher is new epochs, lower is a
/// compaction that reset the numbering.
pub open spec fn dir_unseen(state: IngestState, o: DirObservation) -> bool {
    o.exists && (state.spec_base_diff(o.subdir@, o.base) == Some(true) || (match o.max_epoch {
        Some(max) => state.epoch_of(o.subdir@) == u32::MAX || max != state.epoch_of(o.subdir@),
        None => false,
    }))
}

/// Whether any observed subdirectory holds unseen epochs.
pub open spec fn any_unseen(state: IngestState, obs: Seq<DirObservation>) -> bool {
    exists|i: int| 0 <= i < obs.len() && dir_unseen(state, #[trigger] obs[i])
}

/// Whether any compile-phase subdirectory has epochs beyond what was last
/// ingested, or had its base epoch rewritten in place. `observed` holds one
/// observation per compile subdirectory (see [`compile_subdirs`]).
pub fn has_unseen_compile_epochs(state: &IngestState, observed: &[DirObservation]) -> (r: bool)
    ensures
        r == any_unseen(*state, observed@),
{
    let mut i: usize = 0;
    while i < observed.len()
        invariant
            i <= observed@.len(),
            forall|k: int| 0 <= k < i ==> !dir_unseen(*state, #[trigger] observed@[k]),
        decreases observed@.len() - i,
    {
        let o = observed[i];
        if o.exists {
            if state.base_differs(o.subdir, o.base) {
                assert(dir_unseen(*state, observed@[i as int]));
                return true;
            }
            let last = state.last_epoch_for(o.subdir);
            match o.max_epoch {
                Some(max) => {
                    if last == u32::MAX || max != last {
                        assert(dir_unseen(*state, observed@[i as int]));
                        return true;
                    }
                },
                None => {},
            }
        }
        i += 1;
    }
    false
}

/// The microsecond mtime of an observed file, `None` when it is absent,
/// unreadable, or predates the Unix epoch.
pub open spec fn observed_us(file: Option<Option<(u64, u32)>>) -> Option<u64> {
    match file {
        Some(t) => spec_mtime_us(t),
        None => None,
    }
}

fn observed_micros(file: Option<Option<(u64, u32)>>) -> (r: Option<u64>)
    ensures
        r == observed_us(file),
{
    match file {
        Some(t) => mtime_us(t),
        None => None,
    }
}

/// Whether the index reflects everything written: the alive file is the one
/// last applied, at microsecond precision, and no compile epoch is unseen.
pub open spec fn spec_index_is_current(
    state: Option<IngestState>,
    alive: Option<Option<(u64, u32)>>,
    observed: Seq<DirObservation>,
) -> bool {
    match state {
        None => false,
        Some(st) => observed_us(alive) == st.alive_mtime && !any_unseen(st, observed),
    }
}

/// Whether the index already reflects everything written to the metadata
/// directory: true in exactly the cases where a delta pass would do nothing.
///
/// `state` is the persisted ingest state, `None` when there is none (no index,
/// or parquet that no ingest vouched for); `alive` what was seen of the alive
/// file; `observed` one observation per compile subdirectory.
pub fn index_is_current(
    state: Option<&IngestState>,
    alive: Option<Option<(u64, u32)>>,
    observed: &[DirObservation],
) -> (r: bool)
    ensures
        r == spec_index_is_current(
            match state {
                Some(s) => Some(*s),
                None => None,
            },
            alive,
            observed@,
        ),
{
    match state {
        None => false,
        Some(st) => {
            let current = observed_micros(alive);
            let same = match (current, st.alive_mtime) {
                (None, None) => true,
                (Some(a), Some(b)) => a == b,
                _ => false,
            };
            same && !has_unseen_compile_epochs(st, observed)
        },
    }
}

/// What a delta pass has to do.
#[derive(Debug, Clone, Copy, PartialEq, Eq, Structural)]
pub enum DeltaPlan {
    /// Nothing changed: the index is current.
    Current,
    /// The parse layer is unchanged but compile epochs landed: apply the
    /// compile layer to the rows already in the index, then the compile-phase
    /// tables.
    CompileOnly,
    /// The alive file changed: a parse happened, so every layer is read.
    Reparse,
}

/// The plan of a delta pass.
pub open spec fn spec_delta_plan(state: IngestState, alive: Option<Option<(u64, u32)>>, observed: Seq<DirObservation>) -> DeltaPlan {
    if observed_us(alive) != state.alive_mtime {
        DeltaPlan::Reparse
    } else if any_unseen(state, observed) {
        DeltaPlan::CompileOnly
    } else {
        DeltaPlan::Current
    }
}

/// Decide what a delta pass does, recording the alive file's time when it
/// changed. Compile-phase artifacts can be written without a reparse, so new
/// compile epochs are looked for even when the alive file is unchanged.
pub fn plan_delta(state: &mut IngestState, alive: Option<Option<(u64, u32)>>, observed: &[DirObservation]) -> (r: DeltaPlan)
    ensures
        r == spec_delta_plan(*old(state), alive, observed@),
        r == DeltaPlan::Reparse ==> final(state).alive_mtime == observed_us(alive),
        r != DeltaPlan::Reparse ==> final(state).alive_mtime == old(state).alive_mtime,
        final(state).last_epoch@ == old(state).last_epoch@,
        final(state).base_mtime@ == old(state).base_mtime@,
        final(state).index_dir == old(state).index_dir,
        final(state).alive_ids@ == old(state).alive_ids@,
{
    let current = observed_micros(alive);
    let changed = match (current, state.alive_mtime) {
        (None, None) => false,
        (Some(a), Some(b)) => a != b,
        _ => true,
    };
    if changed {
        state.alive_mtime = current;
        return DeltaPlan::Reparse;
    }
    if has_unseen_compile_epochs(state, observed) {
        DeltaPlan::CompileOnly
    } else {
        DeltaPlan::Current
    }
}

/// The index is current exactly when a delta pass would do nothing: the two
/// conditions are kept in step, so a caller neither queries a stale index nor
/// refuses a current one.
pub proof fn current_iff_no_delta_work(state: IngestState, alive: Option<Option<(u64, u32)>>, observed: Seq<DirObservation>)
    ensures
        spec_index_is_current(Some(state), alive, observed) <==> spec_delta_plan(state, alive, observed) == DeltaPlan::Current,
{
}

/// Entries with their keys taken by view.
pub open spec fn owned_views<V>(es: Seq<(String, V)>) -> Seq<(Seq<char>, V)> {
    Seq::new(es.len(), |i: int| (es[i].0@, es[i].1))
}

/// The recorded epochs with their keys taken by view.
pub open spec fn epoch_views(es: Seq<(&'static str, u32)>) -> Seq<(Seq<char>, u32)> {
    Seq::new(es.len(), |i: int| (es[i].0@, es[i].1))
}

/// The recorded base times that are after the Unix epoch, in order, keyed by
/// view.
pub open spec fn kept_bases(es: Seq<(&'static str, Option<u64>)>) -> Seq<(Seq<char>, u64)>
    decreases es.len(),
{
    if es.len() == 0 {
        Seq::empty()
    } else {
        let rest = kept_bases(es.drop_last());
        match es.last().1 {
            Some(us) => rest.push((es.last().0@, us)),
            None => rest,
        }
    }
}

/// The value of the first entry keyed `key`.
pub open spec fn find_view<V>(es: Seq<(Seq<char>, V)>, key: Seq<char>) -> Option<V>
    decreases es.len(),
{
    if es.len() == 0 {
        None
    } else if es[0].0 == key {
        Some(es[0].1)
    } else {
        find_view(es.drop_first(), key)
    }
}

/// Whether `s` names a subdirectory whose epoch is recorded.
pub open spec fn is_tracked(s: Seq<char>) -> bool {
    exists|i: int| 0 <= i < tracked_subdirs_model().len() && (#[trigger] tracked_subdirs_model()[i])@ == s
}

/// The epoch a restored state reads for `s`.
pub open spec fn restored_epoch(es: Seq<(Seq<char>, u32)>, s: Seq<char>) -> u32 {
    if is_tracked(s) {
        match find_view(es, s) {
            Some(e) => e,
            None => u32::MAX,
        }
    } else {
        u32::MAX
    }
}

/// The base time a restored state reads for `s`.
pub open spec fn restored_base(es: Seq<(Seq<char>, u64)>, s: Seq<char>) -> Option<u64> {
    if is_tracked(s) { find_view(es, s) } else { None }
}

/// The ingest state as it is persisted: times in microseconds, keyed by name.
#[derive(Debug)]
pub struct PersistedState {
    /// Microsecond mtime of the alive file.
    pub alive_mtime_us: Option<u64>,
    /// Last epoch number per subdirectory.
    pub last_epoch: Vec<(String, u32)>,
    /// Microsecond mtime of each subdirectory's base epoch. A state file
    /// without it reloads in full once, then tracks normally.
    pub base_mtime_us: Vec<(String, u64)>,
}

/// What gets persisted of a state: the alive time, every recorded epoch, and
/// every base time that is after the Unix epoch.
pub fn persist(state: &IngestState) -> (r: PersistedState)
    ensures
        r.alive_mtime_us == state.alive_mtime,
        owned_views(r.last_epoch@) == epoch_views(state.last_epoch@),
        owned_views(r.base_mtime_us@) == kept_bases(state.base_mtime@),
{
    let mut last_epoch: Vec<(String, u32)> = Vec::new();
    let mut i: usize = 0;
    while i < state.last_epoch.len()
        invariant
            i <= state.last_epoch@.len(),
            owned_views(last_epoch@) == epoch_views(state.last_epoch@.subrange(0, i as int)),
        decreases state.last_epoch@.len() - i,
    {
        let (k, v) = state.last_epoch[i];
        let ghost before = owned_views(last_epoch@);
        let key = String::from_str(k);
        last_epoch.push((key, v));
        assert(owned_views(last_epoch@) =~= before.push((k@, v)));
        assert(epoch_views(state.last_epoch@.subrange(0, i + 1)) =~= epoch_views(state.last_epoch@.subrange(0, i as int)).push((k@, v)));
        i += 1;
    }
    assert(state.last_epoch@.subrange(0, state.last_epoch@.len() as int) =~= state.last_epoch@);
    let mut base_mtime_us: Vec<(String, u64)> = Vec::new();
    let mut j: usize = 0;
    assert(owned_views(base_mtime_us@) =~= kept_bases(state.base_mtime@.subrange(0, 0)));
    while j < state.base_mtime.len()
        invariant
            j <= state.base_mtime@.len(),
            owned_views(base_mtime_us@) == kept_bases(state.base_mtime@.subrange(0, j as int)),
        decreases state.base_mtime@.len() - j,
    {
        let (k, t) = state.base_mtime[j];
        assert(state.base_mtime@.subrange(0, j + 1).drop_last() =~= state.base_mtime@.subrange(0, j as int));
        match t {
            Some(us) => {
                let ghost before = owned_views(base_mtime_us@);
                let key = String::from_str(k);
                base_mtime_us.push((key, us));
                assert(owned_views(base_mtime_us@) =~= before.push((k@, us)));
                assert(owned_views(base_mtime_us@) =~= kept_bases(state.base_mtime@.subrange(0, j + 1)));
            },
            None => {},
        }
        j += 1;
    }
    assert(state.base_mtime@.subrange(0, state.base_mtime@.len() as int) =~= state.base_mtime@);
    PersistedState { alive_mtime_us: state.alive_mtime, last_epoch, base_mtime_us }
}

fn find_owned<V: Copy>(entries: &Vec<(String, V)>, key: &str) -> (r: Option<V>)
    ensures
        r == find_view(owned_views(entries@), key@),
{
    let ghost es = owned_views(entries@);
    let mut i: usize = 0;
    assert(es.subrange(0, es.len() as int) =~= es);
    while i < entries.len()
        invariant
            i <= es.len(),
            es == owned_views(entries@),
            find_view(es, key@) == find_view(es.subrange(i as int, es.len() as int), key@),
        decreases es.len() - i,
    {
        let ghost rest = es.subrange(i as int, es.len() as int);
        assert(rest[0] == es[i as int]);
        assert(rest.drop_first() =~= es.subrange(i + 1, es.len() as int));
        if str_eq(entries[i].0.as_str(), key) {
            return Some(entries[i].1);
        }
        i += 1;
    }
    None
}

/// The entries a restore builds from `found`: one per subdirectory of `ts`
/// that has one, in the order of `ts`.
pub open spec fn restore_entries<V>(ts: Seq<&'static str>, found: Seq<(Seq<char>, V)>) -> Seq<(&'static str, V)>
    decreases ts.len(),
{
    if ts.len() == 0 {
        Seq::empty()
    } else {
        let rest = restore_entries(ts.drop_last(), found);
        match find_view(found, ts.last()@) {
            Some(v) => rest.push((ts.last(), v)),
            None => rest,
        }
    }
}

/// What a restore reads back for `s`: the value found for it when `s` is one
/// of `ts`.
proof fn lemma_restore_lookup<V>(ts: Seq<&'static str>, found: Seq<(Seq<char>, V)>, s: Seq<char>)
    ensures
        lookup(restore_entries(ts, found), s) == (if exists|i: int| 0 <= i < ts.len() && (#[trigger] ts[i])@ == s {
            find_view(found, s)
        } else {
            None
        }),
    decreases ts.len(),
{
    if ts.len() > 0 {
        let init = ts.drop_last();
        lemma_restore_lookup(init, found, s);
        match find_view(found, ts.last()@) {
            Some(v) => lemma_lookup_pushed(restore_entries(init, found), ts.last(), v, s),
            None => {},
        }
        if exists|i: int| 0 <= i < init.len() && (#[trigger] init[i])@ == s {
            let i = choose|i: int| 0 <= i < init.len() && (#[trigger] init[i])@ == s;
            assert(ts[i] == init[i]);
        }
        if exists|i: int| 0 <= i < ts.len() && (#[trigger] ts[i])@ == s {
            let i = choose|i: int| 0 <= i < ts.len() && (#[trigger] ts[i])@ == s;
            if i < init.len() {
                assert(init[i] == ts[i]);
            }
        }
    }
}

/// Reading `s` after pushing an entry: the earlier entries first, then the new
/// one.
proof fn lemma_lookup_pushed<V>(es: Seq<(&'static str, V)>, k: &'static str, x: V, s: Seq<char>)
    ensures
        lookup(es.push((k, x)), s) == (if lookup(es, s) is Some { lookup(es, s) } else if k@ == s { Some(x) } else { None }),
    decreases es.len(),
{
    let ne = es.push((k, x));
    if es.len() == 0 {
        assert(ne[0] == (k, x));
        assert(ne.drop_first() =~= Seq::<(&'static str, V)>::empty());
        assert(lookup(ne.drop_first(), s) is None);
    } else {
        assert(ne[0] == es[0]);
        assert(ne.drop_first() =~= es.drop_first().push((k, x)));
        lemma_lookup_pushed(es.drop_first(), k, x, s);
    }
}

/// The state a persisted one restores to: the epochs and base times of the
/// recorded subdirectories, and the alive time.
pub fn restore(ps: &PersistedState) -> (r: IngestState)
    ensures
        r.alive_mtime == ps.alive_mtime_us,
        r.index_dir is None,
        r.alive_ids@.len() == 0,
        forall|s: Seq<char>| #[trigger] r.epoch_of(s) == restored_epoch(owned_views(ps.last_epoch@), s),
        forall|s: Seq<char>| #[trigger] r.stored_base_of(s) == restored_base(owned_views(ps.base_mtime_us@), s),
{
    let subdirs = tracked_subdirs();
    let ghost ts = tracked_subdirs_model();
    let ghost eps = owned_views(ps.last_epoch@);
    let ghost bps = owned_views(ps.base_mtime_us@);
    let mut last_epoch: Vec<(&'static str, u32)> = Vec::new();
    let mut bases: Vec<(&'static str, u64)> = Vec::new();
    let mut i: usize = 0;
    while i < subdirs.len()
        invariant
            i <= subdirs@.len(),
            subdirs@ == ts,
            ts == tracked_subdirs_model(),
            eps == owned_views(ps.last_epoch@),
            bps == owned_views(ps.base_mtime_us@),
            last_epoch@ == restore_entries(ts.subrange(0, i as int), eps),
            bases@ == restore_entries(ts.subrange(0, i as int), bps),
        decreases subdirs@.len() - i,
    {
        let t = subdirs[i];
        assert(ts.subrange(0, i + 1).drop_last() =~= ts.subrange(0, i as int));
        assert(ts.subrange(0, i + 1).last() == t);
        match find_owned(&ps.last_epoch, t) {
            Some(e) => last_epoch.push((t, e)),
            None => {},
        }
        match find_owned(&ps.base_mtime_us, t) {
            Some(us) => bases.push((t, us)),
            None => {},
        }
        i += 1;
    }
    assert(ts.subrange(0, ts.len() as int) =~= ts);
    let mut base_mtime: Vec<(&'static str, Option<u64>)> = Vec::new();
    let mut j: usize = 0;
    while j < bases.len()
        invariant
            j <= bases@.len(),
            base_mtime@.len() == j,
            forall|k: int| 0 <= k < j ==> #[trigger] base_mtime@[k] == (bases@[k].0, Some(bases@[k].1)),
        decreases bases@.len() - j,
    {
        base_mtime.push((bases[j].0, Some(bases[j].1)));
        j += 1;
    }
    let r = IngestState { alive_mtime: ps.alive_mtime_us, last_epoch, index_dir: None, alive_ids: Vec::new(), base_mtime };
    proof {
        assert forall|s: Seq<char>| #[trigger] r.epoch_of(s) == restored_epoch(eps, s) by {
            lemma_restore_lookup(ts, eps, s);
        }
        assert forall|s: Seq<char>| #[trigger] r.stored_base_of(s) == restored_base(bps, s) by {
            lemma_restore_lookup(ts, bps, s);
            lemma_lookup_some(bases@, base_mtime@, s);
        }
    }
    r
}

/// Wrapping every value in `Some` keeps what each key reads.
proof fn lemma_lookup_some(es: Seq<(&'static str, u64)>, wrapped: Seq<(&'static str, Option<u64>)>, s: Seq<char>)
    requires
        wrapped.len() == es.len(),
        forall|k: int| 0 <= k < es.len() ==> #[trigger] wrapped[k] == (es[k].0, Some(es[k].1)),
    ensures
        lookup(wrapped, s) == match lookup(es, s) {
            Some(x) => Some(Some(x)),
            None => None::<Option<u64>>,
        },
    decreases es.len(),
{
    if es.len() > 0 {
        assert forall|k: int| 0 <= k < es.len() - 1 implies #[trigger] wrapped.drop_first()[k] == (es.drop_first()[k].0, Some(es.drop_first()[k].1)) by {
            assert(wrapped.drop_first()[k] == wrapped[k + 1]);
        }
        lemma_lookup_some(es.drop_first(), wrapped.drop_first(), s);
    }
}

proof fn lemma_find_epoch_views(es: Seq<(&'static str, u32)>, s: Seq<char>)
    ensures
        find_view(epoch_views(es), s) == lookup(es, s),
    decreases es.len(),
{
    if es.len() > 0 {
        assert(epoch_views(es).drop_first() =~= epoch_views(es.drop_first()));
        lemma_find_epoch_views(es.drop_first(), s);
    }
}

proof fn lemma_find_kept_bases(es: Seq<(&'static str, Option<u64>)>, s: Seq<char>)
    requires
        keys_distinct(es),
    ensures
        find_view(kept_bases(es), s) == match lookup(es, s) {
            Some(Some(us)) => Some(us),
            _ => None,
        },
    decreases es.len(),
{
    if es.len() > 0 {
        let init = es.drop_last();
        assert(keys_distinct(init));
        lemma_find_kept_bases(init, s);
        match es.last().1 {
            Some(x) => lemma_find_pushed(kept_bases(init), es.last().0@, x, s),
            None => {},
        }
        lemma_lookup_append_last(es, s);
    }
}

/// Reading `s` after pushing the entry `(k, x)`.
proof fn lemma_find_pushed(es: Seq<(Seq<char>, u64)>, k: Seq<char>, x: u64, s: Seq<char>)
    ensures
        find_view(es.push((k, x)), s) == (if find_view(es, s) is Some { find_view(es, s) } else if k == s { Some(x) } else { None }),
    decreases es.len(),
{
    let ne = es.push((k, x));
    if es.len() == 0 {
        assert(ne[0] == (k, x));
        assert(ne.drop_first() =~= Seq::<(Seq<char>, u64)>::empty());
        assert(find_view(ne.drop_first(), s) is None);
    } else {
        assert(ne[0] == es[0]);
        assert(ne.drop_first() =~= es.drop_first().push((k, x)));
        lemma_find_pushed(es.drop_first(), k, x, s);
    }
}

/// With one entry per key, the last entry answers for its key only when no
/// earlier entry does.
proof fn lemma_lookup_append_last(es: Seq<(&'static str, Option<u64>)>, s: Seq<char>)
    requires
        es.len() > 0,
        keys_distinct(es),
    ensures
        lookup(es, s) == match lookup(es.drop_last(), s) {
            Some(x) => Some(x),
            None => if es.last().0@ == s { Some(es.last().1) } else { None },
        },
        lookup(es.drop_last(), s) is Some ==> es.last().0@ != s,
    decreases es.len(),
{
    if es.len() == 1 {
        assert(es.drop_last() =~= Seq::<(&'static str, Option<u64>)>::empty());
        assert(es.drop_first() =~= Seq::<(&'static str, Option<u64>)>::empty());
    } else {
        let tail = es.drop_first();
        assert(keys_distinct(tail)) by {
            assert forall|i: int, j: int| 0 <= i < j < tail.len() implies tail[i].0@ != tail[j].0@ by {
                assert(tail[i] == es[i + 1] && tail[j] == es[j + 1]);
            }
        }
        lemma_lookup_append_last(tail, s);
        assert(es.drop_last().drop_first() =~= tail.drop_last());
        assert(es.drop_last()[0] == es[0]);
        assert(tail.last() == es.last());
        if es[0].0@ == s {
            assert(es[0].0@ != es.last().0@);
        }
    }
}

/// Saving a state and loading it back gives the same alive time, and the same
/// epoch and base time for every recorded subdirectory.
pub proof fn persisted_state_round_trips(st: IngestState, s: Seq<char>)
    requires
        st.wf(),
        is_tracked(s),
    ensures
        restored_epoch(epoch_views(st.last_epoch@), s) == st.epoch_of(s),
        restored_base(kept_bases(st.base_mtime@), s) == st.stored_base_of(s),
{
    lemma_find_epoch_views(st.last_epoch@, s);
    lemma_find_kept_bases(st.base_mtime@, s);
}


/// Whether `x` is one of the strings of `v`.
pub open spec fn in_strings(v: Seq<String>, x: Seq<char>) -> bool {
    exists|j: int| 0 <= j < v.len() && (#[trigger] v[j])@ == x
}

pub(crate) proof fn lemma_in_strings_push(v: Seq<String>, s: String, x: Seq<char>)
    ensures
        in_strings(v.push(s), x) <==> (in_strings(v, x) || s@ == x),
{
    let w = v.push(s);
    if in_strings(w, x) {
        let j = choose|j: int| 0 <= j < w.len() && (#[trigger] w[j])@ == x;
        if j < v.len() {
            assert(v[j] == w[j]);
        }
    }
    if in_strings(v, x) {
        let j = choose|j: int| 0 <= j < v.len() && (#[trigger] v[j])@ == x;
        assert(w[j] == v[j]);
    }
    if s@ == x {
        assert(w[v.len() as int] == s);
    }
}

proof fn lemma_in_strings_concat(v: Seq<String>, w: Seq<String>, x: Seq<char>)
    ensures
        in_strings(v + w, x) <==> (in_strings(v, x) || in_strings(w, x)),
{
    let u = v + w;
    if in_strings(u, x) {
        let j = choose|j: int| 0 <= j < u.len() && (#[trigger] u[j])@ == x;
        if j < v.len() {
            assert(v[j] == u[j]);
        } else {
            assert(w[j - v.len()] == u[j]);
        }
    }
    if in_strings(v, x) {
        let j = choose|j: int| 0 <= j < v.len() && (#[trigger] v[j])@ == x;
        assert(u[j] == v[j]);
    }
    if in_strings(w, x) {
        let j = choose|j: int| 0 <= j < w.len() && (#[trigger] w[j])@ == x;
        assert(u[v.len() + j] == w[j]);
    }
}

/// Whether `k` is in the alive set; with no alive set, everything is.
pub open spec fn is_alive(alive: Option<Seq<String>>, k: Seq<char>) -> bool {
    match alive {
        None => true,
        Some(a) => in_strings(a, k),
    }
}

/// The alive set as the contracts see it.
pub open spec fn alive_view(alive: Option<&Vec<String>>) -> Option<Seq<String>> {
    match alive {
        Some(a) => Some(a@),
        None => None,
    }
}

/// The key of row `i` of batch `b`, if it has one.
pub open spec fn key_at(bs: Seq<Vec<Option<String>>>, b: int, i: int) -> Option<Seq<char>> {
    match bs[b]@[i] {
        Some(s) => Some(s@),
        None => None,
    }
}

/// Whether key `k` occurs in batch `c` at a row before `n`.
pub open spec fn in_batch(bs: Seq<Vec<Option<String>>>, c: int, n: int, k: Seq<char>) -> bool {
    exists|i: int| 0 <= i < n && i < bs[c]@.len() && key_at(bs, c, i) == Some(k)
}

/// Whether key `k` occurs in a batch before batch `b`.
pub open spec fn seen_before(bs: Seq<Vec<Option<String>>>, b: int, k: Seq<char>) -> bool {
    exists|c: int| 0 <= c < b && #[trigger] in_batch(bs, c, bs[c]@.len() as int, k)
}

/// Whether row `i` of batch `b` survives: it has a key, the key is alive, and
/// no earlier batch mentions the key.
pub open spec fn row_kept(bs: Seq<Vec<Option<String>>>, alive: Option<Seq<String>>, b: int, i: int) -> bool {
    match key_at(bs, b, i) {
        Some(k) => is_alive(alive, k) && !seen_before(bs, b, k),
        None => false,
    }
}

pub(crate) fn contains_string(v: &Vec<String>, s: &str) -> (r: bool)
    ensures
        r == in_strings(v@, s@),
{
    let mut j: usize = 0;
    while j < v.len()
        invariant
            j <= v@.len(),
            forall|k: int| 0 <= k < j ==> (#[trigger] v@[k])@ != s@,
        decreases v@.len() - j,
    {
        if str_eq(v[j].as_str(), s) {
            assert(v@[j as int]@ == s@);
            return true;
        }
        j += 1;
    }
    false
}

pub(crate) fn alive_contains(alive: Option<&Vec<String>>, k: &str) -> (r: bool)
    ensures
        r == is_alive(alive_view(alive), k@),
{
    match alive {
        None => true,
        Some(a) => {
            let r = contains_string(a, k);
            assert(alive_view(alive) == Some(a@));
            r
        },
    }
}

/// The keys seen after batch `b`: those seen before it, and the alive keys of
/// batch `b` itself.
proof fn lemma_seen_next(bs: Seq<Vec<Option<String>>>, b: int, x: Seq<char>)
    requires
        0 <= b < bs.len(),
    ensures
        seen_before(bs, b + 1, x) <==> (seen_before(bs, b, x) || in_batch(bs, b, bs[b]@.len() as int, x)),
{
    if seen_before(bs, b + 1, x) {
        let c = choose|c: int| 0 <= c < b + 1 && #[trigger] in_batch(bs, c, bs[c]@.len() as int, x);
        if c < b {
            assert(seen_before(bs, b, x));
        }
    }
    if seen_before(bs, b, x) {
        let c = choose|c: int| 0 <= c < b && #[trigger] in_batch(bs, c, bs[c]@.len() as int, x);
        assert(0 <= c < b + 1 && in_batch(bs, c, bs[c]@.len() as int, x));
    }
    if in_batch(bs, b, bs[b]@.len() as int, x) {
        assert(0 <= b < b + 1 && in_batch(bs, b, bs[b]@.len() as int, x));
    }
}

/// One more row of batch `b` scanned.
proof fn lemma_in_batch_next(bs: Seq<Vec<Option<String>>>, b: int, n: int, x: Seq<char>)
    requires
        0 <= b < bs.len(),
        0 <= n < bs[b]@.len(),
    ensures
        in_batch(bs, b, n + 1, x) <==> (in_batch(bs, b, n, x) || key_at(bs, b, n) == Some(x)),
{
    if in_batch(bs, b, n + 1, x) {
        let i = choose|i: int| 0 <= i < n + 1 && i < bs[b]@.len() && key_at(bs, b, i) == Some(x);
        if i < n {
            assert(in_batch(bs, b, n, x));
        }
    }
}

/// The mask of one batch, and the alive keys it adds to those seen.
fn batch_mask(
    keys: &Vec<Option<String>>,
    seen: &Vec<String>,
    alive: Option<&Vec<String>>,
    Ghost(bs): Ghost<Seq<Vec<Option<String>>>>,
    Ghost(b): Ghost<int>,
) -> (r: (Vec<bool>, Vec<String>))
    requires
        0 <= b < bs.len(),
        keys@ == bs[b]@,
        forall|x: Seq<char>| #[trigger] in_strings(seen@, x) <==> (is_alive(alive_view(alive), x) && seen_before(bs, b, x)),
    ensures
        r.0@.len() == keys@.len(),
        forall|i: int| 0 <= i < keys@.len() ==> (#[trigger] r.0@[i]) == row_kept(bs, alive_view(alive), b, i),
        forall|x: Seq<char>| #[trigger] in_strings(seen@ + r.1@, x)
            <==> (is_alive(alive_view(alive), x) && seen_before(bs, b + 1, x)),
{
    let ghost av = alive_view(alive);
    let mut mask: Vec<bool> = Vec::new();
    let mut fresh: Vec<String> = Vec::new();
    let mut i: usize = 0;
    while i < keys.len()
        invariant
            0 <= b < bs.len(),
            keys@ == bs[b]@,
            av == alive_view(alive),
            i <= keys@.len(),
            mask@.len() == i,
            forall|k: int| 0 <= k < i ==> (#[trigger] mask@[k]) == row_kept(bs, av, b, k),
            forall|x: Seq<char>| #[trigger] in_strings(seen@, x) <==> (is_alive(av, x) && seen_before(bs, b, x)),
            forall|x: Seq<char>| #[trigger] in_strings(seen@ + fresh@, x) <==> (is_alive(av, x) && (seen_before(bs, b, x) || in_batch(bs, b, i as int, x))),
        decreases keys@.len() - i,
    {
        proof {
            assert forall|x: Seq<char>| #[trigger] in_batch(bs, b, i + 1, x) <==> (in_batch(bs, b, i as int, x) || key_at(bs, b, i as int) == Some(x)) by {
                lemma_in_batch_next(bs, b, i as int, x);
            }
        }
        let keep = match &keys[i] {
            None => false,
            Some(k) => {
                let live = alive_contains(alive, k.as_str());
                let dup = contains_string(seen, k.as_str());
                if live && !dup {
                    let ghost before = fresh@;
                    fresh.push(k.clone());
                    proof {
                        assert forall|x: Seq<char>| #[trigger] in_strings(seen@ + fresh@, x) <==> (in_strings(seen@ + before, x) || k@ == x) by {
                            assert(seen@ + fresh@ =~= (seen@ + before).push(fresh@.last()));
                            lemma_in_strings_push(seen@ + before, fresh@.last(), x);
                        }
                    }
                    true
                } else {
                    proof {
                        if live {
                            assert(in_strings(seen@, k@));
                            lemma_in_strings_concat(seen@, fresh@, k@);
                        }
                    }
                    false
                }
            },
        };
        proof {
            assert forall|x: Seq<char>| #[trigger] in_strings(seen@ + fresh@, x) <==> (is_alive(av, x) && (seen_before(bs, b, x) || in_batch(bs, b, i + 1, x))) by {
                lemma_in_strings_concat(seen@, fresh@, x);
            }
        }
        mask.push(keep);
        i += 1;
    }
    proof {
        assert forall|x: Seq<char>| #[trigger] in_strings(seen@ + fresh@, x) <==> (is_alive(av, x) && seen_before(bs, b + 1, x)) by {
            lemma_seen_next(bs, b, x);
        }
    }
    (mask, fresh)
}

/// Which rows of the epoch batches survive, when a group of rows sharing a key
/// is superseded whole.
///
/// `batches` holds each batch's key column, newest epoch first. A row survives
/// when its key is alive and no earlier batch mentions the key: the dedup is
/// per group, not per row, so a key is marked seen only once its whole batch
/// has been walked, and every row of that batch keeps its group. Alive pruning
/// is folded into the same pass. `alive` is `None` when no alive set was
/// written, which prunes nothing.
pub fn dedup_group_masks(batches: &Vec<Vec<Option<String>>>, alive: Option<&Vec<String>>) -> (r: Vec<Vec<bool>>)
    ensures
        r@.len() == batches@.len(),
        forall|b: int| 0 <= b < r@.len() ==> (#[trigger] r@[b])@.len() == batches@[b]@.len(),
        forall|b: int, i: int| 0 <= b < r@.len() && 0 <= i < r@[b]@.len()
            ==> (#[trigger] r@[b]@[i]) == row_kept(batches@, alive_view(alive), b, i),
{
    let ghost bs = batches@;
    let ghost av = alive_view(alive);
    let mut seen: Vec<String> = Vec::new();
    let mut out: Vec<Vec<bool>> = Vec::new();
    let mut b: usize = 0;
    while b < batches.len()
        invariant
            b <= bs.len(),
            bs == batches@,
            av == alive_view(alive),
            out@.len() == b,
            forall|c: int| 0 <= c < b ==> (#[trigger] out@[c])@.len() == bs[c]@.len(),
            forall|c: int, i: int| 0 <= c < b && 0 <= i < out@[c]@.len() ==> (#[trigger] out@[c]@[i]) == row_kept(bs, av, c, i),
            forall|x: Seq<char>| #[trigger] in_strings(seen@, x) <==> (is_alive(av, x) && seen_before(bs, b as int, x)),
        decreases bs.len() - b,
    {
        let (mask, mut fresh) = batch_mask(&batches[b], &seen, alive, Ghost(bs), Ghost(b as int));
        let ghost old_seen = seen@;
        let ghost old_fresh = fresh@;
        seen.append(&mut fresh);
        assert(seen@ =~= old_seen + old_fresh);
        out.push(mask);
        b += 1;
    }
    out
}

/// A group is superseded whole: when a row of a key survives, every row of
/// that key in the same batch survives and no row of that key in a later
/// (older) batch does.
pub proof fn groups_supersede_whole(bs: Seq<Vec<Option<String>>>, alive: Option<Seq<String>>, b: int, i: int)
    requires
        0 <= b < bs.len(),
        0 <= i < bs[b]@.len(),
        row_kept(bs, alive, b, i),
    ensures
        forall|j: int| 0 <= j < bs[b]@.len() && key_at(bs, b, j) == key_at(bs, b, i) ==> row_kept(bs, alive, b, j),
        forall|c: int, j: int| b < c < bs.len() && 0 <= j < bs[c]@.len() && key_at(bs, c, j) == key_at(bs, b, i)
            ==> !row_kept(bs, alive, c, j),
{
    let k = key_at(bs, b, i)->0;
    assert(in_batch(bs, b, bs[b]@.len() as int, k));
    assert forall|c: int, j: int| b < c < bs.len() && 0 <= j < bs[c]@.len() && key_at(bs, c, j) == key_at(bs, b, i)
        implies !row_kept(bs, alive, c, j) by {
        assert(0 <= b < c && in_batch(bs, b, bs[b]@.len() as int, k));
        assert(seen_before(bs, c, k));
    }
}

/// Which rows survive alive pruning: all of them when no alive set was
/// written, otherwise the rows whose id is alive. A row without an id is not.
pub fn alive_mask(ids: &Vec<Option<String>>, alive: Option<&Vec<String>>) -> (r: Vec<bool>)
    ensures
        r@.len() == ids@.len(),
        forall|i: int| 0 <= i < ids@.len() ==> #[trigger] r@[i] == match alive {
            None => true,
            Some(_) => match ids@[i] {
                Some(id) => is_alive(alive_view(alive), id@),
                None => false,
            },
        },
{
    let mut out: Vec<bool> = Vec::new();
    let mut i: usize = 0;
    while i < ids.len()
        invariant
            i <= ids@.len(),
            out@.len() == i,
            forall|k: int| 0 <= k < i ==> #[trigger] out@[k] == match alive {
                None => true,
                Some(_) => match ids@[k] {
                    Some(id) => is_alive(alive_view(alive), id@),
                    None => false,
                },
            },
        decreases ids@.len() - i,
    {
        let keep = match alive {
            None => true,
            Some(_) => match &ids[i] {
                Some(id) => alive_contains(alive, id.as_str()),
                None => false,
            },
        };
        out.push(keep);
        i += 1;
    }
    out
}


/// Whether one end of an edge is alive: it is there and in the alive set.
pub open spec fn end_alive(alive: Seq<String>, end: Option<String>) -> bool {
    match end {
        Some(id) => in_strings(alive, id@),
        None => false,
    }
}

/// Which edges survive a delta's alive pruning: every edge when no alive set
/// was written, otherwise the edges whose parent and child are both there and
/// alive. `edges` holds each edge's (parent, child) ids.
pub fn surviving_edges(edges: &Vec<(Option<String>, Option<String>)>, alive: Option<&Vec<String>>) -> (r: Vec<bool>)
    ensures
        r@.len() == edges@.len(),
        forall|i: int| 0 <= i < edges@.len() ==> #[trigger] r@[i] == match alive {
            None => true,
            Some(a) => end_alive(a@, edges@[i].0) && end_alive(a@, edges@[i].1),
        },
{
    let mut out: Vec<bool> = Vec::new();
    let mut i: usize = 0;
    while i < edges.len()
        invariant
            i <= edges@.len(),
            out@.len() == i,
            forall|k: int| 0 <= k < i ==> #[trigger] out@[k] == match alive {
                None => true,
                Some(a) => end_alive(a@, edges@[k].0) && end_alive(a@, edges@[k].1),
            },
        decreases edges@.len() - i,
    {
        let keep = match alive {
            None => true,
            Some(_) => {
                let parent = match &edges[i].0 {
                    Some(id) => alive_contains(alive, id.as_str()),
                    None => false,
                };
                let child = match &edges[i].1 {
                    Some(id) => alive_contains(alive, id.as_str()),
                    None => false,
                };
                parent && child
            },
        };
        out.push(keep);
        i += 1;
    }
    out
}

/// The node columns that a delta carries forward from the rows already in
/// the index: a node parsed again keeps what compilation gave it.
pub open spec fn carried_node_columns_model() -> Seq<&'static str> {
    seq!["compiled_code", "compiled_code_hash", "compiled_path", "grain", "grain_declared", "grain_tested", "table_role"]
}

/// The node columns that a delta carries forward, in order.
pub fn carried_node_columns() -> (r: Vec<&'static str>)
    ensures
        r@ == carried_node_columns_model(),
{
    vec!["compiled_code", "compiled_code_hash", "compiled_path", "grain", "grain_declared", "grain_tested", "table_role"]
}

/// The ids whose old rows a delta merge keeps: the alive set when one was
/// written, otherwise the ids of the nodes this delta wrote.
pub fn merge_valid_ids(alive: Option<&Vec<String>>, new_node_ids: &Vec<String>) -> (r: Vec<String>)
    ensures
        string_views(r@) == string_views(match alive {
            Some(a) => a@,
            None => new_node_ids@,
        }),
{
    let src = match alive {
        Some(a) => a,
        None => new_node_ids,
    };
    let mut out: Vec<String> = Vec::new();
    let mut i: usize = 0;
    while i < src.len()
        invariant
            i <= src@.len(),
            string_views(out@) == string_views(src@).subrange(0, i as int),
        decreases src@.len() - i,
    {
        let ghost before = string_views(out@);
        out.push(owned(src[i].as_str()));
        assert(string_views(out@) =~= before.push(string_views(src@)[i as int]));
        assert(string_views(src@).subrange(0, i + 1) =~= string_views(src@).subrange(0, i as int).push(string_views(src@)[i as int]));
        i += 1;
    }
    assert(string_views(src@).subrange(0, src@.len() as int) =~= string_views(src@));
    out
}

/// Whether every character of `s` is a decimal digit.
pub open spec fn all_digits(s: Seq<char>) -> bool {
    forall|i: int| 0 <= i < s.len() ==> '0' <= #[trigger] s[i] <= '9'
}

/// The number the decimal digits `s` spell.
pub open spec fn digits_value(s: Seq<char>) -> nat
    decreases s.len(),
{
    if s.len() == 0 {
        0
    } else {
        digits_value(s.drop_last()) * 10 + ((s.last() as int - '0' as int) as nat)
    }
}

/// The epoch number of an epoch file name: `<version>_<n>.parquet`, with `n`
/// one or more decimal digits that fit in 32 bits.
pub open spec fn spec_epoch_number(name: Seq<char>) -> Option<u32> {
    let prefix = crate::epoch::EPOCH_SCHEMA_VERSION@ + "_"@;
    let suffix = ".parquet"@;
    if name.len() > prefix.len() + suffix.len() && name.subrange(0, prefix.len() as int) == prefix
        && name.subrange(name.len() - suffix.len(), name.len() as int) == suffix {
        let digits = name.subrange(prefix.len() as int, name.len() - suffix.len());
        if all_digits(digits) && digits_value(digits) <= u32::MAX {
            Some(digits_value(digits) as u32)
        } else {
            None
        }
    } else {
        None
    }
}

fn has_prefix_at(s: &str, at: usize, p: &str) -> (r: bool)
    requires
        at <= s@.len(),
    ensures
        r == (at + p@.len() <= s@.len() && s@.subrange(at as int, at + p@.len()) == p@),
{
    let n = s.unicode_len();
    let m = p.unicode_len();
    if n - at < m {
        return false;
    }
    let mut k: usize = 0;
    while k < m
        invariant
            at + m <= n,
            n == s@.len(),
            m == p@.len(),
            k <= m,
            forall|j: int| 0 <= j < k ==> s@[at + j] == p@[j],
        decreases m - k,
    {
        if s.get_char(at + k) != p.get_char(k) {
            assert(s@.subrange(at as int, at + m)[k as int] != p@[k as int]);
            return false;
        }
        k += 1;
    }
    assert(s@.subrange(at as int, at + m) =~= p@);
    true
}

/// The epoch number of an epoch file name, `None` for any other name.
pub fn epoch_number(name: &str) -> (r: Option<u32>)
    ensures
        r == spec_epoch_number(name@),
{
    let prefix = crate::text::cat(crate::epoch::EPOCH_SCHEMA_VERSION, "_");
    let suffix = ".parquet";
    let n = name.unicode_len();
    let pn = prefix.unicode_len();
    let sn = suffix.unicode_len();
    if n <= pn || n - pn <= sn {
        return None;
    }
    if !has_prefix_at(name, 0, prefix.as_str()) || !has_prefix_at(name, n - sn, suffix) {
        return None;
    }
    let ghost digits = name@.subrange(pn as int, n - sn);
    assert(spec_epoch_number(name@) == (if all_digits(digits) && digits_value(digits) <= u32::MAX {
        Some(digits_value(digits) as u32)
    } else {
        None
    }));
    let mut value: u64 = 0;
    let mut i: usize = pn;
    while i < n - sn
        invariant
            spec_epoch_number(name@) == (if all_digits(digits) && digits_value(digits) <= u32::MAX {
                Some(digits_value(digits) as u32)
            } else {
                None
            }),
            pn <= i <= n - sn,
            n == name@.len(),
            digits == name@.subrange(pn as int, n - sn),
            all_digits(digits.subrange(0, i - pn)),
            value == digits_value(digits.subrange(0, i - pn)),
            value <= u32::MAX,
        decreases n - sn - i,
    {
        let c = name.get_char(i);
        let ghost pre = digits.subrange(0, i - pn);
        let ghost cur = digits.subrange(0, i + 1 - pn);
        assert(cur.drop_last() =~= pre);
        assert(cur.last() == c);
        if c < '0' || c > '9' {
            assert(!all_digits(digits)) by {
                assert(digits[i - pn] == c);
            }
            return None;
        }
        let d = (c as u32 - '0' as u32) as u64;
        value = value * 10 + d;
        if value > 4294967295 {
            proof {
                if all_digits(digits) {
                    lemma_digits_grow(digits, (i + 1 - pn) as int);
                }
            }
            return None;
        }
        i += 1;
    }
    assert(digits.subrange(0, n - sn - pn) =~= digits);
    Some(value as u32)
}

/// A longer run of digits never spells a smaller number.
proof fn lemma_digits_grow(s: Seq<char>, k: int)
    requires
        0 <= k <= s.len(),
        all_digits(s),
    ensures
        digits_value(s.subrange(0, k)) <= digits_value(s),
    decreases s.len() - k,
{
    if k < s.len() {
        lemma_digits_grow(s, k + 1);
        assert(s.subrange(0, k + 1).drop_last() =~= s.subrange(0, k));
        assert(s.subrange(0, k + 1).last() == s[k]);
    } else {
        assert(s.subrange(0, k) =~= s);
    }
}

/// The highest of the epoch numbers, if there are any.
pub fn max_epoch(numbers: &Vec<u32>) -> (r: Option<u32>)
    ensures
        numbers@.len() == 0 <==> r is None,
        r matches Some(m) ==> numbers@.contains(m) && forall|i: int| 0 <= i < numbers@.len() ==> numbers@[i] <= m,
{
    let mut best: Option<u32> = None;
    let mut i: usize = 0;
    while i < numbers.len()
        invariant
            i <= numbers@.len(),
            i == 0 <==> best is None,
            best matches Some(m) ==> (exists|j: int| 0 <= j < i && numbers@[j] == m) && forall|j: int| 0 <= j < i ==> numbers@[j] <= m,
        decreases numbers@.len() - i,
    {
        let x = numbers[i];
        best = match best {
            None => Some(x),
            Some(m) => if x > m { Some(x) } else { Some(m) },
        };
        i += 1;
    }
    proof {
        if let Some(m) = best {
            let j = choose|j: int| 0 <= j < numbers@.len() && numbers@[j] == m;
            assert(numbers@[j] == m);
        }
    }
    best
}

/// The epochs a pass reads, in the order found: every one on a full reload,
/// else those after the last one ingested.
pub open spec fn epochs_after(epochs: Seq<u32>, last: u32) -> Seq<u32>
    decreases epochs.len(),
{
    if epochs.len() == 0 {
        Seq::empty()
    } else if epochs.last() > last {
        epochs_after(epochs.drop_last(), last).push(epochs.last())
    } else {
        epochs_after(epochs.drop_last(), last)
    }
}

/// The epochs a pass reads, in the order found: every one on a full reload,
/// else those after `last`, the last one ingested.
pub fn epochs_to_read(epochs: &Vec<u32>, need_full: bool, last: u32) -> (r: Vec<u32>)
    ensures
        r@ == if need_full { epochs@ } else { epochs_after(epochs@, last) },
{
    if need_full {
        return epochs.clone();
    }
    let mut out: Vec<u32> = Vec::new();
    let mut i: usize = 0;
    while i < epochs.len()
        invariant
            i <= epochs@.len(),
            out@ == epochs_after(epochs@.subrange(0, i as int), last),
        decreases epochs@.len() - i,
    {
        assert(epochs@.subrange(0, i + 1).drop_last() =~= epochs@.subrange(0, i as int));
        if epochs[i] > last {
            out.push(epochs[i]);
        }
        i += 1;
    }
    assert(epochs@.subrange(0, epochs@.len() as int) =~= epochs@);
    out
}

/// Every epoch read is newer than the last one ingested, and none newer is
/// skipped.
pub proof fn delta_reads_exactly_the_newer_epochs(epochs: Seq<u32>, last: u32, n: u32)
    ensures
        epochs_after(epochs, last).contains(n) <==> (epochs.contains(n) && n > last),
    decreases epochs.len(),
{
    if epochs.len() > 0 {
        delta_reads_exactly_the_newer_epochs(epochs.drop_last(), last, n);
        let prev = epochs_after(epochs.drop_last(), last);
        if epochs_after(epochs, last).contains(n) && epochs.last() > last && n != epochs.last() {
            let k = choose|k: int| 0 <= k < epochs_after(epochs, last).len() && epochs_after(epochs, last)[k] == n;
            assert(prev[k] == n);
        }
        if prev.contains(n) {
            let k = choose|k: int| 0 <= k < prev.len() && prev[k] == n;
            if epochs.last() > last {
                assert(prev.push(epochs.last())[k] == n);
            }
        }
        if epochs.contains(n) && n > last {
            let k = choose|k: int| 0 <= k < epochs.len() && epochs[k] == n;
            if k < epochs.len() - 1 {
                assert(epochs.drop_last()[k] == n);
            } else {
                assert(prev.push(epochs.last())[prev.len() as int] == n);
            }
        }
        if epochs.drop_last().contains(n) {
            let k = choose|k: int| 0 <= k < epochs.drop_last().len() && epochs.drop_last()[k] == n;
            assert(epochs[k] == n);
        }
    }
}

/// Whether row `i` of batch `b` of parse nodes is ingested: it has an id, the
/// id is alive, and, when the epochs are read newest first, neither an earlier
/// batch nor an earlier row of this one had the id.
pub open spec fn node_row_kept(bs: Seq<Vec<Option<String>>>, alive: Option<Seq<String>>, newest_first: bool, b: int, i: int) -> bool {
    match key_at(bs, b, i) {
        Some(k) => is_alive(alive, k) && (!newest_first || (!seen_before(bs, b, k) && !in_batch(bs, b, i, k))),
        None => false,
    }
}

/// Which parse-node rows are ingested. `batches` holds each batch's
/// `unique_id` column, in the order read. A full ingest reads the epochs
/// newest first and keeps the first row of each id; a delta keeps every row.
/// Either way a row needs an id, and an alive one when an alive set was
/// written.
pub fn node_row_masks(batches: &Vec<Vec<Option<String>>>, alive: Option<&Vec<String>>, newest_first: bool) -> (r: Vec<Vec<bool>>)
    ensures
        r@.len() == batches@.len(),
        forall|b: int| 0 <= b < r@.len() ==> (#[trigger] r@[b])@.len() == batches@[b]@.len(),
        forall|b: int, i: int| 0 <= b < r@.len() && 0 <= i < r@[b]@.len()
            ==> (#[trigger] r@[b]@[i]) == node_row_kept(batches@, alive_view(alive), newest_first, b, i),
{
    let ghost bs = batches@;
    let ghost av = alive_view(alive);
    let mut seen: Vec<String> = Vec::new();
    let mut out: Vec<Vec<bool>> = Vec::new();
    let mut b: usize = 0;
    while b < batches.len()
        invariant
            b <= bs.len(),
            bs == batches@,
            av == alive_view(alive),
            out@.len() == b,
            forall|c: int| 0 <= c < b ==> (#[trigger] out@[c])@.len() == bs[c]@.len(),
            forall|c: int, i: int| 0 <= c < b && 0 <= i < out@[c]@.len() ==> (#[trigger] out@[c]@[i]) == node_row_kept(bs, av, newest_first, c, i),
            forall|x: Seq<char>| #[trigger] in_strings(seen@, x) <==> (is_alive(av, x) && seen_before(bs, b as int, x)),
        decreases bs.len() - b,
    {
        let keys = &batches[b];
        let mut mask: Vec<bool> = Vec::new();
        let mut i: usize = 0;
        while i < keys.len()
            invariant
                b < bs.len(),
                bs == batches@,
                keys@ == bs[b as int]@,
                av == alive_view(alive),
                i <= keys@.len(),
                mask@.len() == i,
                forall|k: int| 0 <= k < i ==> (#[trigger] mask@[k]) == node_row_kept(bs, av, newest_first, b as int, k),
                forall|x: Seq<char>| #[trigger] in_strings(seen@, x) <==> (is_alive(av, x) && (seen_before(bs, b as int, x)
                    || in_batch(bs, b as int, i as int, x))),
            decreases keys@.len() - i,
        {
            proof {
                assert forall|x: Seq<char>| #[trigger] in_batch(bs, b as int, i + 1, x) <==> (in_batch(bs, b as int, i as int, x)
                    || key_at(bs, b as int, i as int) == Some(x)) by {
                    lemma_in_batch_next(bs, b as int, i as int, x);
                }
            }
            let keep = match &keys[i] {
                None => false,
                Some(k) => {
                    let live = alive_contains(alive, k.as_str());
                    if live {
                        let dup = contains_string(&seen, k.as_str());
                        if !dup {
                            let ghost before = seen@;
                            seen.push(k.clone());
                            proof {
                                assert forall|x: Seq<char>| #[trigger] in_strings(seen@, x) <==> (in_strings(before, x) || k@ == x) by {
                                    assert(seen@ =~= before.push(seen@.last()));
                                    lemma_in_strings_push(before, seen@.last(), x);
                                }
                            }
                        }
                        !newest_first || !dup
                    } else {
                        false
                    }
                },
            };
            mask.push(keep);
            i += 1;
        }
        proof {
            assert forall|x: Seq<char>| #[trigger] in_strings(seen@, x) <==> (is_alive(av, x) && seen_before(bs, b + 1, x)) by {
                lemma_seen_next(bs, b as int, x);
            }
        }
        out.push(mask);
        b += 1;
    }
    out
}

/// On a full ingest each node is ingested once: no two kept rows share an id.
pub proof fn full_ingest_keeps_each_node_once(bs: Seq<Vec<Option<String>>>, alive: Option<Seq<String>>, b: int, i: int, c: int, j: int)
    requires
        0 <= b < bs.len(),
        0 <= c < bs.len(),
        0 <= i < bs[b]@.len(),
        0 <= j < bs[c]@.len(),
        node_row_kept(bs, alive, true, b, i),
        node_row_kept(bs, alive, true, c, j),
        key_at(bs, b, i) == key_at(bs, c, j),
    ensures
        b == c && i == j,
{
    let k = key_at(bs, b, i)->0;
    if b < c {
        assert(in_batch(bs, b, bs[b]@.len() as int, k));
        assert(seen_before(bs, c, k));
    } else if c < b {
        assert(in_batch(bs, c, bs[c]@.len() as int, k));
        assert(seen_before(bs, b, k));
    } else if i < j {
        assert(in_batch(bs, c, j, k));
    } else if j < i {
        assert(in_batch(bs, b, i, k));
    }
}

/// The resource types whose nodes are rows of `dbt.nodes`.
pub open spec fn node_types_model() -> Seq<&'static str> {
    seq!["model", "source", "seed", "snapshot", "analysis", "test", "operation", "function", "check"]
}

/// Whether nodes of resource type `rt` are rows of `dbt.nodes`.
pub fn writes_to_nodes(rt: &str) -> (r: bool)
    ensures
        r == crate::text::contains_str(node_types_model(), rt@),
{
    let types: &[&str] = &["model", "source", "seed", "snapshot", "analysis", "test", "operation", "function", "check"];
    assert(types@ =~= node_types_model());
    crate::text::slice_contains(types, rt)
}

/// A table that holds one resource type outside the node set, built from the
/// node's payload.
#[derive(Debug, Clone, Copy, PartialEq, Eq, Structural)]
pub enum SideTable {
    Metrics,
    /// Semantic models, with their entities, measures and dimensions.
    SemanticModels,
    SavedQueries,
    Exposures,
    Groups,
    Macros,
    Docs,
    UnitTests,
    /// A model's time spine, when its payload declares one.
    TimeSpines,
}

/// The side table a node of resource type `rt` also feeds, if any.
pub open spec fn side_table_model(rt: Seq<char>) -> Option<SideTable> {
    if rt == "metric"@ {
        Some(SideTable::Metrics)
    } else if rt == "semantic_model"@ {
        Some(SideTable::SemanticModels)
    } else if rt == "saved_query"@ {
        Some(SideTable::SavedQueries)
    } else if rt == "exposure"@ {
        Some(SideTable::Exposures)
    } else if rt == "group"@ {
        Some(SideTable::Groups)
    } else if rt == "macro"@ {
        Some(SideTable::Macros)
    } else if rt == "docs_macro"@ {
        Some(SideTable::Docs)
    } else if rt == "unit_test"@ {
        Some(SideTable::UnitTests)
    } else if rt == "model"@ {
        Some(SideTable::TimeSpines)
    } else {
        None
    }
}

/// The side table a node of resource type `rt` also feeds, if any.
pub fn side_table(rt: &str) -> (r: Option<SideTable>)
    ensures
        r == side_table_model(rt@),
{
    if str_eq(rt, "metric") {
        Some(SideTable::Metrics)
    } else if str_eq(rt, "semantic_model") {
        Some(SideTable::SemanticModels)
    } else if str_eq(rt, "saved_query") {
        Some(SideTable::SavedQueries)
    } else if str_eq(rt, "exposure") {
        Some(SideTable::Exposures)
    } else if str_eq(rt, "group") {
        Some(SideTable::Groups)
    } else if str_eq(rt, "macro") {
        Some(SideTable::Macros)
    } else if str_eq(rt, "docs_macro") {
        Some(SideTable::Docs)
    } else if str_eq(rt, "unit_test") {
        Some(SideTable::UnitTests)
    } else if str_eq(rt, "model") {
        Some(SideTable::TimeSpines)
    } else {
        None
    }
}

/// A node's `enabled` from the epoch's `is_disabled` flag: enabled exactly
/// when the flag is 0, and when it is absent.
pub fn enabled_from_disabled(is_disabled: Option<i32>) -> (r: bool)
    ensures
        r == match is_disabled {
            Some(d) => d == 0,
            None => true,
        },
{
    match is_disabled {
        Some(d) => d == 0,
        None => true,
    }
}

/// Whether a pass over a run-phase layer (invocations, results, freshness,
/// catalog statistics) reloads every epoch: when asked to, when no epoch was
/// ever ingested, or when the numbering went backwards.
pub fn run_layer_needs_full(full: bool, last_saved: u32, current_max: u32) -> (r: bool)
    ensures
        r == (full || last_saved == u32::MAX || current_max < last_saved),
{
    full || last_saved == u32::MAX || current_max < last_saved
}

/// Whether a run-phase layer that is reread whole (invocations and results)
/// has anything new: a full reload, or an epoch after the last one ingested.
pub fn run_layer_has_new(need_full: bool, epochs: &Vec<u32>, last_saved: u32) -> (r: bool)
    ensures
        r == (need_full || exists|i: int| 0 <= i < epochs@.len() && epochs@[i] > last_saved),
{
    if need_full {
        return true;
    }
    let mut i: usize = 0;
    while i < epochs.len()
        invariant
            i <= epochs@.len(),
            forall|k: int| 0 <= k < i ==> epochs@[k] <= last_saved,
        decreases epochs@.len() - i,
    {
        if epochs[i] > last_saved {
            return true;
        }
        i += 1;
    }
    false
}

/// One step of an ingest pass, in the order a pass takes them.
#[derive(Debug, Clone, Copy, PartialEq, Eq, Structural)]
pub enum IngestStep {
    /// Read the compile-phase node epochs into a map by id.
    LoadCompileNodes,
    /// Build `dbt.nodes` and the tables derived from node payloads.
    ParseNodes,
    /// Apply the compile map to the node rows already in the index.
    MergeCompiledNodes,
    /// The same, only when the compile map has anything in it.
    MergeCompiledNodesIfAny,
    ParseColumns,
    ParseProject,
    ParseGeneration,
    CompileColumns,
    CatalogColumns,
    CompileLineage,
    RunInvocations,
    RunResults,
    ColumnStats,
    SeedCatalogStats,
    WarehouseCatalogStats,
    RunFreshness,
    /// Write the staged tables out.
    Finish,
}

/// The steps of a pass: a cold ingest reads everything; a delta after a
/// reparse reads every layer, applying the compile map again to the nodes
/// it did not rebuild; a delta with only new compile epochs applies the
/// compile layer to the rows on disk and reads the compile-phase tables; a
/// current index needs nothing.
pub open spec fn steps_model(plan: Option<DeltaPlan>) -> Seq<IngestStep> {
    match plan {
        None => seq![
            IngestStep::LoadCompileNodes, IngestStep::ParseNodes, IngestStep::ParseColumns, IngestStep::ParseProject,
            IngestStep::ParseGeneration, IngestStep::CompileColumns, IngestStep::CatalogColumns, IngestStep::CompileLineage,
            IngestStep::RunInvocations, IngestStep::RunResults, IngestStep::ColumnStats, IngestStep::SeedCatalogStats,
            IngestStep::WarehouseCatalogStats, IngestStep::RunFreshness, IngestStep::Finish,
        ],
        Some(DeltaPlan::Reparse) => seq![
            IngestStep::LoadCompileNodes, IngestStep::ParseNodes, IngestStep::MergeCompiledNodes, IngestStep::ParseColumns,
            IngestStep::ParseProject, IngestStep::ParseGeneration, IngestStep::CompileColumns, IngestStep::CatalogColumns,
            IngestStep::CompileLineage, IngestStep::RunInvocations, IngestStep::RunResults, IngestStep::ColumnStats,
            IngestStep::SeedCatalogStats, IngestStep::WarehouseCatalogStats, IngestStep::RunFreshness, IngestStep::Finish,
        ],
        Some(DeltaPlan::CompileOnly) => seq![
            IngestStep::LoadCompileNodes, IngestStep::MergeCompiledNodesIfAny, IngestStep::CompileColumns,
            IngestStep::CatalogColumns, IngestStep::CompileLineage, IngestStep::Finish,
        ],
        Some(DeltaPlan::Current) => Seq::empty(),
    }
}

/// The steps of a pass: a cold ingest (`None`, with no persisted state) or a
/// delta pass under `plan`. Every step of a cold ingest reads all epochs; a
/// delta reads only new ones.
pub fn ingest_steps(plan: Option<DeltaPlan>) -> (r: Vec<IngestStep>)
    ensures
        r@ == steps_model(plan),
        r@.len() == 0 <==> plan == Some(DeltaPlan::Current),
{
    let r = match plan {
        None => vec![
            IngestStep::LoadCompileNodes, IngestStep::ParseNodes, IngestStep::ParseColumns, IngestStep::ParseProject,
            IngestStep::ParseGeneration, IngestStep::CompileColumns, IngestStep::CatalogColumns, IngestStep::CompileLineage,
            IngestStep::RunInvocations, IngestStep::RunResults, IngestStep::ColumnStats, IngestStep::SeedCatalogStats,
            IngestStep::WarehouseCatalogStats, IngestStep::RunFreshness, IngestStep::Finish,
        ],
        Some(DeltaPlan::Reparse) => vec![
            IngestStep::LoadCompileNodes, IngestStep::ParseNodes, IngestStep::MergeCompiledNodes, IngestStep::ParseColumns,
            IngestStep::ParseProject, IngestStep::ParseGeneration, IngestStep::CompileColumns, IngestStep::CatalogColumns,
            IngestStep::CompileLineage, IngestStep::RunInvocations, IngestStep::RunResults, IngestStep::ColumnStats,
            IngestStep::SeedCatalogStats, IngestStep::WarehouseCatalogStats, IngestStep::RunFreshness, IngestStep::Finish,
        ],
        Some(DeltaPlan::CompileOnly) => vec![
            IngestStep::LoadCompileNodes, IngestStep::MergeCompiledNodesIfAny, IngestStep::CompileColumns,
            IngestStep::CatalogColumns, IngestStep::CompileLineage, IngestStep::Finish,
        ],
        Some(DeltaPlan::Current) => Vec::new(),
    };
    assert(r@ =~= steps_model(plan));
    r
}

/// A current index is left alone, and any other pass ends by writing the
/// staged tables: the index is current exactly when a delta pass has no
/// step to take.
pub proof fn current_iff_no_steps(state: IngestState, alive: Option<Option<(u64, u32)>>, observed: Seq<DirObservation>)
    ensures
        spec_index_is_current(Some(state), alive, observed) <==> steps_model(Some(spec_delta_plan(state, alive, observed))).len() == 0,
        steps_model(Some(spec_delta_plan(state, alive, observed))).len() > 0 ==> steps_model(
            Some(spec_delta_plan(state, alive, observed)),
        ).last() == IngestStep::Finish,
{
}

/// A delta pass follows the alive file: when it is unchanged and no compile
/// epoch is unseen, the plan is `Current` and the pass takes no step (and
/// [`plan_delta`] leaves the state as it was); when it changed, the plan is a
/// reparse, whose steps end by writing the index (and [`plan_delta`] records
/// the file's time).
pub proof fn delta_pass_follows_the_alive_file(state: IngestState, alive: Option<Option<(u64, u32)>>, observed: Seq<DirObservation>)
    ensures
        (observed_us(alive) == state.alive_mtime && !any_unseen(state, observed)) ==> spec_delta_plan(state, alive, observed)
            == DeltaPlan::Current && steps_model(Some(spec_delta_plan(state, alive, observed))).len() == 0,
        observed_us(alive) != state.alive_mtime ==> spec_delta_plan(state, alive, observed) == DeltaPlan::Reparse
            && steps_model(Some(spec_delta_plan(state, alive, observed))).last() == IngestStep::Finish,
{
}

/// An observed compile subdirectory whose highest epoch differs from the last
/// one applied, lower (a compaction reset the numbering) as well as higher
/// (new epochs), holds unseen epochs: the index is not current and a delta
/// pass has work to do. Conversely, when every existing subdirectory's base is
/// unchanged and its highest epoch is the last one applied, nothing is unseen.
pub proof fn a_moved_epoch_is_unseen(state: IngestState, alive: Option<Option<(u64, u32)>>, obs: Seq<DirObservation>, k: int)
    requires
        0 <= k < obs.len(),
        obs[k].exists,
        obs[k].max_epoch is Some,
        obs[k].max_epoch->0 != state.epoch_of(obs[k].subdir@),
    ensures
        any_unseen(state, obs),
        !spec_index_is_current(Some(state), alive, obs),
        spec_delta_plan(state, alive, obs) != DeltaPlan::Current,
{
    assert(dir_unseen(state, obs[k]));
}

/// Nothing is unseen when every existing subdirectory kept its base and its
/// highest epoch, if it has any, is the last one applied (and one was).
pub proof fn settled_epochs_are_seen(state: IngestState, obs: Seq<DirObservation>)
    requires
        forall|i: int| 0 <= i < obs.len() && (#[trigger] obs[i]).exists ==> state.spec_base_diff(obs[i].subdir@, obs[i].base) != Some(true)
            && match obs[i].max_epoch {
                Some(m) => m == state.epoch_of(obs[i].subdir@) && m != u32::MAX,
                None => true,
            },
    ensures
        !any_unseen(state, obs),
{
}

} // verus!
