//! What has been applied from the metadata directory into the index, and the
//! per-directory decision between a delta load and a full reload.
//!
//! ## Delta decision logic (per epoch directory)
//!
//! Let `last` be the stored last epoch number and `curr_max` the max epoch on
//! disk.
//!
//! | Condition                    | Meaning                          | Action      |
//! |------------------------------|----------------------------------|-------------|
//! | `last == u32::MAX`           | First run, no state yet          | Full reload |
//! | `curr_max < last`            | Compaction reset epoch numbering | Full reload |
//! | base epoch mtime changed     | Base epoch rewritten in place    | Full reload |
//! | `curr_max == last`           | No new epochs                    | Deletions   |
//! | `curr_max > last`            | New incremental epochs available | Delta load  |
//!
//! The base-mtime check is load-bearing: a full parse rewrites the base epoch in
//! place and deletes the delta epochs, so epoch numbers alone cannot tell "epoch
//! 0 unchanged" from "epoch 0 rewritten with new content".
//!
//! Times are held as the library sees them: a file time is the duration since
//! the Unix epoch as `(seconds, nanoseconds)`, `None` for one that predates it,
//! and a recorded mtime is that time in microseconds.

use vstd::prelude::*;
use crate::text::{lookup, lookup_entry, str_eq};

verus! {

pub const PARSE_NODES_SUBDIR: &'static str = "parse/nodes";
pub const PARSE_COLUMNS_SUBDIR: &'static str = "parse/columns";
pub const PARSE_ALIVE: &'static str = "parse/alive.parquet";
pub const PARSE_PROJECT: &'static str = "parse/project.parquet";
pub const PARSE_RESOLVER_STATE: &'static str = "parse/resolver_state.parquet";
/// Written only on cold start. Its mtime signals the last full parse; compile
/// rows with an older `ingested_at` are stale and should be ignored.
pub const PARSE_GENERATION: &'static str = "parse/generation.parquet";
pub const COMPILE_NODES_SUBDIR: &'static str = "compile/nodes";
pub const COMPILE_COLUMNS_SUBDIR: &'static str = "compile/columns";
pub const COMPILE_CLL_SUBDIR: &'static str = "compile/column_lineage";
pub const CATALOG_COLUMNS_SUBDIR: &'static str = "catalog/columns";
pub const RUN_INVOCATIONS_SUBDIR: &'static str = "run/invocations";
pub const RUN_RESULTS_SUBDIR: &'static str = "run/results";
pub const RUN_FRESHNESS_SUBDIR: &'static str = "run/freshness";
pub const RUN_CATALOG_STATS_SUBDIR: &'static str = "run/catalog_stats";

/// `t` in microseconds since the Unix epoch, or `None` when `t` predates it.
/// The microsecond count is cut to 64 bits, as a cast from the 128-bit count
/// does.
pub open spec fn spec_mtime_us(since_epoch: Option<(u64, u32)>) -> Option<u64> {
    match since_epoch {
        None => None,
        Some((secs, nanos)) => Some(((secs * 1000000 + nanos / 1000) % 0x1_0000_0000_0000_0000int) as u64),
    }
}

/// `t` as microseconds since the Unix epoch, or `None` if `t` predates it.
/// `since_epoch` is the time's distance from the epoch as seconds and
/// nanoseconds, or `None` for a time before it.
pub fn mtime_us(since_epoch: Option<(u64, u32)>) -> (r: Option<u64>)
    ensures
        r == spec_mtime_us(since_epoch),
{
    match since_epoch {
        None => None,
        Some((secs, nanos)) => {
            let micros: u128 = (secs as u128) * 1_000_000 + (nanos as u128) / 1000;
            let r = micros as u64;
            assert(r == micros % 0x1_0000_0000_0000_0000) by (bit_vector)
                requires
                    r == micros as u64,
            ;
            Some(r)
        },
    }
}

/// One entry per key.
pub open spec fn keys_distinct<V>(entries: Seq<(&'static str, V)>) -> bool {
    forall|i: int, j: int| 0 <= i < j < entries.len() ==> entries[i].0@ != entries[j].0@
}

/// Tracks what has been applied from the metadata directory into the index.
#[derive(Debug)]
pub struct IngestState {
    /// Microsecond mtime of `parse/alive.parquet` at last apply: the primary
    /// freshness signal.
    pub alive_mtime: Option<u64>,
    /// Last epoch number applied per subdirectory. Absent means never seen.
    pub last_epoch: Vec<(&'static str, u32)>,
    /// Directory the flat delta parquet files are written to.
    pub index_dir: Option<String>,
    /// Alive unique_ids after the last apply. Diffed against the current alive
    /// set to find deletions without scanning a table.
    pub alive_ids: Vec<String>,
    /// Microsecond mtime of each subdirectory's base epoch at last apply, `None`
    /// where that mtime predated the Unix epoch. Detects an in-place rewrite of
    /// the base epoch, which leaves epoch numbering unchanged.
    pub base_mtime: Vec<(&'static str, Option<u64>)>,
}

impl IngestState {
    /// The state's maps hold one entry per subdirectory.
    pub open spec fn wf(&self) -> bool {
        keys_distinct(self.last_epoch@) && keys_distinct(self.base_mtime@)
    }

    /// The last epoch applied for `subdir`, `u32::MAX` when none has been.
    pub open spec fn epoch_of(&self, subdir: Seq<char>) -> u32 {
        match lookup(self.last_epoch@, subdir) {
            Some(e) => e,
            None => u32::MAX,
        }
    }

    /// The recorded base-epoch mtime of `subdir`, in microseconds; `None` when
    /// none is recorded or the recorded time predates the Unix epoch.
    pub open spec fn stored_base_of(&self, subdir: Seq<char>) -> Option<u64> {
        match lookup(self.base_mtime@, subdir) {
            Some(m) => m,
            None => None,
        }
    }

    /// Whether the base epoch, observed at `current`, differs from the recorded
    /// mtime; `None` when the base epoch is absent or its mtime unreadable.
    /// Compared at microsecond precision: persisted state is in microseconds.
    pub open spec fn spec_base_diff(&self, subdir: Seq<char>, current: Option<Option<(u64, u32)>>) -> Option<bool> {
        match current {
            None => None,
            Some(t) => Some(self.stored_base_of(subdir) != spec_mtime_us(t)),
        }
    }

    /// A fresh state: nothing applied.
    pub fn new() -> (r: Self)
        ensures
            r.alive_mtime is None,
            r.last_epoch@.len() == 0,
            r.index_dir is None,
            r.alive_ids@.len() == 0,
            r.base_mtime@.len() == 0,
            forall|s: Seq<char>| #[trigger] r.epoch_of(s) == u32::MAX && r.stored_base_of(s) is None,
            r.wf(),
    {
        IngestState {
            alive_mtime: None,
            last_epoch: Vec::new(),
            index_dir: None,
            alive_ids: Vec::new(),
            base_mtime: Vec::new(),
        }
    }

    /// The last epoch applied for `subdir`, or `u32::MAX` when none has been.
    pub fn last_epoch_for(&self, subdir: &'static str) -> (r: u32)
        ensures
            r == self.epoch_of(subdir@),
    {
        let mut i: usize = 0;
        let ghost es = self.last_epoch@;
        assert(es.subrange(0, es.len() as int) =~= es);
        while i < self.last_epoch.len()
            invariant
                i <= es.len(),
                es == self.last_epoch@,
                lookup(es, subdir@) == lookup(es.subrange(i as int, es.len() as int), subdir@),
            decreases es.len() - i,
        {
            let ghost rest = es.subrange(i as int, es.len() as int);
            assert(rest[0] == es[i as int]);
            assert(rest.drop_first() =~= es.subrange(i + 1, es.len() as int));
            if str_eq(self.last_epoch[i].0, subdir) {
                return self.last_epoch[i].1;
            }
            i += 1;
        }
        u32::MAX
    }

    /// Record `epoch` as the last one applied for `subdir`.
    pub fn set_epoch(&mut self, subdir: &'static str, epoch: u32)
        ensures
            final(self).epoch_of(subdir@) == epoch,
            forall|s: Seq<char>| s != subdir@ ==> #[trigger] final(self).epoch_of(s) == old(self).epoch_of(s),
            final(self).alive_mtime == old(self).alive_mtime,
            final(self).index_dir == old(self).index_dir,
            final(self).alive_ids@ == old(self).alive_ids@,
            final(self).base_mtime@ == old(self).base_mtime@,
            old(self).wf() ==> final(self).wf(),
    {
        set_entry(&mut self.last_epoch, subdir, epoch);
    }

    /// Whether the base epoch, observed at `current`, differs from the recorded
    /// mtime. `current` is `None` when the base epoch is absent or its mtime is
    /// unreadable, and then there is nothing to compare.
    fn base_mtime_diff(&self, subdir: &'static str, current: Option<Option<(u64, u32)>>) -> (r: Option<bool>)
        ensures
            r == self.spec_base_diff(subdir@, current),
    {
        match current {
            None => None,
            Some(t) => {
                let stored = lookup_entry(&self.base_mtime, subdir);
                let stored = match stored {
                    Some(m) => m,
                    None => None,
                };
                let now = mtime_us(t);
                let same = match (stored, now) {
                    (None, None) => true,
                    (Some(a), Some(b)) => a == b,
                    _ => false,
                };
                Some(!same)
            },
        }
    }

    /// Read-only form of [`Self::base_rewritten`]: whether the base epoch
    /// differs from the recorded mtime, without recording anything.
    pub fn base_differs(&self, subdir: &'static str, current: Option<Option<(u64, u32)>>) -> (r: bool)
        ensures
            r == (self.spec_base_diff(subdir@, current) == Some(true)),
    {
        match self.base_mtime_diff(subdir, current) {
            Some(d) => d,
            None => false,
        }
    }

    /// Whether the base epoch of `subdir` was rewritten since the last apply,
    /// recording the new mtime when it was.
    ///
    /// `false` when the base epoch is absent, its mtime unreadable, or the mtime
    /// unchanged. On the first call for a subdirectory nothing is recorded, so
    /// this is `true`, which is harmless: every caller already reloads in full on
    /// its first pass.
    pub fn base_rewritten(&mut self, subdir: &'static str, current: Option<Option<(u64, u32)>>) -> (r: bool)
        ensures
            r == (old(self).spec_base_diff(subdir@, current) == Some(true)),
            r ==> final(self).stored_base_of(subdir@) == spec_mtime_us(current->0),
            !r ==> final(self).stored_base_of(subdir@) == old(self).stored_base_of(subdir@),
            forall|s: Seq<char>| s != subdir@ ==> #[trigger] final(self).stored_base_of(s) == old(self).stored_base_of(s),
            forall|s: Seq<char>| #[trigger] final(self).epoch_of(s) == old(self).epoch_of(s),
            final(self).alive_mtime == old(self).alive_mtime,
            final(self).index_dir == old(self).index_dir,
            final(self).alive_ids@ == old(self).alive_ids@,
            old(self).wf() ==> final(self).wf(),
    {
        let differs = match self.base_mtime_diff(subdir, current) {
            Some(d) => d,
            None => return false,
        };
        if differs {
            let t = match current {
                Some(t) => t,
                None => None,
            };
            let now = mtime_us(t);
            set_entry(&mut self.base_mtime, subdir, now);
        }
        differs
    }

    /// Whether `subdir` must be reloaded in full rather than by delta, given the
    /// max epoch number currently on disk; `force` is the caller's override.
    ///
    /// Full reload when forced, on the first pass, after a compaction reset the
    /// numbering, or when the base epoch was rewritten in place. Records the base
    /// mtime even when the answer is already known, so a later delta is not a
    /// full reload for want of a recorded mtime.
    pub fn needs_full_reload(
        &mut self,
        subdir: &'static str,
        current: Option<Option<(u64, u32)>>,
        curr_max: u32,
        force: bool,
    ) -> (r: bool)
        ensures
            r == (force || old(self).epoch_of(subdir@) == u32::MAX || curr_max < old(self).epoch_of(subdir@)
                || old(self).spec_base_diff(subdir@, current) == Some(true)),
            old(self).spec_base_diff(subdir@, current) == Some(true)
                ==> final(self).stored_base_of(subdir@) == spec_mtime_us(current->0),
            old(self).spec_base_diff(subdir@, current) != Some(true)
                ==> final(self).stored_base_of(subdir@) == old(self).stored_base_of(subdir@),
            forall|s: Seq<char>| s != subdir@ ==> #[trigger] final(self).stored_base_of(s) == old(self).stored_base_of(s),
            forall|s: Seq<char>| #[trigger] final(self).epoch_of(s) == old(self).epoch_of(s),
            old(self).wf() ==> final(self).wf(),
    {
        let rewritten = self.base_rewritten(subdir, current);
        let last = self.last_epoch_for(subdir);
        force || last == u32::MAX || curr_max < last || rewritten
    }
}

/// Store `value` under `key`: replace the first entry with that key, or append
/// one when there is none.
fn set_entry<V: Copy>(entries: &mut Vec<(&'static str, V)>, key: &'static str, value: V)
    ensures
        lookup(final(entries)@, key@) == Some(value),
        forall|s: Seq<char>| s != key@ ==> #[trigger] lookup(final(entries)@, s) == lookup(old(entries)@, s),
        keys_distinct(old(entries)@) ==> keys_distinct(final(entries)@),
{
    let ghost es = entries@;
    let mut i: usize = 0;
    while i < entries.len()
        invariant
            i <= es.len(),
            es == entries@,
            es == old(entries)@,
            forall|k: int| 0 <= k < i ==> (#[trigger] es[k]).0@ != key@,
        decreases es.len() - i,
    {
        if str_eq(entries[i].0, key) {
            let ghost gi = i as int;
            entries.set(i, (key, value));
            proof {
                lemma_lookup_set(es, gi, key, value);
                if keys_distinct(es) {
                    assert forall|x: int, y: int| 0 <= x < y < entries@.len() implies entries@[x].0@ != entries@[y].0@ by {
                        assert(entries@[x].0@ == es[x].0@);
                        assert(entries@[y].0@ == es[y].0@);
                    }
                }
            }
            return;
        }
        i += 1;
    }
    entries.push((key, value));
    proof {
        lemma_lookup_push(es, key, value);
        if keys_distinct(es) {
            assert forall|x: int, y: int| 0 <= x < y < entries@.len() implies entries@[x].0@ != entries@[y].0@ by {
                if y == es.len() {
                    assert(entries@[x] == es[x]);
                } else {
                    assert(entries@[x] == es[x] && entries@[y] == es[y]);
                }
            }
        }
    }
}

/// Replacing the first entry under `key` changes what `key` reads and nothing
/// else.
proof fn lemma_lookup_set<V>(es: Seq<(&'static str, V)>, i: int, key: &'static str, value: V)
    requires
        0 <= i < es.len(),
        es[i].0@ == key@,
        forall|k: int| 0 <= k < i ==> (#[trigger] es[k]).0@ != key@,
    ensures
        lookup(es.update(i, (key, value)), key@) == Some(value),
        forall|s: Seq<char>| s != key@ ==> #[trigger] lookup(es.update(i, (key, value)), s) == lookup(es, s),
    decreases es.len(),
{
    let nes = es.update(i, (key, value));
    if i == 0 {
        assert(nes[0] == (key, value));
        assert(nes.drop_first() =~= es.drop_first());
        assert forall|s: Seq<char>| s != key@ implies #[trigger] lookup(nes, s) == lookup(es, s) by {
            assert(lookup(nes, s) == lookup(nes.drop_first(), s));
            assert(lookup(es, s) == lookup(es.drop_first(), s));
        }
    } else {
        assert(nes[0] == es[0]);
        assert(nes.drop_first() =~= es.drop_first().update(i - 1, (key, value)));
        assert forall|k: int| 0 <= k < i - 1 implies (#[trigger] es.drop_first()[k]).0@ != key@ by {
            assert(es.drop_first()[k] == es[k + 1]);
        }
        lemma_lookup_set(es.drop_first(), i - 1, key, value);
        assert forall|s: Seq<char>| s != key@ implies #[trigger] lookup(nes, s) == lookup(es, s) by {
            if es[0].0@ != s {
                assert(lookup(nes, s) == lookup(nes.drop_first(), s));
                assert(lookup(es, s) == lookup(es.drop_first(), s));
            }
        }
    }
}

/// Appending an entry for a key that is not there yet.
proof fn lemma_lookup_push<V>(es: Seq<(&'static str, V)>, key: &'static str, value: V)
    requires
        forall|k: int| 0 <= k < es.len() ==> (#[trigger] es[k]).0@ != key@,
    ensures
        lookup(es.push((key, value)), key@) == Some(value),
        forall|s: Seq<char>| s != key@ ==> #[trigger] lookup(es.push((key, value)), s) == lookup(es, s),
    decreases es.len(),
{
    let nes = es.push((key, value));
    if es.len() == 0 {
        assert(nes[0] == (key, value));
        assert(nes.drop_first() =~= Seq::<(&'static str, V)>::empty());
        assert forall|s: Seq<char>| s != key@ implies #[trigger] lookup(nes, s) == lookup(es, s) by {
            assert(lookup(nes, s) == lookup(nes.drop_first(), s));
        }
    } else {
        assert(nes[0] == es[0]);
        assert(nes.drop_first() =~= es.drop_first().push((key, value)));
        assert forall|k: int| 0 <= k < es.len() - 1 implies (#[trigger] es.drop_first()[k]).0@ != key@ by {
            assert(es.drop_first()[k] == es[k + 1]);
        }
        lemma_lookup_push(es.drop_first(), key, value);
        assert forall|s: Seq<char>| s != key@ implies #[trigger] lookup(nes, s) == lookup(es, s) by {
            if es[0].0@ != s {
                assert(lookup(nes, s) == lookup(nes.drop_first(), s));
                assert(lookup(es, s) == lookup(es.drop_first(), s));
            }
        }
    }
}

} // verus!
