//! Stage attribution for the metadata to information schema conversion.
//!
//! Deciding whether the conversion can be on by default needs cost attributed
//! to stages, not just a total: the read, the payload parse, the row build and
//! the write have very different fixes.
//!
//! # Stages are disjoint
//!
//! A timed region attributes to its stage the time spent in it minus whatever
//! other stages recorded inside it, and a region nested inside its own stage
//! records nothing. So stages never overlap: their sum is a lower bound on the
//! conversion's wall time and the remainder is uninstrumented work.
//!
//! This module is the accounting, as a value: the accumulators of every stage
//! and which stages have a region open. Durations are nanoseconds.

use vstd::prelude::*;

verus! {

/// One attributable stage of the conversion.
#[derive(Debug, Clone, Copy, PartialEq, Eq, Structural)]
pub enum Stage {
    /// Globbing and reading epoch parquet.
    EpochRead,
    /// Parsing the node payload JSON.
    PayloadParse,
    /// The ingest itself, exclusive of the read, parse and write inside it.
    RowBuild,
    /// Serialising the staging parquet.
    StagingWrite,
    /// Projecting staging tables into the information schema shape.
    Projection,
    /// `COPY` of each public table from the epoch-view layer.
    Copy,
    /// Generating `views.sql`.
    ViewsSql,
}

/// The number of stages.
pub const STAGES: usize = 7;

/// The position of a stage among all of them.
pub open spec fn stage_index(s: Stage) -> int {
    match s {
        Stage::EpochRead => 0,
        Stage::PayloadParse => 1,
        Stage::RowBuild => 2,
        Stage::StagingWrite => 3,
        Stage::Projection => 4,
        Stage::Copy => 5,
        Stage::ViewsSql => 6,
    }
}

/// Every stage, in report order.
pub open spec fn all_stages() -> Seq<Stage> {
    seq![
        Stage::EpochRead,
        Stage::PayloadParse,
        Stage::RowBuild,
        Stage::StagingWrite,
        Stage::Projection,
        Stage::Copy,
        Stage::ViewsSql,
    ]
}

/// A stage's name in a report.
pub open spec fn stage_label(s: Stage) -> Seq<char> {
    match s {
        Stage::EpochRead => "epoch_read"@,
        Stage::PayloadParse => "payload_parse"@,
        Stage::RowBuild => "row_build"@,
        Stage::StagingWrite => "staging_write"@,
        Stage::Projection => "projection"@,
        Stage::Copy => "copy"@,
        Stage::ViewsSql => "views_sql"@,
    }
}

impl Stage {
    /// Every stage, in report order.
    pub fn all() -> (r: Vec<Stage>)
        ensures
            r@ == all_stages(),
    {
        vec![
            Stage::EpochRead,
            Stage::PayloadParse,
            Stage::RowBuild,
            Stage::StagingWrite,
            Stage::Projection,
            Stage::Copy,
            Stage::ViewsSql,
        ]
    }

    /// The stage's name in a report.
    pub fn label(self) -> (r: &'static str)
        ensures
            r@ == stage_label(self),
    {
        match self {
            Stage::EpochRead => "epoch_read",
            Stage::PayloadParse => "payload_parse",
            Stage::RowBuild => "row_build",
            Stage::StagingWrite => "staging_write",
            Stage::Projection => "projection",
            Stage::Copy => "copy",
            Stage::ViewsSql => "views_sql",
        }
    }

    /// The stage's position among all of them.
    pub fn index(self) -> (r: usize)
        ensures
            r == stage_index(self),
            r < STAGES,
    {
        match self {
            Stage::EpochRead => 0,
            Stage::PayloadParse => 1,
            Stage::RowBuild => 2,
            Stage::StagingWrite => 3,
            Stage::Projection => 4,
            Stage::Copy => 5,
            Stage::ViewsSql => 6,
        }
    }
}

/// `x` cut to 64 bits, as a cast does.
pub open spec fn low64(x: int) -> int {
    x % 0x1_0000_0000_0000_0000int
}

/// The accumulators of every stage, and which stages have a region open.
#[derive(Debug)]
pub struct Timings {
    /// Nanoseconds per stage, in stage order. Additions wrap, as the
    /// process-wide atomic counters they stand for do.
    pub nanos: Vec<u64>,
    /// Calls per stage, in stage order.
    pub calls: Vec<u64>,
    /// Whether a region of each stage is open.
    pub open: Vec<bool>,
}

/// The sum of `xs`, leaving out position `skip`.
pub open spec fn sum_except(xs: Seq<u64>, skip: int) -> int
    decreases xs.len(),
{
    if xs.len() == 0 {
        0
    } else {
        sum_except(xs.drop_last(), skip) + if xs.len() - 1 == skip { 0 } else { xs.last() as int }
    }
}

impl Timings {
    /// One accumulator and one open flag per stage.
    pub open spec fn wf(&self) -> bool {
        self.nanos@.len() == STAGES && self.calls@.len() == STAGES && self.open@.len() == STAGES
    }

    /// Time recorded against every stage but `stage`, in nanoseconds.
    pub open spec fn spec_attributed_except(&self, stage: Stage) -> int {
        sum_except(self.nanos@, stage_index(stage))
    }

    /// Time recorded against every stage, in nanoseconds.
    pub open spec fn spec_total(&self) -> int {
        sum_except(self.nanos@, -1)
    }

    /// Nothing recorded and no region open.
    pub fn new() -> (r: Self)
        ensures
            r.wf(),
            forall|i: int| 0 <= i < STAGES ==> r.nanos@[i] == 0 && r.calls@[i] == 0 && !r.open@[i],
    {
        Timings { nanos: vec![0, 0, 0, 0, 0, 0, 0], calls: vec![0, 0, 0, 0, 0, 0, 0], open: vec![false, false, false, false, false, false, false] }
    }

    /// Add an elapsed duration, in nanoseconds, to a stage, and count the call.
    /// The duration is cut to 64 bits and the additions wrap.
    pub fn record(&mut self, stage: Stage, elapsed: u128)
        requires
            old(self).wf(),
        ensures
            final(self).wf(),
            final(self).nanos@ == old(self).nanos@.update(stage_index(stage),
                low64(old(self).nanos@[stage_index(stage)] + low64(elapsed as int)) as u64),
            final(self).calls@ == old(self).calls@.update(stage_index(stage),
                low64(old(self).calls@[stage_index(stage)] + 1) as u64),
            final(self).open@ == old(self).open@,
    {
        let i = stage.index();
        let e = elapsed as u64;
        assert(e == elapsed % 0x1_0000_0000_0000_0000) by (bit_vector)
            requires
                e == elapsed as u64,
        ;
        let n = self.nanos[i].wrapping_add(e);
        self.nanos.set(i, n);
        let c = self.calls[i].wrapping_add(1);
        self.calls.set(i, c);
    }

    /// Time recorded against every stage but `stage`, in nanoseconds.
    pub fn attributed_except(&self, stage: Stage) -> (r: u128)
        requires
            self.wf(),
        ensures
            r == self.spec_attributed_except(stage),
    {
        let skip = stage.index();
        let mut sum: u128 = 0;
        let mut i: usize = 0;
        while i < STAGES
            invariant
                self.wf(),
                skip == stage_index(stage),
                i <= STAGES,
                sum == sum_except(self.nanos@.subrange(0, i as int), skip as int),
                sum <= i * 0xffff_ffff_ffff_ffff,
            decreases STAGES - i,
        {
            assert(self.nanos@.subrange(0, i + 1).drop_last() =~= self.nanos@.subrange(0, i as int));
            if i != skip {
                sum = sum + self.nanos[i] as u128;
            }
            i += 1;
        }
        assert(self.nanos@.subrange(0, STAGES as int) =~= self.nanos@);
        sum
    }

    /// Open a region of `stage`. `None` when one is already open: the region
    /// nested in it is timed by the outer one and records nothing. Otherwise
    /// the region is marked open and the result is the time recorded against
    /// every other stage so far, which [`Timings::exit`] subtracts.
    pub fn enter(&mut self, stage: Stage) -> (r: Option<u128>)
        requires
            old(self).wf(),
        ensures
            final(self).wf(),
            final(self).nanos@ == old(self).nanos@,
            final(self).calls@ == old(self).calls@,
            old(self).open@[stage_index(stage)] ==> r is None && final(self).open@ == old(self).open@,
            !old(self).open@[stage_index(stage)] ==> r == Some(old(self).spec_attributed_except(stage) as u128)
                && final(self).open@ == old(self).open@.update(stage_index(stage), true),
    {
        let i = stage.index();
        if self.open[i] {
            return None;
        }
        self.open.set(i, true);
        Some(self.attributed_except(stage))
    }

    /// Close a region of `stage` opened when `before` was recorded against the
    /// other stages, `elapsed` nanoseconds ago: the stage is charged the elapsed
    /// time minus what the other stages recorded meanwhile, neither going below
    /// zero.
    pub fn exit(&mut self, stage: Stage, before: u128, elapsed: u128)
        requires
            old(self).wf(),
        ensures
            final(self).wf(),
            ({
                let nested = if old(self).spec_attributed_except(stage) >= before {
                    old(self).spec_attributed_except(stage) - before
                } else {
                    0
                };
                let charged = if elapsed >= nested { elapsed - nested } else { 0 };
                &&& final(self).nanos@ == old(self).nanos@.update(stage_index(stage),
                    low64(old(self).nanos@[stage_index(stage)] + low64(charged)) as u64)
                &&& final(self).calls@ == old(self).calls@.update(stage_index(stage),
                    low64(old(self).calls@[stage_index(stage)] + 1) as u64)
            }),
            final(self).open@ == old(self).open@.update(stage_index(stage), false),
    {
        let nested = self.attributed_except(stage).saturating_sub(before);
        self.record(stage, elapsed.saturating_sub(nested));
        let i = stage.index();
        self.open.set(i, false);
    }

    /// Close a region of `stage` without charging it, as when the timed work
    /// failed: the rest of the run is not mis-attributed to a region left open.
    pub fn close(&mut self, stage: Stage)
        requires
            old(self).wf(),
        ensures
            final(self).wf(),
            final(self).nanos@ == old(self).nanos@,
            final(self).calls@ == old(self).calls@,
            final(self).open@ == old(self).open@.update(stage_index(stage), false),
    {
        let i = stage.index();
        self.open.set(i, false);
    }

    /// Total time and call count attributed to a stage so far.
    pub fn read(&self, stage: Stage) -> (r: (u64, u64))
        requires
            self.wf(),
        ensures
            r == (self.nanos@[stage_index(stage)], self.calls@[stage_index(stage)]),
    {
        let i = stage.index();
        (self.nanos[i], self.calls[i])
    }

    /// Zero every accumulator. Open regions stay open.
    pub fn reset(&mut self)
        requires
            old(self).wf(),
        ensures
            final(self).wf(),
            forall|i: int| 0 <= i < STAGES ==> final(self).nanos@[i] == 0 && final(self).calls@[i] == 0,
            final(self).open@ == old(self).open@,
    {
        self.nanos = vec![0, 0, 0, 0, 0, 0, 0];
        self.calls = vec![0, 0, 0, 0, 0, 0, 0];
    }

    /// Every stage with its time and calls, in report order.
    pub fn snapshot(&self) -> (r: Vec<(Stage, u64, u64)>)
        requires
            self.wf(),
        ensures
            r@.len() == STAGES,
            forall|i: int| 0 <= i < STAGES ==> #[trigger] r@[i] == (all_stages()[i], self.nanos@[i], self.calls@[i]),
    {
        let stages = Stage::all();
        let mut out: Vec<(Stage, u64, u64)> = Vec::new();
        let mut i: usize = 0;
        while i < stages.len()
            invariant
                self.wf(),
                stages@ == all_stages(),
                i <= STAGES,
                out@.len() == i,
                forall|k: int| 0 <= k < i ==> #[trigger] out@[k] == (all_stages()[k], self.nanos@[k], self.calls@[k]),
            decreases STAGES - i,
        {
            let s = stages[i];
            assert(stage_index(s) == i as int);
            let (d, c) = self.read(s);
            out.push((s, d, c));
            i += 1;
        }
        out
    }

    /// Sum of every stage, in nanoseconds. Stages are disjoint, so this is a
    /// lower bound on the conversion's wall time and the difference is
    /// uninstrumented work.
    pub fn total(&self) -> (r: u128)
        requires
            self.wf(),
        ensures
            r == self.spec_total(),
    {
        let mut sum: u128 = 0;
        let mut i: usize = 0;
        while i < STAGES
            invariant
                self.wf(),
                i <= STAGES,
                sum == sum_except(self.nanos@.subrange(0, i as int), -1),
                sum <= i * 0xffff_ffff_ffff_ffff,
            decreases STAGES - i,
        {
            assert(self.nanos@.subrange(0, i + 1).drop_last() =~= self.nanos@.subrange(0, i as int));
            sum = sum + self.nanos[i] as u128;
            i += 1;
        }
        assert(self.nanos@.subrange(0, STAGES as int) =~= self.nanos@);
        sum
    }
}

/// Recording against one stage leaves what every other stage reads alone, and
/// raises what the others read for a stage by exactly what was recorded, when
/// nothing wraps. This is what lets a region subtract the nested stages.
pub proof fn recording_moves_only_its_stage(xs: Seq<u64>, i: int, v: u64, skip: int)
    requires
        0 <= i < xs.len(),
    ensures
        sum_except(xs.update(i, v), skip) == sum_except(xs, skip) + if i == skip { 0 } else { v - xs[i] },
    decreases xs.len(),
{
    let ys = xs.update(i, v);
    if i < xs.len() - 1 {
        assert(ys.drop_last() =~= xs.drop_last().update(i, v));
        recording_moves_only_its_stage(xs.drop_last(), i, v, skip);
    } else {
        assert(ys.drop_last() =~= xs.drop_last());
    }
}


/// Stages are disjoint: while a region of stage `a` is open, time recorded
/// against another stage `b` raises what the others read for `a` by exactly
/// that time, so closing the region subtracts it from `a`'s charge (when no
/// counter wraps).
pub proof fn nested_stages_are_subtracted(nanos: Seq<u64>, a: Stage, b: Stage, x: u64)
    requires
        nanos.len() == STAGES,
        a != b,
        nanos[stage_index(b)] + x <= u64::MAX,
    ensures
        sum_except(nanos.update(stage_index(b), (nanos[stage_index(b)] + x) as u64), stage_index(a))
            == sum_except(nanos, stage_index(a)) + x,
{
    recording_moves_only_its_stage(nanos, stage_index(b), (nanos[stage_index(b)] + x) as u64, stage_index(a));
}

} // verus!
