//! The nested trace of macro executions captured while rendering, and its
//! human-readable dump, produced when a materialization fails.
//!
//! Adjacent executions of the same macro, from the same call site and at the
//! same depth, are collapsed into one line with a repeat count; the same macro
//! called from two places stays two lines.

use vstd::prelude::*;
use crate::text::{decimal, decimal_string, decimal_usize, owned, str_eq};

verus! {

/// The first line of every dump.
pub const TRACE_HEADER: &'static str = "Jinja macro call stack (most recent call last):\n\n";

/// Where internal packages are installed.
pub const INTERNAL_PACKAGES: &'static str = "dbt_internal_packages/";

/// The macro directory inside a package.
pub const MACROS_DIR: &'static str = "/macros/";

/// The first position at or after `i` where `pat` occurs in `s`.
pub open spec fn find_from(s: Seq<char>, pat: Seq<char>, i: int) -> Option<int>
    decreases s.len() + 1 - i,
{
    if i < 0 || i + pat.len() > s.len() {
        None
    } else if s.subrange(i, i + pat.len()) == pat {
        Some(i)
    } else {
        find_from(s, pat, i + 1)
    }
}

/// A macro path with the `dbt_internal_packages/<package>/macros/` prefix
/// removed, so internal macros read as `etc/statement.sql`; a path without it
/// is unchanged.
pub open spec fn shorten(path: Seq<char>) -> Seq<char> {
    match find_from(path, INTERNAL_PACKAGES@, 0) {
        Some(start) => match find_from(path, MACROS_DIR@, start) {
            Some(m) => path.subrange(m + MACROS_DIR@.len(), path.len() as int),
            None => path,
        },
        None => path,
    }
}

/// A location as `path:line:col`, with an empty path shown as `<unknown>`.
pub open spec fn location_text(loc: (Seq<char>, u32, u32)) -> Seq<char> {
    (if loc.0.len() == 0 { "<unknown>"@ } else { shorten(loc.0) }) + ":"@ + decimal(loc.1 as nat) + ":"@
        + decimal(loc.2 as nat)
}

/// A source location: the file, and the line and column in it.
#[derive(Debug)]
pub struct TraceLocation {
    pub file_path: String,
    pub line_no: u32,
    pub char_no: u32,
}

impl View for TraceLocation {
    type V = (Seq<char>, u32, u32);

    open spec fn view(&self) -> (Seq<char>, u32, u32) {
        (self.file_path@, self.line_no, self.char_no)
    }
}

/// One recorded macro execution, as a value.
pub struct FrameView {
    /// How many executions were open when it started.
    pub depth: nat,
    /// The macro's name.
    pub name: Seq<char>,
    /// Where it was invoked from, when known.
    pub call_site: Option<(Seq<char>, u32, u32)>,
    /// Where the macro is defined.
    pub definition: (Seq<char>, u32, u32),
}

/// One recorded macro execution.
#[derive(Debug)]
pub struct TraceFrame {
    depth: usize,
    name: String,
    call_site: Option<TraceLocation>,
    definition: TraceLocation,
}

/// The view of an optional location.
pub open spec fn site_view(site: Option<TraceLocation>) -> Option<(Seq<char>, u32, u32)> {
    match site {
        Some(l) => Some(l@),
        None => None,
    }
}

impl TraceFrame {
    /// The frame as a value.
    pub closed spec fn frame(&self) -> FrameView {
        FrameView {
            depth: self.depth as nat,
            name: self.name@,
            call_site: site_view(self.call_site),
            definition: self.definition@,
        }
    }
}

/// Two frames are a repeat of one call: the same depth, the same macro
/// definition and the same call site.
pub open spec fn same_call(a: FrameView, b: FrameView) -> bool {
    a.depth == b.depth && a.definition == b.definition && a.call_site == b.call_site
}

/// How many frames from position `j` on repeat the call at position `i`.
pub open spec fn run_from(fs: Seq<FrameView>, i: int, j: int) -> nat
    decreases fs.len() - j,
{
    if 0 <= i < fs.len() && 0 <= j < fs.len() && same_call(fs[j], fs[i]) {
        1 + run_from(fs, i, j + 1)
    } else {
        0
    }
}

/// A run never reaches past the end, and the call at `i` starts its own run.
pub proof fn lemma_run_bounds(fs: Seq<FrameView>, i: int, j: int)
    requires
        0 <= j <= fs.len(),
    ensures
        run_from(fs, i, j) <= fs.len() - j,
        0 <= i < fs.len() && j == i ==> run_from(fs, i, j) >= 1,
    decreases fs.len() - j,
{
    if j < fs.len() {
        lemma_run_bounds(fs, i, j + 1);
    }
}

/// Two spaces per level.
pub open spec fn spaces(depth: nat) -> Seq<char>
    decreases depth,
{
    if depth == 0 {
        Seq::empty()
    } else {
        spaces((depth - 1) as nat) + "  "@
    }
}

/// The dump of one call repeated `count` times: its name, the repeat count when
/// there is more than one, its definition, its call site when known, and a
/// blank line.
pub open spec fn frame_text(f: FrameView, count: nat) -> Seq<char> {
    let indent = spaces(f.depth);
    let head = indent + f.name + (if count > 1 { " \u{d7}"@ + decimal(count) } else { Seq::empty() }) + " ("@
        + location_text(f.definition) + ")\n"@;
    let site = match f.call_site {
        Some(c) => indent + "  @ "@ + location_text(c) + "\n"@,
        None => Seq::empty(),
    };
    head + site + "\n"@
}

/// The dump of the frames from position `i` on, each run of repeats once.
pub open spec fn frames_text(fs: Seq<FrameView>, i: int) -> Seq<char>
    decreases fs.len() - i,
{
    if i < 0 || i >= fs.len() {
        Seq::empty()
    } else {
        proof {
            lemma_run_bounds(fs, i, i);
        }
        frame_text(fs[i], run_from(fs, i, i)) + frames_text(fs, i + run_from(fs, i, i))
    }
}

/// The whole dump of a trace.
pub open spec fn trace_text(fs: Seq<FrameView>) -> Seq<char> {
    TRACE_HEADER@ + frames_text(fs, 0)
}

/// The first position at or after `from` where `pat` occurs in `s`.
fn find_str(s: &str, pat: &str, from: usize) -> (r: Option<usize>)
    requires
        from <= s@.len(),
    ensures
        match r {
            Some(i) => find_from(s@, pat@, from as int) == Some(i as int) && from <= i && i + pat@.len() <= s@.len(),
            None => find_from(s@, pat@, from as int) is None,
        },
{
    let n = s.unicode_len();
    let m = pat.unicode_len();
    if m > n {
        return None;
    }
    let mut i = from;
    while i <= n - m
        invariant
            n == s@.len(),
            m == pat@.len(),
            m <= n,
            from <= i,
            find_from(s@, pat@, from as int) == find_from(s@, pat@, i as int),
        decreases n - i,
    {
        let mut k: usize = 0;
        let mut hit = true;
        while k < m
            invariant
                n == s@.len(),
                m == pat@.len(),
                i + m <= n,
                k <= m,
                hit == (forall|q: int| 0 <= q < k ==> s@[i + q] == pat@[q]),
            decreases m - k,
        {
            if s.get_char(i + k) != pat.get_char(k) {
                hit = false;
            }
            k += 1;
        }
        if hit {
            assert(s@.subrange(i as int, i + m) =~= pat@);
            return Some(i);
        }
        assert(s@.subrange(i as int, i + m) != pat@) by {
            let q = choose|q: int| 0 <= q < m && s@[i + q] != pat@[q];
            assert(s@.subrange(i as int, i + m)[q] != pat@[q]);
        }
        i += 1;
    }
    None
}

/// Strips the `dbt_internal_packages/<package>/macros/` prefix from a macro
/// path, so internal macros render as e.g. `etc/statement.sql`. Paths that do
/// not carry it are returned unchanged.
pub fn shorten_macro_path(path: &str) -> (r: &str)
    ensures
        r@ == shorten(path@),
{
    let n = path.unicode_len();
    match find_str(path, INTERNAL_PACKAGES, 0) {
        Some(start) => match find_str(path, MACROS_DIR, start) {
            Some(m) => {
                let from = m + MACROS_DIR.unicode_len();
                path.substring_char(from, n)
            },
            None => path,
        },
        None => path,
    }
}

/// A location as `path:line:col`, with an empty path shown as `<unknown>`.
pub fn location_display(loc: &TraceLocation) -> (r: String)
    ensures
        r@ == location_text(loc@),
{
    let path = loc.file_path.as_str();
    let mut out = if path.unicode_len() == 0 {
        owned("<unknown>")
    } else {
        owned(shorten_macro_path(path))
    };
    out.append(":");
    out.append(decimal_string(loc.line_no).as_str());
    out.append(":");
    out.append(decimal_string(loc.char_no).as_str());
    out
}

fn same_location(a: &TraceLocation, b: &TraceLocation) -> (r: bool)
    ensures
        r == (a@ == b@),
{
    a.line_no == b.line_no && a.char_no == b.char_no && str_eq(a.file_path.as_str(), b.file_path.as_str())
}

fn same_frame(a: &TraceFrame, b: &TraceFrame) -> (r: bool)
    ensures
        r == same_call(a.frame(), b.frame()),
{
    if a.depth != b.depth || !same_location(&a.definition, &b.definition) {
        return false;
    }
    match (&a.call_site, &b.call_site) {
        (Some(x), Some(y)) => same_location(x, y),
        (None, None) => true,
        _ => false,
    }
}

fn indent(depth: usize) -> (r: String)
    ensures
        r@ == spaces(depth as nat),
{
    let mut out = owned("");
    proof {
        reveal_strlit("");
    }
    let mut k: usize = 0;
    while k < depth
        invariant
            k <= depth,
            out@ == spaces(k as nat),
        decreases depth - k,
    {
        out.append("  ");
        k += 1;
    }
    out
}

fn frame_display(f: &TraceFrame, count: usize) -> (r: String)
    ensures
        r@ == frame_text(f.frame(), count as nat),
{
    let ind = indent(f.depth);
    let mut out = owned(ind.as_str());
    out.append(f.name.as_str());
    if count > 1 {
        out.append(" \u{d7}");
        out.append(decimal_usize(count).as_str());
    }
    out.append(" (");
    out.append(location_display(&f.definition).as_str());
    out.append(")\n");
    let ghost head = out@;
    match &f.call_site {
        Some(c) => {
            out.append(ind.as_str());
            out.append("  @ ");
            out.append(location_display(c).as_str());
            out.append("\n");
        },
        None => {},
    }
    out.append("\n");
    proof {
        let fv = f.frame();
        let ind_v = spaces(fv.depth);
        let site = match fv.call_site {
            Some(c) => ind_v + "  @ "@ + location_text(c) + "\n"@,
            None => Seq::<char>::empty(),
        };
        assert(out@ =~= head + site + "\n"@);
    }
    out
}

/// Records the nested macro executions of one render.
#[derive(Debug)]
pub struct JinjaTraceListener {
    tree: Vec<TraceFrame>,
    depth: usize,
}

impl JinjaTraceListener {
    /// The executions recorded so far, in the order they started.
    pub closed spec fn frames(&self) -> Seq<FrameView> {
        Seq::new(self.tree@.len(), |i: int| self.tree@[i].frame())
    }

    /// How many executions are open.
    pub closed spec fn open_depth(&self) -> nat {
        self.depth as nat
    }

    /// Creates a new, empty trace listener.
    pub fn new() -> (r: Self)
        ensures
            r.frames() == Seq::<FrameView>::empty(),
            r.open_depth() == 0,
    {
        let r = JinjaTraceListener { tree: Vec::new(), depth: 0 };
        assert(r.frames() =~= Seq::<FrameView>::empty());
        r
    }

    /// How many executions are open.
    pub fn depth(&self) -> (r: usize)
        ensures
            r == self.open_depth(),
    {
        self.depth
    }

    /// Returns true if no macro executions have been recorded.
    pub fn is_empty(&self) -> (r: bool)
        ensures
            r == (self.frames().len() == 0),
    {
        self.tree.len() == 0
    }

    /// A macro started executing: it is recorded at the current depth, which
    /// then grows by one.
    pub fn on_macro_execute_start(&mut self, name: &str, call_site: Option<TraceLocation>, definition: TraceLocation)
        requires
            old(self).open_depth() < usize::MAX,
        ensures
            final(self).frames() == old(self).frames().push(
                FrameView {
                    depth: old(self).open_depth(),
                    name: name@,
                    call_site: site_view(call_site),
                    definition: definition@,
                },
            ),
            final(self).open_depth() == old(self).open_depth() + 1,
    {
        let frame = TraceFrame { depth: self.depth, name: owned(name), call_site, definition };
        self.tree.push(frame);
        self.depth = self.depth + 1;
        proof {
            assert(self.frames() =~= old(self).frames().push(frame.frame()));
        }
    }

    /// A macro finished executing: the depth shrinks by one, never below zero.
    pub fn on_macro_execute_end(&mut self)
        ensures
            final(self).frames() == old(self).frames(),
            final(self).open_depth() == if old(self).open_depth() == 0 { 0 } else { (old(self).open_depth() - 1) as nat },
    {
        self.depth = self.depth.saturating_sub(1);
    }

    /// Returns the collected macro call tree as human-readable text.
    pub fn format_trace(&self) -> (r: String)
        ensures
            r@ == trace_text(self.frames()),
    {
        let ghost fs = self.frames();
        let mut out = owned(TRACE_HEADER);
        let n = self.tree.len();
        let mut i: usize = 0;
        while i < n
            invariant
                fs == self.frames(),
                n == fs.len(),
                i <= n,
                out@ + frames_text(fs, i as int) == trace_text(fs),
            decreases n - i,
        {
            let mut j: usize = i + 1;
            proof {
                assert(fs[i as int] == self.tree@[i as int].frame());
            }
            while j < n && same_frame(&self.tree[j], &self.tree[i])
                invariant
                    fs == self.frames(),
                    n == fs.len(),
                    i < j <= n,
                    run_from(fs, i as int, i as int) == (j - i) + run_from(fs, i as int, j as int),
                decreases n - j,
            {
                proof {
                    assert(fs[j as int] == self.tree@[j as int].frame());
                }
                j += 1;
            }
            proof {
                if j < n {
                    assert(fs[j as int] == self.tree@[j as int].frame());
                }
                assert(run_from(fs, i as int, j as int) == 0);
                lemma_run_bounds(fs, i as int, i as int);
            }
            let block = frame_display(&self.tree[i], j - i);
            proof {
                assert(frames_text(fs, i as int) == frame_text(fs[i as int], (j - i) as nat) + frames_text(fs, j as int));
                assert(out@ + block@ + frames_text(fs, j as int) =~= out@ + frames_text(fs, i as int));
            }
            out.append(block.as_str());
            i = j;
        }
        proof {
            assert(frames_text(fs, n as int) =~= Seq::<char>::empty());
            assert(out@ + frames_text(fs, n as int) =~= out@);
        }
        out
    }
}

} // verus!
