//! Reading one top-level member of a JSON object as raw text, without parsing
//! the rest.
//!
//! The scanner walks the object's own members rather than searching the text
//! for `"key":`. A text search finds whichever occurrence comes first, which
//! for a model with documented columns is a column's nested `"config":` and not
//! the node's.
//!
//! Everything here is over the UTF-8 bytes of the text: member names and
//! delimiters are ASCII, so no multi-byte character is ever split by a
//! position this scanner stops at.

use vstd::prelude::*;
use vstd::string::StringSliceAdditionalSpecFns;
use vstd::utf8::{
    encode_utf8_valid_utf8, is_char_boundary, is_char_boundary_iff_not_is_continuation_byte,
    is_char_boundary_start_end_of_seq, valid_utf8, valid_utf8_split,
};

verus! {

/// JSON whitespace: space, newline, carriage return, tab.
pub open spec fn is_ws(c: u8) -> bool {
    c == 32 || c == 10 || c == 13 || c == 9
}

/// A byte that ends a bare scalar (number, boolean, null).
pub open spec fn is_scalar_delim(c: u8) -> bool {
    c == 44 || c == 125 || c == 93 || is_ws(c)
}

/// The first position at or after `i` that is not whitespace (or the end).
pub open spec fn skip_ws(b: Seq<u8>, i: int) -> int
    decreases b.len() - i,
{
    if 0 <= i < b.len() && is_ws(b[i]) {
        skip_ws(b, i + 1)
    } else {
        i
    }
}

/// The end of a string whose body starts at `i`: just past the closing quote,
/// a backslash skipping the byte after it.
pub open spec fn string_end(b: Seq<u8>, i: int) -> Option<int>
    decreases b.len() - i,
{
    if i < 0 || i >= b.len() {
        None
    } else if b[i] == 92 {
        if i + 2 <= b.len() { string_end(b, i + 2) } else { None }
    } else if b[i] == 34 {
        Some(i + 1)
    } else {
        string_end(b, i + 1)
    }
}

/// The position of the first scalar delimiter at or after `i`.
pub open spec fn scalar_end(b: Seq<u8>, i: int) -> Option<int>
    decreases b.len() - i,
{
    if i < 0 || i >= b.len() {
        None
    } else if is_scalar_delim(b[i]) {
        Some(i)
    } else {
        scalar_end(b, i + 1)
    }
}

/// Just past the `close` that brings the nesting depth back to zero, scanning
/// from `i` at depth `depth`, inside a string or not; brackets inside strings
/// do not count, and a backslash inside a string skips the byte after it.
pub open spec fn matching(b: Seq<u8>, i: int, depth: int, in_string: bool, open: u8, close: u8) -> Option<int>
    decreases b.len() - i,
{
    if i < 0 || i >= b.len() {
        None
    } else if b[i] == 92 && in_string {
        if i + 2 <= b.len() { matching(b, i + 2, depth, in_string, open, close) } else { None }
    } else if b[i] == 34 {
        matching(b, i + 1, depth, !in_string, open, close)
    } else if !in_string && b[i] == open {
        matching(b, i + 1, depth + 1, in_string, open, close)
    } else if !in_string && b[i] == close {
        if depth - 1 == 0 { Some(i + 1) } else { matching(b, i + 1, depth - 1, in_string, open, close) }
    } else {
        matching(b, i + 1, depth, in_string, open, close)
    }
}

/// The end of the JSON value starting at `start`: an object or array to its
/// matching bracket, a string past its closing quote, anything else up to the
/// next delimiter.
pub open spec fn value_end(b: Seq<u8>, start: int) -> Option<int> {
    if start < 0 || start >= b.len() {
        None
    } else if b[start] == 123 {
        matching(b, start, 0, false, 123, 125)
    } else if b[start] == 91 {
        matching(b, start, 0, false, 91, 93)
    } else if b[start] == 34 {
        string_end(b, start + 1)
    } else {
        scalar_end(b, start)
    }
}

/// The byte range of the value of member `key`, scanning an object's members
/// from `i`; `None` when the object ends, is malformed, or a member name or the
/// value found does not lie on character boundaries.
pub open spec fn member_scan(b: Seq<u8>, key: Seq<u8>, i: int) -> Option<(int, int)>
    decreases b.len() + 1 - i,
{
    let j = skip_ws(b, i);
    if i < 0 || i > b.len() || j < i || j >= b.len() {
        None
    } else if b[j] == 125 {
        None
    } else if b[j] == 44 {
        member_scan(b, key, j + 1)
    } else if b[j] != 34 {
        None
    } else {
        match value_end(b, j) {
            None => None,
            Some(ne) => if !(j + 2 <= ne <= b.len() && is_char_boundary(b, j + 1) && is_char_boundary(b, ne - 1)) {
                None
            } else {
                let k = skip_ws(b, ne);
                if k >= b.len() || b[k] != 58 {
                    None
                } else {
                    let v = skip_ws(b, k + 1);
                    match value_end(b, v) {
                        None => None,
                        Some(ve) => if b.subrange(j + 1, ne - 1) == key {
                            if is_char_boundary(b, v) && is_char_boundary(b, ve) { Some((v, ve)) } else { None }
                        } else if i < ve <= b.len() {
                            member_scan(b, key, ve)
                        } else {
                            None
                        },
                    }
                }
            },
        }
    }
}

/// The byte range of the top-level member `key` of the object `b`, if `b` is
/// an object that has it.
pub open spec fn json_field(b: Seq<u8>, key: Seq<u8>) -> Option<(int, int)> {
    let i = skip_ws(b, 0);
    if i < b.len() && b[i] == 123 {
        member_scan(b, key, i + 1)
    } else {
        None
    }
}

proof fn lemma_skip_ws_bounds(b: Seq<u8>, i: int)
    requires
        0 <= i <= b.len(),
    ensures
        i <= skip_ws(b, i) <= b.len(),
        skip_ws(b, i) < b.len() ==> !is_ws(b[skip_ws(b, i)]),
    decreases b.len() - i,
{
    if i < b.len() && is_ws(b[i]) {
        lemma_skip_ws_bounds(b, i + 1);
    }
}

proof fn lemma_string_end_bounds(b: Seq<u8>, i: int)
    requires
        0 <= i,
    ensures
        string_end(b, i) matches Some(e) ==> i < e <= b.len(),
    decreases b.len() - i,
{
    if 0 <= i < b.len() {
        if b[i] == 92 {
            if i + 2 <= b.len() {
                lemma_string_end_bounds(b, i + 2);
            }
        } else if b[i] != 34 {
            lemma_string_end_bounds(b, i + 1);
        }
    }
}

proof fn lemma_scalar_end_bounds(b: Seq<u8>, i: int)
    requires
        0 <= i,
    ensures
        scalar_end(b, i) matches Some(e) ==> i <= e < b.len(),
    decreases b.len() - i,
{
    if 0 <= i < b.len() && !is_scalar_delim(b[i]) {
        lemma_scalar_end_bounds(b, i + 1);
    }
}

proof fn lemma_matching_bounds(b: Seq<u8>, i: int, depth: int, in_string: bool, open: u8, close: u8)
    requires
        0 <= i,
    ensures
        matching(b, i, depth, in_string, open, close) matches Some(e) ==> i < e <= b.len(),
    decreases b.len() - i,
{
    if 0 <= i < b.len() {
        if b[i] == 92 && in_string {
            if i + 2 <= b.len() {
                lemma_matching_bounds(b, i + 2, depth, in_string, open, close);
            }
        } else if b[i] == 34 {
            lemma_matching_bounds(b, i + 1, depth, !in_string, open, close);
        } else if !in_string && b[i] == open {
            lemma_matching_bounds(b, i + 1, depth + 1, in_string, open, close);
        } else if !in_string && b[i] == close {
            if depth - 1 != 0 {
                lemma_matching_bounds(b, i + 1, depth - 1, in_string, open, close);
            }
        } else {
            lemma_matching_bounds(b, i + 1, depth, in_string, open, close);
        }
    }
}

/// A value ends within the text, and a string or bracketed value ends after
/// its first byte.
proof fn lemma_value_end_bounds(b: Seq<u8>, start: int)
    requires
        0 <= start,
    ensures
        value_end(b, start) matches Some(e) ==> start <= e <= b.len(),
        value_end(b, start) matches Some(e) ==> (b[start] == 34 ==> start + 2 <= e),
{
    if 0 <= start < b.len() {
        if b[start] == 123 {
            lemma_matching_bounds(b, start, 0, false, 123, 125);
        } else if b[start] == 91 {
            lemma_matching_bounds(b, start, 0, false, 91, 93);
        } else if b[start] == 34 {
            lemma_string_end_bounds(b, start + 1);
        } else {
            lemma_scalar_end_bounds(b, start);
        }
    }
}

fn skip_ws_at(b: &[u8], i: usize) -> (r: usize)
    requires
        i <= b@.len(),
    ensures
        r == skip_ws(b@, i as int),
{
    let mut j = i;
    while j < b.len() && (b[j] == 32 || b[j] == 10 || b[j] == 13 || b[j] == 9)
        invariant
            i <= j <= b@.len(),
            skip_ws(b@, i as int) == skip_ws(b@, j as int),
        decreases b@.len() - j,
    {
        j += 1;
    }
    j
}

fn string_end_at(b: &[u8], start: usize) -> (r: Option<usize>)
    requires
        start <= b@.len(),
    ensures
        r matches Some(e) ==> string_end(b@, start as int) == Some(e as int),
        r is None ==> string_end(b@, start as int) is None,
{
    let mut i = start;
    while i < b.len()
        invariant
            start <= i <= b@.len() + 1,
            string_end(b@, start as int) == string_end(b@, i as int),
        decreases b@.len() + 1 - i,
    {
        if b[i] == 92 {
            if b.len() - i < 2 {
                return None;
            }
            i += 2;
        } else if b[i] == 34 {
            return Some(i + 1);
        } else {
            i += 1;
        }
    }
    None
}

fn scalar_end_at(b: &[u8], start: usize) -> (r: Option<usize>)
    requires
        start <= b@.len(),
    ensures
        r matches Some(e) ==> scalar_end(b@, start as int) == Some(e as int),
        r is None ==> scalar_end(b@, start as int) is None,
{
    let mut i = start;
    while i < b.len()
        invariant
            start <= i <= b@.len(),
            scalar_end(b@, start as int) == scalar_end(b@, i as int),
        decreases b@.len() - i,
    {
        let c = b[i];
        if c == 44 || c == 125 || c == 93 || c == 32 || c == 10 || c == 13 || c == 9 {
            return Some(i);
        }
        i += 1;
    }
    None
}

/// Just past the bracket that closes the one opening at `start`.
fn find_matching(b: &[u8], start: usize, open: u8, close: u8) -> (r: Option<usize>)
    requires
        start < b@.len(),
        b@[start as int] == open,
        open != 92,
        open != 34,
        close != 34,
        close != 92,
        open != close,
    ensures
        r matches Some(e) ==> matching(b@, start as int, 0, false, open, close) == Some(e as int),
        r is None ==> matching(b@, start as int, 0, false, open, close) is None,
{
    let mut depth: usize = 0;
    let mut i = start;
    let mut in_string = false;
    while i < b.len()
        invariant
            start <= i <= b@.len() + 1,
            b@[start as int] == open,
            open != 92 && open != 34 && close != 34 && close != 92 && open != close,
            i == start ==> depth == 0 && !in_string,
            i > start ==> depth >= 1,
            depth <= i - start,
            matching(b@, start as int, 0, false, open, close) == matching(b@, i as int, depth as int, in_string, open, close),
        decreases b@.len() + 1 - i,
    {
        let c = b[i];
        if c == 92 && in_string {
            if b.len() - i < 2 {
                return None;
            }
            i += 2;
        } else if c == 34 {
            in_string = !in_string;
            i += 1;
        } else if !in_string && c == open {
            depth += 1;
            i += 1;
        } else if !in_string && c == close {
            if depth == 1 {
                return Some(i + 1);
            }
            depth -= 1;
            i += 1;
        } else {
            i += 1;
        }
    }
    None
}

/// The end offset of the JSON value starting at `start`.
fn find_json_value_end(b: &[u8], start: usize) -> (r: Option<usize>)
    requires
        start <= b@.len(),
    ensures
        r matches Some(e) ==> value_end(b@, start as int) == Some(e as int),
        r is None ==> value_end(b@, start as int) is None,
{
    if start >= b.len() {
        return None;
    }
    let c = b[start];
    if c == 123 {
        find_matching(b, start, 123, 125)
    } else if c == 91 {
        find_matching(b, start, 91, 93)
    } else if c == 34 {
        string_end_at(b, start + 1)
    } else {
        scalar_end_at(b, start)
    }
}

/// Whether `b[from..to]` is exactly `key`.
fn range_eq(b: &[u8], from: usize, to: usize, key: &[u8]) -> (r: bool)
    requires
        from <= to <= b@.len(),
    ensures
        r == (b@.subrange(from as int, to as int) == key@),
{
    if to - from != key.len() {
        assert(b@.subrange(from as int, to as int).len() != key@.len());
        return false;
    }
    let mut k: usize = 0;
    while k < key.len()
        invariant
            from <= to <= b@.len(),
            to - from == key@.len(),
            k <= key@.len(),
            forall|m: int| 0 <= m < k ==> b@[from + m] == key@[m],
        decreases key@.len() - k,
    {
        if b[from + k] != key[k] {
            assert(b@.subrange(from as int, to as int)[k as int] != key@[k as int]);
            return false;
        }
        k += 1;
    }
    assert(b@.subrange(from as int, to as int) =~= key@);
    true
}

/// A boundary of a string that lies at or after another boundary `start` is a
/// boundary of the rest of the string from `start` on.
proof fn lemma_boundary_in_rest(b: Seq<u8>, start: int, end: int)
    requires
        valid_utf8(b),
        0 <= start <= end <= b.len(),
        is_char_boundary(b, start),
        is_char_boundary(b, end),
    ensures
        is_char_boundary(b.subrange(start, b.len() as int), end - start),
{
    let t = b.subrange(start, b.len() as int);
    valid_utf8_split(b, start);
    is_char_boundary_start_end_of_seq(t);
    if 0 < end - start < t.len() {
        is_char_boundary_iff_not_is_continuation_byte(b, end);
        is_char_boundary_iff_not_is_continuation_byte(t, end - start);
        assert(t[end - start] == b[end]);
    }
}

/// `str::get` over a byte range: the subslice when both ends lie on character
/// boundaries within the string, and `None` whenever indexing by that range
/// would panic.
fn str_get<'a>(s: &'a str, start: usize, end: usize) -> (r: Option<&'a str>)
    ensures
        r is Some <==> (start <= end && end <= s.spec_bytes().len() && is_char_boundary(s.spec_bytes(), start as int)
            && is_char_boundary(s.spec_bytes(), end as int)),
        r is Some ==> r->0.spec_bytes() == s.spec_bytes().subrange(start as int, end as int),
{
    if start <= end && end <= s.as_bytes().len() && s.is_char_boundary(start) && s.is_char_boundary(end) {
        proof {
            encode_utf8_valid_utf8(s@);
            lemma_boundary_in_rest(s.spec_bytes(), start as int, end as int);
        }
        let (_, rest) = s.split_at(start);
        let (mid, _) = rest.split_at(end - start);
        assert(mid.spec_bytes() =~= s.spec_bytes().subrange(start as int, end as int));
        Some(mid)
    } else {
        None
    }
}

/// The raw text of the top-level field `key` of the JSON object `json`, or
/// `None` if `json` is not an object or has no such field.
pub fn extract_json_field_raw<'a>(json: &'a str, key: &str) -> (r: Option<&'a str>)
    ensures
        match json_field(json.spec_bytes(), key.spec_bytes()) {
            Some((from, to)) => r is Some && r->0.spec_bytes() == json.spec_bytes().subrange(from, to),
            None => r is None,
        },
{
    let b = json.as_bytes();
    let kb = key.as_bytes();
    let ghost bs = b@;
    let mut i = skip_ws_at(b, 0);
    proof { lemma_skip_ws_bounds(bs, 0); }
    if i >= b.len() || b[i] != 123 {
        return None;
    }
    i += 1;
    loop
        invariant
            bs == b@,
            bs == json.spec_bytes(),
            kb@ == key.spec_bytes(),
            1 <= i <= bs.len(),
            json_field(bs, kb@) == member_scan(bs, kb@, i as int),
        decreases bs.len() + 1 - i,
    {
        let j = skip_ws_at(b, i);
        proof { lemma_skip_ws_bounds(bs, i as int); }
        if j >= b.len() {
            return None;
        }
        let c = b[j];
        if c == 125 {
            return None;
        }
        if c == 44 {
            i = j + 1;
            continue;
        }
        if c != 34 {
            return None;
        }
        let name_end = match find_json_value_end(b, j) {
            Some(e) => e,
            None => return None,
        };
        proof { lemma_value_end_bounds(bs, j as int); }
        if !(json.is_char_boundary(j + 1) && json.is_char_boundary(name_end - 1)) {
            return None;
        }
        let k = skip_ws_at(b, name_end);
        proof { lemma_skip_ws_bounds(bs, name_end as int); }
        if k >= b.len() || b[k] != 58 {
            return None;
        }
        let v = skip_ws_at(b, k + 1);
        proof { lemma_skip_ws_bounds(bs, k + 1); }
        let value_end = match find_json_value_end(b, v) {
            Some(e) => e,
            None => return None,
        };
        proof { lemma_value_end_bounds(bs, v as int); }
        if range_eq(b, j + 1, name_end - 1, kb) {
            return str_get(json, v, value_end);
        }
        i = value_end;
    }
}

} // verus!
