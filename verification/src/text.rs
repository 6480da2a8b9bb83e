//! Text helpers shared by the SQL generators: comparison, quoting and joining
//! over the character sequences that `str` and `String` view as.

use vstd::prelude::*;

verus! {

/// `s` with every `"` doubled, which is how SQL escapes a double quote inside a
/// quoted identifier.
pub open spec fn double_quotes(s: Seq<char>) -> Seq<char>
    decreases s.len(),
{
    if s.len() == 0 {
        Seq::empty()
    } else if s.last() == '"' {
        double_quotes(s.drop_last()) + seq!['"', '"']
    } else {
        double_quotes(s.drop_last()).push(s.last())
    }
}

/// `s` as a double-quoted SQL identifier.
pub open spec fn quoted(s: Seq<char>) -> Seq<char> {
    seq!['"'] + double_quotes(s) + seq!['"']
}

/// `s` with every `'` doubled, the escape for a single quote inside a SQL
/// string literal.
pub open spec fn double_single_quotes(s: Seq<char>) -> Seq<char>
    decreases s.len(),
{
    if s.len() == 0 {
        Seq::empty()
    } else if s.last() == '\'' {
        double_single_quotes(s.drop_last()) + seq!['\'', '\'']
    } else {
        double_single_quotes(s.drop_last()).push(s.last())
    }
}

/// The parts, in order, with `sep` between neighbours.
pub open spec fn join_seq(parts: Seq<Seq<char>>, sep: Seq<char>) -> Seq<char>
    decreases parts.len(),
{
    if parts.len() == 0 {
        Seq::empty()
    } else if parts.len() == 1 {
        parts[0]
    } else {
        join_seq(parts.drop_last(), sep) + sep + parts.last()
    }
}

/// The character views of a vector of strings.
pub open spec fn string_views(v: Seq<String>) -> Seq<Seq<char>> {
    Seq::new(v.len(), |i: int| v[i]@)
}

/// The character views of a sequence of string slices.
pub open spec fn str_views(v: Seq<&str>) -> Seq<Seq<char>> {
    Seq::new(v.len(), |i: int| v[i]@)
}

/// Whether `s` occurs as a whole element of `v`.
pub open spec fn contains_str(v: Seq<&str>, s: Seq<char>) -> bool {
    exists|i: int| 0 <= i < v.len() && v[i]@ == s
}

/// Character-wise equality of two string slices.
pub fn str_eq(a: &str, b: &str) -> (r: bool)
    ensures
        r == (a@ == b@),
{
    let n = a.unicode_len();
    let m = b.unicode_len();
    if n != m {
        return false;
    }
    let mut i: usize = 0;
    while i < n
        invariant
            n == a@.len(),
            m == b@.len(),
            n == m,
            i <= n,
            forall|j: int| 0 <= j < i ==> a@[j] == b@[j],
        decreases n - i,
    {
        if a.get_char(i) != b.get_char(i) {
            return false;
        }
        i += 1;
    }
    assert(a@ =~= b@);
    true
}

/// Whether `s` is one of the elements of `v`.
pub fn slice_contains(v: &[&str], s: &str) -> (r: bool)
    ensures
        r == contains_str(v@, s@),
{
    let mut i: usize = 0;
    while i < v.len()
        invariant
            i <= v@.len(),
            forall|j: int| 0 <= j < i ==> v@[j]@ != s@,
        decreases v@.len() - i,
    {
        if str_eq(v[i], s) {
            return true;
        }
        i += 1;
    }
    false
}

/// Whether `s` is one of the elements of `v`.
pub fn vec_contains(v: &Vec<&str>, s: &str) -> (r: bool)
    ensures
        r == contains_str(v@, s@),
{
    slice_contains(v.as_slice(), s)
}

/// A fresh `String` holding `s`.
pub fn owned(s: &str) -> (r: String)
    ensures
        r@ == s@,
{
    String::from_str(s)
}

/// `a` followed by `b`.
pub fn cat(a: &str, b: &str) -> (r: String)
    ensures
        r@ == a@ + b@,
{
    let mut r = String::from_str(a);
    r.append(b);
    r
}

/// `s` as a double-quoted SQL identifier, doubling any `"` inside it.
pub fn quote(s: &str) -> (r: String)
    ensures
        r@ == quoted(s@),
{
    proof {
        reveal_strlit("\"");
        reveal_strlit("\"\"");
    }
    let n = s.unicode_len();
    let mut body = String::new();
    let mut i: usize = 0;
    while i < n
        invariant
            n == s@.len(),
            i <= n,
            body@ == double_quotes(s@.subrange(0, i as int)),
        decreases n - i,
    {
        let ch = s.get_char(i);
        proof {
            assert(s@.subrange(0, i + 1).drop_last() =~= s@.subrange(0, i as int));
            assert(s@.subrange(0, i + 1).last() == ch);
        }
        let ghost prev = body@;
        if ch == '"' {
            proof { reveal_strlit("\"\""); }
            assert("\"\""@ =~= seq!['"', '"']);
            body.append("\"\"");
        } else {
            let one = s.substring_char(i, i + 1);
            assert(one@ =~= seq![ch]);
            body.append(one);
            assert(body@ =~= prev.push(ch));
        }
        i += 1;
    }
    assert(s@.subrange(0, n as int) =~= s@);
    assert("\""@ =~= seq!['"']);
    let mut r = String::from_str("\"");
    r.append(body.as_str());
    r.append("\"");
    r
}

/// `s` with every `'` doubled, for splicing into a SQL string literal.
pub fn escape_single_quotes(s: &str) -> (r: String)
    ensures
        r@ == double_single_quotes(s@),
{
    proof {
        reveal_strlit("''");
    }
    let n = s.unicode_len();
    let mut body = String::new();
    let mut i: usize = 0;
    while i < n
        invariant
            n == s@.len(),
            i <= n,
            body@ == double_single_quotes(s@.subrange(0, i as int)),
        decreases n - i,
    {
        let ch = s.get_char(i);
        proof {
            assert(s@.subrange(0, i + 1).drop_last() =~= s@.subrange(0, i as int));
            assert(s@.subrange(0, i + 1).last() == ch);
        }
        let ghost prev = body@;
        if ch == '\'' {
            proof { reveal_strlit("''"); }
            assert("''"@ =~= seq!['\'', '\'']);
            body.append("''");
        } else {
            let one = s.substring_char(i, i + 1);
            assert(one@ =~= seq![ch]);
            body.append(one);
            assert(body@ =~= prev.push(ch));
        }
        i += 1;
    }
    assert(s@.subrange(0, n as int) =~= s@);
    body
}

/// The strings in order with `sep` between neighbours.
pub fn join(parts: &Vec<String>, sep: &str) -> (r: String)
    ensures
        r@ == join_seq(string_views(parts@), sep@),
{
    let mut r = String::new();
    let mut i: usize = 0;
    while i < parts.len()
        invariant
            i <= parts@.len(),
            r@ == join_seq(string_views(parts@.subrange(0, i as int)), sep@),
        decreases parts@.len() - i,
    {
        let ghost before = string_views(parts@.subrange(0, i as int));
        let ghost after = string_views(parts@.subrange(0, i + 1));
        assert(after.drop_last() =~= before);
        assert(after.last() == parts@[i as int]@);
        if i != 0 {
            r.append(sep);
        }
        r.append(parts[i].as_str());
        i += 1;
    }
    assert(parts@.subrange(0, parts@.len() as int) =~= parts@);
    r
}

/// The string slices in order with `sep` between neighbours.
pub fn join_strs(parts: &[&str], sep: &str) -> (r: String)
    ensures
        r@ == join_seq(str_views(parts@), sep@),
{
    let mut r = String::new();
    let mut i: usize = 0;
    while i < parts.len()
        invariant
            i <= parts@.len(),
            r@ == join_seq(str_views(parts@.subrange(0, i as int)), sep@),
        decreases parts@.len() - i,
    {
        let ghost before = str_views(parts@.subrange(0, i as int));
        let ghost after = str_views(parts@.subrange(0, i + 1));
        assert(after.drop_last() =~= before);
        assert(after.last() == parts@[i as int]@);
        if i != 0 {
            r.append(sep);
        }
        r.append(parts[i]);
        i += 1;
    }
    assert(parts@.subrange(0, parts@.len() as int) =~= parts@);
    r
}

/// Each string slice wrapped in single quotes, as a SQL literal list body.
pub open spec fn sql_literals(parts: Seq<&str>) -> Seq<Seq<char>> {
    Seq::new(parts.len(), |i: int| seq!['\''] + parts[i]@ + seq!['\''])
}

/// `'a', 'b', ...` for the given values, spliced verbatim.
pub fn literal_list(parts: &[&str]) -> (r: String)
    ensures
        r@ == join_seq(sql_literals(parts@), ", "@),
{
    proof {
        reveal_strlit("'");
    }
    let mut items: Vec<String> = Vec::new();
    let mut i: usize = 0;
    while i < parts.len()
        invariant
            i <= parts@.len(),
            items@.len() == i,
            forall|j: int| 0 <= j < i ==> #[trigger] items@[j]@ == sql_literals(parts@)[j],
        decreases parts@.len() - i,
    {
        proof { reveal_strlit("'"); }
        assert("'"@ =~= seq!['\'']);
        let mut s = String::from_str("'");
        s.append(parts[i]);
        s.append("'");
        assert(s@ =~= sql_literals(parts@)[i as int]);
        items.push(s);
        i += 1;
    }
    assert(string_views(items@) =~= sql_literals(parts@));
    join(&items, ", ")
}

/// The value of the first entry of `entries` whose key is `key`.
pub open spec fn lookup<V>(entries: Seq<(&'static str, V)>, key: Seq<char>) -> Option<V>
    decreases entries.len(),
{
    if entries.len() == 0 {
        None
    } else if entries[0].0@ == key {
        Some(entries[0].1)
    } else {
        lookup(entries.drop_first(), key)
    }
}

/// The value stored under `key`, first entry first.
pub fn lookup_entry<V: Copy>(entries: &Vec<(&'static str, V)>, key: &str) -> (r: Option<V>)
    ensures
        r == lookup(entries@, key@),
{
    let mut i: usize = 0;
    let ghost es = entries@;
    assert(es.subrange(0, es.len() as int) =~= es);
    while i < entries.len()
        invariant
            i <= es.len(),
            es == entries@,
            lookup(es, key@) == lookup(es.subrange(i as int, es.len() as int), key@),
        decreases es.len() - i,
    {
        let ghost rest = es.subrange(i as int, es.len() as int);
        assert(rest[0] == es[i as int]);
        assert(rest.drop_first() =~= es.subrange(i + 1, es.len() as int));
        if str_eq(entries[i].0, key) {
            return Some(entries[i].1);
        }
        i += 1;
    }
    None
}

/// The decimal digit `d`.
pub open spec fn digit_text(d: nat) -> Seq<char> {
    if d == 0 { "0"@ } else if d == 1 { "1"@ } else if d == 2 { "2"@ } else if d == 3 { "3"@ }
    else if d == 4 { "4"@ } else if d == 5 { "5"@ } else if d == 6 { "6"@ } else if d == 7 { "7"@ }
    else if d == 8 { "8"@ } else { "9"@ }
}

/// `n` in decimal, without leading zeros.
pub open spec fn decimal(n: nat) -> Seq<char>
    decreases n,
{
    if n < 10 {
        digit_text(n)
    } else {
        decimal(n / 10) + digit_text(n % 10)
    }
}

fn digit(d: u32) -> (r: &'static str)
    requires
        d < 10,
    ensures
        r@ == digit_text(d as nat),
{
    if d == 0 { "0" } else if d == 1 { "1" } else if d == 2 { "2" } else if d == 3 { "3" }
    else if d == 4 { "4" } else if d == 5 { "5" } else if d == 6 { "6" } else if d == 7 { "7" }
    else if d == 8 { "8" } else { "9" }
}

/// `n` in decimal, as `to_string` writes it.
pub fn decimal_string(n: u32) -> (r: String)
    ensures
        r@ == decimal(n as nat),
    decreases n,
{
    if n < 10 {
        owned(digit(n))
    } else {
        let mut s = decimal_string(n / 10);
        s.append(digit(n % 10));
        s
    }
}

/// `n` in decimal, as `to_string` writes it.
pub fn decimal_usize(n: usize) -> (r: String)
    ensures
        r@ == decimal(n as nat),
    decreases n,
{
    if n < 10 {
        owned(digit(n as u32))
    } else {
        let mut s = decimal_usize(n / 10);
        s.append(digit((n % 10) as u32));
        s
    }
}

/// `n` in decimal, as `to_string` writes it.
pub fn decimal_u64(n: u64) -> (r: String)
    ensures
        r@ == decimal(n as nat),
    decreases n,
{
    if n < 10 {
        owned(digit(n as u32))
    } else {
        let mut s = decimal_u64(n / 10);
        s.append(digit((n % 10) as u32));
        s
    }
}

/// A signed integer in decimal, with a leading `-` when negative.
pub open spec fn signed_decimal(n: int) -> Seq<char> {
    if n < 0 {
        "-"@ + decimal((-n) as nat)
    } else {
        decimal(n as nat)
    }
}

/// `n` in decimal, as `to_string` writes it.
pub fn decimal_i64(n: i64) -> (r: String)
    ensures
        r@ == signed_decimal(n as int),
{
    if n < 0 {
        let m: u64 = if n == i64::MIN {
            9223372036854775808u64
        } else {
            (-n) as u64
        };
        let mut s = owned("-");
        s.append(decimal_u64(m).as_str());
        s
    } else {
        decimal_u64(n as u64)
    }
}

/// A copy of a list of strings.
pub fn copy_strings(v: &Vec<String>) -> (r: Vec<String>)
    ensures
        string_views(r@) == string_views(v@),
{
    let mut out: Vec<String> = Vec::new();
    let mut i: usize = 0;
    while i < v.len()
        invariant
            i <= v@.len(),
            string_views(out@) == string_views(v@).subrange(0, i as int),
        decreases v@.len() - i,
    {
        let ghost before = string_views(out@);
        out.push(owned(v[i].as_str()));
        assert(string_views(out@) =~= before.push(string_views(v@)[i as int]));
        assert(string_views(v@).subrange(0, i + 1) =~= string_views(v@).subrange(0, i as int).push(string_views(v@)[i as int]));
        i += 1;
    }
    assert(string_views(v@).subrange(0, v@.len() as int) =~= string_views(v@));
    out
}

} // verus!
