//! JSON text as `serde_json` reads it, and what the library takes from it:
//! the trimmed model payload and a package's var map.
//!
//! Three outside parses are named: the members of an object, the value of a
//! string, and whether a text is JSON at all. A member's value is kept as its
//! compact JSON text, so a nested object is read by parsing that text again.

use vstd::prelude::*;
use vstd::string::StringSliceAdditionalSpecFns;
use vstd::utf8::{decode_utf8, encode_utf8_decode_utf8};
use crate::json_field::{extract_json_field_raw, json_field};
use crate::text::{owned, str_eq};

verus! {

/// The members of the JSON object `text`, in the order `serde_json`'s map
/// keeps them, each value as its compact JSON text; `None` when `text` is not
/// a JSON object.
pub uninterp spec fn json_object_members(text: Seq<char>) -> Option<Seq<(Seq<char>, Seq<char>)>>;

/// The string the JSON text `text` denotes, `None` when it is not a JSON
/// string.
pub uninterp spec fn json_string_value(text: Seq<char>) -> Option<Seq<char>>;

/// Whether `text` is one JSON value.
pub uninterp spec fn json_is_value(text: Seq<char>) -> bool;

/// Pairs of strings as values.
pub open spec fn pair_texts(v: Seq<(String, String)>) -> Seq<(Seq<char>, Seq<char>)> {
    Seq::new(v.len(), |i: int| (v[i].0@, v[i].1@))
}

/// `serde_json::from_str` into a `serde_json::Map`, each value then written
/// back with `to_string`: the object's members with their compact JSON text,
/// or `None` when the text is not a JSON object. What the members are is left
/// to the name [`json_object_members`].
#[verifier::external_body]
pub(crate) fn parse_object_members(text: &str) -> (r: Option<Vec<(String, String)>>)
    ensures
        r is Some <==> json_object_members(text@) is Some,
        r matches Some(v) ==> pair_texts(v@) == json_object_members(text@)->0,
{
    let map: serde_json::Map<String, serde_json::Value> = serde_json::from_str(text).ok()?;
    Some(map.into_iter().map(|(k, v)| (k, v.to_string())).collect())
}

/// `serde_json::from_str` into a `String`: the string a JSON string literal
/// denotes, `None` for any other text. The value is left to the name
/// [`json_string_value`].
#[verifier::external_body]
pub(crate) fn parse_json_string(text: &str) -> (r: Option<String>)
    ensures
        r is Some <==> json_string_value(text@) is Some,
        r matches Some(s) ==> s@ == json_string_value(text@)->0,
{
    serde_json::from_str::<String>(text).ok()
}

/// `serde_json::from_str` into a `serde_json::Value`: whether the text
/// parses. Which texts do is left to the name [`json_is_value`].
#[verifier::external_body]
pub(crate) fn parses_as_json(text: &str) -> (r: bool)
    ensures
        r == json_is_value(text@),
{
    serde_json::from_str::<serde_json::Value>(text).is_ok()
}

/// JSON whitespace: space, line feed, tab and carriage return.
pub open spec fn is_json_ws(c: char) -> bool {
    c == ' ' || c == '\n' || c == '\t' || c == '\r'
}

/// `t` without the JSON whitespace at either end.
pub open spec fn trim_json_ws(t: Seq<char>) -> Seq<char>
    decreases t.len(),
{
    if t.len() > 0 && is_json_ws(t[0]) {
        trim_json_ws(t.drop_first())
    } else if t.len() > 0 && is_json_ws(t.last()) {
        trim_json_ws(t.drop_last())
    } else {
        t
    }
}

/// The boolean the JSON text `text` denotes: `true` or `false` with nothing
/// but JSON whitespace around it; `None` for any other text.
pub open spec fn json_bool_value(text: Seq<char>) -> Option<bool> {
    let t = trim_json_ws(text);
    if t == "true"@ {
        Some(true)
    } else if t == "false"@ {
        Some(false)
    } else {
        None
    }
}

/// The items of the JSON array `text`, each as its compact JSON text, in
/// order; `None` when `text` is not a JSON array.
pub uninterp spec fn json_array_items(text: Seq<char>) -> Option<Seq<Seq<char>>>;

/// A lowercase hexadecimal digit.
pub open spec fn hex_digit(n: int) -> char {
    if n < 10 {
        (('0' as int) + n) as char
    } else {
        (('a' as int) + n - 10) as char
    }
}

/// How a JSON string writes the character `c`: a quote and a backslash
/// escaped with a backslash; backspace, form feed, line feed, carriage return
/// and tab by their short escapes; any other control character below 0x20
/// as `\u00` and two lowercase hexadecimal digits; every other character as
/// itself.
pub open spec fn json_char_escape(c: char) -> Seq<char> {
    let n = c as int;
    if c == '"' {
        seq!['\\', '"']
    } else if c == '\\' {
        seq!['\\', '\\']
    } else if n == 8 {
        seq!['\\', 'b']
    } else if n == 12 {
        seq!['\\', 'f']
    } else if c == '\n' {
        seq!['\\', 'n']
    } else if c == '\r' {
        seq!['\\', 'r']
    } else if c == '\t' {
        seq!['\\', 't']
    } else if n < 32 {
        seq!['\\', 'u', '0', '0', hex_digit(n / 16), hex_digit(n % 16)]
    } else {
        seq![c]
    }
}

/// The characters of `s`, each written as a JSON string writes it.
pub open spec fn json_escaped(s: Seq<char>) -> Seq<char>
    decreases s.len(),
{
    if s.len() == 0 {
        Seq::empty()
    } else {
        json_escaped(s.drop_last()) + json_char_escape(s.last())
    }
}

/// The JSON text of the string `s`, as `serde_json` writes it: `s` escaped,
/// between double quotes.
pub open spec fn json_string_text(s: Seq<char>) -> Seq<char> {
    seq!['"'] + json_escaped(s) + seq!['"']
}

/// `serde_json::from_str` into a `bool`: `true` or `false` between JSON
/// whitespace, `None` for any other text ([`json_bool_value`]).
#[verifier::external_body]
pub(crate) fn parse_json_bool(text: &str) -> (r: Option<bool>)
    ensures
        r == json_bool_value(text@),
{
    serde_json::from_str::<bool>(text).ok()
}

/// `serde_json::from_str` into a `Vec<serde_json::Value>`, each item then
/// written back with `to_string`: the items of a JSON array, `None` for any
/// other text. What the items are is left to the name [`json_array_items`].
#[verifier::external_body]
pub(crate) fn parse_array_items(text: &str) -> (r: Option<Vec<String>>)
    ensures
        r is Some <==> json_array_items(text@) is Some,
        r matches Some(v) ==> crate::text::string_views(v@) == json_array_items(text@)->0,
{
    let items: Vec<serde_json::Value> = serde_json::from_str(text).ok()?;
    Some(items.into_iter().map(|v| v.to_string()).collect())
}

/// `serde_json::Value::String(s).to_string()`: the JSON text of the string
/// `s`, quoted and escaped by `serde_json`'s escape table
/// ([`json_string_text`]).
#[verifier::external_body]
pub(crate) fn quote_json_string(s: &str) -> (r: String)
    ensures
        r@ == json_string_text(s@),
{
    serde_json::Value::String(s.to_string()).to_string()
}

/// The value of member `key` of a member list: the last one of that key.
pub open spec fn member_value(ms: Seq<(Seq<char>, Seq<char>)>, key: Seq<char>) -> Option<Seq<char>>
    decreases ms.len(),
{
    if ms.len() == 0 {
        None
    } else if ms.last().0 == key {
        Some(ms.last().1)
    } else {
        member_value(ms.drop_last(), key)
    }
}

/// A member list without the members of key `key`.
pub open spec fn without_key(ms: Seq<(Seq<char>, Seq<char>)>, key: Seq<char>) -> Seq<(Seq<char>, Seq<char>)>
    decreases ms.len(),
{
    if ms.len() == 0 {
        Seq::empty()
    } else if ms.last().0 == key {
        without_key(ms.drop_last(), key)
    } else {
        without_key(ms.drop_last(), key).push(ms.last())
    }
}

/// The bytes of the top-level field `key` of the JSON text `b`, as
/// [`extract_json_field_raw`] finds it.
pub open spec fn field_bytes(b: Seq<u8>, key: Seq<u8>) -> Option<Seq<u8>> {
    match json_field(b, key) {
        Some((from, to)) => Some(b.subrange(from, to)),
        None => None,
    }
}

/// The payload key of a model's config.
pub const CONFIG_KEY: &'static str = "config";

/// The payload key of a model's own attributes.
pub const MODEL_ATTR_KEY: &'static str = "__model_attr__";

/// The payload key of the attributes every node has.
pub const COMMON_ATTR_KEY: &'static str = "__common_attr__";

/// The member of the common attributes the trim drops.
pub const RAW_CODE_KEY: &'static str = "raw_code";

/// Only the parts of a model's payload the row builders read.
#[derive(Debug)]
pub struct TrimmedPayload<'a> {
    /// The raw JSON text of `config`; only some builders parse it.
    pub config: Option<&'a str>,
    /// The raw JSON text of `__model_attr__`, kept whole when it parses.
    pub model_attr: Option<&'a str>,
    /// The members of `__common_attr__` but `raw_code`, each value as compact
    /// JSON text, when that field is an object.
    pub common_attr: Option<Vec<(String, String)>>,
}

/// What the trim keeps of the payload text `t`, as values.
pub open spec fn trimmed_model(t: Seq<char>) -> (
    Option<Seq<u8>>,
    Option<Seq<u8>>,
    Option<Seq<(Seq<char>, Seq<char>)>>,
) {
    let b = vstd::utf8::encode_utf8(t);
    let model_attr = match field_bytes(b, MODEL_ATTR_KEY.spec_bytes()) {
        Some(fb) => if json_is_value(decode_utf8(fb)) {
            Some(fb)
        } else {
            None
        },
        None => None,
    };
    let common = match field_bytes(b, COMMON_ATTR_KEY.spec_bytes()) {
        Some(fb) => match json_object_members(decode_utf8(fb)) {
            Some(ms) => Some(without_key(ms, RAW_CODE_KEY@)),
            None => None,
        },
        None => None,
    };
    (field_bytes(b, CONFIG_KEY.spec_bytes()), model_attr, common)
}

/// A slice's bytes, when there is one.
pub open spec fn opt_bytes(s: Option<&str>) -> Option<Seq<u8>> {
    match s {
        Some(x) => Some(x.spec_bytes()),
        None => None,
    }
}

/// Whether `r` is what the trim keeps of the payload text `raw`: nothing of
/// an absent payload, and otherwise exactly [`trimmed_model`].
pub open spec fn is_trim_of(raw: Option<&str>, r: TrimmedPayload) -> bool {
    match raw {
        None => r.config is None && r.model_attr is None && r.common_attr is None,
        Some(t) => {
            let (config, model_attr, common) = trimmed_model(t@);
            &&& opt_bytes(r.config) == config
            &&& opt_bytes(r.model_attr) == model_attr
            &&& match r.common_attr {
                Some(v) => common == Some(pair_texts(v@)),
                None => common is None,
            }
        },
    }
}

fn drop_key(ms: Vec<(String, String)>, key: &str) -> (r: Vec<(String, String)>)
    ensures
        pair_texts(r@) == without_key(pair_texts(ms@), key@),
{
    let mut out: Vec<(String, String)> = Vec::new();
    let mut i: usize = 0;
    let ghost pv = pair_texts(ms@);
    while i < ms.len()
        invariant
            pv == pair_texts(ms@),
            i <= ms@.len(),
            pair_texts(out@) == without_key(pv.subrange(0, i as int), key@),
        decreases ms@.len() - i,
    {
        assert(pv.subrange(0, i + 1).drop_last() =~= pv.subrange(0, i as int));
        assert(pv.subrange(0, i + 1).last() == pv[i as int]);
        if !str_eq(ms[i].0.as_str(), key) {
            let ghost before = pair_texts(out@);
            out.push((owned(ms[i].0.as_str()), owned(ms[i].1.as_str())));
            assert(pair_texts(out@) =~= before.push(pv[i as int]));
        }
        i += 1;
    }
    assert(pv.subrange(0, ms@.len() as int) =~= pv);
    out
}

/// Only the parts of a model's payload the row builders read: `config` as
/// raw JSON text, since only some builders parse it; `__model_attr__` whole,
/// when it parses, so a builder that starts reading a new attribute finds
/// it; and `__common_attr__` without `raw_code`, the blob the trim is for,
/// when it is an object. A field that is absent or does not parse is left
/// out.
pub fn trim_model_payload<'a>(raw: Option<&'a str>) -> (r: TrimmedPayload<'a>)
    ensures
        is_trim_of(raw, r),
{
    broadcast use encode_utf8_decode_utf8;

    let t = match raw {
        Some(t) => t,
        None => return TrimmedPayload { config: None, model_attr: None, common_attr: None },
    };
    let config = extract_json_field_raw(t, CONFIG_KEY);
    let model_attr = match extract_json_field_raw(t, MODEL_ATTR_KEY) {
        Some(ma) => if parses_as_json(ma) {
            Some(ma)
        } else {
            None
        },
        None => None,
    };
    let common_attr = match extract_json_field_raw(t, COMMON_ATTR_KEY) {
        Some(c) => match parse_object_members(c) {
            Some(ms) => Some(drop_key(ms, RAW_CODE_KEY)),
            None => None,
        },
        None => None,
    };
    TrimmedPayload { config, model_attr, common_attr }
}

} // verus!
