//! What one batch of parsed nodes contributes to `dbt.nodes` and `dbt.edges`.
//!
//! A batch is read row by row. A row needs a `unique_id`; when an alive set
//! was written the id must be in it; and when epochs are read newest first, a
//! row whose id an earlier row (of this batch or of a batch before) already
//! had is a stale copy and is skipped. A kept row of a resource type that
//! lives in `dbt.nodes` becomes a node row, its columns taken from the batch,
//! from its payload and from what compilation recorded for it; every kept row
//! contributes one `ref` edge per entry of its `depends_on`.
//!
//! A payload is JSON. A model's arrives trimmed ([`TrimmedPayload`]); any
//! other node's arrives whole, as its text, and is read member by member.

use vstd::prelude::*;
use crate::ingest::{
    alive_contains, alive_view, contains_string, in_strings, is_alive, lemma_in_strings_push, node_types_model, writes_to_nodes,
};
use crate::json_value::{
    TrimmedPayload, is_trim_of, json_array_items, json_bool_value, json_is_value, json_object_members, json_string_text,
    json_string_value, member_value, pair_texts, parse_array_items, parse_json_bool, parse_json_string,
    parse_object_members, parses_as_json, quote_json_string, trim_model_payload,
};
use crate::text::{copy_strings, contains_str, owned, str_eq, string_views};

verus! {

/// A node's payload: a model's trimmed one, or any other node's whole JSON
/// text (`None` when the row had none).
#[derive(Debug)]
pub enum NodePayload<'a> {
    Model(TrimmedPayload<'a>),
    Full(Option<String>),
}

/// One row of a parse-nodes batch: the columns the row builders read, with
/// `ingested_at` already written as an RFC 3339 timestamp, and the row's
/// payload.
#[derive(Debug)]
pub struct ParseNodeRow<'a> {
    pub unique_id: Option<String>,
    pub resource_type: Option<String>,
    pub name: Option<String>,
    pub package_name: Option<String>,
    pub original_path: Option<String>,
    pub description: Option<String>,
    pub database: Option<String>,
    pub schema: Option<String>,
    pub alias: Option<String>,
    pub relation_name: Option<String>,
    pub identifier: Option<String>,
    pub materialization: Option<String>,
    pub access: Option<String>,
    pub group_name: Option<String>,
    pub source_name: Option<String>,
    pub tags: Vec<String>,
    pub fqn: Vec<String>,
    pub depends_on: Vec<String>,
    pub ingested_at: Option<String>,
    pub is_disabled: Option<i32>,
    pub payload: NodePayload<'a>,
}

/// What compilation recorded for a node.
#[derive(Debug)]
pub struct CompileFields {
    pub compiled_code: Option<String>,
    pub compiled_code_hash: Option<String>,
    pub compiled_path: Option<String>,
    pub grain: Vec<String>,
    pub grain_declared: Vec<String>,
    pub grain_tested: Vec<String>,
    pub classifiers: Vec<String>,
    pub table_role: Option<String>,
}

/// One row of `dbt.nodes` as parse writes it.
#[derive(Debug)]
pub struct OwnedNodeRow {
    pub unique_id: String,
    pub name: String,
    pub resource_type: String,
    pub package_name: String,
    pub file_path: String,
    pub original_file_path: String,
    pub fqn: Vec<String>,
    pub alias: Option<String>,
    pub checksum: Option<String>,
    pub description: Option<String>,
    pub raw_code: Option<String>,
    pub database_name: String,
    pub schema_name: String,
    pub relation_name: Option<String>,
    pub identifier: Option<String>,
    pub enabled: Option<bool>,
    pub materialized: Option<String>,
    pub access_level: Option<String>,
    pub group_name: Option<String>,
    pub contract_enforced: bool,
    pub primary_key: Vec<String>,
    pub tags: Vec<String>,
    pub source_name: Option<String>,
    pub source_description: Option<String>,
    pub loader: Option<String>,
    pub loaded_at_field: Option<String>,
    pub patch_path: Option<String>,
    pub meta: Option<String>,
    pub config: Option<String>,
    pub deprecation_date: Option<String>,
    pub version: Option<String>,
    pub latest_version: Option<String>,
    pub node_language: Option<String>,
    pub compiled_code: Option<String>,
    pub compiled_code_hash: Option<String>,
    pub compiled_path: Option<String>,
    pub table_role: Option<String>,
    pub grain: Vec<String>,
    pub grain_declared: Vec<String>,
    pub grain_tested: Vec<String>,
    pub classifiers: Vec<String>,
    pub ingested_at: String,
}

/// One row of `dbt.edges`.
#[derive(Debug)]
pub struct EdgeRow {
    pub parent_unique_id: String,
    pub child_unique_id: String,
    pub edge_type: String,
    pub ingested_at: String,
}

/// One row of `test_metadata`: what a data test's payload says of it.
#[derive(Debug)]
pub struct TestMetaRow {
    pub unique_id: String,
    pub test_name: Option<String>,
    pub test_namespace: Option<String>,
    pub kwargs: Option<String>,
    pub column_name: Option<String>,
    pub attached_node: Option<String>,
    pub severity: Option<String>,
    pub warn_if: Option<String>,
    pub error_if: Option<String>,
    pub fail_calc: Option<String>,
    pub store_failures: Option<bool>,
    pub store_failures_as: Option<String>,
    pub ingested_at: String,
}

/// What a batch contributes.
#[derive(Debug)]
pub struct ParseNodeRows {
    pub nodes: Vec<OwnedNodeRow>,
    pub edges: Vec<EdgeRow>,
    pub test_metadata: Vec<TestMetaRow>,
}

/// An optional string as a value.
pub open spec fn sv(o: Option<String>) -> Option<Seq<char>> {
    match o {
        Some(s) => Some(s@),
        None => None,
    }
}

/// An optional slice as a value.
pub open spec fn opt_str(o: Option<&str>) -> Option<Seq<char>> {
    match o {
        Some(s) => Some(s@),
        None => None,
    }
}

/// The first of two optional values that is there.
pub open spec fn first_of(a: Option<Seq<char>>, b: Option<Seq<char>>) -> Option<Seq<char>> {
    match a {
        Some(x) => Some(x),
        None => b,
    }
}

/// A value, or the empty string.
pub open spec fn or_empty(a: Option<Seq<char>>) -> Seq<char> {
    match a {
        Some(x) => x,
        None => Seq::empty(),
    }
}

/// Member `key` of the JSON object `t`, as compact JSON text; `None` when `t`
/// is absent or not an object, or has no such member.
pub open spec fn get_member(t: Option<Seq<char>>, key: Seq<char>) -> Option<Seq<char>> {
    match t {
        Some(x) => match json_object_members(x) {
            Some(ms) => member_value(ms, key),
            None => None,
        },
        None => None,
    }
}

/// The string a JSON value holds, when it is one.
pub open spec fn as_text(v: Option<Seq<char>>) -> Option<Seq<char>> {
    match v {
        Some(x) => json_string_value(x),
        None => None,
    }
}

/// A member of the payload other than `config` and the attribute blocks; a
/// model's trimmed payload has none.
pub open spec fn plain_member(p: NodePayload, key: Seq<char>) -> Option<Seq<char>> {
    match p {
        NodePayload::Full(t) => get_member(sv(t), key),
        NodePayload::Model(_) => None,
    }
}

/// A member of the payload's `__common_attr__`.
pub open spec fn common_member(p: NodePayload, key: Seq<char>) -> Option<Seq<char>> {
    match p {
        NodePayload::Full(t) => get_member(get_member(sv(t), "__common_attr__"@), key),
        NodePayload::Model(tp) => match tp.common_attr {
            Some(v) => member_value(pair_texts(v@), key),
            None => None,
        },
    }
}

/// The payload's `__model_attr__`, as JSON text.
pub open spec fn model_attr(p: NodePayload) -> Option<Seq<char>> {
    match p {
        NodePayload::Full(t) => get_member(sv(t), "__model_attr__"@),
        NodePayload::Model(tp) => opt_str(tp.model_attr),
    }
}

/// The payload's `config` as a JSON value: a config kept as a string (a
/// model's always is) is that string parsed, when it parses.
pub open spec fn config_value(p: NodePayload) -> Option<Seq<char>> {
    match p {
        NodePayload::Full(t) => match get_member(sv(t), "config"@) {
            Some(c) => match json_string_value(c) {
                Some(s) => if json_is_value(s) { Some(s) } else { None },
                None => Some(c),
            },
            None => None,
        },
        NodePayload::Model(tp) => match tp.config {
            Some(c) => if json_is_value(c@) { Some(c@) } else { None },
            None => None,
        },
    }
}

/// The payload's `config` as the node row publishes it: its JSON text, which
/// for a model is the raw config written as a JSON string.
pub open spec fn config_text(p: NodePayload) -> Option<Seq<char>> {
    match p {
        NodePayload::Full(t) => get_member(sv(t), "config"@),
        NodePayload::Model(tp) => match tp.config {
            Some(c) => Some(json_string_text(c@)),
            None => None,
        },
    }
}

/// Whether the node's contract is enforced: `contract.enforced` read from the
/// first of `config`, `__model_attr__` and the payload itself that has a
/// `contract`; false unless that is the boolean `true`.
pub open spec fn contract_enforced_model(p: NodePayload) -> bool {
    let contract = first_of(
        get_member(config_value(p), "contract"@),
        first_of(get_member(model_attr(p), "contract"@), plain_member(p, "contract"@)),
    );
    match get_member(contract, "enforced"@) {
        Some(e) => json_bool_value(e) == Some(true),
        None => false,
    }
}

/// The strings among JSON values, in order.
pub open spec fn string_items(items: Seq<Seq<char>>) -> Seq<Seq<char>>
    decreases items.len(),
{
    if items.len() == 0 {
        Seq::empty()
    } else {
        let prev = string_items(items.drop_last());
        match json_string_value(items.last()) {
            Some(s) => prev.push(s),
            None => prev,
        }
    }
}

/// The node's primary key: the strings of `__model_attr__.primary_key`.
pub open spec fn primary_key_model(p: NodePayload) -> Seq<Seq<char>> {
    match get_member(model_attr(p), "primary_key"@) {
        Some(v) => match json_array_items(v) {
            Some(items) => string_items(items),
            None => Seq::empty(),
        },
        None => Seq::empty(),
    }
}

/// A string member of `__source_attr__`, else of the payload itself.
pub open spec fn source_text(p: NodePayload, key: Seq<char>) -> Option<Seq<char>> {
    first_of(as_text(get_member(plain_member(p, "__source_attr__"@), key)), as_text(plain_member(p, key)))
}

/// What compilation recorded for `uid`: the first entry of that id.
pub open spec fn find_compile(compile: Seq<(String, CompileFields)>, uid: Seq<char>) -> Option<CompileFields>
    decreases compile.len(),
{
    if compile.len() == 0 {
        None
    } else if compile[0].0@ == uid {
        Some(compile[0].1)
    } else {
        find_compile(compile.drop_first(), uid)
    }
}

/// The timestamp a row is stamped with: its own, else `now`.
pub open spec fn row_stamp(row: ParseNodeRow, now: Seq<char>) -> Seq<char> {
    match sv(row.ingested_at) {
        Some(t) => t,
        None => now,
    }
}

/// Whether `r` is the node row that the batch row `row` makes.
pub open spec fn node_row_model(r: OwnedNodeRow, row: ParseNodeRow, compile: Seq<(String, CompileFields)>, now: Seq<char>) -> bool {
    let p = row.payload;
    let uid = or_empty(sv(row.unique_id));
    &&& r.unique_id@ == uid
    &&& r.name@ == or_empty(sv(row.name))
    &&& r.resource_type@ == or_empty(sv(row.resource_type))
    &&& r.package_name@ == or_empty(sv(row.package_name))
    &&& r.file_path@ == or_empty(as_text(common_member(p, "path"@)))
    &&& r.original_file_path@ == or_empty(sv(row.original_path))
    &&& string_views(r.fqn@) == string_views(row.fqn@)
    &&& sv(r.alias) == sv(row.alias)
    &&& sv(r.checksum) == first_of(
        as_text(get_member(common_member(p, "checksum"@), "checksum"@)),
        as_text(get_member(plain_member(p, "checksum"@), "checksum"@)),
    )
    &&& sv(r.description) == sv(row.description)
    &&& sv(r.raw_code) == first_of(as_text(common_member(p, "raw_code"@)), as_text(plain_member(p, "raw_code"@)))
    &&& r.database_name@ == or_empty(sv(row.database))
    &&& r.schema_name@ == or_empty(sv(row.schema))
    &&& sv(r.relation_name) == sv(row.relation_name)
    &&& sv(r.identifier) == first_of(
        sv(row.identifier),
        first_of(as_text(get_member(plain_member(p, "__source_attr__"@), "identifier"@)), sv(row.alias)),
    )
    &&& r.enabled == Some(match row.is_disabled {
        Some(d) => d == 0,
        None => true,
    })
    &&& sv(r.materialized) == sv(row.materialization)
    &&& sv(r.access_level) == first_of(sv(row.access), as_text(get_member(model_attr(p), "access"@)))
    &&& sv(r.group_name) == first_of(sv(row.group_name), as_text(get_member(model_attr(p), "group"@)))
    &&& r.contract_enforced == contract_enforced_model(p)
    &&& string_views(r.primary_key@) == primary_key_model(p)
    &&& string_views(r.tags@) == string_views(row.tags@)
    &&& sv(r.source_name) == first_of(sv(row.source_name), source_text(p, "source_name"@))
    &&& sv(r.source_description) == source_text(p, "source_description"@)
    &&& sv(r.loader) == source_text(p, "loader"@)
    &&& sv(r.loaded_at_field) == source_text(p, "loaded_at_field"@)
    &&& sv(r.patch_path) == first_of(as_text(common_member(p, "patch_path"@)), as_text(plain_member(p, "patch_path"@)))
    &&& sv(r.meta) == first_of(common_member(p, "meta"@), plain_member(p, "meta"@))
    &&& sv(r.config) == config_text(p)
    &&& sv(r.deprecation_date) == first_of(
        as_text(get_member(model_attr(p), "deprecation_date"@)),
        as_text(plain_member(p, "deprecation_date"@)),
    )
    &&& sv(r.version) == first_of(get_member(model_attr(p), "version"@), plain_member(p, "version"@))
    &&& sv(r.latest_version) == first_of(get_member(model_attr(p), "latest_version"@), plain_member(p, "latest_version"@))
    &&& sv(r.node_language) == as_text(common_member(p, "language"@))
    &&& match find_compile(compile, uid) {
        Some(c) => {
            &&& sv(r.compiled_code) == sv(c.compiled_code)
            &&& sv(r.compiled_code_hash) == sv(c.compiled_code_hash)
            &&& sv(r.compiled_path) == sv(c.compiled_path)
            &&& sv(r.table_role) == sv(c.table_role)
            &&& string_views(r.grain@) == string_views(c.grain@)
            &&& string_views(r.grain_declared@) == string_views(c.grain_declared@)
            &&& string_views(r.grain_tested@) == string_views(c.grain_tested@)
            &&& string_views(r.classifiers@) == string_views(c.classifiers@)
        },
        None => {
            &&& r.compiled_code is None && r.compiled_code_hash is None && r.compiled_path is None
            &&& r.table_role is None
            &&& r.grain@.len() == 0 && r.grain_declared@.len() == 0 && r.grain_tested@.len() == 0
            &&& r.classifiers@.len() == 0
        },
    }
    &&& r.ingested_at@ == row_stamp(row, now)
}

/// A test's metadata block: `__test_attr__.test_metadata`, else the payload's
/// own `test_metadata`.
pub open spec fn test_metadata_of(p: NodePayload) -> Option<Seq<char>> {
    first_of(get_member(plain_member(p, "__test_attr__"@), "test_metadata"@), plain_member(p, "test_metadata"@))
}

/// A member of the payload's `deprecated_config`.
pub open spec fn deprecated_config_member(p: NodePayload, key: Seq<char>) -> Option<Seq<char>> {
    get_member(plain_member(p, "deprecated_config"@), key)
}

/// Whether `r` is the `test_metadata` row that the batch row `row` makes.
pub open spec fn test_meta_model(r: TestMetaRow, row: ParseNodeRow, now: Seq<char>) -> bool {
    let p = row.payload;
    let attr = plain_member(p, "__test_attr__"@);
    let tm = test_metadata_of(p);
    &&& r.unique_id@ == or_empty(sv(row.unique_id))
    &&& sv(r.test_name) == as_text(get_member(tm, "name"@))
    &&& sv(r.test_namespace) == as_text(get_member(tm, "namespace"@))
    &&& sv(r.kwargs) == get_member(tm, "kwargs"@)
    &&& sv(r.column_name) == as_text(get_member(attr, "column_name"@))
    &&& sv(r.attached_node) == first_of(
        as_text(get_member(attr, "attached_node"@)),
        first_of(as_text(plain_member(p, "attached_node"@)), as_text(plain_member(p, "file_key_name"@))),
    )
    &&& sv(r.severity) == as_text(first_of(deprecated_config_member(p, "severity"@), get_member(config_text(p), "severity"@)))
    &&& sv(r.warn_if) == as_text(deprecated_config_member(p, "warn_if"@))
    &&& sv(r.error_if) == as_text(deprecated_config_member(p, "error_if"@))
    &&& sv(r.fail_calc) == as_text(deprecated_config_member(p, "fail_calc"@))
    &&& r.store_failures == match deprecated_config_member(p, "store_failures"@) {
        Some(v) => json_bool_value(v),
        None => None,
    }
    &&& sv(r.store_failures_as) == as_text(deprecated_config_member(p, "store_failures_as"@))
    &&& r.ingested_at@ == row_stamp(row, now)
}

/// Whether a read row has `test_metadata`: a data test whose payload holds a
/// metadata block.
pub open spec fn has_test_metadata(row: ParseNodeRow) -> bool {
    or_empty(sv(row.resource_type)) == "test"@ && test_metadata_of(row.payload) is Some
}

/// The rows among the first `n` that have `test_metadata`, by index, in order.
pub open spec fn test_sources(rows: Seq<ParseNodeRow>, alive: Option<Seq<String>>, dedup: bool, seen: Seq<String>, n: int) -> Seq<int>
    decreases n,
{
    if n <= 0 {
        Seq::empty()
    } else {
        let prev = test_sources(rows, alive, dedup, seen, n - 1);
        if row_read(rows, alive, dedup, seen, n - 1) && has_test_metadata(rows[n - 1]) {
            prev.push(n - 1)
        } else {
            prev
        }
    }
}

/// The id of row `i`, when it has one.
pub open spec fn uid_at(rows: Seq<ParseNodeRow>, i: int) -> Option<Seq<char>> {
    sv(rows[i].unique_id)
}

/// Whether a row before `i` has the id `k`.
pub open spec fn earlier_uid(rows: Seq<ParseNodeRow>, i: int, k: Seq<char>) -> bool {
    exists|j: int| 0 <= j < i && uid_at(rows, j) == Some(k)
}

/// Whether row `i` is read: it has an id, the id is alive, and, when `dedup`
/// is set, neither `seen` nor an earlier row has it.
pub open spec fn row_read(rows: Seq<ParseNodeRow>, alive: Option<Seq<String>>, dedup: bool, seen: Seq<String>, i: int) -> bool {
    match uid_at(rows, i) {
        Some(k) => is_alive(alive, k) && (!dedup || (!in_strings(seen, k) && !earlier_uid(rows, i, k))),
        None => false,
    }
}

/// Whether a read row of type `rt` becomes a node row.
pub open spec fn in_nodes(row: ParseNodeRow) -> bool {
    contains_str(node_types_model(), or_empty(sv(row.resource_type)))
}

/// The rows among the first `n` that become node rows, by index, in order.
pub open spec fn node_sources(rows: Seq<ParseNodeRow>, alive: Option<Seq<String>>, dedup: bool, seen: Seq<String>, n: int) -> Seq<int>
    decreases n,
{
    if n <= 0 {
        Seq::empty()
    } else {
        let prev = node_sources(rows, alive, dedup, seen, n - 1);
        if row_read(rows, alive, dedup, seen, n - 1) && in_nodes(rows[n - 1]) {
            prev.push(n - 1)
        } else {
            prev
        }
    }
}

/// The edges of one row: one per `depends_on` entry, as (parent, child,
/// type, timestamp).
pub open spec fn row_edges(row: ParseNodeRow, now: Seq<char>) -> Seq<(Seq<char>, Seq<char>, Seq<char>, Seq<char>)> {
    Seq::new(row.depends_on@.len(), |d: int| (row.depends_on@[d]@, or_empty(sv(row.unique_id)), "ref"@, row_stamp(row, now)))
}

/// The edges of the first `n` rows, those read, in order.
pub open spec fn edges_model(rows: Seq<ParseNodeRow>, alive: Option<Seq<String>>, dedup: bool, seen: Seq<String>, now: Seq<char>, n: int) -> Seq<(Seq<char>, Seq<char>, Seq<char>, Seq<char>)>
    decreases n,
{
    if n <= 0 {
        Seq::empty()
    } else {
        let prev = edges_model(rows, alive, dedup, seen, now, n - 1);
        if row_read(rows, alive, dedup, seen, n - 1) {
            prev + row_edges(rows[n - 1], now)
        } else {
            prev
        }
    }
}

/// Edge rows as values.
pub open spec fn edge_views(v: Seq<EdgeRow>) -> Seq<(Seq<char>, Seq<char>, Seq<char>, Seq<char>)> {
    Seq::new(v.len(), |i: int| (v[i].parent_unique_id@, v[i].child_unique_id@, v[i].edge_type@, v[i].ingested_at@))
}

fn copy_opt(o: &Option<String>) -> (r: Option<String>)
    ensures
        sv(r) == sv(*o),
{
    match o {
        Some(s) => Some(owned(s.as_str())),
        None => None,
    }
}

fn or_default(o: &Option<String>) -> (r: String)
    ensures
        r@ == or_empty(sv(*o)),
{
    match o {
        Some(s) => owned(s.as_str()),
        None => String::new(),
    }
}

fn either(a: Option<String>, b: Option<String>) -> (r: Option<String>)
    ensures
        sv(r) == first_of(sv(a), sv(b)),
{
    match a {
        Some(x) => Some(x),
        None => b,
    }
}

/// The value of the last member named `key`.
fn last_member(ms: &Vec<(String, String)>, key: &str) -> (r: Option<String>)
    ensures
        sv(r) == member_value(pair_texts(ms@), key@),
{
    let ghost pm = pair_texts(ms@);
    let mut i: usize = ms.len();
    assert(pm.subrange(0, i as int) =~= pm);
    while i > 0
        invariant
            i <= ms@.len(),
            pm == pair_texts(ms@),
            member_value(pm, key@) == member_value(pm.subrange(0, i as int), key@),
        decreases i,
    {
        let ghost pre = pm.subrange(0, i as int);
        assert(pre.drop_last() =~= pm.subrange(0, i - 1));
        assert(pre.last() == pm[i - 1]);
        if str_eq(ms[i - 1].0.as_str(), key) {
            return Some(owned(ms[i - 1].1.as_str()));
        }
        i -= 1;
    }
    None
}

fn member_of(t: &Option<String>, key: &str) -> (r: Option<String>)
    ensures
        sv(r) == get_member(sv(*t), key@),
{
    match t {
        Some(x) => match parse_object_members(x.as_str()) {
            Some(ms) => last_member(&ms, key),
            None => None,
        },
        None => None,
    }
}

fn text_of(v: &Option<String>) -> (r: Option<String>)
    ensures
        sv(r) == as_text(sv(*v)),
{
    match v {
        Some(x) => parse_json_string(x.as_str()),
        None => None,
    }
}

fn plain_member_of(p: &NodePayload, key: &str) -> (r: Option<String>)
    ensures
        sv(r) == plain_member(*p, key@),
{
    match p {
        NodePayload::Full(t) => member_of(t, key),
        NodePayload::Model(_) => None,
    }
}

fn common_member_of(p: &NodePayload, key: &str) -> (r: Option<String>)
    ensures
        sv(r) == common_member(*p, key@),
{
    match p {
        NodePayload::Full(t) => member_of(&member_of(t, "__common_attr__"), key),
        NodePayload::Model(tp) => match &tp.common_attr {
            Some(v) => last_member(v, key),
            None => None,
        },
    }
}

fn model_attr_of(p: &NodePayload) -> (r: Option<String>)
    ensures
        sv(r) == model_attr(*p),
{
    match p {
        NodePayload::Full(t) => member_of(t, "__model_attr__"),
        NodePayload::Model(tp) => match tp.model_attr {
            Some(m) => Some(owned(m)),
            None => None,
        },
    }
}

fn config_value_of(p: &NodePayload) -> (r: Option<String>)
    ensures
        sv(r) == config_value(*p),
{
    match p {
        NodePayload::Full(t) => match member_of(t, "config") {
            Some(c) => match parse_json_string(c.as_str()) {
                Some(s) => if parses_as_json(s.as_str()) {
                    Some(s)
                } else {
                    None
                },
                None => Some(c),
            },
            None => None,
        },
        NodePayload::Model(tp) => match tp.config {
            Some(c) => if parses_as_json(c) {
                Some(owned(c))
            } else {
                None
            },
            None => None,
        },
    }
}

fn config_text_of(p: &NodePayload) -> (r: Option<String>)
    ensures
        sv(r) == config_text(*p),
{
    match p {
        NodePayload::Full(t) => member_of(t, "config"),
        NodePayload::Model(tp) => match tp.config {
            Some(c) => Some(quote_json_string(c)),
            None => None,
        },
    }
}

fn contract_enforced(p: &NodePayload) -> (r: bool)
    ensures
        r == contract_enforced_model(*p),
{
    let from_config = member_of(&config_value_of(p), "contract");
    let from_attr = member_of(&model_attr_of(p), "contract");
    let contract = either(from_config, either(from_attr, plain_member_of(p, "contract")));
    match member_of(&contract, "enforced") {
        Some(e) => match parse_json_bool(e.as_str()) {
            Some(b) => b,
            None => false,
        },
        None => false,
    }
}

pub(crate) fn string_items_of(items: &Vec<String>) -> (r: Vec<String>)
    ensures
        string_views(r@) == string_items(string_views(items@)),
{
    let ghost iv = string_views(items@);
    let mut out: Vec<String> = Vec::new();
    let mut i: usize = 0;
    while i < items.len()
        invariant
            i <= items@.len(),
            iv == string_views(items@),
            string_views(out@) == string_items(iv.subrange(0, i as int)),
        decreases items@.len() - i,
    {
        assert(iv.subrange(0, i + 1).drop_last() =~= iv.subrange(0, i as int));
        assert(iv.subrange(0, i + 1).last() == iv[i as int]);
        match parse_json_string(items[i].as_str()) {
            Some(s) => {
                let ghost before = string_views(out@);
                out.push(s);
                assert(string_views(out@) =~= before.push(s@));
            },
            None => {},
        }
        i += 1;
    }
    assert(iv.subrange(0, items@.len() as int) =~= iv);
    out
}

fn primary_key_of(p: &NodePayload) -> (r: Vec<String>)
    ensures
        string_views(r@) == primary_key_model(*p),
{
    match member_of(&model_attr_of(p), "primary_key") {
        Some(v) => match parse_array_items(v.as_str()) {
            Some(items) => string_items_of(&items),
            None => {
                let out: Vec<String> = Vec::new();
                assert(string_views(out@) =~= Seq::empty());
                out
            },
        },
        None => {
            let out: Vec<String> = Vec::new();
            assert(string_views(out@) =~= Seq::empty());
            out
        },
    }
}

fn source_text_of(p: &NodePayload, key: &str) -> (r: Option<String>)
    ensures
        sv(r) == source_text(*p, key@),
{
    let attr = plain_member_of(p, "__source_attr__");
    either(text_of(&member_of(&attr, key)), text_of(&plain_member_of(p, key)))
}

fn find_compile_of<'c>(compile: &'c Vec<(String, CompileFields)>, uid: &str) -> (r: Option<&'c CompileFields>)
    ensures
        match r {
            Some(c) => find_compile(compile@, uid@) == Some(*c),
            None => find_compile(compile@, uid@) is None,
        },
{
    let mut i: usize = 0;
    assert(compile@.subrange(0, compile@.len() as int) =~= compile@);
    while i < compile.len()
        invariant
            i <= compile@.len(),
            find_compile(compile@, uid@) == find_compile(compile@.subrange(i as int, compile@.len() as int), uid@),
        decreases compile@.len() - i,
    {
        let ghost rest = compile@.subrange(i as int, compile@.len() as int);
        assert(rest[0] == compile@[i as int]);
        assert(rest.drop_first() =~= compile@.subrange(i + 1, compile@.len() as int));
        if str_eq(compile[i].0.as_str(), uid) {
            return Some(&compile[i].1);
        }
        i += 1;
    }
    None
}

/// The node row a batch row makes.
#[verifier::rlimit(60)]
fn node_row(row: &ParseNodeRow, compile: &Vec<(String, CompileFields)>, now: &str) -> (r: OwnedNodeRow)
    ensures
        node_row_model(r, *row, compile@, now@),
{
    let p = &row.payload;
    let unique_id = or_default(&row.unique_id);
    let checksum = either(
        text_of(&member_of(&common_member_of(p, "checksum"), "checksum")),
        text_of(&member_of(&plain_member_of(p, "checksum"), "checksum")),
    );
    let raw_code = either(text_of(&common_member_of(p, "raw_code")), text_of(&plain_member_of(p, "raw_code")));
    let attr = plain_member_of(p, "__source_attr__");
    let identifier = either(copy_opt(&row.identifier), either(text_of(&member_of(&attr, "identifier")), copy_opt(&row.alias)));
    let ma = model_attr_of(p);
    let access_level = either(copy_opt(&row.access), text_of(&member_of(&ma, "access")));
    let group_name = either(copy_opt(&row.group_name), text_of(&member_of(&ma, "group")));
    let source_name = either(copy_opt(&row.source_name), source_text_of(p, "source_name"));
    let patch_path = either(text_of(&common_member_of(p, "patch_path")), text_of(&plain_member_of(p, "patch_path")));
    let meta = either(common_member_of(p, "meta"), plain_member_of(p, "meta"));
    let deprecation_date = either(text_of(&member_of(&ma, "deprecation_date")), text_of(&plain_member_of(p, "deprecation_date")));
    let version = either(member_of(&ma, "version"), plain_member_of(p, "version"));
    let latest_version = either(member_of(&ma, "latest_version"), plain_member_of(p, "latest_version"));
    let enabled = match row.is_disabled {
        Some(d) => d == 0,
        None => true,
    };
    let ingested_at = match &row.ingested_at {
        Some(t) => owned(t.as_str()),
        None => owned(now),
    };
    let compiled = find_compile_of(compile, unique_id.as_str());
    let (compiled_code, compiled_code_hash, compiled_path, table_role, grain, grain_declared, grain_tested, classifiers) = match compiled {
        Some(c) => (
            copy_opt(&c.compiled_code),
            copy_opt(&c.compiled_code_hash),
            copy_opt(&c.compiled_path),
            copy_opt(&c.table_role),
            copy_strings(&c.grain),
            copy_strings(&c.grain_declared),
            copy_strings(&c.grain_tested),
            copy_strings(&c.classifiers),
        ),
        None => (None, None, None, None, Vec::new(), Vec::new(), Vec::new(), Vec::new()),
    };
    OwnedNodeRow {
        unique_id,
        name: or_default(&row.name),
        resource_type: or_default(&row.resource_type),
        package_name: or_default(&row.package_name),
        file_path: match text_of(&common_member_of(p, "path")) {
            Some(s) => s,
            None => String::new(),
        },
        original_file_path: or_default(&row.original_path),
        fqn: copy_strings(&row.fqn),
        alias: copy_opt(&row.alias),
        checksum,
        description: copy_opt(&row.description),
        raw_code,
        database_name: or_default(&row.database),
        schema_name: or_default(&row.schema),
        relation_name: copy_opt(&row.relation_name),
        identifier,
        enabled: Some(enabled),
        materialized: copy_opt(&row.materialization),
        access_level,
        group_name,
        contract_enforced: contract_enforced(p),
        primary_key: primary_key_of(p),
        tags: copy_strings(&row.tags),
        source_name,
        source_description: source_text_of(p, "source_description"),
        loader: source_text_of(p, "loader"),
        loaded_at_field: source_text_of(p, "loaded_at_field"),
        patch_path,
        meta,
        config: config_text_of(p),
        deprecation_date,
        version,
        latest_version,
        node_language: text_of(&common_member_of(p, "language")),
        compiled_code,
        compiled_code_hash,
        compiled_path,
        table_role,
        grain,
        grain_declared,
        grain_tested,
        classifiers,
        ingested_at,
    }
}

fn test_meta_row(row: &ParseNodeRow, tm: &Option<String>, now: &str) -> (r: TestMetaRow)
    requires
        sv(*tm) == test_metadata_of(row.payload),
    ensures
        test_meta_model(r, *row, now@),
{
    let p = &row.payload;
    let attr = plain_member_of(p, "__test_attr__");
    let dep = plain_member_of(p, "deprecated_config");
    let attached = either(
        text_of(&member_of(&attr, "attached_node")),
        either(text_of(&plain_member_of(p, "attached_node")), text_of(&plain_member_of(p, "file_key_name"))),
    );
    let severity = text_of(&either(member_of(&dep, "severity"), member_of(&config_text_of(p), "severity")));
    let store_failures = match member_of(&dep, "store_failures") {
        Some(v) => parse_json_bool(v.as_str()),
        None => None,
    };
    TestMetaRow {
        unique_id: or_default(&row.unique_id),
        test_name: text_of(&member_of(tm, "name")),
        test_namespace: text_of(&member_of(tm, "namespace")),
        kwargs: member_of(tm, "kwargs"),
        column_name: text_of(&member_of(&attr, "column_name")),
        attached_node: attached,
        severity,
        warn_if: text_of(&member_of(&dep, "warn_if")),
        error_if: text_of(&member_of(&dep, "error_if")),
        fail_calc: text_of(&member_of(&dep, "fail_calc")),
        store_failures,
        store_failures_as: text_of(&member_of(&dep, "store_failures_as")),
        ingested_at: match &row.ingested_at {
            Some(t) => owned(t.as_str()),
            None => owned(now),
        },
    }
}

fn test_metadata_in(p: &NodePayload) -> (r: Option<String>)
    ensures
        sv(r) == test_metadata_of(*p),
{
    either(member_of(&plain_member_of(p, "__test_attr__"), "test_metadata"), plain_member_of(p, "test_metadata"))
}

/// The payload text a non-model row is read from: its text when that parses
/// as JSON, and none otherwise.
pub open spec fn full_payload_text(payload: Option<&str>) -> Option<Seq<char>> {
    match payload {
        Some(p) => if json_is_value(p@) { Some(p@) } else { None },
        None => None,
    }
}

/// A row's payload as the row builders read it: a model's trimmed to what
/// they read of it ([`trim_model_payload`]), any other node's whole, when its
/// text parses as JSON.
pub fn node_payload<'a>(resource_type: Option<&str>, payload: Option<&'a str>) -> (r: NodePayload<'a>)
    ensures
        match r {
            NodePayload::Model(tp) => opt_str(resource_type) == Some("model"@) && is_trim_of(payload, tp),
            NodePayload::Full(t) => opt_str(resource_type) != Some("model"@) && sv(t) == full_payload_text(payload),
        },
{
    let is_model = match resource_type {
        Some(rt) => str_eq(rt, "model"),
        None => false,
    };
    if is_model {
        NodePayload::Model(trim_model_payload(payload))
    } else {
        match payload {
            Some(p) => if parses_as_json(p) {
                NodePayload::Full(Some(owned(p)))
            } else {
                NodePayload::Full(None)
            },
            None => NodePayload::Full(None),
        }
    }
}

fn push_edges(edges: &mut Vec<EdgeRow>, row: &ParseNodeRow, now: &str)
    requires
        row.unique_id is Some,
    ensures
        edge_views(final(edges)@) == edge_views(old(edges)@) + row_edges(*row, now@),
{
    let ghost e0 = edge_views(edges@);
    let ghost re = row_edges(*row, now@);
    let child = or_default(&row.unique_id);
    let mut d: usize = 0;
    while d < row.depends_on.len()
        invariant
            d <= row.depends_on@.len(),
            re == row_edges(*row, now@),
            child@ == or_empty(sv(row.unique_id)),
            edge_views(edges@) == e0 + re.subrange(0, d as int),
        decreases row.depends_on@.len() - d,
    {
        let ghost before = edge_views(edges@);
        let stamp = match &row.ingested_at {
            Some(t) => owned(t.as_str()),
            None => owned(now),
        };
        edges.push(EdgeRow {
            parent_unique_id: owned(row.depends_on[d].as_str()),
            child_unique_id: owned(child.as_str()),
            edge_type: owned("ref"),
            ingested_at: stamp,
        });
        assert(edge_views(edges@) =~= before.push(re[d as int]));
        assert(re.subrange(0, d + 1) =~= re.subrange(0, d as int).push(re[d as int]));
        d += 1;
    }
    assert(re.subrange(0, row.depends_on@.len() as int) =~= re);
}

/// What one batch of parse nodes contributes to `dbt.nodes` and `dbt.edges`.
///
/// A row is read when it has an id and the id is alive (every id is, when no
/// alive set was written). With `dedup` set the epochs are read newest first:
/// a row whose id is in `seen`, or was had by an earlier row of this batch, is
/// a stale copy and is skipped, and the ids read are added to `seen`. A read
/// row of a node type becomes a node row ([`node_row_model`]); every read row
/// contributes one `ref` edge per `depends_on` entry, from that entry to the
/// row. A read data test whose payload holds a metadata block also makes a
/// `test_metadata` row ([`test_meta_model`]).
pub fn extract_parse_nodes_batch(
    rows: &Vec<ParseNodeRow>,
    now: &str,
    compile: &Vec<(String, CompileFields)>,
    dedup: bool,
    seen: &mut Vec<String>,
    alive: Option<&Vec<String>>,
) -> (r: ParseNodeRows)
    ensures
        r.nodes@.len() == node_sources(rows@, alive_view(alive), dedup, old(seen)@, rows@.len() as int).len(),
        forall|m: int| 0 <= m < r.nodes@.len() ==> node_row_model(
            #[trigger] r.nodes@[m],
            rows@[node_sources(rows@, alive_view(alive), dedup, old(seen)@, rows@.len() as int)[m]],
            compile@,
            now@,
        ),
        edge_views(r.edges@) == edges_model(rows@, alive_view(alive), dedup, old(seen)@, now@, rows@.len() as int),
        r.test_metadata@.len() == test_sources(rows@, alive_view(alive), dedup, old(seen)@, rows@.len() as int).len(),
        forall|m: int| 0 <= m < r.test_metadata@.len() ==> test_meta_model(
            #[trigger] r.test_metadata@[m],
            rows@[test_sources(rows@, alive_view(alive), dedup, old(seen)@, rows@.len() as int)[m]],
            now@,
        ),
        !dedup ==> final(seen)@ == old(seen)@,
        dedup ==> forall|x: Seq<char>| #[trigger] in_strings(final(seen)@, x) <==> (in_strings(old(seen)@, x)
            || (is_alive(alive_view(alive), x) && earlier_uid(rows@, rows@.len() as int, x))),
{
    let ghost seen0 = seen@;
    let ghost av = alive_view(alive);
    let mut nodes: Vec<OwnedNodeRow> = Vec::new();
    let mut edges: Vec<EdgeRow> = Vec::new();
    let mut tests: Vec<TestMetaRow> = Vec::new();
    let mut i: usize = 0;
    assert(edge_views(edges@) =~= Seq::empty());
    while i < rows.len()
        invariant
            i <= rows@.len(),
            av == alive_view(alive),
            nodes@.len() == node_sources(rows@, av, dedup, seen0, i as int).len(),
            forall|m: int| 0 <= m < nodes@.len() ==> node_row_model(
                #[trigger] nodes@[m],
                rows@[node_sources(rows@, av, dedup, seen0, i as int)[m]],
                compile@,
                now@,
            ),
            edge_views(edges@) == edges_model(rows@, av, dedup, seen0, now@, i as int),
            tests@.len() == test_sources(rows@, av, dedup, seen0, i as int).len(),
            forall|m: int| 0 <= m < tests@.len() ==> test_meta_model(
                #[trigger] tests@[m],
                rows@[test_sources(rows@, av, dedup, seen0, i as int)[m]],
                now@,
            ),
            !dedup ==> seen@ == seen0,
            dedup ==> forall|x: Seq<char>| #[trigger] in_strings(seen@, x) <==> (in_strings(seen0, x)
                || (is_alive(av, x) && earlier_uid(rows@, i as int, x))),
        decreases rows@.len() - i,
    {
        let row = &rows[i];
        let ghost seen_before = seen@;
        let ghost src = node_sources(rows@, av, dedup, seen0, i as int);
        let ghost tsrc = test_sources(rows@, av, dedup, seen0, i as int);
        let ghost t0 = tests@;
        proof {
            assert forall|x: Seq<char>| earlier_uid(rows@, i + 1, x) <==> (earlier_uid(rows@, i as int, x) || uid_at(rows@, i as int) == Some(x)) by {
                if earlier_uid(rows@, i + 1, x) && !earlier_uid(rows@, i as int, x) {
                    let j = choose|j: int| 0 <= j < i + 1 && uid_at(rows@, j) == Some(x);
                    assert(j == i);
                }
                if uid_at(rows@, i as int) == Some(x) {
                    assert(0 <= i < i + 1 && uid_at(rows@, i as int) == Some(x));
                }
                if earlier_uid(rows@, i as int, x) {
                    let j = choose|j: int| 0 <= j < i && uid_at(rows@, j) == Some(x);
                    assert(0 <= j < i + 1 && uid_at(rows@, j) == Some(x));
                }
            }
        }
        let read = match &row.unique_id {
            None => false,
            Some(uid) => {
                if !alive_contains(alive, uid.as_str()) {
                    false
                } else if dedup {
                    if contains_string(seen, uid.as_str()) {
                        false
                    } else {
                        let ghost pre = seen@;
                        seen.push(owned(uid.as_str()));
                        proof {
                            assert forall|x: Seq<char>| #[trigger] in_strings(seen@, x) <==> (in_strings(pre, x) || uid@ == x) by {
                                lemma_in_strings_push(pre, seen@[pre.len() as int], x);
                                assert(seen@ == pre.push(seen@[pre.len() as int]));
                            }
                        }
                        true
                    }
                } else {
                    true
                }
            },
        };
        assert(read == row_read(rows@, av, dedup, seen0, i as int));
        if read {
            proof { reveal_strlit(""); }
            let rt: &str = match &row.resource_type {
                Some(t) => t.as_str(),
                None => "",
            };
            assert(rt@ == or_empty(sv(rows@[i as int].resource_type)));
            let ghost n0 = nodes@;
            if writes_to_nodes(rt) {
                let made = node_row(row, compile, now);
                nodes.push(made);
                assert(nodes@ == n0.push(made));
            }
            push_edges(&mut edges, row, now);
            if str_eq(rt, "test") {
                let tm = test_metadata_in(&row.payload);
                if tm.is_some() {
                    let made = test_meta_row(row, &tm, now);
                    tests.push(made);
                    assert(tests@ == t0.push(made));
                }
            }
        }
        let ghost src2 = node_sources(rows@, av, dedup, seen0, i + 1);
        assert(src2 == if read && in_nodes(rows@[i as int]) {
            src.push(i as int)
        } else {
            src
        });
        assert(nodes@.len() == src2.len());
        assert forall|m: int| 0 <= m < nodes@.len() implies node_row_model(#[trigger] nodes@[m], rows@[src2[m]], compile@, now@) by {
            if m < src.len() {
                assert(src2[m] == src[m]);
            } else {
                assert(src2[m] == i);
            }
        }
        let ghost tsrc2 = test_sources(rows@, av, dedup, seen0, i + 1);
        assert(tsrc2 == if read && has_test_metadata(rows@[i as int]) {
            tsrc.push(i as int)
        } else {
            tsrc
        });
        assert(tests@.len() == tsrc2.len());
        assert forall|m: int| 0 <= m < tests@.len() implies test_meta_model(#[trigger] tests@[m], rows@[tsrc2[m]], now@) by {
            if m < tsrc.len() {
                assert(tsrc2[m] == tsrc[m]);
            } else {
                assert(tsrc2[m] == i);
            }
        }
        i += 1;
    }
    ParseNodeRows { nodes, edges, test_metadata: tests }
}

/// A node row is enabled exactly when its batch row carries no `is_disabled`
/// flag or the flag 0, and disabled when the flag is anything else.
pub proof fn a_node_is_enabled_unless_flagged(r: OwnedNodeRow, row: ParseNodeRow, compile: Seq<(String, CompileFields)>, now: Seq<char>)
    requires
        node_row_model(r, row, compile, now),
    ensures
        r.enabled == Some(true) <==> (row.is_disabled is None || row.is_disabled == Some(0i32)),
        r.enabled == Some(false) <==> (row.is_disabled is Some && row.is_disabled->0 != 0),
        r.enabled is Some,
{
}

/// A node row carries the batch row's own columns in the fields of the same
/// meaning: its id, name, type, package, path, database and schema (empty when
/// absent), its alias, description, relation and materialization as they are,
/// its `fqn` and tags unchanged, and the row's timestamp, else `now`.
pub proof fn a_node_row_carries_its_columns(r: OwnedNodeRow, row: ParseNodeRow, compile: Seq<(String, CompileFields)>, now: Seq<char>)
    requires
        node_row_model(r, row, compile, now),
    ensures
        row.unique_id matches Some(u) ==> r.unique_id@ == u@,
        row.name matches Some(n) ==> r.name@ == n@,
        row.name is None ==> r.name@.len() == 0,
        row.resource_type matches Some(t) ==> r.resource_type@ == t@,
        row.package_name matches Some(n) ==> r.package_name@ == n@,
        row.original_path matches Some(x) ==> r.original_file_path@ == x@,
        row.database matches Some(d) ==> r.database_name@ == d@,
        row.schema matches Some(d) ==> r.schema_name@ == d@,
        row.database is None ==> r.database_name@.len() == 0,
        row.schema is None ==> r.schema_name@.len() == 0,
        sv(r.alias) == sv(row.alias),
        sv(r.description) == sv(row.description),
        sv(r.relation_name) == sv(row.relation_name),
        sv(r.materialized) == sv(row.materialization),
        string_views(r.fqn@) == string_views(row.fqn@),
        string_views(r.tags@) == string_views(row.tags@),
        row.ingested_at matches Some(t) ==> r.ingested_at@ == t@,
        row.ingested_at is None ==> r.ingested_at@ == now,
{
}

} // verus!
