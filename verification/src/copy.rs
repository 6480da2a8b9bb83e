//! The `COPY` materializer's decisions: the information schema as parquet
//! written straight from the epoch-view layer.
//!
//! The views already express the public contract over the metadata
//! directory; `COPY (SELECT * FROM <view>) TO '<file>'` is that contract as a
//! snapshot, with no staging directory. Tables whose epoch relation has no
//! files are not in the generated SQL; those land as empty files so
//! `views.sql` still has something to point at.

use vstd::prelude::*;
use crate::info::{INFO_SCHEMA_VERSION_KEY, version_string, version_text};
use crate::schema::{TableModel, info_schema, info_schema_model, model_of};
use crate::spec::{TableSpec, spec_qualified_name};
use crate::text::{double_single_quotes, escape_single_quotes, owned, str_eq, string_views};

verus! {

/// After a `COPY`: keep requesting the database's key-value metadata only
/// while files actually carry it, and stamp every file that is missing the
/// version key, including after the probe has concluded the driver will not
/// attach one. Returns `(request key-value metadata next time, stamp this
/// file)`.
pub fn after_copy_kv(kv_in_copy: bool, file_has_kv: bool) -> (r: (bool, bool))
    ensures
        r == (kv_in_copy && file_has_kv, !file_has_kv),
{
    (kv_in_copy && file_has_kv, !file_has_kv)
}

/// What to do when a `COPY` fails.
#[derive(Debug, Clone, Copy, PartialEq, Eq, Structural)]
pub enum CopyFailure {
    /// Stop requesting key-value metadata, copy the table again without it,
    /// then stamp the file.
    RetryWithoutKv,
    /// The failure is not about key-value metadata: give up.
    Fail,
}

/// What to do when a `COPY` fails: a failure while key-value metadata was
/// requested may be the driver refusing it, so the copy is retried without;
/// any other failure is final.
pub fn after_copy_failure(kv_in_copy: bool) -> (r: CopyFailure)
    ensures
        r == (if kv_in_copy { CopyFailure::RetryWithoutKv } else { CopyFailure::Fail }),
{
    if kv_in_copy { CopyFailure::RetryWithoutKv } else { CopyFailure::Fail }
}

/// The `COPY` statement writing one table to `path`.
pub open spec fn copy_sql_spec(qname: Seq<char>, path: Seq<char>, with_kv: bool) -> Seq<char> {
    let base = "COPY (SELECT * FROM "@ + qname + ") TO '"@ + double_single_quotes(path)
        + "' (FORMAT PARQUET, COMPRESSION ZSTD, COMPRESSION_LEVEL 1"@;
    if with_kv {
        base + ", KV_METADATA {'"@ + INFO_SCHEMA_VERSION_KEY@ + "': '"@ + version_text() + "'})"@
    } else {
        base + ")"@
    }
}

/// The `COPY` statement writing the view of `spec` to `path`, with the version
/// key-value metadata requested when `with_kv` is set.
pub fn copy_sql(spec: &TableSpec, path: &str, with_kv: bool) -> (r: String)
    ensures
        r@ == copy_sql_spec(spec_qualified_name(spec.ns, spec.name@), path@, with_kv),
{
    let mut s = owned("COPY (SELECT * FROM ");
    s.append(spec.qualified_name().as_str());
    s.append(") TO '");
    s.append(escape_single_quotes(path).as_str());
    s.append("' (FORMAT PARQUET, COMPRESSION ZSTD, COMPRESSION_LEVEL 1");
    if with_kv {
        s.append(", KV_METADATA {'");
        s.append(INFO_SCHEMA_VERSION_KEY);
        s.append("': '");
        s.append(version_string().as_str());
        s.append("'})");
    } else {
        s.append(")");
    }
    s
}

/// Whether a table is copied: it is, unless the generator skipped it.
pub open spec fn is_copied(m: TableModel, skipped: Seq<Seq<char>>) -> bool {
    !skipped.contains(spec_qualified_name(m.ns, m.name@))
}

/// Per table of the information schema, in schema order, whether it is copied
/// out of its view (`true`) or written empty because the generator skipped it.
pub fn copy_plan(skipped: &Vec<String>) -> (r: Vec<bool>)
    ensures
        r@.len() == info_schema_model().len(),
        forall|i: int| 0 <= i < r@.len() ==> r@[i] == is_copied(#[trigger] info_schema_model()[i], string_views(skipped@)),
{
    let all = info_schema();
    let ghost ms = info_schema_model();
    let mut out: Vec<bool> = Vec::new();
    let mut i: usize = 0;
    while i < all.len()
        invariant
            i <= all@.len(),
            ms == info_schema_model(),
            all@.len() == ms.len(),
            forall|k: int| 0 <= k < all@.len() ==> model_of(#[trigger] all@[k]) == ms[k],
            out@.len() == i,
            forall|k: int| 0 <= k < i ==> out@[k] == is_copied(#[trigger] ms[k], string_views(skipped@)),
        decreases all@.len() - i,
    {
        assert(model_of(all@[i as int]) == ms[i as int]);
        let name = all[i].qualified_name();
        let mut found = false;
        let mut j: usize = 0;
        while j < skipped.len()
            invariant
                j <= skipped@.len(),
                found == string_views(skipped@).subrange(0, j as int).contains(name@),
            decreases skipped@.len() - j,
        {
            let ghost sv = string_views(skipped@);
            let ghost pre = sv.subrange(0, j as int);
            let ghost post = sv.subrange(0, j + 1);
            assert(post =~= pre.push(skipped@[j as int]@));
            if str_eq(skipped[j].as_str(), name.as_str()) {
                found = true;
                assert(post[j as int] == name@);
            } else {
                assert(post.contains(name@) ==> pre.contains(name@)) by {
                    if post.contains(name@) {
                        let k = choose|k: int| 0 <= k < post.len() && post[k] == name@;
                        assert(k != j);
                        assert(pre[k] == name@);
                    }
                }
                assert(pre.contains(name@) ==> post.contains(name@)) by {
                    if pre.contains(name@) {
                        let k = choose|k: int| 0 <= k < pre.len() && pre[k] == name@;
                        assert(post[k] == name@);
                    }
                }
            }
            j += 1;
        }
        assert(string_views(skipped@).subrange(0, skipped@.len() as int) =~= string_views(skipped@));
        out.push(!found);
        i += 1;
    }
    out
}

} // verus!
