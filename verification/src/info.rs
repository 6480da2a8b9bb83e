//! Where the information schema is written, which version it is, and how it is
//! materialized.

use vstd::prelude::*;
use crate::epoch::{join_path, join_path_str};
use crate::text::{decimal, decimal_string, owned};

verus! {

/// Directory name under the target directory.
pub const INFO_SCHEMA_DIR_NAME: &'static str = "info_schema";

/// Version of the information schema contract.
///
/// Carried three ways, so a consumer can find it wherever it is looking: in the
/// output path (`info_schema/v1/`), in `dbt.project.schema_version`, and in every
/// file's parquet key-value metadata under [`INFO_SCHEMA_VERSION_KEY`]. Bumped
/// when a column is removed or retyped; adding a nullable column does not
/// require a bump. Versions coexist rather than replace.
pub const INFO_SCHEMA_VERSION: u32 = 1;

/// Parquet key-value metadata key holding [`INFO_SCHEMA_VERSION`].
pub const INFO_SCHEMA_VERSION_KEY: &'static str = "dbt:info-schema-version";

/// Fallback staging directory name, used when there is no flat index to reuse
/// as the intermediate. Deliberately outside the output directory: it holds
/// files in the source shape, which a caller globbing the information schema
/// must never pick up.
pub const STAGING_DIR_NAME: &'static str = ".info_schema_staging";

/// The version as the text every carrier of it uses.
pub open spec fn version_text() -> Seq<char> {
    decimal(INFO_SCHEMA_VERSION as nat)
}

/// [`INFO_SCHEMA_VERSION`] in decimal.
pub fn version_string() -> (r: String)
    ensures
        r@ == version_text(),
{
    decimal_string(INFO_SCHEMA_VERSION)
}

/// The directory this version's tables are written to: `v<version>` under
/// `info_schema_dir`.
pub fn versioned_dir(info_schema_dir: &str) -> (r: String)
    ensures
        r@ == join_path(info_schema_dir@, "v"@ + version_text()),
{
    let mut name = owned("v");
    name.append(version_string().as_str());
    join_path_str(info_schema_dir, name.as_str())
}

/// How the information schema is materialized.
///
/// Production uses [`Materializer::Auto`]: the database's `COPY` from the
/// epoch-view layer when a driver loads, ingest-and-project otherwise. A
/// measurement pins one of the other two so they can be timed on one corpus.
#[derive(Debug, Clone, Copy, PartialEq, Eq, Structural)]
pub enum Materializer {
    /// `COPY` from epoch views, falling back to ingest-and-project if the
    /// driver is missing or `COPY` fails.
    Auto,
    /// Ingest epochs into staging parquet, then project. No database.
    Arrow,
    /// `COPY` only. Errors if the driver is unavailable or a statement fails, so
    /// a measurement cannot silently time the fallback.
    Copy,
}

impl Materializer {
    /// The default materializer.
    pub fn default_materializer() -> (r: Materializer)
        ensures
            r == Materializer::Auto,
    {
        Materializer::Auto
    }

    /// Short name, as a measurement reports it.
    pub fn label(self) -> (r: &'static str)
        ensures
            r@ == match self {
                Materializer::Auto => "auto"@,
                Materializer::Arrow => "arrow"@,
                Materializer::Copy => "copy"@,
            },
    {
        match self {
            Materializer::Auto => "auto",
            Materializer::Arrow => "arrow",
            Materializer::Copy => "copy",
        }
    }
}

/// One way of writing the information schema.
#[derive(Debug, Clone, Copy, PartialEq, Eq, Structural)]
pub enum Method {
    /// `COPY` from the epoch views.
    Copy,
    /// Ingest into staging, then project.
    Arrow,
}

/// The method to try first, and the one to fall back to when it fails.
pub open spec fn spec_plan(how: Materializer) -> (Method, Option<Method>) {
    match how {
        Materializer::Arrow => (Method::Arrow, None),
        Materializer::Copy => (Method::Copy, None),
        Materializer::Auto => (Method::Copy, Some(Method::Arrow)),
    }
}

/// The method to try first under `how`, and the one to fall back to when it
/// fails: only [`Materializer::Auto`] falls back, from `COPY` to the ingest.
pub fn plan(how: Materializer) -> (r: (Method, Option<Method>))
    ensures
        r == spec_plan(how),
{
    match how {
        Materializer::Arrow => (Method::Arrow, None),
        Materializer::Copy => (Method::Copy, None),
        Materializer::Auto => (Method::Copy, Some(Method::Arrow)),
    }
}

} // verus!
