//! Declarative description of the information schema.
//!
//! Each output table is described once, as a list of output columns paired with
//! the source column they are taken from. The output type is derived from the
//! source column rather than restated, so a rename cannot change a column's type
//! by accident. Columns whose data has no source yet are declared with an
//! explicit type and emitted null-filled.

use vstd::prelude::*;
use crate::text::cat;

verus! {

/// SQL namespace an output table belongs to.
#[derive(Debug, Clone, Copy, PartialEq, Eq, Structural)]
pub enum Ns {
    /// Project metadata. Snapshot semantics.
    Dbt,
    /// Runtime results. Replaced per invocation.
    DbtRt,
    /// Not part of the public contract; shape may change without notice.
    DbtInternal,
}

/// The schema name of a namespace.
pub open spec fn ns_prefix(ns: Ns) -> Seq<char> {
    match ns {
        Ns::Dbt => "dbt"@,
        Ns::DbtRt => "dbt_rt"@,
        Ns::DbtInternal => "dbt_internal"@,
    }
}

impl Ns {
    /// The schema name this namespace is published under.
    pub fn prefix(self) -> (r: &'static str)
        ensures
            r@ == ns_prefix(self),
    {
        match self {
            Ns::Dbt => "dbt",
            Ns::DbtRt => "dbt_rt",
            Ns::DbtInternal => "dbt_internal",
        }
    }

    /// Every namespace, in publication order.
    pub fn all() -> (r: Vec<Ns>)
        ensures
            r@ == seq![Ns::Dbt, Ns::DbtRt, Ns::DbtInternal],
    {
        vec![Ns::Dbt, Ns::DbtRt, Ns::DbtInternal]
    }
}

/// Where an output table's rows come from.
#[derive(Debug, Clone, Copy)]
pub enum Src {
    /// Project a single source table.
    Table(&'static str),
    /// Left-join two source tables. Output columns resolve against `left`
    /// first, then `right`.
    Join { left: &'static str, right: &'static str, left_on: &'static str, right_on: &'static str },
    /// Rows are assembled by dedicated code rather than by column projection.
    Own,
}

/// Row filter applied before projection.
#[derive(Debug, Clone, Copy)]
pub enum Filter {
    All,
    /// Keep rows whose `resource_type` is in the list.
    ResourceTypeIn(&'static [&'static str]),
}

/// The value type of a column, as the parquet files store it.
#[derive(Debug, Clone, Copy, PartialEq, Eq, Structural)]
pub enum ColType {
    Utf8,
    Boolean,
    Int32,
    Int64,
    Float64,
    /// A list of strings.
    ListUtf8,
    /// Microsecond timestamp in UTC.
    TimestampUtc,
}

/// Type of a column that has no source column to derive from.
#[derive(Debug, Clone, Copy, PartialEq, Eq, Structural)]
pub enum ColTy {
    Utf8,
    Bool,
    I64,
    ListUtf8,
    TsUtc,
}

/// The stored type a declared column type stands for.
pub open spec fn col_ty_type(ty: ColTy) -> ColType {
    match ty {
        ColTy::Utf8 => ColType::Utf8,
        ColTy::Bool => ColType::Boolean,
        ColTy::I64 => ColType::Int64,
        ColTy::ListUtf8 => ColType::ListUtf8,
        ColTy::TsUtc => ColType::TimestampUtc,
    }
}

impl ColTy {
    /// The stored type of a column declared with this type.
    pub fn data_type(self) -> (r: ColType)
        ensures
            r == col_ty_type(self),
    {
        match self {
            ColTy::Utf8 => ColType::Utf8,
            ColTy::Bool => ColType::Boolean,
            ColTy::I64 => ColType::Int64,
            ColTy::ListUtf8 => ColType::ListUtf8,
            ColTy::TsUtc => ColType::TimestampUtc,
        }
    }
}

/// One output column.
#[derive(Debug, Clone, Copy)]
pub struct ColSpec {
    /// Name in the information schema.
    pub out: &'static str,
    /// Name in the source table. Empty when `ty` is set.
    pub src: &'static str,
    /// Set only for columns with no source; such columns are null-filled.
    pub ty: Option<ColTy>,
}

/// One output table.
#[derive(Debug)]
pub struct TableSpec {
    pub ns: Ns,
    pub name: &'static str,
    pub src: Src,
    pub filter: Filter,
    pub cols: Vec<ColSpec>,
}

/// `<schema>.<name>.parquet`
pub open spec fn spec_file_name(ns: Ns, name: Seq<char>) -> Seq<char> {
    ns_prefix(ns) + "."@ + name + ".parquet"@
}

/// `<schema>.<name>`
pub open spec fn spec_qualified_name(ns: Ns, name: Seq<char>) -> Seq<char> {
    ns_prefix(ns) + "."@ + name
}

impl TableSpec {
    /// `dbt.models` -> `dbt.models.parquet`
    pub fn file_name(&self) -> (r: String)
        ensures
            r@ == spec_file_name(self.ns, self.name@),
    {
        let mut s = cat(self.ns.prefix(), ".");
        s.append(self.name);
        s.append(".parquet");
        s
    }

    /// `dbt.models`
    pub fn qualified_name(&self) -> (r: String)
        ensures
            r@ == spec_qualified_name(self.ns, self.name@),
    {
        let mut s = cat(self.ns.prefix(), ".");
        s.append(self.name);
        s
    }
}

/// Carried through unchanged.
pub fn c(out: &'static str) -> (r: ColSpec)
    ensures
        r == (ColSpec { out, src: out, ty: None }),
{
    ColSpec { out, src: out, ty: None }
}

/// Renamed from `src`.
pub fn r(out: &'static str, src: &'static str) -> (r: ColSpec)
    ensures
        r == (ColSpec { out, src, ty: None }),
{
    ColSpec { out, src, ty: None }
}

/// Declared with a type but no source; emitted null-filled.
pub fn n(out: &'static str, ty: ColTy) -> (r: ColSpec)
    ensures
        r == (ColSpec { out, src: "", ty: Some(ty) }),
        r.src@ == Seq::<char>::empty(),
{
    proof {
        reveal_strlit("");
    }
    ColSpec { out, src: "", ty: Some(ty) }
}

} // verus!
