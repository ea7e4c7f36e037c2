//! Column descriptors and the per-column rules of the statistics engine:
//! how a column is rewritten before aggregation, how its statistics are
//! presented, and how its values are cast back afterwards.
use vstd::prelude::*;

verus! {

/// The declared type of a column.
#[derive(Debug, Clone, Copy, PartialEq, Eq, Structural)]
pub enum DataKind {
    Int8,
    Int16,
    Int32,
    Int64,
    UInt8,
    UInt16,
    UInt32,
    UInt64,
    Float16,
    Float32,
    Float64,
    Decimal128,
    Decimal256,
    Date32,
    Date64,
    Timestamp,
    Time32,
    Time64,
    Duration,
    Interval,
    List,
    LargeList,
    Utf8,
    LargeUtf8,
    Boolean,
    Binary,
    Other,
}

/// Integer, floating-point and decimal types.
pub open spec fn spec_is_numeric(k: DataKind) -> bool {
    match k {
        DataKind::Int8 | DataKind::Int16 | DataKind::Int32 | DataKind::Int64 | DataKind::UInt8
        | DataKind::UInt16 | DataKind::UInt32 | DataKind::UInt64 | DataKind::Float16
        | DataKind::Float32 | DataKind::Float64 | DataKind::Decimal128
        | DataKind::Decimal256 => true,
        _ => false,
    }
}

/// Dates, times, timestamps, durations and intervals.
pub open spec fn spec_is_temporal(k: DataKind) -> bool {
    match k {
        DataKind::Date32 | DataKind::Date64 | DataKind::Timestamp | DataKind::Time32
        | DataKind::Time64 | DataKind::Duration | DataKind::Interval => true,
        _ => false,
    }
}

impl DataKind {
    pub fn is_numeric(&self) -> (r: bool)
        ensures
            r == spec_is_numeric(*self),
    {
        match self {
            DataKind::Int8 | DataKind::Int16 | DataKind::Int32 | DataKind::Int64 | DataKind::UInt8
            | DataKind::UInt16 | DataKind::UInt32 | DataKind::UInt64 | DataKind::Float16
            | DataKind::Float32 | DataKind::Float64 | DataKind::Decimal128
            | DataKind::Decimal256 => true,
            _ => false,
        }
    }

    pub fn is_temporal(&self) -> (r: bool)
        ensures
            r == spec_is_temporal(*self),
    {
        match self {
            DataKind::Date32 | DataKind::Date64 | DataKind::Timestamp | DataKind::Time32
            | DataKind::Time64 | DataKind::Duration | DataKind::Interval => true,
            _ => false,
        }
    }
}

/// A column of a registered table: name, declared type, nullability.
#[derive(Debug, Clone)]
pub struct ColumnDescriptor {
    pub name: String,
    pub kind: DataKind,
    pub nullable: bool,
}

impl ColumnDescriptor {
    pub fn new(name: String, kind: DataKind, nullable: bool) -> (r: Self)
        ensures
            r.name@ == name@,
            r.kind == kind,
            r.nullable == nullable,
    {
        ColumnDescriptor { name, kind, nullable }
    }
}

/// How a column is rewritten so that every statistic can be aggregated on it.
#[derive(Debug, Clone, Copy, PartialEq, Eq, Structural)]
pub enum TransformRule {
    /// Temporal values become floating-point numbers.
    CastToFloat,
    /// Numeric values are kept as they are.
    Passthrough,
    /// A list is replaced by its number of elements.
    ListLength,
    /// Anything else is replaced by the length of its text.
    TextLength,
}

pub open spec fn rule_of(k: DataKind) -> TransformRule {
    if spec_is_temporal(k) {
        TransformRule::CastToFloat
    } else if spec_is_numeric(k) {
        TransformRule::Passthrough
    } else if k == DataKind::List || k == DataKind::LargeList {
        TransformRule::ListLength
    } else {
        TransformRule::TextLength
    }
}

/// The rule that the transform stage applies to a column of kind `k`.
pub fn classify(k: DataKind) -> (r: TransformRule)
    ensures
        r == rule_of(k),
{
    if k.is_temporal() {
        TransformRule::CastToFloat
    } else if k.is_numeric() {
        TransformRule::Passthrough
    } else if k == DataKind::List || k == DataKind::LargeList {
        TransformRule::ListLength
    } else {
        TransformRule::TextLength
    }
}

/// One column of the transformed projection: the rule applied to the column
/// of the same name.
#[derive(Debug, Clone)]
pub struct ProjectionItem {
    pub name: String,
    pub rule: TransformRule,
}

/// The transformed projection of `cols`: same order, same names, and each
/// column's rule as `classify` gives it.
pub open spec fn is_projection_of(p: Seq<ProjectionItem>, cols: Seq<ColumnDescriptor>) -> bool {
    &&& p.len() == cols.len()
    &&& forall|i: int|
        #![trigger p[i]]
        0 <= i < p.len() ==> p[i].name@ == cols[i].name@ && p[i].rule == rule_of(cols[i].kind)
}

/// Builds the transformed projection of a table with columns `cols`.
pub fn transform(cols: &Vec<ColumnDescriptor>) -> (r: Vec<ProjectionItem>)
    ensures
        is_projection_of(r@, cols@),
{
    let mut r: Vec<ProjectionItem> = Vec::new();
    let mut i: usize = 0;
    while i < cols.len()
        invariant
            i <= cols@.len(),
            r@.len() == i,
            forall|j: int|
                #![trigger r@[j]]
                0 <= j < i ==> r@[j].name@ == cols@[j].name@ && r@[j].rule == rule_of(
                    cols@[j].kind,
                ),
        decreases cols@.len() - i,
    {
        let c = &cols[i];
        let item = ProjectionItem { name: c.name.clone(), rule: classify(c.kind) };
        r.push(item);
        i = i + 1;
    }
    r
}

/// The type in which a column's statistics are presented.
#[derive(Debug, Clone, Copy, PartialEq, Eq, Structural)]
pub enum ValueType {
    Float64,
    Utf8,
}

pub open spec fn value_type_of(k: DataKind) -> ValueType {
    if spec_is_numeric(k) {
        ValueType::Float64
    } else {
        ValueType::Utf8
    }
}

/// Numeric columns are presented as 64-bit floats, all others as text.
pub fn value_type(k: DataKind) -> (r: ValueType)
    ensures
        r == value_type_of(k),
{
    if k.is_numeric() {
        ValueType::Float64
    } else {
        ValueType::Utf8
    }
}

/// How a column of the describe result is cast back after aggregation.
#[derive(Debug, Clone, Copy, PartialEq, Eq, Structural)]
pub enum CastBack {
    /// Back to the column's original declared type.
    Original(DataKind),
    /// To a plain 32-bit integer count.
    Int32,
    /// Left as produced.
    Keep,
}

pub open spec fn cast_back_of(k: DataKind) -> CastBack {
    if spec_is_temporal(k) {
        CastBack::Original(k)
    } else if k == DataKind::List || k == DataKind::LargeList {
        CastBack::Int32
    } else {
        CastBack::Keep
    }
}

/// Temporal columns return to their own type, list columns become counts.
pub fn cast_back_rule(k: DataKind) -> (r: CastBack)
    ensures
        r == cast_back_of(k),
{
    if k.is_temporal() {
        CastBack::Original(k)
    } else if k == DataKind::List || k == DataKind::LargeList {
        CastBack::Int32
    } else {
        CastBack::Keep
    }
}

} // verus!
