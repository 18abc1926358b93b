//! Declared column types, their classification and the per-type
//! normalization that makes every column aggregable.

use vstd::prelude::*;

verus! {

/// The declared type of a column, as far as the summary logic reads it.
#[derive(Clone, Copy, Debug, PartialEq, Eq, Structural)]
pub enum DataType {
    Null,
    Boolean,
    Int8,
    Int16,
    Int32,
    Int64,
    UInt8,
    UInt16,
    UInt32,
    UInt64,
    Float16,
    Float32,
    Float64,
    Decimal32,
    Decimal64,
    Decimal128,
    Decimal256,
    Date32,
    Date64,
    Time32,
    Time64,
    Timestamp,
    Duration,
    Interval,
    Binary,
    LargeBinary,
    FixedSizeBinary,
    BinaryView,
    Utf8,
    LargeUtf8,
    Utf8View,
    List,
    LargeList,
    FixedSizeList,
    Struct,
    /// A column of key-value maps.
    MapType,
    Dictionary,
    /// Any other declared type that the summary logic has no special rule for.
    Other,
}

/// The classification of a declared type that drives normalization and the
/// applicability of each statistic.
#[derive(Clone, Copy, Debug, PartialEq, Eq, Structural)]
pub enum ColumnType {
    Numeric,
    Temporal,
    ListLike,
    Textual,
}

/// How a column is rewritten before aggregation.
#[derive(Clone, Copy, Debug, PartialEq, Eq, Structural)]
pub enum Normalization {
    /// Cast the values to 64-bit floating point.
    CastFloat64,
    /// Keep the values as they are.
    Identity,
    /// The number of elements of each list (a null list stays null).
    ArrayLength,
    /// The length of each value once cast to text (a null stays null).
    StringLength,
}

/// How a summary column is cast back for display.
#[derive(Clone, Copy, Debug, PartialEq, Eq, Structural)]
pub enum DisplayCast {
    /// Back to the column's own temporal type.
    Temporal,
    /// To a 32-bit integer (element counts of list columns).
    Int32,
    /// Left as computed.
    Keep,
}

/// Integers, floating point and decimals.
pub open spec fn spec_is_numeric(t: DataType) -> bool {
    match t {
        DataType::Int8 | DataType::Int16 | DataType::Int32 | DataType::Int64 | DataType::UInt8
        | DataType::UInt16 | DataType::UInt32 | DataType::UInt64 | DataType::Float16
        | DataType::Float32 | DataType::Float64 | DataType::Decimal32 | DataType::Decimal64
        | DataType::Decimal128 | DataType::Decimal256 => true,
        _ => false,
    }
}

/// Dates, times, timestamps, durations and intervals.
pub open spec fn spec_is_temporal(t: DataType) -> bool {
    match t {
        DataType::Date32 | DataType::Date64 | DataType::Time32 | DataType::Time64
        | DataType::Timestamp | DataType::Duration | DataType::Interval => true,
        _ => false,
    }
}

pub open spec fn spec_is_list(t: DataType) -> bool {
    t == DataType::List || t == DataType::LargeList
}

/// Temporal first, then numeric, then list-like; everything else is textual.
pub open spec fn spec_classify(t: DataType) -> ColumnType {
    if spec_is_temporal(t) {
        ColumnType::Temporal
    } else if spec_is_numeric(t) {
        ColumnType::Numeric
    } else if spec_is_list(t) {
        ColumnType::ListLike
    } else {
        ColumnType::Textual
    }
}

pub open spec fn spec_normalization(c: ColumnType) -> Normalization {
    match c {
        ColumnType::Temporal => Normalization::CastFloat64,
        ColumnType::Numeric => Normalization::Identity,
        ColumnType::ListLike => Normalization::ArrayLength,
        ColumnType::Textual => Normalization::StringLength,
    }
}

pub open spec fn spec_display_cast(c: ColumnType) -> DisplayCast {
    match c {
        ColumnType::Temporal => DisplayCast::Temporal,
        ColumnType::ListLike => DisplayCast::Int32,
        _ => DisplayCast::Keep,
    }
}

impl DataType {
    pub fn is_numeric(&self) -> (r: bool)
        ensures
            r == spec_is_numeric(*self),
    {
        match self {
            DataType::Int8 | DataType::Int16 | DataType::Int32 | DataType::Int64
            | DataType::UInt8 | DataType::UInt16 | DataType::UInt32 | DataType::UInt64
            | DataType::Float16 | DataType::Float32 | DataType::Float64 | DataType::Decimal32
            | DataType::Decimal64 | DataType::Decimal128 | DataType::Decimal256 => true,
            _ => false,
        }
    }

    pub fn is_temporal(&self) -> (r: bool)
        ensures
            r == spec_is_temporal(*self),
    {
        match self {
            DataType::Date32 | DataType::Date64 | DataType::Time32 | DataType::Time64
            | DataType::Timestamp | DataType::Duration | DataType::Interval => true,
            _ => false,
        }
    }

    /// Classification is total: an unfamiliar type is textual.
    pub fn classify(&self) -> (r: ColumnType)
        ensures
            r == spec_classify(*self),
    {
        if self.is_temporal() {
            ColumnType::Temporal
        } else if self.is_numeric() {
            ColumnType::Numeric
        } else {
            match self {
                DataType::List | DataType::LargeList => ColumnType::ListLike,
                _ => ColumnType::Textual,
            }
        }
    }

    /// Boolean and Binary columns get no minimum or maximum.
    pub fn is_bool_or_binary(&self) -> (r: bool)
        ensures
            r == (*self == DataType::Boolean || *self == DataType::Binary),
    {
        match self {
            DataType::Boolean | DataType::Binary => true,
            _ => false,
        }
    }
}

impl ColumnType {
    pub fn normalization(&self) -> (r: Normalization)
        ensures
            r == spec_normalization(*self),
    {
        match self {
            ColumnType::Temporal => Normalization::CastFloat64,
            ColumnType::Numeric => Normalization::Identity,
            ColumnType::ListLike => Normalization::ArrayLength,
            ColumnType::Textual => Normalization::StringLength,
        }
    }

    pub fn display_cast(&self) -> (r: DisplayCast)
        ensures
            r == spec_display_cast(*self),
    {
        match self {
            ColumnType::Temporal => DisplayCast::Temporal,
            ColumnType::ListLike => DisplayCast::Int32,
            _ => DisplayCast::Keep,
        }
    }
}

/// A named, typed column of a dataset.
#[derive(Clone, Debug)]
pub struct Field {
    pub name: String,
    pub data_type: DataType,
}

impl Field {
    pub fn new(name: String, data_type: DataType) -> (r: Field)
        ensures
            r.name@ == name@,
            r.data_type == data_type,
    {
        Field { name, data_type }
    }
}

} // verus!
