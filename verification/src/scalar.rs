//! Scalar values: the closed tagged union over the primitive types the scan
//! understands, and the column data types they belong to.

use vstd::prelude::*;

verus! {

/// Data type of a schema column.
///
/// Floating-point columns are carried by their IEEE-754 bit patterns
/// everywhere in this library; the pruning engine never orders them.
#[derive(Debug, Clone, Copy, PartialEq, Eq, Structural)]
pub enum DataType {
    Boolean,
    Int32,
    Int64,
    Float32,
    Float64,
    Utf8,
}

/// A typed scalar, nullable in every variant.
///
/// `Float32` and `Float64` hold IEEE-754 bit patterns as unsigned integers;
/// the library stores and moves them but never compares them.
#[derive(Debug, Clone)]
pub enum ScalarValue {
    Boolean(Option<bool>),
    Int32(Option<i32>),
    Int64(Option<i64>),
    Float32(Option<u32>),
    Float64(Option<u64>),
    Utf8(Option<String>),
}

impl ScalarValue {
    /// The data type this scalar belongs to.
    pub open spec fn spec_data_type(&self) -> DataType {
        match self {
            ScalarValue::Boolean(_) => DataType::Boolean,
            ScalarValue::Int32(_) => DataType::Int32,
            ScalarValue::Int64(_) => DataType::Int64,
            ScalarValue::Float32(_) => DataType::Float32,
            ScalarValue::Float64(_) => DataType::Float64,
            ScalarValue::Utf8(_) => DataType::Utf8,
        }
    }

    /// The data type this scalar belongs to.
    pub fn data_type(&self) -> (r: DataType)
        ensures
            r == self.spec_data_type(),
    {
        match self {
            ScalarValue::Boolean(_) => DataType::Boolean,
            ScalarValue::Int32(_) => DataType::Int32,
            ScalarValue::Int64(_) => DataType::Int64,
            ScalarValue::Float32(_) => DataType::Float32,
            ScalarValue::Float64(_) => DataType::Float64,
            ScalarValue::Utf8(_) => DataType::Utf8,
        }
    }

    /// Whether the scalar is the null of its type.
    pub open spec fn spec_is_null(&self) -> bool {
        match self {
            ScalarValue::Boolean(v) => v is None,
            ScalarValue::Int32(v) => v is None,
            ScalarValue::Int64(v) => v is None,
            ScalarValue::Float32(v) => v is None,
            ScalarValue::Float64(v) => v is None,
            ScalarValue::Utf8(v) => v is None,
        }
    }

    /// Whether the scalar is the null of its type.
    pub fn is_null(&self) -> (r: bool)
        ensures
            r == self.spec_is_null(),
    {
        match self {
            ScalarValue::Boolean(v) => v.is_none(),
            ScalarValue::Int32(v) => v.is_none(),
            ScalarValue::Int64(v) => v.is_none(),
            ScalarValue::Float32(v) => v.is_none(),
            ScalarValue::Float64(v) => v.is_none(),
            ScalarValue::Utf8(v) => v.is_none(),
        }
    }
}

/// The null scalar of a data type: what the statistics adapter emits when a
/// row group carries no usable summary for a column.
pub open spec fn spec_null_scalar(dt: DataType) -> ScalarValue {
    match dt {
        DataType::Boolean => ScalarValue::Boolean(None),
        DataType::Int32 => ScalarValue::Int32(None),
        DataType::Int64 => ScalarValue::Int64(None),
        DataType::Float32 => ScalarValue::Float32(None),
        DataType::Float64 => ScalarValue::Float64(None),
        DataType::Utf8 => ScalarValue::Utf8(None),
    }
}

/// The null scalar of a data type.
pub fn null_scalar(dt: DataType) -> (r: ScalarValue)
    ensures
        r == spec_null_scalar(dt),
{
    match dt {
        DataType::Boolean => ScalarValue::Boolean(None),
        DataType::Int32 => ScalarValue::Int32(None),
        DataType::Int64 => ScalarValue::Int64(None),
        DataType::Float32 => ScalarValue::Float32(None),
        DataType::Float64 => ScalarValue::Float64(None),
        DataType::Utf8 => ScalarValue::Utf8(None),
    }
}

} // verus!
