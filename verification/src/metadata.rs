//! Row-group metadata: for each horizontal slab of a columnar file, its row
//! count, byte size, and per-column statistics summaries.

use vstd::prelude::*;

verus! {

/// Typed min/max summary of one column chunk.
///
/// The integer-96 and fixed-length-byte-array physical types are accepted in
/// files but carry no usable summary: the adapter treats them as "no
/// statistics" and the row group is never pruned on them. Floating-point
/// summaries hold IEEE-754 bit patterns and are likewise never ordered.
#[derive(Debug, Clone)]
pub enum ColumnStatistics {
    Boolean { min_max: Option<(bool, bool)> },
    Int32 { min_max: Option<(i32, i32)> },
    Int64 { min_max: Option<(i64, i64)> },
    Int96,
    Float32 { min_max: Option<(u32, u32)> },
    Float64 { min_max: Option<(u64, u64)> },
    ByteArray { min_max: Option<(Vec<u8>, Vec<u8>)> },
    FixedLenByteArray,
}

/// Statistics of one column chunk within a row group.
#[derive(Debug, Clone)]
pub struct ColumnChunkMetaData {
    /// The min/max summary, absent when the writer recorded none.
    pub statistics: Option<ColumnStatistics>,
    /// Number of nulls in the chunk.
    pub null_count: u64,
    /// Number of distinct values, when recorded.
    pub distinct_count: Option<u64>,
}

/// Metadata of one row group.
#[derive(Debug, Clone)]
pub struct RowGroupMetaData {
    pub num_rows: u64,
    pub total_byte_size: u64,
    /// Per-column statistics, in schema order.
    pub columns: Vec<ColumnChunkMetaData>,
}

/// A 32-bit-integer column summary; `min` and `max` must be both present or
/// both absent for the summary to count as set.
pub fn int32_statistics(min: Option<i32>, max: Option<i32>, distinct: Option<u64>, nulls: u64) -> (r:
    ColumnChunkMetaData)
    ensures
        r.null_count == nulls,
        r.distinct_count == distinct,
        match (min, max) {
            (Some(mn), Some(mx)) => r.statistics == Some(
                ColumnStatistics::Int32 { min_max: Some((mn, mx)) },
            ),
            _ => r.statistics == Some(ColumnStatistics::Int32 { min_max: None::<(i32, i32)> }),
        },
{
    let min_max = match (min, max) {
        (Some(mn), Some(mx)) => Some((mn, mx)),
        _ => None,
    };
    ColumnChunkMetaData {
        statistics: Some(ColumnStatistics::Int32 { min_max }),
        null_count: nulls,
        distinct_count: distinct,
    }
}

/// A 64-bit-integer column summary.
pub fn int64_statistics(min: Option<i64>, max: Option<i64>, distinct: Option<u64>, nulls: u64) -> (r:
    ColumnChunkMetaData)
    ensures
        r.null_count == nulls,
        r.distinct_count == distinct,
        match (min, max) {
            (Some(mn), Some(mx)) => r.statistics == Some(
                ColumnStatistics::Int64 { min_max: Some((mn, mx)) },
            ),
            _ => r.statistics == Some(ColumnStatistics::Int64 { min_max: None::<(i64, i64)> }),
        },
{
    let min_max = match (min, max) {
        (Some(mn), Some(mx)) => Some((mn, mx)),
        _ => None,
    };
    ColumnChunkMetaData {
        statistics: Some(ColumnStatistics::Int64 { min_max }),
        null_count: nulls,
        distinct_count: distinct,
    }
}

/// A boolean column summary.
pub fn boolean_statistics(
    min: Option<bool>,
    max: Option<bool>,
    distinct: Option<u64>,
    nulls: u64,
) -> (r: ColumnChunkMetaData)
    ensures
        r.null_count == nulls,
        r.distinct_count == distinct,
        match (min, max) {
            (Some(mn), Some(mx)) => r.statistics == Some(
                ColumnStatistics::Boolean { min_max: Some((mn, mx)) },
            ),
            _ => r.statistics == Some(ColumnStatistics::Boolean { min_max: None::<(bool, bool)> }),
        },
{
    let min_max = match (min, max) {
        (Some(mn), Some(mx)) => Some((mn, mx)),
        _ => None,
    };
    ColumnChunkMetaData {
        statistics: Some(ColumnStatistics::Boolean { min_max }),
        null_count: nulls,
        distinct_count: distinct,
    }
}

impl RowGroupMetaData {
    /// A row group over the given column chunks.
    pub fn new(num_rows: u64, total_byte_size: u64, columns: Vec<ColumnChunkMetaData>) -> (r:
        RowGroupMetaData)
        ensures
            r.num_rows == num_rows,
            r.total_byte_size == total_byte_size,
            r.columns == columns,
    {
        RowGroupMetaData { num_rows, total_byte_size, columns }
    }
}

} // verus!
