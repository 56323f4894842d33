//! Scan-level statistics: per-file summaries, their aggregation up to an
//! optional row limit, and the file descriptors the planner partitions.

use vstd::prelude::*;
use crate::scalar::ScalarValue;

verus! {

/// Per-column summary of a data set.
#[derive(Debug, Clone)]
pub struct ColumnStatistics {
    pub null_count: Option<usize>,
    pub max_value: Option<ScalarValue>,
    pub min_value: Option<ScalarValue>,
    pub distinct_count: Option<usize>,
}

/// Summary of a data set: row count, byte size, and optional per-column
/// summaries.
#[derive(Debug, Clone)]
pub struct Statistics {
    pub num_rows: usize,
    pub total_byte_size: usize,
    pub column_statistics: Option<Vec<ColumnStatistics>>,
}

/// A file of the scan: its path and its pre-fetched summary.
#[derive(Debug, Clone)]
pub struct PartitionedFile {
    pub file_path: String,
    pub statistics: Statistics,
}

/// An ordered group of files worked by one partition, with the partition's
/// stable index.
#[derive(Debug, Clone)]
pub struct FilePartition {
    pub index: usize,
    pub files: Vec<PartitionedFile>,
}

impl ScalarValue {
    /// A copy equal to `self`.
    pub fn duplicate(&self) -> (r: ScalarValue)
        ensures
            r == *self,
    {
        match self {
            ScalarValue::Boolean(v) => ScalarValue::Boolean(*v),
            ScalarValue::Int32(v) => ScalarValue::Int32(*v),
            ScalarValue::Int64(v) => ScalarValue::Int64(*v),
            ScalarValue::Float32(v) => ScalarValue::Float32(*v),
            ScalarValue::Float64(v) => ScalarValue::Float64(*v),
            ScalarValue::Utf8(v) => match v {
                None => ScalarValue::Utf8(None),
                Some(s) => ScalarValue::Utf8(Some(s.clone())),
            },
        }
    }
}

impl ColumnStatistics {
    /// A copy equal to `self`.
    pub fn duplicate(&self) -> (r: ColumnStatistics)
        ensures
            r == *self,
    {
        ColumnStatistics {
            null_count: self.null_count,
            max_value: match &self.max_value {
                None => None,
                Some(v) => Some(v.duplicate()),
            },
            min_value: match &self.min_value {
                None => None,
                Some(v) => Some(v.duplicate()),
            },
            distinct_count: self.distinct_count,
        }
    }
}

impl PartitionedFile {
    /// A file descriptor over the given path and summary.
    pub fn new(file_path: &str, statistics: Statistics) -> (r: PartitionedFile)
        ensures
            r.file_path@ == file_path@,
            r.statistics == statistics,
    {
        PartitionedFile { file_path: file_path.to_owned(), statistics }
    }
}

/// Sum of the row counts of `files`, unbounded.
pub open spec fn spec_sum_rows(files: Seq<PartitionedFile>) -> nat
    decreases files.len(),
{
    if files.len() == 0 {
        0
    } else {
        (spec_sum_rows(files.drop_last()) + files.last().statistics.num_rows) as nat
    }
}

/// Sum of the byte sizes of `files`, unbounded.
pub open spec fn spec_sum_bytes(files: Seq<PartitionedFile>) -> nat
    decreases files.len(),
{
    if files.len() == 0 {
        0
    } else {
        (spec_sum_bytes(files.drop_last()) + files.last().statistics.total_byte_size) as nat
    }
}

/// A sum clamped to what a machine word holds.
pub open spec fn spec_clamp_usize(n: nat) -> nat {
    if n > usize::MAX {
        usize::MAX as nat
    } else {
        n
    }
}

/// How many leading files contribute to the aggregated statistics: all of
/// them without a limit; with limit `l`, every file up to and including the
/// one at which the cumulative row count first reaches `l`.
pub open spec fn spec_stats_cutoff(files: Seq<PartitionedFile>, l: int) -> int
    decreases files.len(),
{
    if files.len() == 0 {
        0
    } else if files[0].statistics.num_rows >= l {
        1
    } else {
        1 + spec_stats_cutoff(files.skip(1), l - files[0].statistics.num_rows)
    }
}

/// The number of contributing files under an optional limit.
pub open spec fn spec_stats_count(files: Seq<PartitionedFile>, limit: Option<usize>) -> int {
    match limit {
        None => files.len() as int,
        Some(l) => spec_stats_cutoff(files, l as int),
    }
}

/// Count the contributing prefix of `files` under `limit`; mirrors
/// `spec_stats_cutoff` from `start`.
fn stats_cutoff_from(files: &Vec<PartitionedFile>, start: usize, l: usize) -> (r: usize)
    requires
        start <= files@.len(),
    ensures
        r - start == spec_stats_cutoff(files@.skip(start as int), l as int),
        start <= r <= files@.len(),
    decreases files@.len() - start,
{
    if start == files.len() {
        assert(files@.skip(start as int) =~= Seq::<PartitionedFile>::empty());
        start
    } else {
        let ghost suffix = files@.skip(start as int);
        assert(suffix[0] == files@[start as int]);
        if files[start].statistics.num_rows >= l {
            start + 1
        } else {
            let rest = l - files[start].statistics.num_rows;
            let r = stats_cutoff_from(files, start + 1, rest);
            assert(suffix.skip(1) =~= files@.skip(start + 1int));
            r
        }
    }
}

/// Clamped row sum of the prefix `files[..n]`.
pub fn sum_rows_prefix(files: &Vec<PartitionedFile>, n: usize) -> (r: usize)
    requires
        n <= files@.len(),
    ensures
        r == spec_clamp_usize(spec_sum_rows(files@.take(n as int))),
{
    let mut acc: usize = 0;
    let mut i: usize = 0;
    while i < n
        invariant
            i <= n <= files@.len(),
            acc == spec_clamp_usize(spec_sum_rows(files@.take(i as int))),
        decreases n - i,
    {
        proof {
            assert(files@.take(i + 1int).drop_last() =~= files@.take(i as int));
            assert(files@.take(i + 1int).last() == files@[i as int]);
        }
        acc = match acc.checked_add(files[i].statistics.num_rows) {
            Some(v) => v,
            None => usize::MAX,
        };
        i = i + 1;
    }
    proof {
        assert(files@.take(n as int) =~= files@.take(n as int));
    }
    acc
}

/// Clamped byte sum of the prefix `files[..n]`.
pub fn sum_bytes_prefix(files: &Vec<PartitionedFile>, n: usize) -> (r: usize)
    requires
        n <= files@.len(),
    ensures
        r == spec_clamp_usize(spec_sum_bytes(files@.take(n as int))),
{
    let mut acc: usize = 0;
    let mut i: usize = 0;
    while i < n
        invariant
            i <= n <= files@.len(),
            acc == spec_clamp_usize(spec_sum_bytes(files@.take(i as int))),
        decreases n - i,
    {
        proof {
            assert(files@.take(i + 1int).drop_last() =~= files@.take(i as int));
            assert(files@.take(i + 1int).last() == files@[i as int]);
        }
        acc = match acc.checked_add(files[i].statistics.total_byte_size) {
            Some(v) => v,
            None => usize::MAX,
        };
        i = i + 1;
    }
    acc
}

/// Collect the files of a scan together with the scan-level summary: row and
/// byte counts are summed (clamped at the machine bound) over the prefix of
/// files whose cumulative row count first reaches the limit; files beyond the
/// cutoff still appear but do not contribute.
pub fn get_statistics_with_limit(files: Vec<PartitionedFile>, limit: Option<usize>) -> (r: (
    Vec<PartitionedFile>,
    Statistics,
))
    ensures
        r.0 == files,
        r.1.num_rows == spec_clamp_usize(
            spec_sum_rows(files@.take(spec_stats_count(files@, limit))),
        ),
        r.1.total_byte_size == spec_clamp_usize(
            spec_sum_bytes(files@.take(spec_stats_count(files@, limit))),
        ),
        r.1.column_statistics is None,
{
    let n: usize = match limit {
        None => files.len(),
        Some(l) => {
            let c = stats_cutoff_from(&files, 0, l);
            proof {
                assert(files@.skip(0) =~= files@);
            }
            c
        },
    };
    let num_rows = sum_rows_prefix(&files, n);
    let total_byte_size = sum_bytes_prefix(&files, n);
    (files, Statistics { num_rows, total_byte_size, column_statistics: None })
}

} // verus!
