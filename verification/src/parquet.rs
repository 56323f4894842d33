//! The scan planner and its partitions: files are enumerated elsewhere and
//! handed in as plain descriptors; here they are split into contiguous
//! partitions, their statistics aggregated up to an optional row limit, and
//! the pruning predicate compiled.

use vstd::prelude::*;
use vstd::arithmetic::div_mod::{
    lemma_div_is_ordered, lemma_fundamental_div_mod, lemma_fundamental_div_mod_converse,
    lemma_mod_bound,
};
use vstd::seq_lib::lemma_flatten_concat;
use vstd::string::StringExecFns;
use crate::encoding::{spec_decimal_digits, spec_join_with};
use crate::error::DataFusionError;
use crate::expr::Expr;
use crate::metrics::{ParquetExecMetrics, ParquetPartitionMetrics};
use crate::pruning::{spec_rewrite, PruningPredicate};
use crate::schema::{Field, Schema};
use crate::stats::{
    get_statistics_with_limit, spec_clamp_usize, spec_stats_count, spec_sum_bytes, spec_sum_rows,
    sum_bytes_prefix, sum_rows_prefix, FilePartition, PartitionedFile, Statistics,
};

verus! {

/// How many chunks of size `n` cover `len` items.
pub open spec fn spec_ceil_div(len: int, n: int) -> int {
    (len + n - 1) / n
}

/// Basic facts about `spec_ceil_div`: it is the least count of `n`-sized
/// chunks covering `len` items.
pub proof fn lemma_ceil_div_props(len: int, n: int)
    requires
        n >= 1,
        len >= 0,
    ensures
        spec_ceil_div(len, n) * n >= len,
        len >= 1 ==> spec_ceil_div(len, n) >= 1,
        len == 0 ==> spec_ceil_div(len, n) == 0,
{
    lemma_fundamental_div_mod(len + n - 1, n);
    lemma_mod_bound(len + n - 1, n);
    let q = spec_ceil_div(len, n);
    let r = (len + n - 1) % n;
    assert(len + n - 1 == n * q + r);
    assert(n * q >= len);
    assert(q * n >= len) by (nonlinear_arith)
        requires
            n * q >= len,
    ;
    if len >= 1 {
        assert(q >= 1) by (nonlinear_arith)
            requires
                n >= 1,
                n * q >= len,
                len >= 1,
        ;
    }
    if len == 0 {
        lemma_fundamental_div_mod_converse(n - 1, n, 0, n - 1);
    }
}

/// Contiguous chunks of `s`, each of size `c` but the last, which holds the
/// remainder.
pub open spec fn spec_chunks<T>(s: Seq<T>, c: int) -> Seq<Seq<T>>
    decreases s.len(),
    when c >= 1 || s.len() == 0
{
    if s.len() == 0 {
        Seq::empty()
    } else if s.len() <= c {
        seq![s]
    } else {
        seq![s.take(c)] + spec_chunks(s.skip(c), c)
    }
}

/// Chunks concatenate back to the original sequence: they cover it,
/// disjointly, in order.
pub proof fn lemma_chunks_flatten<T>(s: Seq<T>, c: int)
    requires
        c >= 1,
    ensures
        spec_chunks(s, c).flatten() == s,
    decreases s.len(),
{
    if s.len() == 0 {
        assert(spec_chunks(s, c).flatten() =~= s);
    } else if s.len() <= c {
        seq![s].lemma_flatten_one_element();
    } else {
        lemma_chunks_flatten(s.skip(c), c);
        lemma_flatten_concat(seq![s.take(c)], spec_chunks(s.skip(c), c));
        seq![s.take(c)].lemma_flatten_one_element();
        assert(s.take(c) + s.skip(c) =~= s);
    }
}

/// The number of chunks is the ceiling of the division.
pub proof fn lemma_chunks_count<T>(s: Seq<T>, c: int)
    requires
        c >= 1,
    ensures
        spec_chunks(s, c).len() == spec_ceil_div(s.len() as int, c),
    decreases s.len(),
{
    let len = s.len() as int;
    if s.len() == 0 {
        lemma_fundamental_div_mod_converse(len + c - 1, c, 0, c - 1);
    } else if s.len() <= c {
        lemma_fundamental_div_mod_converse(len + c - 1, c, 1, len - 1);
    } else {
        lemma_chunks_count(s.skip(c), c);
        let rest = len - c;
        let q = spec_ceil_div(rest, c);
        lemma_fundamental_div_mod(rest + c - 1, c);
        lemma_mod_bound(rest + c - 1, c);
        let r = (rest + c - 1) % c;
        assert((q + 1) * c + r == len + c - 1) by (nonlinear_arith)
            requires
                rest + c - 1 == c * q + r,
                len == rest + c,
        ;
        lemma_fundamental_div_mod_converse(len + c - 1, c, q + 1, r);
    }
}

/// Every chunk is non-empty and no larger than `c`.
pub proof fn lemma_chunks_sizes<T>(s: Seq<T>, c: int)
    requires
        c >= 1,
    ensures
        forall|i: int| 0 <= i < spec_chunks(s, c).len() ==> 0 < (#[trigger] spec_chunks(s, c)[i]).len()
            <= c,
    decreases s.len(),
{
    if s.len() > c {
        lemma_chunks_sizes(s.skip(c), c);
        assert forall|i: int| 0 <= i < spec_chunks(s, c).len() implies 0 < (#[trigger] spec_chunks(
            s,
            c,
        )[i]).len() <= c by {
            if i > 0 {
                assert(spec_chunks(s, c)[i] == spec_chunks(s.skip(c), c)[i - 1]);
            }
        }
    }
}

/// The planner's partitioning law: splitting `s` across `n` workers yields at
/// most `n` partitions that cover `s` disjointly, preserving its order, with
/// none empty.
pub proof fn lemma_partition_cover<T>(s: Seq<T>, n: int)
    requires
        n >= 1,
    ensures
        spec_chunks(s, spec_ceil_div(s.len() as int, n)).flatten() == s,
        spec_chunks(s, spec_ceil_div(s.len() as int, n)).len() <= n,
        forall|i: int| 0 <= i < spec_chunks(s, spec_ceil_div(s.len() as int, n)).len() ==> 0 < (
        #[trigger] spec_chunks(s, spec_ceil_div(s.len() as int, n))[i]).len(),
{
    let len = s.len() as int;
    let c = spec_ceil_div(len, n);
    if s.len() == 0 {
        assert(spec_chunks(s, c).flatten() =~= s);
    } else {
        lemma_ceil_div_props(len, n);
        lemma_chunks_flatten(s, c);
        lemma_chunks_count(s, c);
        lemma_chunks_sizes(s, c);
        // len <= c * n, so ceil(len, c) <= n
        assert(len <= c * n);
        assert(n * c == c * n) by (nonlinear_arith);
        assert(len + c - 1 <= n * c + c - 1);
        lemma_div_is_ordered(len + c - 1, n * c + c - 1, c);
        lemma_fundamental_div_mod_converse(n * c + c - 1, c, n, c - 1);
    }
}

/// Split `items` into contiguous chunks of `chunk` items; the last chunk
/// holds the remainder.
fn chunk_vec<T>(items: Vec<T>, chunk: usize) -> (r: Vec<Vec<T>>)
    requires
        chunk >= 1 || items@.len() == 0,
    ensures
        r@.map_values(|v: Vec<T>| v@) == spec_chunks(items@, chunk as int),
{
    let ghost all = items@;
    let mut out: Vec<Vec<T>> = Vec::new();
    if items.len() == 0 {
        proof {
            assert(out@.map_values(|v: Vec<T>| v@) =~= spec_chunks(all, chunk as int));
        }
        return out;
    }
    let mut rest = items;
    while rest.len() > chunk
        invariant
            chunk >= 1,
            rest@.len() > 0,
            spec_chunks(all, chunk as int) =~= out@.map_values(|v: Vec<T>| v@) + spec_chunks(
                rest@,
                chunk as int,
            ),
        decreases rest@.len(),
    {
        let ghost before = rest@;
        let tail = rest.split_off(chunk);
        proof {
            assert(rest@ =~= before.take(chunk as int));
            assert(tail@ =~= before.skip(chunk as int));
        }
        out.push(rest);
        rest = tail;
        proof {
            assert(spec_chunks(before, chunk as int) == seq![before.take(chunk as int)]
                + spec_chunks(before.skip(chunk as int), chunk as int));
            assert(out@.map_values(|v: Vec<T>| v@) =~= out@.map_values(
                |v: Vec<T>| v@,
            ).drop_last().push(before.take(chunk as int)));
        }
    }
    proof {
        assert(spec_chunks(rest@, chunk as int) =~= seq![rest@]);
    }
    out.push(rest);
    proof {
        assert(out@.map_values(|v: Vec<T>| v@) =~= out@.map_values(|v: Vec<T>| v@));
        assert(out@.map_values(|v: Vec<T>| v@) =~= spec_chunks(all, chunk as int));
    }
    out
}

/// Ceiling division on machine integers.
fn ceil_div(len: usize, n: usize) -> (r: usize)
    requires
        n >= 1,
    ensures
        r as int == spec_ceil_div(len as int, n as int),
{
    let q = len / n;
    let rem = len % n;
    proof {
        lemma_fundamental_div_mod(len as int, n as int);
        lemma_mod_bound(len as int, n as int);
        if rem > 0 {
            assert(q as int <= len as int - 1 && (q as int + 1) * n as int + rem as int - 1
                == len as int + n as int - 1) by (nonlinear_arith)
                requires
                    len as int == n as int * q as int + rem as int,
                    rem >= 1,
                    n >= 1,
                    q >= 0,
            ;
            lemma_fundamental_div_mod_converse(
                len as int + n as int - 1,
                n as int,
                q as int + 1,
                rem as int - 1,
            );
        } else {
            lemma_fundamental_div_mod_converse(
                len as int + n as int - 1,
                n as int,
                q as int,
                n as int - 1,
            );
        }
    }
    if rem > 0 {
        q + 1
    } else {
        q
    }
}

/// Split a list of file names into at most `n` contiguous chunks of equal
/// size but for a shorter final chunk.
pub fn split_files(filenames: &Vec<String>, n: usize) -> (r: Vec<Vec<String>>)
    requires
        n >= 1,
    ensures
        r@.map_values(|v: Vec<String>| v@) == spec_chunks(
            filenames@,
            spec_ceil_div(filenames@.len() as int, n as int),
        ),
{
    let mut owned: Vec<String> = Vec::new();
    let mut i: usize = 0;
    while i < filenames.len()
        invariant
            i <= filenames@.len(),
            owned@ == filenames@.take(i as int),
        decreases filenames@.len() - i,
    {
        owned.push(filenames[i].clone());
        proof {
            assert(owned@ =~= filenames@.take(i + 1int));
        }
        i = i + 1;
    }
    proof {
        assert(owned@ =~= filenames@);
    }
    let chunk = ceil_div(filenames.len(), n);
    proof {
        lemma_ceil_div_props(filenames@.len() as int, n as int);
    }
    chunk_vec(owned, chunk)
}

/// One partition of a scan: an ordered group of files and its metrics.
#[derive(Debug, Clone)]
pub struct ParquetPartition {
    /// The files this partition reads, with the partition's stable index.
    pub file_partition: FilePartition,
    /// Execution metrics of this partition.
    pub metrics: ParquetPartitionMetrics,
}

impl ParquetPartition {
    /// A partition over `files` with stable index `index`.
    pub fn new(files: Vec<PartitionedFile>, index: usize) -> (r: ParquetPartition)
        ensures
            r.file_partition.index == index,
            r.file_partition.files == files,
    {
        ParquetPartition {
            file_partition: FilePartition { index, files },
            metrics: ParquetPartitionMetrics::new(),
        }
    }

    /// The paths of this partition's files, in partition order.
    pub fn filenames(&self) -> (r: Vec<String>)
        ensures
            r@.map_values(|s: String| s@) == self.file_partition.files@.map_values(
                |f: PartitionedFile| f.file_path@,
            ),
    {
        let files = &self.file_partition.files;
        let mut out: Vec<String> = Vec::new();
        let mut i: usize = 0;
        while i < files.len()
            invariant
                i <= files@.len(),
                out@.len() == i,
                forall|j: int| 0 <= j < i ==> (#[trigger] out@[j])@ == files@[j].file_path@,
            decreases files@.len() - i,
        {
            out.push(files[i].file_path.clone());
            i = i + 1;
        }
        proof {
            assert(out@.map_values(|s: String| s@) =~= files@.map_values(
                |f: PartitionedFile| f.file_path@,
            ));
        }
        out
    }

    /// The summary of this partition: the sum of its files' row and byte
    /// counts, clamped at the machine bound.
    pub fn statistics(&self) -> (r: Statistics)
        ensures
            r.num_rows == spec_clamp_usize(spec_sum_rows(self.file_partition.files@)),
            r.total_byte_size == spec_clamp_usize(spec_sum_bytes(self.file_partition.files@)),
            r.column_statistics is None,
    {
        let files = &self.file_partition.files;
        let n = files.len();
        let num_rows = sum_rows_prefix(files, n);
        let total_byte_size = sum_bytes_prefix(files, n);
        proof {
            assert(files@.take(files@.len() as int) =~= files@);
        }
        Statistics { num_rows, total_byte_size, column_statistics: None }
    }
}

/// How a scan's output is split across consumers.
#[derive(Debug, Clone, Copy, PartialEq, Eq, Structural)]
pub enum Partitioning {
    /// `n` partitions with no further structure known.
    UnknownPartitioning(usize),
}

impl Partitioning {
    /// The number of output partitions.
    pub fn partition_count(&self) -> (r: usize)
        ensures
            self matches Partitioning::UnknownPartitioning(n) && r == n,
    {
        match self {
            Partitioning::UnknownPartitioning(n) => *n,
        }
    }
}

/// How a plan asks to be rendered.
#[derive(Debug, Clone, Copy, PartialEq, Eq, Structural)]
pub enum DisplayFormatType {
    Default,
}

/// The projection actually applied: the one given, or all source columns in
/// source order.
pub open spec fn spec_resolved_projection(projection: Option<Vec<usize>>, nfields: nat) -> Seq<
    usize,
> {
    match projection {
        Some(p) => p@,
        None => Seq::new(nfields, |i: int| i as usize),
    }
}

/// The scan: partitions, projected schema, batch size, aggregated statistics,
/// optional compiled pruning predicate, optional row limit, and metrics.
#[derive(Debug)]
pub struct ParquetExec {
    /// Partitions to read.
    pub partitions: Vec<ParquetPartition>,
    /// Schema after projection is applied.
    pub schema: Schema,
    /// Which source columns to load.
    pub projection: Vec<usize>,
    /// Rows per emitted batch.
    pub batch_size: usize,
    /// Statistics of the data set (over the limited prefix of its files).
    pub statistics: Statistics,
    /// Metrics of the overall execution.
    pub metrics: ParquetExecMetrics,
    /// The compiled pruning predicate, when one could be built.
    pub predicate_builder: Option<PruningPredicate>,
    /// Optional bound on the number of rows delivered.
    pub limit: Option<usize>,
}

impl ParquetExec {
    /// Assemble a scan from its parts: the projection is resolved (absent
    /// means all source columns), the schema is projected, and the per-column
    /// statistics are the source column statistics at the projection indices,
    /// in projection order.
    pub fn new(
        partitions: Vec<ParquetPartition>,
        schema: Schema,
        projection: Option<Vec<usize>>,
        statistics: Statistics,
        metrics: ParquetExecMetrics,
        predicate_builder: Option<PruningPredicate>,
        batch_size: usize,
        limit: Option<usize>,
    ) -> (r: ParquetExec)
        requires
            projection matches Some(p) ==> forall|i: int|
                0 <= i < p@.len() ==> (#[trigger] p@[i]) < schema.fields@.len(),
            statistics.column_statistics matches Some(cs) ==> cs@.len() == schema.fields@.len(),
        ensures
            r.projection@ == spec_resolved_projection(projection, schema.fields@.len()),
            r.schema.fields@.len() == r.projection@.len(),
            forall|k: int| 0 <= k < r.projection@.len() ==> r.schema.fields@[k] == schema.fields@[(
            #[trigger] r.projection@[k]) as int],
            r.statistics.num_rows == statistics.num_rows,
            r.statistics.total_byte_size == statistics.total_byte_size,
            match (statistics.column_statistics, r.statistics.column_statistics) {
                (None, None) => true,
                (Some(cs), Some(rcs)) => rcs@.len() == r.projection@.len() && forall|k: int|
                    0 <= k < rcs@.len() ==> rcs@[k] == cs@[(#[trigger] r.projection@[k]) as int],
                _ => false,
            },
            r.partitions == partitions,
            r.batch_size == batch_size,
            r.limit == limit,
            r.metrics == metrics,
            r.predicate_builder == predicate_builder,
    {
        let nfields = schema.fields.len();
        let resolved: Vec<usize> = match projection {
            Some(p) => p,
            None => {
                let mut all: Vec<usize> = Vec::new();
                let mut i: usize = 0;
                while i < nfields
                    invariant
                        i <= nfields,
                        all@.len() == i,
                        forall|j: int| 0 <= j < i ==> (#[trigger] all@[j]) == j,
                    decreases nfields - i,
                {
                    all.push(i);
                    i = i + 1;
                }
                proof {
                    assert(all@ =~= Seq::new(schema.fields@.len(), |i: int| i as usize));
                }
                all
            },
        };
        let mut fields: Vec<Field> = Vec::new();
        let mut i: usize = 0;
        while i < resolved.len()
            invariant
                i <= resolved@.len(),
                fields@.len() == i,
                forall|j: int| 0 <= j < resolved@.len() ==> (#[trigger] resolved@[j])
                    < schema.fields@.len(),
                forall|k: int| 0 <= k < i ==> (#[trigger] fields@[k]) == schema.fields@[resolved@[k] as int],
            decreases resolved@.len() - i,
        {
            fields.push(schema.field(resolved[i]).duplicate());
            i = i + 1;
        }
        let projected_schema = Schema { fields };
        let column_statistics: Option<Vec<crate::stats::ColumnStatistics>> = match
            &statistics.column_statistics {
            None => None,
            Some(cs) => {
                let mut out: Vec<crate::stats::ColumnStatistics> = Vec::new();
                let mut k: usize = 0;
                while k < resolved.len()
                    invariant
                        k <= resolved@.len(),
                        out@.len() == k,
                        cs@.len() == schema.fields@.len(),
                        forall|j: int| 0 <= j < resolved@.len() ==> (#[trigger] resolved@[j])
                            < schema.fields@.len(),
                        forall|j: int| 0 <= j < k ==> (#[trigger] out@[j]) == cs@[resolved@[j] as int],
                    decreases resolved@.len() - k,
                {
                    out.push(cs[resolved[k]].duplicate());
                    k = k + 1;
                }
                Some(out)
            },
        };
        let statistics = Statistics {
            num_rows: statistics.num_rows,
            total_byte_size: statistics.total_byte_size,
            column_statistics,
        };
        ParquetExec {
            partitions,
            schema: projected_schema,
            projection: resolved,
            batch_size,
            statistics,
            metrics,
            predicate_builder,
            limit,
        }
    }

    /// Plan a scan over already-enumerated files sharing `schema`: aggregate
    /// statistics up to the limit, split the files into at most
    /// `max_concurrency` contiguous partitions in discovery order, compile
    /// the predicate (a failure downgrades pruning and bumps the creation
    /// metric), and resolve the projection.
    pub fn try_new(
        files: Vec<PartitionedFile>,
        schema: Schema,
        projection: Option<Vec<usize>>,
        predicate: Option<Expr>,
        batch_size: usize,
        max_concurrency: usize,
        limit: Option<usize>,
    ) -> (r: Result<ParquetExec, DataFusionError>)
        requires
            batch_size >= 1,
            max_concurrency >= 1,
            projection matches Some(p) ==> forall|i: int|
                0 <= i < p@.len() ==> (#[trigger] p@[i]) < schema.fields@.len(),
        ensures
            r matches Ok(p) ==> {
                let c = spec_ceil_div(files@.len() as int, max_concurrency as int);
                let layout = spec_chunks(files@, c);
                &&& p.partitions@.len() == layout.len()
                &&& forall|i: int| 0 <= i < layout.len() ==> (#[trigger] p.partitions@[i]).file_partition.index
                    == i && p.partitions@[i].file_partition.files@ == layout[i]
                &&& p.batch_size == batch_size
                &&& p.limit == limit
                &&& p.statistics.num_rows == spec_clamp_usize(
                    spec_sum_rows(files@.take(spec_stats_count(files@, limit))),
                )
                &&& p.statistics.total_byte_size == spec_clamp_usize(
                    spec_sum_bytes(files@.take(spec_stats_count(files@, limit))),
                )
                &&& p.statistics.column_statistics is None
                &&& p.projection@ == spec_resolved_projection(projection, schema.fields@.len())
                &&& p.schema.fields@.len() == p.projection@.len()
                &&& forall|k: int| 0 <= k < p.projection@.len() ==> p.schema.fields@[k]
                    == schema.fields@[(#[trigger] p.projection@[k]) as int]
                &&& match predicate {
                    None => p.predicate_builder is None,
                    Some(e) => match spec_rewrite(e, schema.fields@) {
                        Some(pe) => p.predicate_builder matches Some(pb) && pb.predicate_expr == pe
                            && pb.schema.fields@ == schema.fields@,
                        None => p.predicate_builder is None,
                    },
                }
            },
            r is Ok,
    {
        let (all_files, statistics) = get_statistics_with_limit(files, limit);
        let chunk = ceil_div(all_files.len(), max_concurrency);
        proof {
            lemma_ceil_div_props(all_files@.len() as int, max_concurrency as int);
        }
        let ghost file_views = all_files@;
        let mut chunks = chunk_vec(all_files, chunk);
        let ghost layout = spec_chunks(file_views, chunk as int);
        let mut partitions: Vec<ParquetPartition> = Vec::new();
        let mut index: usize = 0;
        let total = chunks.len();
        proof {
            assert forall|j: int| 0 <= j < chunks@.len() implies (#[trigger] chunks@[j])@
                == layout[j] by {
                assert(chunks@.map_values(|v: Vec<PartitionedFile>| v@)[j] == chunks@[j]@);
            }
        }
        while chunks.len() > 0
            invariant
                partitions@.len() == index,
                layout.len() == total as int,
                index + chunks@.len() == layout.len(),
                forall|j: int| 0 <= j < chunks@.len() ==> (#[trigger] chunks@[j])@ == layout[index
                    + j],
                forall|i: int| 0 <= i < index ==> (#[trigger] partitions@[i]).file_partition.index
                    == i && partitions@[i].file_partition.files@ == layout[i],
            decreases chunks@.len(),
        {
            let ghost before = chunks@;
            let group = chunks.remove(0);
            proof {
                assert(group@ == layout[index as int]);
                assert forall|j: int| 0 <= j < chunks@.len() implies (#[trigger] chunks@[j])@
                    == layout[index + 1 + j] by {
                    assert(chunks@[j] == before[j + 1]);
                }
            }
            partitions.push(ParquetPartition::new(group, index));
            index = index + 1;
        }
        let metrics = ParquetExecMetrics::new();
        let predicate_builder: Option<PruningPredicate> = match &predicate {
            None => None,
            Some(e) => match PruningPredicate::try_new(e, schema.duplicate()) {
                Ok(pb) => Some(pb),
                Err(_) => {
                    metrics.predicate_creation_errors.add(1);
                    None
                },
            },
        };
        Ok(
            ParquetExec::new(
                partitions,
                schema,
                projection,
                statistics,
                metrics,
                predicate_builder,
                batch_size,
                limit,
            ),
        )
    }

    /// Partitions to read.
    pub fn partitions(&self) -> (r: &Vec<ParquetPartition>)
        ensures
            r == &self.partitions,
    {
        &self.partitions
    }

    /// Which source columns the scan loads.
    pub fn projection(&self) -> (r: &Vec<usize>)
        ensures
            r == &self.projection,
    {
        &self.projection
    }

    /// Rows per emitted batch.
    pub fn batch_size(&self) -> (r: usize)
        ensures
            r == self.batch_size,
    {
        self.batch_size
    }

    /// Statistics of the data set, summed over the limited file prefix.
    pub fn statistics(&self) -> (r: &Statistics)
        ensures
            r == &self.statistics,
    {
        &self.statistics
    }

    /// The projected schema the scan emits.
    pub fn schema(&self) -> (r: &Schema)
        ensures
            r == &self.schema,
    {
        &self.schema
    }

    /// A scan is a leaf: it has no children.
    pub fn children(&self) -> (r: Vec<ParquetExec>)
        ensures
            r@.len() == 0,
    {
        Vec::new()
    }

    /// The scan's output partitioning: one unknown partition per planned
    /// partition.
    pub fn output_partitioning(&self) -> (r: Partitioning)
        ensures
            r == Partitioning::UnknownPartitioning(self.partitions@.len() as usize),
    {
        Partitioning::UnknownPartitioning(self.partitions.len())
    }

    /// A leaf accepts only an empty replacement list of children and is then
    /// returned unchanged.
    pub fn with_new_children(self, children: Vec<ParquetExec>) -> (r: Result<
        ParquetExec,
        DataFusionError,
    >)
        ensures
            children@.len() == 0 ==> (r matches Ok(p) && p == self),
            children@.len() > 0 ==> (r matches Err(e) && e is Internal),
    {
        if children.len() == 0 {
            Ok(self)
        } else {
            Err(DataFusionError::Internal("children cannot be replaced in a scan".to_owned()))
        }
    }

    /// The partition a consumer asked to execute: its files and metrics, or
    /// an internal error when no such partition exists (an empty scan has
    /// none).
    pub fn execute_partition(&self, partition: usize) -> (r: Result<
        &ParquetPartition,
        DataFusionError,
    >)
        ensures
            partition < self.partitions@.len() ==> (r matches Ok(p) && p == &self.partitions@[partition as int]),
            partition >= self.partitions@.len() ==> (r matches Err(e) && e is Internal),
    {
        if partition < self.partitions.len() {
            Ok(&self.partitions[partition])
        } else {
            Err(DataFusionError::Internal("no such partition".to_owned()))
        }
    }
}

/// Planning is deterministic: two scans built over the same discovered files,
/// concurrency and limit have the same partition layout and the same
/// aggregated statistics.
pub proof fn lemma_scan_deterministic(
    files: Seq<PartitionedFile>,
    n: int,
    limit: Option<usize>,
    layout1: Seq<Seq<PartitionedFile>>,
    layout2: Seq<Seq<PartitionedFile>>,
    rows1: nat,
    rows2: nat,
    bytes1: nat,
    bytes2: nat,
)
    requires
        layout1 == spec_chunks(files, spec_ceil_div(files.len() as int, n)),
        layout2 == spec_chunks(files, spec_ceil_div(files.len() as int, n)),
        rows1 == spec_clamp_usize(spec_sum_rows(files.take(spec_stats_count(files, limit)))),
        rows2 == spec_clamp_usize(spec_sum_rows(files.take(spec_stats_count(files, limit)))),
        bytes1 == spec_clamp_usize(spec_sum_bytes(files.take(spec_stats_count(files, limit)))),
        bytes2 == spec_clamp_usize(spec_sum_bytes(files.take(spec_stats_count(files, limit)))),
    ensures
        layout1 == layout2,
        rows1 == rows2,
        bytes1 == bytes2,
{
}

/// Rows a partition worker delivers under limit `l`: batches are sent whole,
/// and the worker stops after the batch that makes the running total reach
/// the limit.
pub open spec fn spec_rows_delivered(batches: Seq<usize>, l: int) -> int
    decreases batches.len(),
{
    if batches.len() == 0 {
        0
    } else if batches[0] >= l {
        batches[0] as int
    } else {
        batches[0] + spec_rows_delivered(batches.skip(1), l - batches[0])
    }
}

/// The limit law: a worker that stops once its running total reaches limit
/// `l`, sending batches of at most `batch_size` rows, delivers at most
/// `l + batch_size - 1` rows before end-of-stream.
pub proof fn lemma_limit_delivery_bound(batches: Seq<usize>, l: int, batch_size: int)
    requires
        l >= 1,
        batch_size >= 1,
        forall|i: int| 0 <= i < batches.len() ==> (#[trigger] batches[i]) <= batch_size,
    ensures
        spec_rows_delivered(batches, l) <= l + batch_size - 1,
    decreases batches.len(),
{
    if batches.len() > 0 && batches[0] < l {
        assert forall|i: int| 0 <= i < batches.skip(1).len() implies (#[trigger] batches.skip(
            1,
        )[i]) <= batch_size by {
            assert(batches.skip(1)[i] == batches[i + 1]);
        }
        lemma_limit_delivery_bound(batches.skip(1), l - batches[0], batch_size);
    }
}

/// The running decision of a partition worker under an optional row limit.
#[derive(Debug, Clone)]
pub struct RowLimiter {
    /// Rows delivered so far, clamped at the machine bound.
    pub total_rows: usize,
    /// The optional limit.
    pub limit: Option<usize>,
}

impl RowLimiter {
    /// A fresh limiter that has delivered nothing.
    pub fn new(limit: Option<usize>) -> (r: RowLimiter)
        ensures
            r.total_rows == 0,
            r.limit == limit,
    {
        RowLimiter { total_rows: 0, limit }
    }

    /// Record one delivered batch; the result says whether the worker must
    /// now stop because the limit has been reached.
    pub fn record_batch(&mut self, rows: usize) -> (stop: bool)
        ensures
            final(self).limit == old(self).limit,
            final(self).total_rows == spec_clamp_usize((old(self).total_rows + rows) as nat),
            stop == match old(self).limit {
                Some(l) => final(self).total_rows >= l,
                None => false,
            },
    {
        self.total_rows = match self.total_rows.checked_add(rows) {
            Some(v) => v,
            None => usize::MAX,
        };
        match self.limit {
            Some(l) => self.total_rows >= l,
            None => false,
        }
    }
}

/// The error a partition worker reports when decoding a batch of `path`
/// fails with `detail`: it is terminal for the partition.
pub fn batch_read_failure(path: &str, detail: &str) -> (r: DataFusionError)
    ensures
        r is Decode,
        r.spec_message() == "Error reading batch from "@ + path@ + ": "@ + detail@,
{
    let mut msg = String::new();
    msg.append("Error reading batch from ");
    msg.append(path);
    msg.append(": ");
    msg.append(detail);
    proof {
        assert(msg@ =~= "Error reading batch from "@ + path@ + ": "@ + detail@);
    }
    DataFusionError::Decode(msg)
}

/// The paths of one partition's files, as text.
pub open spec fn spec_partition_paths(p: ParquetPartition) -> Seq<Seq<char>> {
    p.file_partition.files@.map_values(|f: PartitionedFile| f.file_path@)
}

/// How an optional row limit is rendered.
pub open spec fn spec_limit_display(limit: Option<usize>) -> Seq<char> {
    match limit {
        None => "None"@,
        Some(l) => "Some("@ + spec_decimal_digits(l as nat) + ")"@,
    }
}

/// The one-line rendering of a scan: its batch size, its limit, and its
/// partitions, each shown as its file paths.
pub open spec fn spec_scan_display(e: ParquetExec) -> Seq<char> {
    "ParquetExec: batch_size="@ + spec_decimal_digits(e.batch_size as nat) + ", limit="@
        + spec_limit_display(e.limit) + ", partitions=["@ + spec_join_with(
        e.partitions@.map_values(|p: ParquetPartition| spec_join_with(spec_partition_paths(p), ", "@)),
        ", "@,
    ) + "]"@
}

impl ParquetExec {
    /// Render the scan for the given display mode.
    pub fn fmt_as(&self, t: DisplayFormatType) -> (r: String)
        ensures
            r@ == spec_scan_display(*self),
    {
        match t {
            DisplayFormatType::Default => {},
        }
        let mut parts: Vec<String> = Vec::new();
        let mut i: usize = 0;
        while i < self.partitions.len()
            invariant
                i <= self.partitions@.len(),
                parts@.len() == i,
                forall|j: int| 0 <= j < i ==> (#[trigger] parts@[j])@ == spec_join_with(
                    spec_partition_paths(self.partitions@[j]),
                    ", "@,
                ),
            decreases self.partitions@.len() - i,
        {
            let names = self.partitions[i].filenames();
            parts.push(crate::encoding::join_with(&names, ", "));
            i = i + 1;
        }
        let mut out = String::new();
        out.append("ParquetExec: batch_size=");
        let batch = crate::encoding::u64_to_string(self.batch_size as u64);
        out.append(batch.as_str());
        out.append(", limit=");
        match self.limit {
            None => out.append("None"),
            Some(l) => {
                out.append("Some(");
                let ls = crate::encoding::u64_to_string(l as u64);
                out.append(ls.as_str());
                out.append(")");
            },
        }
        out.append(", partitions=[");
        let joined = crate::encoding::join_with(&parts, ", ");
        out.append(joined.as_str());
        out.append("]");
        proof {
            assert(parts@.map_values(|s: String| s@) =~= self.partitions@.map_values(
                |p: ParquetPartition| spec_join_with(spec_partition_paths(p), ", "@),
            ));
            assert(out@ =~= spec_scan_display(*self));
        }
        out
    }

    /// The scan's metric counters, by name: two per partition — how often its
    /// predicate could not be evaluated and how many row groups it pruned —
    /// and one scan-wide counter of failed predicate compilations.
    pub fn metrics(&self) -> (r: Vec<(String, usize)>)
        ensures
            r@.len() == 2 * self.partitions@.len() + 1,
            forall|j: int| 0 <= j < self.partitions@.len() ==> (#[trigger] r@[2 * j]).0@
                == "numPredicateEvaluationErrors for "@ + spec_join_with(
                spec_partition_paths(self.partitions@[j]),
                ","@,
            ),
            forall|j: int| 0 <= j < self.partitions@.len() ==> (#[trigger] r@[2 * j + 1]).0@
                == "numRowGroupsPruned for "@ + spec_join_with(
                spec_partition_paths(self.partitions@[j]),
                ","@,
            ),
            r@[2 * self.partitions@.len() as int].0@ == "numPredicateCreationErrors"@,
    {
        let mut out: Vec<(String, usize)> = Vec::new();
        let mut i: usize = 0;
        while i < self.partitions.len()
            invariant
                i <= self.partitions@.len(),
                out@.len() == 2 * i,
                forall|j: int| 0 <= j < i ==> (#[trigger] out@[2 * j]).0@
                    == "numPredicateEvaluationErrors for "@ + spec_join_with(
                    spec_partition_paths(self.partitions@[j]),
                    ","@,
                ),
                forall|j: int| 0 <= j < i ==> (#[trigger] out@[2 * j + 1]).0@
                    == "numRowGroupsPruned for "@ + spec_join_with(
                    spec_partition_paths(self.partitions@[j]),
                    ","@,
                ),
            decreases self.partitions@.len() - i,
        {
            let p = &self.partitions[i];
            let names = p.filenames();
            let joined = crate::encoding::join_with(&names, ",");
            let mut eval_name = String::new();
            eval_name.append("numPredicateEvaluationErrors for ");
            eval_name.append(joined.as_str());
            out.push((eval_name, p.metrics.predicate_evaluation_errors.value()));
            let mut pruned_name = String::new();
            pruned_name.append("numRowGroupsPruned for ");
            pruned_name.append(joined.as_str());
            out.push((pruned_name, p.metrics.row_groups_pruned.value()));
            i = i + 1;
        }
        out.push(("numPredicateCreationErrors".to_owned(), self.metrics.predicate_creation_errors.value()));
        out
    }
}

} // verus!
