//! Row-group pruning: compiles a user predicate into min/max statistics
//! algebra, evaluates it per row group with null propagation, and proves that
//! a pruned row group can hold no tuple satisfying the predicate.

use vstd::prelude::*;
use vstd::utf8::{decode_utf8, valid_utf8};
use crate::encoding::utf8_to_string;
use crate::error::DataFusionError;
use crate::expr::{Expr, Operator};
use crate::metadata::{ColumnChunkMetaData, ColumnStatistics, RowGroupMetaData};
use crate::metrics::ParquetPartitionMetrics;
use crate::scalar::{null_scalar, spec_null_scalar, DataType, ScalarValue};
use crate::schema::{spec_column_index, Field, Schema};

verus! {

/// Comparison operators that survive compilation.
#[derive(Debug, Clone, Copy, PartialEq, Eq, Structural)]
pub enum CmpOp {
    Lt,
    LtEq,
    Gt,
    GtEq,
}

/// Which summary of a column a compiled comparison reads.
#[derive(Debug, Clone, Copy, PartialEq, Eq, Structural)]
pub enum StatBound {
    Min,
    Max,
}

/// An integer literal a compiled comparison holds; only integer columns are
/// ever ordered by the engine.
#[derive(Debug, Clone, Copy, PartialEq, Eq, Structural)]
pub enum IntLiteral {
    Int32(i32),
    Int64(i64),
}

/// A compiled pruning expression, evaluated per row group over its statistics
/// with three-valued logic: a missing operand makes the result unknown, and
/// unknown never prunes.
#[derive(Debug)]
pub enum PruningExpr {
    /// A subexpression the engine does not understand: never restricts.
    AlwaysTrue,
    /// A comparison over a column type the engine cannot order: unknown.
    Unknown,
    /// `bound(column) op literal`.
    Compare { column: usize, bound: StatBound, op: CmpOp, literal: IntLiteral },
    And(Box<PruningExpr>, Box<PruningExpr>),
    Or(Box<PruningExpr>, Box<PruningExpr>),
}

/// Three-valued conjunction with strict null propagation.
pub open spec fn spec_and3(a: Option<bool>, b: Option<bool>) -> Option<bool> {
    match (a, b) {
        (Some(x), Some(y)) => Some(x && y),
        _ => None,
    }
}

/// Three-valued disjunction with strict null propagation.
pub open spec fn spec_or3(a: Option<bool>, b: Option<bool>) -> Option<bool> {
    match (a, b) {
        (Some(x), Some(y)) => Some(x || y),
        _ => None,
    }
}

/// Integer comparison.
pub open spec fn spec_cmp_int(a: int, op: CmpOp, b: int) -> bool {
    match op {
        CmpOp::Lt => a < b,
        CmpOp::LtEq => a <= b,
        CmpOp::Gt => a > b,
        CmpOp::GtEq => a >= b,
    }
}

/// The integer value of a compiled literal.
pub open spec fn spec_lit_int(l: IntLiteral) -> int {
    match l {
        IntLiteral::Int32(v) => v as int,
        IntLiteral::Int64(v) => v as int,
    }
}

/// The min or max summary of a column chunk, as an integer, when the chunk
/// carries a set summary of the same integer type as the literal.
pub open spec fn spec_stat_value(c: ColumnChunkMetaData, bound: StatBound, lit: IntLiteral) -> Option<
    int,
> {
    match (c.statistics, lit) {
        (Some(ColumnStatistics::Int32 { min_max: Some(mm) }), IntLiteral::Int32(_)) => Some(
            if bound is Min {
                mm.0 as int
            } else {
                mm.1 as int
            },
        ),
        (Some(ColumnStatistics::Int64 { min_max: Some(mm) }), IntLiteral::Int64(_)) => Some(
            if bound is Min {
                mm.0 as int
            } else {
                mm.1 as int
            },
        ),
        _ => None,
    }
}

/// Evaluate a compiled expression against one row group's statistics.
pub open spec fn spec_eval_pruning(e: PruningExpr, rg: RowGroupMetaData) -> Option<bool>
    decreases e,
{
    match e {
        PruningExpr::AlwaysTrue => Some(true),
        PruningExpr::Unknown => None,
        PruningExpr::Compare { column, bound, op, literal } => {
            if column < rg.columns@.len() {
                match spec_stat_value(rg.columns@[column as int], bound, literal) {
                    Some(s) => Some(spec_cmp_int(s, op, spec_lit_int(literal))),
                    None => None,
                }
            } else {
                None
            }
        },
        PruningExpr::And(a, b) => spec_and3(spec_eval_pruning(*a, rg), spec_eval_pruning(*b, rg)),
        PruningExpr::Or(a, b) => spec_or3(spec_eval_pruning(*a, rg), spec_eval_pruning(*b, rg)),
    }
}

/// A row group is kept unless the compiled expression evaluates to a definite
/// `false` over its statistics.
pub open spec fn spec_keep(e: PruningExpr, rg: RowGroupMetaData) -> bool {
    spec_eval_pruning(e, rg) != Some(false)
}

/// Compile one comparison of a column (at `idx`, of type `dt`) with a literal.
pub open spec fn spec_rewrite_cmp(idx: usize, dt: DataType, op: Operator, sv: ScalarValue) -> PruningExpr {
    let lit = match (dt, sv) {
        (DataType::Int32, ScalarValue::Int32(Some(v))) => Some(IntLiteral::Int32(v)),
        (DataType::Int64, ScalarValue::Int64(Some(v))) => Some(IntLiteral::Int64(v)),
        _ => None,
    };
    match lit {
        None => PruningExpr::Unknown,
        Some(l) => match op {
            Operator::Gt => PruningExpr::Compare {
                column: idx,
                bound: StatBound::Max,
                op: CmpOp::Gt,
                literal: l,
            },
            Operator::GtEq => PruningExpr::Compare {
                column: idx,
                bound: StatBound::Max,
                op: CmpOp::GtEq,
                literal: l,
            },
            Operator::Lt => PruningExpr::Compare {
                column: idx,
                bound: StatBound::Min,
                op: CmpOp::Lt,
                literal: l,
            },
            Operator::LtEq => PruningExpr::Compare {
                column: idx,
                bound: StatBound::Min,
                op: CmpOp::LtEq,
                literal: l,
            },
            Operator::Eq => PruningExpr::And(
                Box::new(
                    PruningExpr::Compare {
                        column: idx,
                        bound: StatBound::Min,
                        op: CmpOp::LtEq,
                        literal: l,
                    },
                ),
                Box::new(
                    PruningExpr::Compare {
                        column: idx,
                        bound: StatBound::Max,
                        op: CmpOp::GtEq,
                        literal: l,
                    },
                ),
            ),
            _ => PruningExpr::AlwaysTrue,
        },
    }
}

/// Compile a predicate into a pruning expression over the schema's columns.
/// `None` is a creation failure: a compared column is absent from the schema.
pub open spec fn spec_rewrite(e: Expr, fields: Seq<Field>) -> Option<PruningExpr>
    decreases e,
{
    match e {
        Expr::BinaryExpr { left, op, right } => match op {
            Operator::And => match (spec_rewrite(*left, fields), spec_rewrite(*right, fields)) {
                (Some(a), Some(b)) => Some(PruningExpr::And(Box::new(a), Box::new(b))),
                _ => None,
            },
            Operator::Or => match (spec_rewrite(*left, fields), spec_rewrite(*right, fields)) {
                (Some(a), Some(b)) => Some(PruningExpr::Or(Box::new(a), Box::new(b))),
                _ => None,
            },
            Operator::Modulo => Some(PruningExpr::AlwaysTrue),
            _ => match (*left, *right) {
                (Expr::Column(name), Expr::Literal(sv)) => match spec_column_index(fields, name@) {
                    None => None,
                    Some(idx) => Some(
                        spec_rewrite_cmp(idx as usize, fields[idx].data_type, op, sv),
                    ),
                },
                _ => Some(PruningExpr::AlwaysTrue),
            },
        },
        _ => Some(PruningExpr::AlwaysTrue),
    }
}

/// Compile one comparison; mirrors `spec_rewrite_cmp`.
fn rewrite_cmp(idx: usize, dt: DataType, op: Operator, sv: &ScalarValue) -> (r: PruningExpr)
    ensures
        r == spec_rewrite_cmp(idx, dt, op, *sv),
{
    let lit: Option<IntLiteral> = match (dt, sv) {
        (DataType::Int32, ScalarValue::Int32(Some(v))) => Some(IntLiteral::Int32(*v)),
        (DataType::Int64, ScalarValue::Int64(Some(v))) => Some(IntLiteral::Int64(*v)),
        _ => None,
    };
    match lit {
        None => PruningExpr::Unknown,
        Some(l) => match op {
            Operator::Gt => PruningExpr::Compare {
                column: idx,
                bound: StatBound::Max,
                op: CmpOp::Gt,
                literal: l,
            },
            Operator::GtEq => PruningExpr::Compare {
                column: idx,
                bound: StatBound::Max,
                op: CmpOp::GtEq,
                literal: l,
            },
            Operator::Lt => PruningExpr::Compare {
                column: idx,
                bound: StatBound::Min,
                op: CmpOp::Lt,
                literal: l,
            },
            Operator::LtEq => PruningExpr::Compare {
                column: idx,
                bound: StatBound::Min,
                op: CmpOp::LtEq,
                literal: l,
            },
            Operator::Eq => PruningExpr::And(
                Box::new(
                    PruningExpr::Compare {
                        column: idx,
                        bound: StatBound::Min,
                        op: CmpOp::LtEq,
                        literal: l,
                    },
                ),
                Box::new(
                    PruningExpr::Compare {
                        column: idx,
                        bound: StatBound::Max,
                        op: CmpOp::GtEq,
                        literal: l,
                    },
                ),
            ),
            _ => PruningExpr::AlwaysTrue,
        },
    }
}

/// Compile a predicate; mirrors `spec_rewrite`.
fn rewrite(e: &Expr, schema: &Schema) -> (r: Result<PruningExpr, DataFusionError>)
    ensures
        match r {
            Ok(pe) => spec_rewrite(*e, schema.fields@) == Some(pe),
            Err(err) => err is SchemaMismatch && spec_rewrite(*e, schema.fields@) is None,
        },
    decreases *e,
{
    match e {
        Expr::BinaryExpr { left, op, right } => match op {
            Operator::And => {
                let a = rewrite(left, schema)?;
                let b = rewrite(right, schema)?;
                Ok(PruningExpr::And(Box::new(a), Box::new(b)))
            },
            Operator::Or => {
                let a = rewrite(left, schema)?;
                let b = rewrite(right, schema)?;
                Ok(PruningExpr::Or(Box::new(a), Box::new(b)))
            },
            Operator::Modulo => Ok(PruningExpr::AlwaysTrue),
            _ => match (&**left, &**right) {
                (Expr::Column(name), Expr::Literal(sv)) => match schema.column_with_name(
                    name.as_str(),
                ) {
                    None => Err(
                        DataFusionError::SchemaMismatch(
                            "predicate references a column absent from the schema".to_owned(),
                        ),
                    ),
                    Some((idx, field)) => Ok(rewrite_cmp(idx, field.data_type, *op, sv)),
                },
                _ => Ok(PruningExpr::AlwaysTrue),
            },
        },
        _ => Ok(PruningExpr::AlwaysTrue),
    }
}

/// Evaluate a compiled expression against one row group; mirrors
/// `spec_eval_pruning`.
fn eval_pruning(e: &PruningExpr, rg: &RowGroupMetaData) -> (r: Option<bool>)
    ensures
        r == spec_eval_pruning(*e, *rg),
    decreases *e,
{
    match e {
        PruningExpr::AlwaysTrue => Some(true),
        PruningExpr::Unknown => None,
        PruningExpr::Compare { column, bound, op, literal } => {
            if *column < rg.columns.len() {
                let c = &rg.columns[*column];
                let stat: Option<i128> = match (&c.statistics, literal) {
                    (Some(ColumnStatistics::Int32 { min_max: Some(mm) }), IntLiteral::Int32(_)) => {
                        Some(if matches!(bound, StatBound::Min) { mm.0 as i128 } else { mm.1 as i128 })
                    },
                    (Some(ColumnStatistics::Int64 { min_max: Some(mm) }), IntLiteral::Int64(_)) => {
                        Some(if matches!(bound, StatBound::Min) { mm.0 as i128 } else { mm.1 as i128 })
                    },
                    _ => None,
                };
                match stat {
                    None => None,
                    Some(s) => {
                        let b: i128 = match literal {
                            IntLiteral::Int32(v) => *v as i128,
                            IntLiteral::Int64(v) => *v as i128,
                        };
                        let outcome = match op {
                            CmpOp::Lt => s < b,
                            CmpOp::LtEq => s <= b,
                            CmpOp::Gt => s > b,
                            CmpOp::GtEq => s >= b,
                        };
                        Some(outcome)
                    },
                }
            } else {
                None
            }
        },
        PruningExpr::And(a, b) => match (eval_pruning(a, rg), eval_pruning(b, rg)) {
            (Some(x), Some(y)) => Some(x && y),
            _ => None,
        },
        PruningExpr::Or(a, b) => match (eval_pruning(a, rg), eval_pruning(b, rg)) {
            (Some(x), Some(y)) => Some(x || y),
            _ => None,
        },
    }
}

/// Every row group carries one statistics entry per schema column; the
/// engine refuses to evaluate otherwise.
pub open spec fn spec_stats_compatible(schema: Schema, rgs: Seq<RowGroupMetaData>) -> bool {
    forall|k: int| 0 <= k < rgs.len() ==> (#[trigger] rgs[k]).columns@.len() == schema.fields@.len()
}

/// A compiled pruning predicate: given the statistics of K row groups it
/// produces a keep/drop vector of length K, where `true` means the row group
/// must be read.
#[derive(Debug)]
pub struct PruningPredicate {
    /// The schema the predicate was compiled against.
    pub schema: Schema,
    /// The compiled statistics expression.
    pub predicate_expr: PruningExpr,
}

impl PruningPredicate {
    /// Compile `expr` against `schema`. Fails exactly when a comparison in
    /// `expr` names a column the schema does not have.
    pub fn try_new(expr: &Expr, schema: Schema) -> (r: Result<PruningPredicate, DataFusionError>)
        ensures
            match r {
                Ok(p) => spec_rewrite(*expr, schema.fields@) == Some(p.predicate_expr) && p.schema
                    == schema,
                Err(err) => err is SchemaMismatch && spec_rewrite(*expr, schema.fields@) is None,
            },
    {
        let predicate_expr = rewrite(expr, &schema)?;
        Ok(PruningPredicate { schema, predicate_expr })
    }

    /// The schema the predicate was compiled against.
    pub fn schema(&self) -> (r: &Schema)
        ensures
            r == &self.schema,
    {
        &self.schema
    }

    /// The keep/drop vector over `row_groups`: entry `k` is `false` only when
    /// the statistics prove no tuple of row group `k` satisfies the
    /// predicate. Fails exactly when some row group's statistics do not line
    /// up with the schema.
    pub fn prune(&self, row_groups: &Vec<RowGroupMetaData>) -> (r: Result<
        Vec<bool>,
        DataFusionError,
    >)
        ensures
            match r {
                Ok(v) => spec_stats_compatible(self.schema, row_groups@) && v@.len()
                    == row_groups@.len() && forall|k: int|
                    0 <= k < v@.len() ==> v@[k] == spec_keep(self.predicate_expr, row_groups@[k]),
                Err(err) => err is StatisticsUnavailable && !spec_stats_compatible(
                    self.schema,
                    row_groups@,
                ),
            },
    {
        let mut i: usize = 0;
        while i < row_groups.len()
            invariant
                i <= row_groups@.len(),
                forall|k: int| 0 <= k < i ==> (#[trigger] row_groups@[k]).columns@.len()
                    == self.schema.fields@.len(),
            decreases row_groups@.len() - i,
        {
            if row_groups[i].columns.len() != self.schema.fields.len() {
                return Err(
                    DataFusionError::StatisticsUnavailable(
                        "row group statistics do not match the schema".to_owned(),
                    ),
                );
            }
            i = i + 1;
        }
        let mut values: Vec<bool> = Vec::new();
        let mut k: usize = 0;
        while k < row_groups.len()
            invariant
                k <= row_groups@.len(),
                values@.len() == k,
                forall|j: int| 0 <= j < k ==> values@[j] == spec_keep(
                    self.predicate_expr,
                    row_groups@[j],
                ),
            decreases row_groups@.len() - k,
        {
            let outcome = eval_pruning(&self.predicate_expr, &row_groups[k]);
            let keep = match outcome {
                Some(b) => b,
                None => true,
            };
            values.push(keep);
            k = k + 1;
        }
        Ok(values)
    }
}

/// The decision a partition worker applies to each row group of a file:
/// either the keep vector the predicate produced, or keep-everything when the
/// predicate could not be evaluated.
#[derive(Debug, Clone)]
pub struct RowGroupPredicate {
    /// Keep decisions per row group; `None` keeps every row group.
    pub values: Option<Vec<bool>>,
}

impl RowGroupPredicate {
    /// The decision for row group `index`.
    pub open spec fn spec_keep_at(&self, index: int) -> bool {
        match self.values {
            None => true,
            Some(v) => v@[index],
        }
    }

    /// Whether row group `index` must be read.
    pub fn keep(&self, index: usize) -> (r: bool)
        requires
            self.values matches Some(v) ==> index < v@.len(),
        ensures
            r == self.spec_keep_at(index as int),
    {
        match &self.values {
            None => true,
            Some(v) => v[index],
        }
    }
}

/// How many row groups a keep vector drops.
pub open spec fn spec_count_pruned(v: Seq<bool>) -> nat
    decreases v.len(),
{
    if v.len() == 0 {
        0
    } else {
        spec_count_pruned(v.drop_last()) + if v.last() {
            0nat
        } else {
            1nat
        }
    }
}

/// Count the dropped row groups of a keep vector.
pub fn count_pruned(v: &Vec<bool>) -> (r: usize)
    ensures
        r == spec_count_pruned(v@),
{
    proof {
        lemma_count_pruned_bound(v@);
    }
    let mut n: usize = 0;
    let mut i: usize = 0;
    while i < v.len()
        invariant
            i <= v@.len(),
            n == spec_count_pruned(v@.take(i as int)),
            n <= i,
        decreases v@.len() - i,
    {
        proof {
            assert(v@.take(i + 1int).drop_last() =~= v@.take(i as int));
            assert(v@.take(i + 1int).last() == v@[i as int]);
        }
        if !v[i] {
            n = n + 1;
        }
        i = i + 1;
    }
    proof {
        assert(v@.take(v@.len() as int) =~= v@);
    }
    n
}

/// A keep vector never drops more row groups than it has entries.
proof fn lemma_count_pruned_bound(v: Seq<bool>)
    ensures
        spec_count_pruned(v) <= v.len(),
    decreases v.len(),
{
    if v.len() > 0 {
        lemma_count_pruned_bound(v.drop_last());
    }
}

/// Build the per-row-group decision for one file. On success the keep vector
/// is closed over and the number of dropped row groups is counted into
/// `row_groups_pruned`; on failure `predicate_evaluation_errors` is bumped
/// and every row group is kept.
pub fn build_row_group_predicate(
    predicate_builder: &PruningPredicate,
    metrics: &ParquetPartitionMetrics,
    row_group_metadata: &Vec<RowGroupMetaData>,
) -> (r: RowGroupPredicate)
    ensures
        spec_stats_compatible(predicate_builder.schema, row_group_metadata@) ==> match r.values {
            Some(v) => v@.len() == row_group_metadata@.len() && forall|k: int|
                0 <= k < v@.len() ==> v@[k] == spec_keep(
                    predicate_builder.predicate_expr,
                    row_group_metadata@[k],
                ),
            None => false,
        },
        !spec_stats_compatible(predicate_builder.schema, row_group_metadata@) ==> r.values is None,
{
    match predicate_builder.prune(row_group_metadata) {
        Ok(values) => {
            let num_pruned = count_pruned(&values);
            metrics.row_groups_pruned.add(num_pruned);
            RowGroupPredicate { values: Some(values) }
        },
        Err(_) => {
            metrics.predicate_evaluation_errors.add(1);
            RowGroupPredicate { values: None }
        },
    }
}

/// The data type of the scalar a set, supported summary would produce; `None`
/// when the summary is unset or of an unsupported physical type and the null
/// scalar is emitted instead.
pub open spec fn spec_stat_type(st: ColumnStatistics) -> Option<DataType> {
    match st {
        ColumnStatistics::Boolean { min_max: Some(_) } => Some(DataType::Boolean),
        ColumnStatistics::Int32 { min_max: Some(_) } => Some(DataType::Int32),
        ColumnStatistics::Int64 { min_max: Some(_) } => Some(DataType::Int64),
        ColumnStatistics::Float32 { min_max: Some(_) } => Some(DataType::Float32),
        ColumnStatistics::Float64 { min_max: Some(_) } => Some(DataType::Float64),
        ColumnStatistics::ByteArray { min_max: Some(_) } => Some(DataType::Utf8),
        _ => None,
    }
}

/// Whether one row group would emit a scalar of a type other than the
/// column's: folding such a sequence into a typed array fails.
pub open spec fn spec_rg_mismatch(rg: RowGroupMetaData, idx: int, dt: DataType) -> bool {
    0 <= idx < rg.columns@.len() && match rg.columns@[idx].statistics {
        Some(st) => match spec_stat_type(st) {
            Some(t) => t != dt,
            None => false,
        },
        None => false,
    }
}

/// Whether any row group's summary for the column disagrees with its type.
pub open spec fn spec_stats_mismatch(rgs: Seq<RowGroupMetaData>, idx: int, dt: DataType) -> bool {
    exists|k: int| 0 <= k < rgs.len() && spec_rg_mismatch(#[trigger] rgs[k], idx, dt)
}

/// The scalar the adapter emits for one row group and one column: the typed
/// min or max when the summary is set, supported and of the column's type;
/// the null scalar of the column's type otherwise. Byte arrays are read as
/// UTF-8, falling back to the null string on invalid bytes.
pub open spec fn spec_adapter_scalar(
    rg: RowGroupMetaData,
    idx: int,
    want_max: bool,
    dt: DataType,
    r: ScalarValue,
) -> bool {
    if 0 <= idx < rg.columns@.len() {
        match rg.columns@[idx].statistics {
            None => r == spec_null_scalar(dt),
            Some(st) => match st {
                ColumnStatistics::Boolean { min_max: Some(mm) } => r == ScalarValue::Boolean(
                    Some(
                        if want_max {
                            mm.1
                        } else {
                            mm.0
                        },
                    ),
                ),
                ColumnStatistics::Int32 { min_max: Some(mm) } => r == ScalarValue::Int32(
                    Some(
                        if want_max {
                            mm.1
                        } else {
                            mm.0
                        },
                    ),
                ),
                ColumnStatistics::Int64 { min_max: Some(mm) } => r == ScalarValue::Int64(
                    Some(
                        if want_max {
                            mm.1
                        } else {
                            mm.0
                        },
                    ),
                ),
                ColumnStatistics::Float32 { min_max: Some(mm) } => r == ScalarValue::Float32(
                    Some(
                        if want_max {
                            mm.1
                        } else {
                            mm.0
                        },
                    ),
                ),
                ColumnStatistics::Float64 { min_max: Some(mm) } => r == ScalarValue::Float64(
                    Some(
                        if want_max {
                            mm.1
                        } else {
                            mm.0
                        },
                    ),
                ),
                ColumnStatistics::ByteArray { min_max: Some(mm) } => {
                    let bytes = if want_max {
                        mm.1
                    } else {
                        mm.0
                    };
                    if valid_utf8(bytes@) {
                        r matches ScalarValue::Utf8(Some(s)) && s@ == decode_utf8(bytes@)
                    } else {
                        r == ScalarValue::Utf8(None::<String>)
                    }
                },
                _ => r == spec_null_scalar(dt),
            },
        }
    } else {
        r == spec_null_scalar(dt)
    }
}

/// Projects per-row-group min/max summaries into typed scalar arrays the
/// predicate engine consumes: one entry per row group, null entries standing
/// for "unknown", which the engine never prunes on.
pub struct RowGroupPruningStatistics<'a> {
    pub row_group_metadata: &'a Vec<RowGroupMetaData>,
    pub parquet_schema: &'a Schema,
}

impl<'a> RowGroupPruningStatistics<'a> {
    /// The min (or max) scalars of `column` across all row groups: `None`
    /// when the column is not in the schema, or when some row group's
    /// summary has a type other than the column's (the fold would fail);
    /// otherwise one scalar per row group, null where the summary is absent,
    /// unset or unsupported.
    fn stat_values(&self, want_max: bool, column: &str) -> (r: Option<Vec<ScalarValue>>)
        ensures
            match r {
                None => match spec_column_index(self.parquet_schema.fields@, column@) {
                    None => true,
                    Some(idx) => spec_stats_mismatch(
                        self.row_group_metadata@,
                        idx,
                        self.parquet_schema.fields@[idx].data_type,
                    ),
                },
                Some(v) => match spec_column_index(self.parquet_schema.fields@, column@) {
                    None => false,
                    Some(idx) => !spec_stats_mismatch(
                        self.row_group_metadata@,
                        idx,
                        self.parquet_schema.fields@[idx].data_type,
                    ) && v@.len() == self.row_group_metadata@.len() && forall|k: int|
                        0 <= k < v@.len() ==> spec_adapter_scalar(
                            self.row_group_metadata@[k],
                            idx,
                            want_max,
                            self.parquet_schema.fields@[idx].data_type,
                            #[trigger] v@[k],
                        ),
                },
            },
    {
        let (idx, dt) = match self.parquet_schema.column_with_name(column) {
            None => {
                return None;
            },
            Some((idx, field)) => (idx, field.data_type),
        };
        proof {
            crate::schema::lemma_column_index_props(self.parquet_schema.fields@, column@);
            assert(spec_column_index(self.parquet_schema.fields@, column@) == Some(idx as int));
            assert(idx < self.parquet_schema.fields@.len());
        }
        let mut out: Vec<ScalarValue> = Vec::new();
        let mut k: usize = 0;
        while k < self.row_group_metadata.len()
            invariant
                k <= self.row_group_metadata@.len(),
                out@.len() == k,
                spec_column_index(self.parquet_schema.fields@, column@) == Some(idx as int),
                idx < self.parquet_schema.fields@.len(),
                dt == self.parquet_schema.fields@[idx as int].data_type,
                forall|j: int| 0 <= j < k ==> !spec_rg_mismatch(
                    #[trigger] self.row_group_metadata@[j],
                    idx as int,
                    dt,
                ),
                forall|j: int| 0 <= j < k ==> spec_adapter_scalar(
                    self.row_group_metadata@[j],
                    idx as int,
                    want_max,
                    dt,
                    #[trigger] out@[j],
                ),
            decreases self.row_group_metadata@.len() - k,
        {
            let rg = &self.row_group_metadata[k];
            let scalar: ScalarValue = if idx < rg.columns.len() {
                match &rg.columns[idx].statistics {
                    None => null_scalar(dt),
                    Some(st) => match st {
                        ColumnStatistics::Boolean { min_max } => match min_max {
                            Some(mm) => {
                                if dt == DataType::Boolean {
                                    ScalarValue::Boolean(Some(if want_max { mm.1 } else { mm.0 }))
                                } else {
                                    return None;
                                }
                            },
                            None => null_scalar(dt),
                        },
                        ColumnStatistics::Int32 { min_max } => match min_max {
                            Some(mm) => {
                                if dt == DataType::Int32 {
                                    ScalarValue::Int32(Some(if want_max { mm.1 } else { mm.0 }))
                                } else {
                                    return None;
                                }
                            },
                            None => null_scalar(dt),
                        },
                        ColumnStatistics::Int64 { min_max } => match min_max {
                            Some(mm) => {
                                if dt == DataType::Int64 {
                                    ScalarValue::Int64(Some(if want_max { mm.1 } else { mm.0 }))
                                } else {
                                    return None;
                                }
                            },
                            None => null_scalar(dt),
                        },
                        ColumnStatistics::Float32 { min_max } => match min_max {
                            Some(mm) => {
                                if dt == DataType::Float32 {
                                    ScalarValue::Float32(Some(if want_max { mm.1 } else { mm.0 }))
                                } else {
                                    return None;
                                }
                            },
                            None => null_scalar(dt),
                        },
                        ColumnStatistics::Float64 { min_max } => match min_max {
                            Some(mm) => {
                                if dt == DataType::Float64 {
                                    ScalarValue::Float64(Some(if want_max { mm.1 } else { mm.0 }))
                                } else {
                                    return None;
                                }
                            },
                            None => null_scalar(dt),
                        },
                        ColumnStatistics::ByteArray { min_max } => match min_max {
                            Some(mm) => {
                                if dt == DataType::Utf8 {
                                    let bytes = if want_max { &mm.1 } else { &mm.0 };
                                    match utf8_to_string(bytes.as_slice()) {
                                        Some(s) => ScalarValue::Utf8(Some(s)),
                                        None => ScalarValue::Utf8(None),
                                    }
                                } else {
                                    return None;
                                }
                            },
                            None => null_scalar(dt),
                        },
                        ColumnStatistics::Int96 => null_scalar(dt),
                        ColumnStatistics::FixedLenByteArray => null_scalar(dt),
                    },
                }
            } else {
                null_scalar(dt)
            };
            out.push(scalar);
            k = k + 1;
        }
        Some(out)
    }

    /// The minimum scalars of `column` across all row groups.
    pub fn min_values(&self, column: &str) -> (r: Option<Vec<ScalarValue>>)
        ensures
            match r {
                None => match spec_column_index(self.parquet_schema.fields@, column@) {
                    None => true,
                    Some(idx) => spec_stats_mismatch(
                        self.row_group_metadata@,
                        idx,
                        self.parquet_schema.fields@[idx].data_type,
                    ),
                },
                Some(v) => match spec_column_index(self.parquet_schema.fields@, column@) {
                    None => false,
                    Some(idx) => v@.len() == self.row_group_metadata@.len() && forall|k: int|
                        0 <= k < v@.len() ==> spec_adapter_scalar(
                            self.row_group_metadata@[k],
                            idx,
                            false,
                            self.parquet_schema.fields@[idx].data_type,
                            #[trigger] v@[k],
                        ),
                },
            },
    {
        self.stat_values(false, column)
    }

    /// The maximum scalars of `column` across all row groups.
    pub fn max_values(&self, column: &str) -> (r: Option<Vec<ScalarValue>>)
        ensures
            match r {
                None => match spec_column_index(self.parquet_schema.fields@, column@) {
                    None => true,
                    Some(idx) => spec_stats_mismatch(
                        self.row_group_metadata@,
                        idx,
                        self.parquet_schema.fields@[idx].data_type,
                    ),
                },
                Some(v) => match spec_column_index(self.parquet_schema.fields@, column@) {
                    None => false,
                    Some(idx) => v@.len() == self.row_group_metadata@.len() && forall|k: int|
                        0 <= k < v@.len() ==> spec_adapter_scalar(
                            self.row_group_metadata@[k],
                            idx,
                            true,
                            self.parquet_schema.fields@[idx].data_type,
                            #[trigger] v@[k],
                        ),
                },
            },
    {
        self.stat_values(true, column)
    }

    /// The number of row groups the adapter summarizes.
    pub fn num_containers(&self) -> (r: usize)
        ensures
            r == self.row_group_metadata@.len(),
    {
        self.row_group_metadata.len()
    }
}

/// What a predicate means on one tuple: three-valued comparison of a tuple's
/// value with a literal. Values of types the engine does not order compare
/// unknown, except equality on booleans and strings.
pub open spec fn spec_cmp_values(v: ScalarValue, op: Operator, lit: ScalarValue) -> Option<bool> {
    match (v, lit) {
        (ScalarValue::Int32(Some(a)), ScalarValue::Int32(Some(b))) => match op {
            Operator::Eq => Some(a == b),
            Operator::Lt => Some((a as int) < b as int),
            Operator::LtEq => Some(a as int <= b as int),
            Operator::Gt => Some(a as int > b as int),
            Operator::GtEq => Some(a as int >= b as int),
            _ => None,
        },
        (ScalarValue::Int64(Some(a)), ScalarValue::Int64(Some(b))) => match op {
            Operator::Eq => Some(a == b),
            Operator::Lt => Some((a as int) < b as int),
            Operator::LtEq => Some(a as int <= b as int),
            Operator::Gt => Some(a as int > b as int),
            Operator::GtEq => Some(a as int >= b as int),
            _ => None,
        },
        (ScalarValue::Boolean(Some(a)), ScalarValue::Boolean(Some(b))) => match op {
            Operator::Eq => Some(a == b),
            _ => None,
        },
        (ScalarValue::Utf8(Some(a)), ScalarValue::Utf8(Some(b))) => match op {
            Operator::Eq => Some(a@ == b@),
            _ => None,
        },
        _ => None,
    }
}

/// What a predicate means on one tuple of a row group: `row` gives each
/// column's value in schema order; the result is three-valued, and a tuple
/// satisfies the predicate only when the result is a definite `true`.
pub open spec fn spec_eval_expr(e: Expr, fields: Seq<Field>, row: Seq<ScalarValue>) -> Option<bool>
    decreases e,
{
    match e {
        Expr::BinaryExpr { left, op, right } => match op {
            Operator::And => spec_and3(
                spec_eval_expr(*left, fields, row),
                spec_eval_expr(*right, fields, row),
            ),
            Operator::Or => spec_or3(
                spec_eval_expr(*left, fields, row),
                spec_eval_expr(*right, fields, row),
            ),
            Operator::Modulo => None,
            _ => match (*left, *right) {
                (Expr::Column(name), Expr::Literal(lit)) => match spec_column_index(
                    fields,
                    name@,
                ) {
                    None => None,
                    Some(idx) => if 0 <= idx < row.len() {
                        spec_cmp_values(row[idx], op, lit)
                    } else {
                        None
                    },
                },
                _ => None,
            },
        },
        Expr::Literal(sv) => match sv {
            ScalarValue::Boolean(Some(b)) => Some(b),
            _ => None,
        },
        _ => None,
    }
}

/// Whether a tuple's value is consistent with a column chunk's statistics:
/// the statistics constrain exactly the non-null values of the type they
/// summarize, and say nothing about anything else.
pub open spec fn spec_value_in_stats(v: ScalarValue, c: ColumnChunkMetaData) -> bool {
    match c.statistics {
        None => true,
        Some(st) => match (v, st) {
            (ScalarValue::Int32(Some(x)), ColumnStatistics::Int32 { min_max: Some(mm) }) => mm.0
                <= x <= mm.1,
            (ScalarValue::Int64(Some(x)), ColumnStatistics::Int64 { min_max: Some(mm) }) => mm.0
                <= x <= mm.1,
            _ => true,
        },
    }
}

/// A tuple a row group can contain: each column's value lies within that
/// column's recorded min/max summary.
pub open spec fn spec_row_admitted(rg: RowGroupMetaData, row: Seq<ScalarValue>) -> bool {
    forall|i: int| 0 <= i < row.len() && i < rg.columns@.len() ==> spec_value_in_stats(
        #[trigger] row[i],
        rg.columns@[i],
    )
}

/// Soundness of pruning: for every predicate and every row group, if the
/// compiled pruning expression evaluates to a definite `false` over the row
/// group's statistics — that is, the row group is dropped — then no tuple the
/// row group can contain satisfies the predicate.
pub proof fn lemma_pruning_sound(
    e: Expr,
    fields: Seq<Field>,
    rg: RowGroupMetaData,
    row: Seq<ScalarValue>,
)
    requires
        fields.len() <= usize::MAX as int,
        spec_rewrite(e, fields) is Some,
        !spec_keep(spec_rewrite(e, fields)->Some_0, rg),
        spec_row_admitted(rg, row),
    ensures
        spec_eval_expr(e, fields, row) != Some(true),
    decreases e,
{
    let se = spec_rewrite(e, fields)->Some_0;
    match e {
        Expr::BinaryExpr { left, op, right } => match op {
            Operator::And => {
                let sa = spec_rewrite(*left, fields)->Some_0;
                let sb = spec_rewrite(*right, fields)->Some_0;
                assert(spec_eval_pruning(se, rg) == spec_and3(
                    spec_eval_pruning(sa, rg),
                    spec_eval_pruning(sb, rg),
                ));
                if spec_eval_pruning(sa, rg) == Some(false) {
                    lemma_pruning_sound(*left, fields, rg, row);
                } else {
                    lemma_pruning_sound(*right, fields, rg, row);
                }
            },
            Operator::Or => {
                lemma_pruning_sound(*left, fields, rg, row);
                lemma_pruning_sound(*right, fields, rg, row);
            },
            Operator::Modulo => {},
            _ => {
                match (*left, *right) {
                    (Expr::Column(name), Expr::Literal(lit)) => {
                        let idx = spec_column_index(fields, name@)->Some_0;
                        crate::schema::lemma_column_index_props(fields, name@);
                        if 0 <= idx < row.len() {
                            lemma_cmp_sound(name, op, lit, fields, rg, row);
                        }
                    },
                    _ => {},
                }
            },
        },
        _ => {},
    }
}

/// The comparison case of pruning soundness.
proof fn lemma_cmp_sound(
    name: String,
    op: Operator,
    lit: ScalarValue,
    fields: Seq<Field>,
    rg: RowGroupMetaData,
    row: Seq<ScalarValue>,
)
    requires
        !(op is And || op is Or || op is Modulo),
        fields.len() <= usize::MAX as int,
        spec_column_index(fields, name@) is Some,
        !spec_keep(
            spec_rewrite_cmp(
                spec_column_index(fields, name@)->Some_0 as usize,
                fields[spec_column_index(fields, name@)->Some_0].data_type,
                op,
                lit,
            ),
            rg,
        ),
        spec_row_admitted(rg, row),
        0 <= spec_column_index(fields, name@)->Some_0 < row.len(),
    ensures
        spec_cmp_values(row[spec_column_index(fields, name@)->Some_0], op, lit) != Some(true),
{
    let idx = spec_column_index(fields, name@)->Some_0;
    crate::schema::lemma_column_index_props(fields, name@);
    let u = idx as usize;
    assert(u as int == idx);
    let se = spec_rewrite_cmp(u, fields[idx].data_type, op, lit);
    match (fields[idx].data_type, lit) {
        (DataType::Int32, ScalarValue::Int32(Some(b))) => {
            match op {
                Operator::Eq => {
                    let lo = PruningExpr::Compare {
                        column: u,
                        bound: StatBound::Min,
                        op: CmpOp::LtEq,
                        literal: IntLiteral::Int32(b),
                    };
                    let hi = PruningExpr::Compare {
                        column: u,
                        bound: StatBound::Max,
                        op: CmpOp::GtEq,
                        literal: IntLiteral::Int32(b),
                    };
                    assert(se == PruningExpr::And(Box::new(lo), Box::new(hi)));
                    assert(spec_eval_pruning(se, rg) == spec_and3(
                        spec_eval_pruning(lo, rg),
                        spec_eval_pruning(hi, rg),
                    ));
                    assert(spec_eval_pruning(lo, rg) is Some);
                    assert(idx < rg.columns@.len());
                    assert(spec_value_in_stats(row[idx], rg.columns@[idx]));
                    match rg.columns@[idx].statistics {
                        Some(ColumnStatistics::Int32 { min_max: Some(mm) }) => {
                            assert(spec_eval_pruning(lo, rg) == Some(mm.0 <= b));
                            assert(spec_eval_pruning(hi, rg) == Some(mm.1 >= b));
                            assert(!(mm.0 <= b && mm.1 >= b));
                        },
                        _ => {
                            assert(false);
                        },
                    }
                    assert(spec_cmp_values(row[idx], op, lit) != Some(true));
                },
                Operator::Lt => {
                    assert(idx < rg.columns@.len());
                    assert(spec_value_in_stats(row[idx], rg.columns@[idx]));
                    assert(spec_cmp_values(row[idx], op, lit) != Some(true));
                },
                Operator::LtEq => {
                    assert(idx < rg.columns@.len());
                    assert(spec_value_in_stats(row[idx], rg.columns@[idx]));
                    assert(spec_cmp_values(row[idx], op, lit) != Some(true));
                },
                Operator::Gt => {
                    assert(idx < rg.columns@.len());
                    assert(spec_value_in_stats(row[idx], rg.columns@[idx]));
                    assert(spec_cmp_values(row[idx], op, lit) != Some(true));
                },
                Operator::GtEq => {
                    assert(idx < rg.columns@.len());
                    assert(spec_value_in_stats(row[idx], rg.columns@[idx]));
                    assert(spec_cmp_values(row[idx], op, lit) != Some(true));
                },
                _ => {},
            }
        },
        (DataType::Int64, ScalarValue::Int64(Some(b))) => {
            match op {
                Operator::Eq => {
                    let lo = PruningExpr::Compare {
                        column: u,
                        bound: StatBound::Min,
                        op: CmpOp::LtEq,
                        literal: IntLiteral::Int64(b),
                    };
                    let hi = PruningExpr::Compare {
                        column: u,
                        bound: StatBound::Max,
                        op: CmpOp::GtEq,
                        literal: IntLiteral::Int64(b),
                    };
                    assert(se == PruningExpr::And(Box::new(lo), Box::new(hi)));
                    assert(spec_eval_pruning(se, rg) == spec_and3(
                        spec_eval_pruning(lo, rg),
                        spec_eval_pruning(hi, rg),
                    ));
                    assert(spec_eval_pruning(lo, rg) is Some);
                    assert(idx < rg.columns@.len());
                    assert(spec_value_in_stats(row[idx], rg.columns@[idx]));
                    match rg.columns@[idx].statistics {
                        Some(ColumnStatistics::Int64 { min_max: Some(mm) }) => {
                            assert(spec_eval_pruning(lo, rg) == Some(mm.0 <= b));
                            assert(spec_eval_pruning(hi, rg) == Some(mm.1 >= b));
                            assert(!(mm.0 <= b && mm.1 >= b));
                        },
                        _ => {
                            assert(false);
                        },
                    }
                    assert(spec_cmp_values(row[idx], op, lit) != Some(true));
                },
                Operator::Lt => {
                    assert(idx < rg.columns@.len());
                    assert(spec_value_in_stats(row[idx], rg.columns@[idx]));
                    assert(spec_cmp_values(row[idx], op, lit) != Some(true));
                },
                Operator::LtEq => {
                    assert(idx < rg.columns@.len());
                    assert(spec_value_in_stats(row[idx], rg.columns@[idx]));
                    assert(spec_cmp_values(row[idx], op, lit) != Some(true));
                },
                Operator::Gt => {
                    assert(idx < rg.columns@.len());
                    assert(spec_value_in_stats(row[idx], rg.columns@[idx]));
                    assert(spec_cmp_values(row[idx], op, lit) != Some(true));
                },
                Operator::GtEq => {
                    assert(idx < rg.columns@.len());
                    assert(spec_value_in_stats(row[idx], rg.columns@[idx]));
                    assert(spec_cmp_values(row[idx], op, lit) != Some(true));
                },
                _ => {},
            }
        },
        _ => {
            assert(se == PruningExpr::Unknown);
            assert(spec_cmp_values(row[idx], op, lit) != Some(true));
        },
    }
}

/// A row group whose recorded minimum and maximum straddle an equality's
/// literal (min <= literal <= max) is never pruned for that literal.
pub proof fn lemma_straddling_literal_kept(
    name: String,
    b: i32,
    fields: Seq<Field>,
    rg: RowGroupMetaData,
    idx: int,
    mn: i32,
    mx: i32,
)
    requires
        fields.len() <= usize::MAX as int,
        spec_column_index(fields, name@) == Some(idx),
        fields[idx].data_type == DataType::Int32,
        0 <= idx < rg.columns@.len(),
        rg.columns@[idx].statistics == Some(
            ColumnStatistics::Int32 { min_max: Some((mn, mx)) },
        ),
        mn <= b <= mx,
    ensures
        spec_rewrite(
            Expr::BinaryExpr {
                left: Box::new(Expr::Column(name)),
                op: Operator::Eq,
                right: Box::new(Expr::Literal(ScalarValue::Int32(Some(b)))),
            },
            fields,
        ) matches Some(se) && spec_keep(se, rg),
{
    crate::schema::lemma_column_index_props(fields, name@);
    let e = Expr::BinaryExpr {
        left: Box::new(Expr::Column(name)),
        op: Operator::Eq,
        right: Box::new(Expr::Literal(ScalarValue::Int32(Some(b)))),
    };
    let u = idx as usize;
    assert(u as int == idx);
    let se = spec_rewrite(e, fields)->Some_0;
    assert(se == spec_rewrite_cmp(u, fields[idx].data_type, Operator::Eq, ScalarValue::Int32(Some(b))));
    let lo = PruningExpr::Compare {
        column: u,
        bound: StatBound::Min,
        op: CmpOp::LtEq,
        literal: IntLiteral::Int32(b),
    };
    let hi = PruningExpr::Compare {
        column: u,
        bound: StatBound::Max,
        op: CmpOp::GtEq,
        literal: IntLiteral::Int32(b),
    };
    assert(se == PruningExpr::And(Box::new(lo), Box::new(hi)));
    assert(spec_eval_pruning(lo, rg) == Some(true));
    assert(spec_eval_pruning(hi, rg) == Some(true));
    assert(spec_eval_pruning(se, rg) == Some(true));
}

} // verus!
