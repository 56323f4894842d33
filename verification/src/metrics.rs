//! Metric counters: shared, lock-free, monotonically increased by producers
//! and observable by name from any thread.

use std::sync::Arc;
use std::sync::atomic::AtomicUsize;
use std::sync::atomic::Ordering;
use vstd::prelude::*;

verus! {

/// An atomic counter. Clones made through the surrounding `Arc` share the
/// same cell, so increments from any holder are visible to all.
#[derive(Debug)]
pub struct SQLMetric {
    cell: AtomicUsize,
}

impl SQLMetric {
    /// A fresh shared counter starting at zero.
    pub fn counter() -> Arc<SQLMetric> {
        Arc::new(SQLMetric { cell: AtomicUsize::new(0) })
    }

    /// Increase the counter by `n` (wrapping at the machine bound).
    pub fn add(&self, n: usize) {
        self.cell.fetch_add(n, Ordering::Relaxed);
    }

    /// Read the counter.
    pub fn value(&self) -> usize {
        self.cell.load(Ordering::Relaxed)
    }
}

/// Metrics about the overall scan.
#[derive(Debug, Clone)]
pub struct ParquetExecMetrics {
    /// Number of times the pruning predicate could not be created.
    pub predicate_creation_errors: Arc<SQLMetric>,
}

impl ParquetExecMetrics {
    /// Create new metrics.
    pub fn new() -> ParquetExecMetrics {
        ParquetExecMetrics { predicate_creation_errors: SQLMetric::counter() }
    }
}

/// Metrics about the scan of one partition.
#[derive(Debug, Clone)]
pub struct ParquetPartitionMetrics {
    /// Number of times the predicate could not be evaluated.
    pub predicate_evaluation_errors: Arc<SQLMetric>,
    /// Number of row groups pruned.
    pub row_groups_pruned: Arc<SQLMetric>,
}

impl ParquetPartitionMetrics {
    /// Create new metrics.
    pub fn new() -> ParquetPartitionMetrics {
        ParquetPartitionMetrics {
            predicate_evaluation_errors: SQLMetric::counter(),
            row_groups_pruned: SQLMetric::counter(),
        }
    }
}

} // verus!
