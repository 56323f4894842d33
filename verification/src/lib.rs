//! Columnar file scan operator: row-group pruning driven by a compiled
//! predicate, a scan planner that splits files across partitions, a bounded
//! runtime configuration, and the ticket codec of the partition streaming
//! service.

pub mod error;
pub mod scalar;
pub mod metrics;
pub mod schema;
pub mod metadata;
pub mod expr;
pub mod encoding;
pub mod pruning;
pub mod stats;
pub mod parquet;
pub mod runtime_env;
pub mod local;
pub mod flight;
