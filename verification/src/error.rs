//! Error taxonomy of the scan library.

use vstd::prelude::*;

verus! {

/// The kinds of failure the scan library reports.
///
/// Predicate-build and predicate-evaluation failures are soft (they downgrade
/// pruning and never fail a scan); the other kinds terminate the operation
/// that raised them.
#[derive(Debug, Clone)]
pub enum DataFusionError {
    /// Filesystem, path, or transport fault.
    IoError(String),
    /// Malformed columnar metadata or batch.
    Decode(String),
    /// Files in a scan disagree on schema.
    SchemaMismatch(String),
    /// Non-UTF-8 or missing path.
    InvalidPath(String),
    /// Invalid configuration (empty spill directories, zero batch size).
    Config(String),
    /// The predicate engine cannot evaluate statistics; the row group is kept.
    StatisticsUnavailable(String),
    /// Contract violation that should not happen.
    Internal(String),
}

impl DataFusionError {
    /// The text carried by the error, whatever its kind.
    pub fn message(&self) -> (r: &String)
        ensures
            r@ == self.spec_message(),
    {
        match self {
            DataFusionError::IoError(s) => s,
            DataFusionError::Decode(s) => s,
            DataFusionError::SchemaMismatch(s) => s,
            DataFusionError::InvalidPath(s) => s,
            DataFusionError::Config(s) => s,
            DataFusionError::StatisticsUnavailable(s) => s,
            DataFusionError::Internal(s) => s,
        }
    }

    pub open spec fn spec_message(&self) -> Seq<char> {
        match self {
            DataFusionError::IoError(s) => s@,
            DataFusionError::Decode(s) => s@,
            DataFusionError::SchemaMismatch(s) => s@,
            DataFusionError::InvalidPath(s) => s@,
            DataFusionError::Config(s) => s@,
            DataFusionError::StatisticsUnavailable(s) => s@,
            DataFusionError::Internal(s) => s@,
        }
    }
}

} // verus!
