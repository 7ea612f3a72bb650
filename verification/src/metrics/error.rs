//! Errors of the metrics computation.

use vstd::prelude::*;

verus! {

use crate::evaluation_task::EvaluationTask;

pub type MetricsResult<T> = Result<T, MetricsError>;

/// Why a metrics score could not be computed.
#[derive(Debug)]
pub enum MetricsError {
    /// An accumulated quantity left the representable range.
    InternalBug,
    /// The requested task has no metrics implementation.
    NotImplementedError(EvaluationTask),
}

} // verus!
