//! The kind of evaluation that is being run.

use vstd::prelude::*;

verus! {

use crate::text::str_eq;

/// Why a task name was rejected.
#[derive(Debug)]
pub enum EvaluationTaskError {
    InternalError,
    ValueError,
}

/// The evaluation task.  Only `Detection` is scored by this crate.
#[derive(Debug, Clone, Copy, PartialEq, Eq, Structural)]
pub enum EvaluationTask {
    Detection,
    Tracking,
    Prediction,
}

/// Whether `name` spells one of the task names, in either capitalisation.
pub open spec fn spec_task_of_name(name: Seq<char>) -> Option<EvaluationTask> {
    if name == "Detection"@ || name == "detection"@ {
        Some(EvaluationTask::Detection)
    } else if name == "Tracking"@ || name == "tracking"@ {
        Some(EvaluationTask::Tracking)
    } else if name == "Prediction"@ || name == "prediction"@ {
        Some(EvaluationTask::Prediction)
    } else {
        None
    }
}

impl EvaluationTask {
    /// Whether the task evaluates objects in 3D space.  Every task of this
    /// crate does.
    pub open spec fn spec_is_3d(self) -> bool {
        self is Detection || self is Tracking || self is Prediction
    }

    /// Returns whether the current task is for 3D evaluation.
    pub fn is_3d(&self) -> (r: bool)
        ensures
            r == self.spec_is_3d(),
    {
        matches!(
            self,
            EvaluationTask::Detection | EvaluationTask::Tracking | EvaluationTask::Prediction
        )
    }

    /// Returns whether the current task is for 2D evaluation.
    pub fn is_2d(&self) -> (r: bool)
        ensures
            r == !self.spec_is_3d(),
    {
        !self.is_3d()
    }

    /// Parse a task name; any other string is a value error.
    pub fn from_str(input: &str) -> (r: Result<EvaluationTask, EvaluationTaskError>)
        ensures
            match spec_task_of_name(input@) {
                Some(task) => r matches Ok(t) && t == task,
                None => r matches Err(EvaluationTaskError::ValueError),
            },
    {
        if str_eq(input, "Detection") || str_eq(input, "detection") {
            Ok(EvaluationTask::Detection)
        } else if str_eq(input, "Tracking") || str_eq(input, "tracking") {
            Ok(EvaluationTask::Tracking)
        } else if str_eq(input, "Prediction") || str_eq(input, "prediction") {
            Ok(EvaluationTask::Prediction)
        } else {
            Err(EvaluationTaskError::ValueError)
        }
    }
}

/// Convert a task name into an `EvaluationTask`.
pub fn set_task(task_name: &str) -> (r: Result<EvaluationTask, EvaluationTaskError>)
    ensures
        match spec_task_of_name(task_name@) {
            Some(task) => r matches Ok(t) && t == task,
            None => r matches Err(EvaluationTaskError::ValueError),
        },
{
    EvaluationTask::from_str(task_name)
}

} // verus!
