//! Evaluation configuration: filter and metrics parameter sets.
//!
//! Configuration errors are rejected here, at build time, before any
//! per-frame processing runs.

use vstd::prelude::*;

verus! {

use crate::evaluation_task::EvaluationTask;
use crate::frame_id::FrameID;
use crate::label::{Label, LabelConverter, LabelError, spec_autoware_label, convert_labels};

pub type ConfigResult<T> = Result<T, ConfigError>;

/// Errors associated with building an evaluation configuration.
#[derive(Debug)]
pub enum ConfigError {
    InternalError,
    CorruptedFile(String),
    ValueError(i64),
    KeyError(String),
}

/// Parameters that decide which objects take part in the evaluation.
#[derive(Debug, Clone)]
pub struct FilterParams {
    /// The labels under evaluation.
    pub target_labels: Vec<Label>,
    /// Per target label: largest admissible |x| of a position.
    pub max_x_positions: Vec<i64>,
    /// Per target label: largest admissible |y| of a position.
    pub max_y_positions: Vec<i64>,
    /// Per target label: smallest admissible point count of a ground
    /// truth, when point counts are filtered at all.
    pub min_point_numbers: Option<Vec<i64>>,
    /// Instance ids a ground truth must carry, when ids are filtered.
    pub target_uuids: Option<Vec<u64>>,
}

impl FilterParams {
    /// Every per-label list is aligned with the target labels.
    pub open spec fn wf(self) -> bool {
        &&& self.max_x_positions@.len() == self.target_labels@.len()
        &&& self.max_y_positions@.len() == self.target_labels@.len()
        &&& match self.min_point_numbers {
            Some(v) => v@.len() == self.target_labels@.len(),
            None => true,
        }
    }

    /// Build filter parameters: the label names are canonicalised and each
    /// scalar bound is repeated once per target label.
    pub fn new(
        target_labels: &Vec<&str>,
        max_x_position: i64,
        max_y_position: i64,
        min_point_number: Option<i64>,
        target_uuids: Option<Vec<u64>>,
    ) -> (r: Result<FilterParams, LabelError>)
        ensures
            r matches Ok(p) && {
                let n = target_labels@.len();
                &&& p.wf()
                &&& p.target_labels@.len() == n
                &&& forall|i: int|
                    0 <= i < n ==> p.target_labels@[i] == spec_autoware_label(
                        #[trigger] target_labels@[i]@,
                    )
                &&& forall|i: int| 0 <= i < n ==> p.max_x_positions@[i] == max_x_position
                &&& forall|i: int| 0 <= i < n ==> p.max_y_positions@[i] == max_y_position
                &&& match min_point_number {
                    Some(m) => p.min_point_numbers matches Some(v) && v@.len() == n && forall|
                        i: int,
                    | 0 <= i < n ==> v@[i] == m,
                    None => p.min_point_numbers is None,
                }
                &&& p.target_uuids == target_uuids
            },
    {
        let label_converter = match LabelConverter::new(Some("autoware")) {
            Ok(c) => c,
            Err(e) => {
                proof {
                    assert("autoware"@ == "autoware"@);
                }
                return Err(e);
            },
        };
        let converted = convert_labels(target_labels, &label_converter)?;
        let num_target_labels = converted.len();
        let max_x_positions = repeat_i64(max_x_position, num_target_labels);
        let max_y_positions = repeat_i64(max_y_position, num_target_labels);
        let min_point_numbers = match min_point_number {
            Some(num_pt) => Some(repeat_i64(num_pt, num_target_labels)),
            None => None,
        };
        Ok(
            FilterParams {
                target_labels: converted,
                max_x_positions,
                max_y_positions,
                min_point_numbers,
                target_uuids,
            },
        )
    }
}

/// Parameters that drive the metrics computation.
#[derive(Debug, Clone)]
pub struct MetricsParams {
    /// The labels under evaluation.
    pub target_labels: Vec<Label>,
    /// Per target label: center-distance threshold, in length units.
    pub center_distance_thresholds: Vec<i64>,
    /// Per target label: plane-distance threshold, in length units.
    pub plane_distance_thresholds: Vec<i64>,
    /// Per target label: 2D IoU threshold, as a fraction of `FIX_ONE`.
    pub iou2d_thresholds: Vec<i64>,
    /// Per target label: 3D IoU threshold, as a fraction of `FIX_ONE`.
    pub iou3d_thresholds: Vec<i64>,
}

impl MetricsParams {
    /// Every threshold list is aligned with the target labels.
    pub open spec fn wf(self) -> bool {
        &&& self.center_distance_thresholds@.len() == self.target_labels@.len()
        &&& self.plane_distance_thresholds@.len() == self.target_labels@.len()
        &&& self.iou2d_thresholds@.len() == self.target_labels@.len()
        &&& self.iou3d_thresholds@.len() == self.target_labels@.len()
    }

    /// Build metrics parameters: the label names are canonicalised and
    /// each threshold is repeated once per target label.
    pub fn new(
        target_labels: &Vec<&str>,
        center_distance_threshold: i64,
        plane_distance_threshold: i64,
        iou2d_threshold: i64,
        iou3d_threshold: i64,
    ) -> (r: Result<MetricsParams, LabelError>)
        ensures
            r matches Ok(p) && {
                let n = target_labels@.len();
                &&& p.wf()
                &&& p.target_labels@.len() == n
                &&& forall|i: int|
                    0 <= i < n ==> p.target_labels@[i] == spec_autoware_label(
                        #[trigger] target_labels@[i]@,
                    )
                &&& forall|i: int|
                    0 <= i < n ==> p.center_distance_thresholds@[i] == center_distance_threshold
                &&& forall|i: int|
                    0 <= i < n ==> p.plane_distance_thresholds@[i] == plane_distance_threshold
                &&& forall|i: int| 0 <= i < n ==> p.iou2d_thresholds@[i] == iou2d_threshold
                &&& forall|i: int| 0 <= i < n ==> p.iou3d_thresholds@[i] == iou3d_threshold
            },
    {
        let label_converter = match LabelConverter::new(Some("autoware")) {
            Ok(c) => c,
            Err(e) => {
                return Err(e);
            },
        };
        let converted = convert_labels(target_labels, &label_converter)?;
        let num_target_labels = converted.len();
        let center_distance_thresholds = repeat_i64(center_distance_threshold, num_target_labels);
        let plane_distance_thresholds = repeat_i64(plane_distance_threshold, num_target_labels);
        let iou2d_thresholds = repeat_i64(iou2d_threshold, num_target_labels);
        let iou3d_thresholds = repeat_i64(iou3d_threshold, num_target_labels);
        Ok(
            MetricsParams {
                target_labels: converted,
                center_distance_thresholds,
                plane_distance_thresholds,
                iou2d_thresholds,
                iou3d_thresholds,
            },
        )
    }
}

/// The whole evaluation configuration: what to evaluate and with which
/// parameters.  Reading scenario files and preparing result directories
/// are the callers' concern.
#[derive(Debug, Clone)]
pub struct PerceptionEvaluationConfig {
    /// Dataset version tag, carried through to reports.
    pub version: String,
    /// The task to evaluate; only detection is scored.
    pub evaluation_task: EvaluationTask,
    /// The coordinate frame the evaluation runs in.
    pub frame_id: FrameID,
    /// Which objects take part.
    pub filter_params: FilterParams,
    /// Thresholds for the metrics computation.
    pub metrics_params: MetricsParams,
}

impl PerceptionEvaluationConfig {
    /// Both parameter sets are internally aligned, and they agree on the
    /// number of target labels.
    pub open spec fn wf(self) -> bool {
        &&& self.filter_params.wf()
        &&& self.metrics_params.wf()
        &&& self.filter_params.target_labels@.len() == self.metrics_params.target_labels@.len()
    }
}

/// A vector holding `n` copies of `value`.
fn repeat_i64(value: i64, n: usize) -> (r: Vec<i64>)
    ensures
        r@.len() == n,
        forall|i: int| 0 <= i < n ==> r@[i] == value,
{
    let mut r: Vec<i64> = Vec::new();
    let mut k: usize = 0;
    while k < n
        invariant
            0 <= k <= n,
            r@.len() == k,
            forall|i: int| 0 <= i < k ==> r@[i] == value,
        decreases n - k,
    {
        r.push(value);
        k = k + 1;
    }
    r
}

} // verus!
