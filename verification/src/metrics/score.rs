//! The metrics report: per-mode score tables and the complete score.

use vstd::prelude::*;

verus! {

use crate::config::MetricsParams;
use crate::label::Label;
use crate::math::FIX_ONE;
use crate::matching::MatchingMode;
use crate::result::PerceptionResult;
use crate::metrics::detection::{
    Ap, MAX_RESULTS_PER_LABEL, spec_calculate_ap, spec_matches_ap,
};
use crate::metrics::tp_metrics::{TPMetrics, TPMetricsAP, TPMetricsAPH};
use crate::result::wf_results;

/// Every per-label result list is well-formed and within the length cap.
pub open spec fn wf_grouped(map: Seq<Vec<PerceptionResult>>) -> bool {
    forall|i: int|
        0 <= i < map.len() ==> wf_results((#[trigger] map[i])@) && map[i]@.len()
            <= MAX_RESULTS_PER_LABEL
}

/// The per-mode score table: for one matching mode, the target labels,
/// their index-aligned thresholds, and the index-aligned AP and APH
/// values (`None` where the value is undefined).
#[derive(Debug)]
pub struct DetectionMetricsScore {
    pub target_labels: Vec<Label>,
    pub matching_mode: MatchingMode,
    pub thresholds: Vec<i64>,
    pub ap_list: Vec<Option<i64>>,
    pub aph_list: Vec<Option<i64>>,
}

/// Whether a score table carries exactly the AP and APH values of the
/// given grouped results under the given mode and thresholds.
pub open spec fn spec_detection_score_ok(
    d: DetectionMetricsScore,
    results_map: Seq<Vec<PerceptionResult>>,
    num_gt_map: Seq<usize>,
    target_labels: Seq<Label>,
    mode: MatchingMode,
    thresholds: Seq<i64>,
) -> bool {
    &&& d.target_labels@ == target_labels
    &&& d.matching_mode == mode
    &&& d.thresholds@ == thresholds
    &&& d.ap_list@.len() == target_labels.len()
    &&& d.aph_list@.len() == target_labels.len()
    &&& forall|i: int|
        0 <= i < target_labels.len() ==> spec_matches_ap(
            #[trigger] d.ap_list@[i],
            spec_calculate_ap(
                TPMetricsAP,
                results_map[i]@,
                num_gt_map[i] as int,
                mode,
                thresholds[i] as int,
            ),
        )
    &&& forall|i: int|
        0 <= i < target_labels.len() ==> spec_matches_ap(
            #[trigger] d.aph_list@[i],
            spec_calculate_ap(
                TPMetricsAPH,
                results_map[i]@,
                num_gt_map[i] as int,
                mode,
                thresholds[i] as int,
            ),
        )
}

/// Every true-positive value strategy of this crate yields fractions.
pub proof fn lemma_tp_values_are_fractions()
    ensures
        forall|x: PerceptionResult| 0 <= #[trigger] TPMetricsAP.spec_value(x) <= FIX_ONE,
        forall|x: PerceptionResult| 0 <= #[trigger] TPMetricsAPH.spec_value(x) <= FIX_ONE,
{
}

impl DetectionMetricsScore {
    /// Compute one AP and one APH per target label for one matching mode.
    pub fn new(
        results_map: &Vec<Vec<PerceptionResult>>,
        num_gt_map: &Vec<usize>,
        target_labels: &Vec<Label>,
        matching_mode: &MatchingMode,
        matching_thresholds: &Vec<i64>,
    ) -> (r: DetectionMetricsScore)
        requires
            results_map@.len() == target_labels@.len(),
            num_gt_map@.len() == target_labels@.len(),
            matching_thresholds@.len() == target_labels@.len(),
            wf_grouped(results_map@),
        ensures
            spec_detection_score_ok(
                r,
                results_map@,
                num_gt_map@,
                target_labels@,
                *matching_mode,
                matching_thresholds@,
            ),
    {
        proof {
            lemma_tp_values_are_fractions();
        }
        let num_targets = target_labels.len();
        let mut ap_list: Vec<Option<i64>> = Vec::new();
        let mut aph_list: Vec<Option<i64>> = Vec::new();
        let mut i: usize = 0;
        while i < num_targets
            invariant
                num_targets == target_labels@.len(),
                results_map@.len() == num_targets,
                num_gt_map@.len() == num_targets,
                matching_thresholds@.len() == num_targets,
                wf_grouped(results_map@),
                0 <= i <= num_targets,
                ap_list@.len() == i,
                aph_list@.len() == i,
                forall|j: int|
                    0 <= j < i ==> spec_matches_ap(
                        #[trigger] ap_list@[j],
                        spec_calculate_ap(
                            TPMetricsAP,
                            results_map@[j]@,
                            num_gt_map@[j] as int,
                            *matching_mode,
                            matching_thresholds@[j] as int,
                        ),
                    ),
                forall|j: int|
                    0 <= j < i ==> spec_matches_ap(
                        #[trigger] aph_list@[j],
                        spec_calculate_ap(
                            TPMetricsAPH,
                            results_map@[j]@,
                            num_gt_map@[j] as int,
                            *matching_mode,
                            matching_thresholds@[j] as int,
                        ),
                    ),
            decreases num_targets - i,
        {
            let threshold = matching_thresholds[i];
            let ap = Ap::new(&results_map[i], &num_gt_map[i]).calculate_ap(
                TPMetricsAP,
                matching_mode,
                &threshold,
            );
            let aph = Ap::new(&results_map[i], &num_gt_map[i]).calculate_ap(
                TPMetricsAPH,
                matching_mode,
                &threshold,
            );
            ap_list.push(ap);
            aph_list.push(aph);
            i = i + 1;
        }
        DetectionMetricsScore {
            target_labels: copied_vec(target_labels),
            matching_mode: *matching_mode,
            thresholds: copied_vec(matching_thresholds),
            ap_list,
            aph_list,
        }
    }
}

/// The complete report: one per-mode score table for each of the four
/// matching modes.
#[derive(Debug)]
pub struct MetricsScore {
    /// The parameters the report was computed with.
    pub params: MetricsParams,
    /// The per-mode score tables, in the order the modes were evaluated.
    pub scores: Vec<DetectionMetricsScore>,
}

impl MetricsScore {
    /// An empty report carrying the metrics parameters.
    pub fn new(params: &MetricsParams) -> (r: MetricsScore)
        ensures
            r.params.target_labels@ == params.target_labels@,
            r.params.center_distance_thresholds@ == params.center_distance_thresholds@,
            r.params.plane_distance_thresholds@ == params.plane_distance_thresholds@,
            r.params.iou2d_thresholds@ == params.iou2d_thresholds@,
            r.params.iou3d_thresholds@ == params.iou3d_thresholds@,
            r.scores@.len() == 0,
    {
        let copied = MetricsParams {
            target_labels: copied_vec(&params.target_labels),
            center_distance_thresholds: copied_vec(&params.center_distance_thresholds),
            plane_distance_thresholds: copied_vec(&params.plane_distance_thresholds),
            iou2d_thresholds: copied_vec(&params.iou2d_thresholds),
            iou3d_thresholds: copied_vec(&params.iou3d_thresholds),
        };
        MetricsScore { params: copied, scores: Vec::new() }
    }

    /// Evaluate the detection task: push one score table per matching
    /// mode, each computed against its own threshold list.
    pub fn evaluate_detection(
        &mut self,
        results_map: &Vec<Vec<PerceptionResult>>,
        num_gt_map: &Vec<usize>,
    )
        requires
            old(self).params.wf(),
            results_map@.len() == old(self).params.target_labels@.len(),
            num_gt_map@.len() == old(self).params.target_labels@.len(),
            wf_grouped(results_map@),
        ensures
            final(self).params == old(self).params,
            final(self).scores@.len() == old(self).scores@.len() + 4,
            forall|j: int|
                0 <= j < old(self).scores@.len() ==> #[trigger] final(self).scores@[j] == old(
                    self,
                ).scores@[j],
            spec_detection_score_ok(
                final(self).scores@[old(self).scores@.len() as int],
                results_map@,
                num_gt_map@,
                old(self).params.target_labels@,
                MatchingMode::CenterDistance,
                old(self).params.center_distance_thresholds@,
            ),
            spec_detection_score_ok(
                final(self).scores@[old(self).scores@.len() as int + 1],
                results_map@,
                num_gt_map@,
                old(self).params.target_labels@,
                MatchingMode::PlaneDistance,
                old(self).params.plane_distance_thresholds@,
            ),
            spec_detection_score_ok(
                final(self).scores@[old(self).scores@.len() as int + 2],
                results_map@,
                num_gt_map@,
                old(self).params.target_labels@,
                MatchingMode::Iou2d,
                old(self).params.iou2d_thresholds@,
            ),
            spec_detection_score_ok(
                final(self).scores@[old(self).scores@.len() as int + 3],
                results_map@,
                num_gt_map@,
                old(self).params.target_labels@,
                MatchingMode::Iou3d,
                old(self).params.iou3d_thresholds@,
            ),
    {
        let center_distance_scores_map = DetectionMetricsScore::new(
            results_map,
            num_gt_map,
            &self.params.target_labels,
            &MatchingMode::CenterDistance,
            &self.params.center_distance_thresholds,
        );
        self.scores.push(center_distance_scores_map);
        let plane_distance_scores_map = DetectionMetricsScore::new(
            results_map,
            num_gt_map,
            &self.params.target_labels,
            &MatchingMode::PlaneDistance,
            &self.params.plane_distance_thresholds,
        );
        self.scores.push(plane_distance_scores_map);
        let iou2d_scores_map = DetectionMetricsScore::new(
            results_map,
            num_gt_map,
            &self.params.target_labels,
            &MatchingMode::Iou2d,
            &self.params.iou2d_thresholds,
        );
        self.scores.push(iou2d_scores_map);
        let iou3d_scores_map = DetectionMetricsScore::new(
            results_map,
            num_gt_map,
            &self.params.target_labels,
            &MatchingMode::Iou3d,
            &self.params.iou3d_thresholds,
        );
        self.scores.push(iou3d_scores_map);
    }
}

/// A fresh vector with the same plain contents.
fn copied_vec<T: Copy>(v: &Vec<T>) -> (r: Vec<T>)
    ensures
        r@ == v@,
{
    let mut r: Vec<T> = Vec::new();
    let n = v.len();
    let mut k: usize = 0;
    while k < n
        invariant
            n == v@.len(),
            0 <= k <= n,
            r@ == v@.subrange(0, k as int),
        decreases n - k,
    {
        r.push(v[k]);
        k = k + 1;
    }
    proof {
        assert(r@ =~= v@);
    }
    r
}

} // verus!
