//! Orchestration: per-frame filtering, assignment and separation, and the
//! cross-frame accumulation into the final report.

use vstd::prelude::*;

verus! {

use crate::config::PerceptionEvaluationConfig;
use crate::dataset::{FrameGroundTruth, get_current_frame, spec_nearest_idx, spec_time_diff, TIME_THRESHOLD};
use crate::evaluation_task::EvaluationTask;
use crate::filter::{
    filter_objects, spec_filter_objects, spec_results_with_label, spec_results_with_label_to,
    spec_objects_with_label, spec_objects_with_label_to,
};
use crate::label::Label;
use crate::config::MetricsParams;
use crate::matching::{MatchingMode, MatchingResult};
use crate::metrics::detection::{MAX_RESULTS_PER_LABEL, spec_calculate_ap, spec_matches_ap};
use crate::metrics::error::{MetricsError, MetricsResult};
use crate::metrics::score::{MetricsScore, DetectionMetricsScore, wf_grouped};
use crate::metrics::tp_metrics::{TPMetricsAP, TPMetricsAPH};
use crate::object::DynamicObject;
use crate::result::{PerceptionResult, get_perception_results, spec_perception_results, wf_objects, wf_results};
use crate::result::frame::{
    PerceptionFrameResult, spec_tp_results, spec_fp_results, spec_fn_objects,
};

/// All of one label's results accumulated over the first `k` frames, in
/// frame-submission order.
pub open spec fn spec_scene_results_to(
    frames: Seq<PerceptionFrameResult>,
    label: Label,
    k: int,
) -> Seq<PerceptionResult>
    decreases k,
{
    if k <= 0 {
        Seq::empty()
    } else {
        spec_scene_results_to(frames, label, k - 1) + spec_results_with_label(
            frames[k - 1].results@,
            label,
        )
    }
}

/// All of one label's results accumulated over all frames.
pub open spec fn spec_scene_results(frames: Seq<PerceptionFrameResult>, label: Label)
    -> Seq<PerceptionResult> {
    spec_scene_results_to(frames, label, frames.len() as int)
}

/// One label's ground-truth count accumulated over the first `k` frames.
pub open spec fn spec_scene_gt_count_to(
    frames: Seq<PerceptionFrameResult>,
    label: Label,
    k: int,
) -> int
    decreases k,
{
    if k <= 0 {
        0
    } else {
        spec_scene_gt_count_to(frames, label, k - 1) + spec_objects_with_label(
            frames[k - 1].frame_ground_truth.objects@,
            label,
        ).len()
    }
}

/// One label's ground-truth count accumulated over all frames.
pub open spec fn spec_scene_gt_count(frames: Seq<PerceptionFrameResult>, label: Label) -> int {
    spec_scene_gt_count_to(frames, label, frames.len() as int)
}

/// Accumulated counts only grow with more frames.
proof fn lemma_scene_gt_count_monotone(
    frames: Seq<PerceptionFrameResult>,
    label: Label,
    k1: int,
    k2: int,
)
    requires
        k1 <= k2,
    ensures
        spec_scene_gt_count_to(frames, label, k1) <= spec_scene_gt_count_to(frames, label, k2),
    decreases k2 - k1,
{
    if k1 < k2 {
        lemma_scene_gt_count_monotone(frames, label, k1, k2 - 1);
    }
}

/// Whether the accumulated quantities stay within the representable
/// limits for every target label.
pub open spec fn spec_caps_ok(frames: Seq<PerceptionFrameResult>, labels: Seq<Label>) -> bool {
    forall|i: int|
        0 <= i < labels.len() ==> spec_scene_results(frames, #[trigger] labels[i]).len()
            <= MAX_RESULTS_PER_LABEL && spec_scene_gt_count(frames, labels[i]) <= usize::MAX
}

/// Whether one per-mode table of the final report carries exactly the AP
/// and APH values of the accumulated scene.
pub open spec fn spec_mode_table_ok(
    d: DetectionMetricsScore,
    frames: Seq<PerceptionFrameResult>,
    labels: Seq<Label>,
    mode: MatchingMode,
    thresholds: Seq<i64>,
) -> bool {
    &&& d.target_labels@ == labels
    &&& d.matching_mode == mode
    &&& d.thresholds@ == thresholds
    &&& d.ap_list@.len() == labels.len()
    &&& d.aph_list@.len() == labels.len()
    &&& forall|i: int|
        0 <= i < labels.len() ==> spec_matches_ap(
            #[trigger] d.ap_list@[i],
            spec_calculate_ap(
                TPMetricsAP,
                spec_scene_results(frames, labels[i]),
                spec_scene_gt_count(frames, labels[i]),
                mode,
                thresholds[i] as int,
            ),
        )
    &&& forall|i: int|
        0 <= i < labels.len() ==> spec_matches_ap(
            #[trigger] d.aph_list@[i],
            spec_calculate_ap(
                TPMetricsAPH,
                spec_scene_results(frames, labels[i]),
                spec_scene_gt_count(frames, labels[i]),
                mode,
                thresholds[i] as int,
            ),
        )
}

/// Whether the final report carries exactly the four per-mode tables of
/// the accumulated scene.
pub open spec fn spec_manager_score_ok(
    s: MetricsScore,
    frames: Seq<PerceptionFrameResult>,
    mp: MetricsParams,
) -> bool {
    &&& s.params.target_labels@ == mp.target_labels@
    &&& s.scores@.len() == 4
    &&& spec_mode_table_ok(
        s.scores@[0],
        frames,
        mp.target_labels@,
        MatchingMode::CenterDistance,
        mp.center_distance_thresholds@,
    )
    &&& spec_mode_table_ok(
        s.scores@[1],
        frames,
        mp.target_labels@,
        MatchingMode::PlaneDistance,
        mp.plane_distance_thresholds@,
    )
    &&& spec_mode_table_ok(
        s.scores@[2],
        frames,
        mp.target_labels@,
        MatchingMode::Iou2d,
        mp.iou2d_thresholds@,
    )
    &&& spec_mode_table_ok(
        s.scores@[3],
        frames,
        mp.target_labels@,
        MatchingMode::Iou3d,
        mp.iou3d_thresholds@,
    )
}

/// Runs the evaluation: frames are added one by one, and the metrics
/// score is computed over everything accumulated so far.
#[derive(Debug)]
pub struct PerceptionEvaluationManager {
    /// The evaluation configuration.
    pub config: PerceptionEvaluationConfig,
    /// The ground-truth frames of the dataset under evaluation.
    pub frame_ground_truths: Vec<FrameGroundTruth>,
    /// The evaluated frames, in submission order.
    pub frame_results: Vec<PerceptionFrameResult>,
}

impl PerceptionEvaluationManager {
    /// The configuration is aligned and every stored frame's results are
    /// within the representable limits.
    pub open spec fn wf(self) -> bool {
        &&& self.config.wf()
        &&& forall|i: int|
            0 <= i < self.frame_results@.len() ==> wf_results(
                (#[trigger] self.frame_results@[i]).results@,
            )
    }

    /// Build a manager from a configuration and the dataset's loaded
    /// ground-truth frames.
    pub fn from(
        config: PerceptionEvaluationConfig,
        frame_ground_truths: Vec<FrameGroundTruth>,
    ) -> (r: PerceptionEvaluationManager)
        requires
            config.wf(),
        ensures
            r.config == config,
            r.frame_ground_truths@ == frame_ground_truths@,
            r.frame_results@.len() == 0,
            r.wf(),
    {
        PerceptionEvaluationManager { config, frame_ground_truths, frame_results: Vec::new() }
    }

    /// Filter a ground-truth frame to the evaluation scope.
    fn filter_frame_ground_truth(&self, frame_ground_truth: &FrameGroundTruth) -> (r:
        FrameGroundTruth)
        requires
            self.config.wf(),
        ensures
            r.timestamp == frame_ground_truth.timestamp,
            r.objects@ == spec_filter_objects(
                frame_ground_truth.objects@,
                true,
                self.config.filter_params,
            ),
            frame_ground_truth.wf() ==> r.wf(),
    {
        let filtered_gt = filter_objects(
            &frame_ground_truth.objects,
            true,
            &self.config.filter_params,
        );
        FrameGroundTruth { timestamp: frame_ground_truth.timestamp, objects: filtered_gt }
    }

    /// Evaluate one frame: filter both lists, assign ground truths to
    /// estimations, separate the results, and append the frame record.
    pub fn add_frame_result(
        &mut self,
        estimated_objects: &Vec<DynamicObject>,
        frame_ground_truth: &FrameGroundTruth,
    ) -> (r: MatchingResult<()>)
        requires
            old(self).wf(),
            wf_objects(estimated_objects@),
            frame_ground_truth.wf(),
        ensures
            final(self).wf(),
            final(self).config == old(self).config,
            final(self).frame_ground_truths@ == old(self).frame_ground_truths@,
            r is Ok,
            final(self).frame_results@.len() == old(self).frame_results@.len() + 1,
            forall|j: int|
                0 <= j < old(self).frame_results@.len() ==> #[trigger] final(self).frame_results@[j]
                    == old(self).frame_results@[j],
            ({
                let params = old(self).config.filter_params;
                let fe = spec_filter_objects(estimated_objects@, false, params);
                let fg = spec_filter_objects(frame_ground_truth.objects@, true, params);
                let results = spec_perception_results(fe, fg);
                let tps = spec_tp_results(
                    results,
                    params.target_labels@,
                    old(self).config.metrics_params.plane_distance_thresholds@,
                    MatchingMode::PlaneDistance,
                );
                let last = final(self).frame_results@.last();
                &&& last.results@ == results
                &&& last.frame_ground_truth.timestamp == frame_ground_truth.timestamp
                &&& last.frame_ground_truth.objects@ == fg
                &&& last.tp_results@ == tps
                &&& last.fp_results@ == spec_fp_results(
                    results,
                    params.target_labels@,
                    old(self).config.metrics_params.plane_distance_thresholds@,
                    MatchingMode::PlaneDistance,
                )
                &&& last.fn_objects@ == spec_fn_objects(fg, tps)
            }),
    {
        let filtered_estimations = filter_objects(
            estimated_objects,
            false,
            &self.config.filter_params,
        );
        let filtered_frame_ground_truth = self.filter_frame_ground_truth(frame_ground_truth);
        let results = get_perception_results(
            &filtered_estimations,
            &filtered_frame_ground_truth.objects,
        );
        let frame_result = match PerceptionFrameResult::new(
            results,
            filtered_frame_ground_truth,
            &self.config.filter_params.target_labels,
            MatchingMode::PlaneDistance,
            &self.config.metrics_params.plane_distance_thresholds,
        ) {
            Ok(f) => f,
            Err(e) => {
                return Err(e);
            },
        };
        self.frame_results.push(frame_result);
        Ok(())
    }

    /// Returns the ground-truth frame whose timestamp is nearest to the
    /// given one, within the time threshold.
    pub fn get_frame_ground_truth(&self, timestamp: i64) -> (r: Option<FrameGroundTruth>)
        ensures
            self.frame_ground_truths@.len() == 0 ==> r is None,
            self.frame_ground_truths@.len() > 0 ==> ({
                let b = spec_nearest_idx(self.frame_ground_truths@, timestamp as int);
                if spec_time_diff(self.frame_ground_truths@[b].timestamp as int, timestamp as int)
                    < TIME_THRESHOLD {
                    r matches Some(f) && f.timestamp == self.frame_ground_truths@[b].timestamp
                        && f.objects@ == self.frame_ground_truths@[b].objects@
                } else {
                    r is None
                }
            }),
    {
        get_current_frame(&self.frame_ground_truths, timestamp)
    }

    /// Compute the metrics score over every frame accumulated so far.
    /// A task other than detection is refused with a named error; an
    /// accumulation that leaves the representable limits is refused as an
    /// internal fault.
    pub fn get_metrics_score(&self) -> (r: MetricsResult<MetricsScore>)
        requires
            self.wf(),
        ensures
            !(self.config.evaluation_task is Detection) ==> (r matches Err(
                MetricsError::NotImplementedError(t),
            ) && t == self.config.evaluation_task),
            self.config.evaluation_task is Detection && spec_caps_ok(
                self.frame_results@,
                self.config.metrics_params.target_labels@,
            ) ==> (r matches Ok(s) && spec_manager_score_ok(
                s,
                self.frame_results@,
                self.config.metrics_params,
            )),
            self.config.evaluation_task is Detection && !spec_caps_ok(
                self.frame_results@,
                self.config.metrics_params.target_labels@,
            ) ==> r matches Err(MetricsError::InternalBug),
    {
        match self.config.evaluation_task {
            EvaluationTask::Detection => {},
            _ => {
                return Err(MetricsError::NotImplementedError(self.config.evaluation_task));
            },
        }
        let target_labels = &self.config.metrics_params.target_labels;
        let num_labels = target_labels.len();
        let num_frames = self.frame_results.len();
        let mut scene_results: Vec<Vec<PerceptionResult>> = Vec::new();
        let mut num_scene_gt: Vec<usize> = Vec::new();
        let mut i: usize = 0;
        while i < num_labels
            invariant
                self.wf(),
                self.config.evaluation_task is Detection,
                target_labels == &self.config.metrics_params.target_labels,
                num_labels == target_labels@.len(),
                num_frames == self.frame_results@.len(),
                0 <= i <= num_labels,
                scene_results@.len() == i,
                num_scene_gt@.len() == i,
                forall|t: int|
                    0 <= t < i ==> (#[trigger] scene_results@[t])@ == spec_scene_results(
                        self.frame_results@,
                        target_labels@[t],
                    ),
                forall|t: int|
                    0 <= t < i ==> #[trigger] num_scene_gt@[t] == spec_scene_gt_count(
                        self.frame_results@,
                        target_labels@[t],
                    ),
                forall|t: int| 0 <= t < i ==> wf_results((#[trigger] scene_results@[t])@),
                forall|t: int|
                    0 <= t < i ==> (#[trigger] scene_results@[t])@.len()
                        <= MAX_RESULTS_PER_LABEL,
            decreases num_labels - i,
        {
            let label = target_labels[i];
            let mut acc: Vec<PerceptionResult> = Vec::new();
            let mut count: usize = 0;
            let mut f: usize = 0;
            while f < num_frames
                invariant
                    self.wf(),
                    self.config.evaluation_task is Detection,
                    num_labels == self.config.metrics_params.target_labels@.len(),
                    0 <= i < num_labels,
                    label == self.config.metrics_params.target_labels@[i as int],
                    num_frames == self.frame_results@.len(),
                    0 <= f <= num_frames,
                    acc@ == spec_scene_results_to(self.frame_results@, label, f as int),
                    wf_results(acc@),
                    count == spec_scene_gt_count_to(self.frame_results@, label, f as int),
                decreases num_frames - f,
            {
                let frame = &self.frame_results[f];
                let ghost acc_before = acc@;
                let n = frame.results.len();
                let mut j: usize = 0;
                while j < n
                    invariant
                        self.wf(),
                        0 <= f < self.frame_results@.len(),
                        frame == &self.frame_results@[f as int],
                        n == frame.results@.len(),
                        0 <= j <= n,
                        acc@ == acc_before + spec_results_with_label_to(
                            frame.results@,
                            label,
                            j as int,
                        ),
                        wf_results(acc@),
                    decreases n - j,
                {
                    let ghost before = acc@;
                    if frame.results[j].estimated_object.label == label {
                        acc.push(frame.results[j]);
                        proof {
                            assert(acc@ =~= before + seq![frame.results@[j as int]]);
                            assert(acc@ =~= acc_before + (spec_results_with_label_to(
                                frame.results@,
                                label,
                                j as int,
                            ) + seq![frame.results@[j as int]]));
                        }
                    }
                    j = j + 1;
                }
                let m = frame.frame_ground_truth.objects.len();
                let mut sub: usize = 0;
                let mut g: usize = 0;
                while g < m
                    invariant
                        self.wf(),
                        0 <= f < self.frame_results@.len(),
                        frame == &self.frame_results@[f as int],
                        m == frame.frame_ground_truth.objects@.len(),
                        0 <= g <= m,
                        sub == spec_objects_with_label_to(
                            frame.frame_ground_truth.objects@,
                            label,
                            g as int,
                        ).len(),
                        sub <= g,
                    decreases m - g,
                {
                    if frame.frame_ground_truth.objects[g].label == label {
                        sub = sub + 1;
                    }
                    g = g + 1;
                }
                count = match count.checked_add(sub) {
                    Some(v) => v,
                    None => {
                        proof {
                            lemma_scene_gt_count_monotone(
                                self.frame_results@,
                                label,
                                f as int + 1,
                                num_frames as int,
                            );
                        }
                        return Err(MetricsError::InternalBug);
                    },
                };
                f = f + 1;
            }
            if acc.len() as u64 > MAX_RESULTS_PER_LABEL {
                return Err(MetricsError::InternalBug);
            }
            scene_results.push(acc);
            num_scene_gt.push(count);
            i = i + 1;
        }
        let mut score = MetricsScore::new(&self.config.metrics_params);
        proof {
            assert(wf_grouped(scene_results@));
            assert forall|t: int| 0 <= t < num_labels implies #[trigger] spec_scene_results(
                self.frame_results@,
                target_labels@[t],
            ).len() <= MAX_RESULTS_PER_LABEL && spec_scene_gt_count(
                self.frame_results@,
                target_labels@[t],
            ) <= usize::MAX by {
                assert((scene_results@[t])@ == spec_scene_results(
                    self.frame_results@,
                    target_labels@[t],
                ));
                assert(num_scene_gt@[t] == spec_scene_gt_count(
                    self.frame_results@,
                    target_labels@[t],
                ));
            }
        }
        score.evaluate_detection(&scene_results, &num_scene_gt);
        Ok(score)
    }
}

} // verus!
