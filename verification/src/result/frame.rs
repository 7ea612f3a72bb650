//! One frame's results, separated into true positives, false positives
//! and false negatives.

use vstd::prelude::*;

verus! {

use crate::dataset::FrameGroundTruth;
use crate::label::Label;
use crate::matching::{MatchingMode, MatchingResult};
use crate::object::DynamicObject;
use crate::result::{PerceptionResult, wf_objects, wf_results};
use crate::threshold::{spec_label_position, get_label_threshold};

/// The threshold aligned with a label's first occurrence among the target
/// labels, or `None` when the label is not a target.
pub open spec fn spec_threshold_of(
    label: Label,
    target_labels: Seq<Label>,
    thresholds: Seq<i64>,
) -> Option<i64> {
    match spec_label_position(target_labels, label) {
        Some(i) => Some(thresholds[i]),
        None => None,
    }
}

/// The true positives among the first `k` results: results whose label is
/// a target and whose match predicate holds for the label's threshold.
pub open spec fn spec_tp_results_to(
    results: Seq<PerceptionResult>,
    target_labels: Seq<Label>,
    thresholds: Seq<i64>,
    mode: MatchingMode,
    k: int,
) -> Seq<PerceptionResult>
    decreases k,
{
    if k <= 0 {
        Seq::empty()
    } else {
        let prefix = spec_tp_results_to(results, target_labels, thresholds, mode, k - 1);
        let r = results[k - 1];
        match spec_threshold_of(r.estimated_object.label, target_labels, thresholds) {
            Some(t) => if r.spec_result_correct(mode, t as int) {
                prefix + seq![r]
            } else {
                prefix
            },
            None => prefix,
        }
    }
}

/// The false positives among the first `k` results: results whose label is
/// a target but whose match predicate fails.  A result whose label is not
/// a target is dropped from both sets.
pub open spec fn spec_fp_results_to(
    results: Seq<PerceptionResult>,
    target_labels: Seq<Label>,
    thresholds: Seq<i64>,
    mode: MatchingMode,
    k: int,
) -> Seq<PerceptionResult>
    decreases k,
{
    if k <= 0 {
        Seq::empty()
    } else {
        let prefix = spec_fp_results_to(results, target_labels, thresholds, mode, k - 1);
        let r = results[k - 1];
        match spec_threshold_of(r.estimated_object.label, target_labels, thresholds) {
            Some(t) => if r.spec_result_correct(mode, t as int) {
                prefix
            } else {
                prefix + seq![r]
            },
            None => prefix,
        }
    }
}

/// The true positives of a result list.
pub open spec fn spec_tp_results(
    results: Seq<PerceptionResult>,
    target_labels: Seq<Label>,
    thresholds: Seq<i64>,
    mode: MatchingMode,
) -> Seq<PerceptionResult> {
    spec_tp_results_to(results, target_labels, thresholds, mode, results.len() as int)
}

/// The false positives of a result list.
pub open spec fn spec_fp_results(
    results: Seq<PerceptionResult>,
    target_labels: Seq<Label>,
    thresholds: Seq<i64>,
    mode: MatchingMode,
) -> Seq<PerceptionResult> {
    spec_fp_results_to(results, target_labels, thresholds, mode, results.len() as int)
}

/// A ground truth is a false negative when no true positive references a
/// weakly equal ground truth.
pub open spec fn spec_is_fn_object(g: DynamicObject, tps: Seq<PerceptionResult>) -> bool {
    forall|k: int| 0 <= k < tps.len() ==> !match (#[trigger] tps[k]).ground_truth_object {
        Some(tg) => tg.weak_eq(g),
        None => false,
    }
}

/// The false negatives among the first `k` ground truths.
pub open spec fn spec_fn_objects_to(
    gts: Seq<DynamicObject>,
    tps: Seq<PerceptionResult>,
    k: int,
) -> Seq<DynamicObject>
    decreases k,
{
    if k <= 0 {
        Seq::empty()
    } else {
        let prefix = spec_fn_objects_to(gts, tps, k - 1);
        if spec_is_fn_object(gts[k - 1], tps) {
            prefix + seq![gts[k - 1]]
        } else {
            prefix
        }
    }
}

/// The false negatives of a frame: its ground truths that no true
/// positive accounts for.
pub open spec fn spec_fn_objects(gts: Seq<DynamicObject>, tps: Seq<PerceptionResult>)
    -> Seq<DynamicObject> {
    spec_fn_objects_to(gts, tps, gts.len() as int)
}

/// The false-negative set is drawn from the ground-truth list and is
/// disjoint from the ground truths that true positives reference.
pub proof fn lemma_fn_objects_sound(gts: Seq<DynamicObject>, tps: Seq<PerceptionResult>, k: int)
    requires
        0 <= k <= gts.len(),
    ensures
        forall|i: int| 0 <= i < spec_fn_objects_to(gts, tps, k).len() ==> gts.contains(
            #[trigger] spec_fn_objects_to(gts, tps, k)[i],
        ),
        forall|i: int, j: int|
            #![trigger tps[j], spec_fn_objects_to(gts, tps, k)[i]]
            0 <= i < spec_fn_objects_to(gts, tps, k).len() && 0 <= j < tps.len()
                ==> !match tps[j].ground_truth_object {
                Some(tg) => tg.weak_eq(spec_fn_objects_to(gts, tps, k)[i]),
                None => false,
            },
    decreases k,
{
    if k > 0 {
        lemma_fn_objects_sound(gts, tps, k - 1);
        let prefix = spec_fn_objects_to(gts, tps, k - 1);
        let cur = spec_fn_objects_to(gts, tps, k);
        assert forall|i: int| 0 <= i < cur.len() implies gts.contains(#[trigger] cur[i]) by {
            if i < prefix.len() {
                assert(cur[i] == prefix[i]);
            } else {
                assert(cur[i] == gts[k - 1]);
            }
        }
        assert forall|i: int, j: int|
            #![trigger tps[j], cur[i]]
            0 <= i < cur.len() && 0 <= j < tps.len() implies !match tps[j].ground_truth_object {
            Some(tg) => tg.weak_eq(cur[i]),
            None => false,
        } by {
            if i < prefix.len() {
                assert(cur[i] == prefix[i]);
            } else {
                assert(cur[i] == gts[k - 1]);
                assert(spec_is_fn_object(gts[k - 1], tps));
            }
        }
    }
}

/// Separate a frame's results into true positives and false positives.
fn separate_tp_fp_results(
    results: &Vec<PerceptionResult>,
    target_labels: &Vec<Label>,
    matching_mode: &MatchingMode,
    matching_thresholds: &Vec<i64>,
) -> (r: (Vec<PerceptionResult>, Vec<PerceptionResult>))
    requires
        wf_results(results@),
        matching_thresholds@.len() == target_labels@.len(),
    ensures
        r.0@ == spec_tp_results(results@, target_labels@, matching_thresholds@, *matching_mode),
        r.1@ == spec_fp_results(results@, target_labels@, matching_thresholds@, *matching_mode),
{
    let mut tp_results: Vec<PerceptionResult> = Vec::new();
    let mut fp_results: Vec<PerceptionResult> = Vec::new();
    let n = results.len();
    let mut k: usize = 0;
    while k < n
        invariant
            n == results@.len(),
            wf_results(results@),
            matching_thresholds@.len() == target_labels@.len(),
            0 <= k <= n,
            tp_results@ == spec_tp_results_to(
                results@,
                target_labels@,
                matching_thresholds@,
                *matching_mode,
                k as int,
            ),
            fp_results@ == spec_fp_results_to(
                results@,
                target_labels@,
                matching_thresholds@,
                *matching_mode,
                k as int,
            ),
        decreases n - k,
    {
        let result = &results[k];
        let ghost tp_before = tp_results@;
        let ghost fp_before = fp_results@;
        match get_label_threshold(
            &result.estimated_object.label,
            target_labels,
            matching_thresholds,
        ) {
            Some(threshold) => {
                let is_correct = match result.is_result_correct(matching_mode, &threshold) {
                    Ok(b) => b,
                    Err(_) => false,
                };
                if is_correct {
                    tp_results.push(results[k]);
                    proof {
                        assert(tp_results@ =~= tp_before + seq![results@[k as int]]);
                    }
                } else {
                    fp_results.push(results[k]);
                    proof {
                        assert(fp_results@ =~= fp_before + seq![results@[k as int]]);
                    }
                }
            },
            None => {},
        }
        k = k + 1;
    }
    (tp_results, fp_results)
}

/// Whether no true positive accounts for this ground truth.
fn is_fn_object(ground_truth: &DynamicObject, tp_results: &Vec<PerceptionResult>) -> (r: bool)
    ensures
        r == spec_is_fn_object(*ground_truth, tp_results@),
{
    let n = tp_results.len();
    let mut k: usize = 0;
    while k < n
        invariant
            n == tp_results@.len(),
            0 <= k <= n,
            forall|j: int| 0 <= j < k ==> !match (#[trigger] tp_results@[j]).ground_truth_object {
                Some(tg) => tg.weak_eq(*ground_truth),
                None => false,
            },
        decreases n - k,
    {
        match &tp_results[k].ground_truth_object {
            Some(gt) => {
                if gt == ground_truth {
                    return false;
                }
            },
            None => {},
        }
        k = k + 1;
    }
    true
}

/// Extract the ground truths that no true positive accounts for.
fn extract_fn_objects(
    ground_truths: &Vec<DynamicObject>,
    tp_results: &Vec<PerceptionResult>,
) -> (r: Vec<DynamicObject>)
    ensures
        r@ == spec_fn_objects(ground_truths@, tp_results@),
{
    let mut fn_objects: Vec<DynamicObject> = Vec::new();
    let n = ground_truths.len();
    let mut k: usize = 0;
    while k < n
        invariant
            n == ground_truths@.len(),
            0 <= k <= n,
            fn_objects@ == spec_fn_objects_to(ground_truths@, tp_results@, k as int),
        decreases n - k,
    {
        let ghost before = fn_objects@;
        if is_fn_object(&ground_truths[k], tp_results) {
            fn_objects.push(ground_truths[k]);
            proof {
                assert(fn_objects@ =~= before + seq![ground_truths@[k as int]]);
            }
        }
        k = k + 1;
    }
    fn_objects
}

/// One frame's results together with their separation into true
/// positives, false positives and false negatives.
#[derive(Debug)]
pub struct PerceptionFrameResult {
    /// All results of the frame.
    pub results: Vec<PerceptionResult>,
    /// The frame's (filtered) ground truth.
    pub frame_ground_truth: FrameGroundTruth,
    /// The results determined to be true positives.
    pub tp_results: Vec<PerceptionResult>,
    /// The results determined to be false positives.
    pub fp_results: Vec<PerceptionResult>,
    /// The ground truths determined to be false negatives.
    pub fn_objects: Vec<DynamicObject>,
}

impl PerceptionFrameResult {
    /// All results of the frame.
    pub fn results(&self) -> (r: &Vec<PerceptionResult>)
        ensures
            r@ == self.results@,
    {
        &self.results
    }

    /// The frame's ground truth.
    pub fn frame_ground_truth(&self) -> (r: &FrameGroundTruth)
        ensures
            r == &self.frame_ground_truth,
    {
        &self.frame_ground_truth
    }

    /// The true-positive results.
    pub fn tp_results(&self) -> (r: &Vec<PerceptionResult>)
        ensures
            r@ == self.tp_results@,
    {
        &self.tp_results
    }

    /// The false-positive results.
    pub fn fp_results(&self) -> (r: &Vec<PerceptionResult>)
        ensures
            r@ == self.fp_results@,
    {
        &self.fp_results
    }

    /// The false-negative ground truths.
    pub fn fn_objects(&self) -> (r: &Vec<DynamicObject>)
        ensures
            r@ == self.fn_objects@,
    {
        &self.fn_objects
    }

    /// Separate a frame's results and build the frame record.  The
    /// false-negative set is drawn from the frame's ground-truth list and
    /// is disjoint from the ground truths that true positives reference.
    pub fn new(
        results: Vec<PerceptionResult>,
        frame_ground_truth: FrameGroundTruth,
        target_labels: &Vec<Label>,
        matching_mode: MatchingMode,
        matching_thresholds: &Vec<i64>,
    ) -> (r: MatchingResult<PerceptionFrameResult>)
        requires
            wf_results(results@),
            matching_thresholds@.len() == target_labels@.len(),
        ensures
            r matches Ok(f) && {
                let tps = spec_tp_results(
                    results@,
                    target_labels@,
                    matching_thresholds@,
                    matching_mode,
                );
                &&& f.results@ == results@
                &&& f.frame_ground_truth.timestamp == frame_ground_truth.timestamp
                &&& f.frame_ground_truth.objects@ == frame_ground_truth.objects@
                &&& f.tp_results@ == tps
                &&& f.fp_results@ == spec_fp_results(
                    results@,
                    target_labels@,
                    matching_thresholds@,
                    matching_mode,
                )
                &&& f.fn_objects@ == spec_fn_objects(frame_ground_truth.objects@, tps)
                &&& forall|i: int|
                    0 <= i < f.fn_objects@.len() ==> frame_ground_truth.objects@.contains(
                        #[trigger] f.fn_objects@[i],
                    )
                &&& forall|i: int, j: int|
                    #![trigger tps[j], f.fn_objects@[i]]
                    0 <= i < f.fn_objects@.len() && 0 <= j < tps.len()
                        ==> !match tps[j].ground_truth_object {
                        Some(tg) => tg.weak_eq(f.fn_objects@[i]),
                        None => false,
                    }
            },
    {
        let (tp_results, fp_results) = separate_tp_fp_results(
            &results,
            target_labels,
            &matching_mode,
            matching_thresholds,
        );
        let fn_objects = extract_fn_objects(&frame_ground_truth.objects, &tp_results);
        proof {
            lemma_fn_objects_sound(
                frame_ground_truth.objects@,
                tp_results@,
                frame_ground_truth.objects@.len() as int,
            );
        }
        let ret = PerceptionFrameResult {
            results,
            frame_ground_truth,
            tp_results,
            fp_results,
            fn_objects,
        };
        Ok(ret)
    }
}

} // verus!
