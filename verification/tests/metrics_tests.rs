//! True-positive values and the average-precision pipeline on concrete
//! curves.

use perception_eval::frame_id::FrameID;
use perception_eval::label::Label;
use perception_eval::math::{FIX_ONE, HALF_TURN};
use perception_eval::matching::MatchingMode;
use perception_eval::metrics::detection::Ap;
use perception_eval::metrics::score::DetectionMetricsScore;
use perception_eval::metrics::tp_metrics::{TPMetrics, TPMetricsAP, TPMetricsAPH};
use perception_eval::object::{DynamicObject, Orientation, Size3};
use perception_eval::point::Point3;
use perception_eval::result::PerceptionResult;

fn make_object(x: i64, y: i64, yaw: i64, cos: i64, sin: i64, uuid: u64) -> DynamicObject {
    DynamicObject {
        timestamp: 10000,
        frame_id: FrameID::BaseLink,
        position: Point3 { x, y, z: 0 },
        orientation: Orientation { yaw, cos, sin },
        size: Size3 { length: 2000, width: 1000, height: 1000 },
        velocity: None,
        confidence: FIX_ONE,
        label: Label::Car,
        pointcloud_num: Some(1000),
        uuid: Some(uuid),
    }
}

#[test]
fn test_tp_metrics_ap() {
    let estimation = make_object(1000, 1000, 0, FIX_ONE, 0, 111);
    let ground_truth = make_object(10_000, 10_000, 0, FIX_ONE, 0, 111);
    let result = PerceptionResult::new(estimation, Some(ground_truth));
    let value = TPMetricsAP.get_value(&result);
    assert_eq!(value, FIX_ONE);
}

#[test]
fn test_tp_metrics_aph() {
    let estimation = make_object(1000, 1000, 0, FIX_ONE, 0, 111);
    let ground_truth = make_object(10_000, 10_000, 0, FIX_ONE, 0, 111);
    let result = PerceptionResult::new(estimation, Some(ground_truth));
    let value = TPMetricsAPH.get_value(&result);
    assert_eq!(value, FIX_ONE);
}

/// Headings that differ by exactly pi weigh zero; identical headings
/// weigh fully; a quarter turn weighs one half.
#[test]
fn aph_heading_wrap() {
    let estimation = make_object(0, 0, HALF_TURN, -FIX_ONE, 0, 111);
    let ground_truth = make_object(0, 0, 0, FIX_ONE, 0, 100);
    let opposite = PerceptionResult::new(estimation, Some(ground_truth));
    assert_eq!(TPMetricsAPH.get_value(&opposite), 0);

    let estimation = make_object(0, 0, 0, FIX_ONE, 0, 111);
    let aligned = PerceptionResult::new(estimation, Some(ground_truth));
    assert_eq!(TPMetricsAPH.get_value(&aligned), FIX_ONE);

    let estimation = make_object(0, 0, HALF_TURN / 2, 0, FIX_ONE, 111);
    let quarter = PerceptionResult::new(estimation, Some(ground_truth));
    assert_eq!(TPMetricsAPH.get_value(&quarter), FIX_ONE / 2);

    let estimation = make_object(0, 0, -HALF_TURN, -FIX_ONE, 0, 111);
    let wrapped = PerceptionResult::new(estimation, Some(ground_truth));
    assert_eq!(TPMetricsAPH.get_value(&wrapped), 0);
}

/// A false positive contributes nothing under either strategy.
#[test]
fn tp_value_of_false_positive() {
    let estimation = make_object(1000, 1000, 0, FIX_ONE, 0, 111);
    let result = PerceptionResult::new(estimation, None);
    assert_eq!(TPMetricsAP.get_value(&result), 0);
    assert_eq!(TPMetricsAPH.get_value(&result), 0);
}

/// With no results and no ground truths the average precision is
/// undefined: a `None`, not a zero and not an error.
#[test]
fn degenerate_ap_is_undefined() {
    let results: Vec<PerceptionResult> = Vec::new();
    let ap = Ap::new(&results, &0).calculate_ap(TPMetricsAP, &MatchingMode::CenterDistance, &1000);
    assert!(ap.is_none());
    let aph = Ap::new(&results, &0).calculate_ap(
        TPMetricsAPH,
        &MatchingMode::CenterDistance,
        &1000,
    );
    assert!(aph.is_none());
}

/// With no results but some ground truths the average precision is zero,
/// not undefined.
#[test]
fn empty_results_with_ground_truth() {
    let results: Vec<PerceptionResult> = Vec::new();
    let ap = Ap::new(&results, &3).calculate_ap(TPMetricsAP, &MatchingMode::CenterDistance, &1000);
    assert_eq!(ap, Some(0));
}

/// Three false positives against zero ground truths: recall stays zero
/// throughout and the average precision is zero.
#[test]
fn all_false_positive_curve() {
    let mut results: Vec<PerceptionResult> = Vec::new();
    for _ in 0..3 {
        let estimation = make_object(1000, 1000, 0, FIX_ONE, 0, 111);
        results.push(PerceptionResult::new(estimation, None));
    }
    let ap_calc = Ap::new(&results, &0);
    let (tp_list, fp_list) = ap_calc.calculate_tp_fp(
        TPMetricsAP,
        &MatchingMode::CenterDistance,
        &1000,
    );
    assert_eq!(tp_list, vec![0, 0, 0]);
    assert_eq!(fp_list, vec![1, 2, 3]);
    let (precision_list, recall_list) = ap_calc.calculate_precision_recall(&tp_list);
    assert_eq!(precision_list, vec![0, 0, 0]);
    assert_eq!(recall_list, vec![0, 0, 0]);
    let ap = ap_calc.calculate_ap(TPMetricsAP, &MatchingMode::CenterDistance, &1000);
    assert_eq!(ap, Some(0));
}

/// A hand-checked three-result curve: matched, false positive, matched,
/// against two ground truths.  The envelope integrates to exactly one
/// third (two thirds precision times one half recall gain).
#[test]
fn ap_three_result_curve() {
    let gt0 = make_object(0, 0, 0, FIX_ONE, 0, 100);
    let gt1 = make_object(10_000, 0, 0, FIX_ONE, 0, 101);
    let hit0 = make_object(0, 0, 0, FIX_ONE, 0, 111);
    let hit1 = make_object(10_000, 0, 0, FIX_ONE, 0, 112);
    let mut results: Vec<PerceptionResult> = Vec::new();
    results.push(PerceptionResult::new(hit0, Some(gt0)));
    results.push(PerceptionResult::new(hit1, None));
    results.push(PerceptionResult::new(hit1, Some(gt1)));
    let ap = Ap::new(&results, &2).calculate_ap(TPMetricsAP, &MatchingMode::CenterDistance, &1000);
    assert_eq!(ap, Some(333_333));
}

/// The per-mode score table carries one AP and one APH per target label.
#[test]
fn detection_metrics_score_table() {
    let gt = make_object(0, 0, 0, FIX_ONE, 0, 100);
    let hit = make_object(0, 0, 0, FIX_ONE, 0, 111);
    let car_results = vec![PerceptionResult::new(hit, Some(gt))];
    let pedestrian_results: Vec<PerceptionResult> = Vec::new();
    let results_map = vec![car_results, pedestrian_results];
    let num_gt_map = vec![1, 0];
    let target_labels = vec![Label::Car, Label::Pedestrian];
    let thresholds = vec![1000, 1000];
    let table = DetectionMetricsScore::new(
        &results_map,
        &num_gt_map,
        &target_labels,
        &MatchingMode::CenterDistance,
        &thresholds,
    );
    assert_eq!(table.target_labels, target_labels);
    assert_eq!(table.matching_mode, MatchingMode::CenterDistance);
    assert_eq!(table.thresholds, thresholds);
    // A single kept point spans no recall interval, so its AP is zero.
    assert_eq!(table.ap_list, vec![Some(0), None]);
    assert_eq!(table.aph_list, vec![Some(0), None]);
}
