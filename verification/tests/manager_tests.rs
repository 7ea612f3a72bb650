//! Assignment, frame separation and the end-to-end evaluation flow.

use perception_eval::config::{FilterParams, MetricsParams, PerceptionEvaluationConfig};
use perception_eval::dataset::{get_current_frame, FrameGroundTruth};
use perception_eval::evaluation_task::EvaluationTask;
use perception_eval::frame_id::FrameID;
use perception_eval::label::Label;
use perception_eval::manager::PerceptionEvaluationManager;
use perception_eval::math::FIX_ONE;
use perception_eval::matching::MatchingMode;
use perception_eval::metrics::error::MetricsError;
use perception_eval::object::{DynamicObject, Orientation, Size3};
use perception_eval::point::Point3;
use perception_eval::result::{get_perception_results, PerceptionResult};
use perception_eval::result::frame::PerceptionFrameResult;

fn make_object(x: i64, y: i64, label: Label, uuid: u64) -> DynamicObject {
    DynamicObject {
        timestamp: 10000,
        frame_id: FrameID::BaseLink,
        position: Point3 { x, y, z: 0 },
        orientation: Orientation { yaw: 0, cos: FIX_ONE, sin: 0 },
        size: Size3 { length: 2000, width: 1000, height: 1000 },
        velocity: None,
        confidence: FIX_ONE,
        label,
        pointcloud_num: Some(1000),
        uuid: Some(uuid),
    }
}

/// Every estimation appears in the result list exactly once, paired or as
/// a false positive.
#[test]
fn assignment_covers_every_estimation() {
    let estimations = vec![
        make_object(0, 0, Label::Car, 1),
        make_object(5000, 0, Label::Car, 2),
        make_object(0, 5000, Label::Pedestrian, 3),
    ];
    let ground_truths = vec![
        make_object(100, 0, Label::Car, 11),
        make_object(0, 5100, Label::Bus, 12),
    ];
    let results = get_perception_results(&estimations, &ground_truths);
    assert_eq!(results.len(), 3);
    let paired = results.iter().filter(|r| r.ground_truth_object.is_some()).count();
    assert_eq!(paired, 1);
    assert!(results[0].ground_truth_object.is_some());
    assert_eq!(results[0].estimated_object.uuid, Some(1));
    assert_eq!(results[1].estimated_object.uuid, Some(2));
    assert_eq!(results[2].estimated_object.uuid, Some(3));
}

/// Each estimation takes the nearest not-yet-consumed ground truth of its
/// label.
#[test]
fn assignment_is_greedy_by_distance() {
    let estimations = vec![
        make_object(0, 0, Label::Car, 1),
        make_object(10_000, 0, Label::Car, 2),
    ];
    let ground_truths = vec![
        make_object(9000, 0, Label::Car, 11),
        make_object(1000, 0, Label::Car, 12),
    ];
    let results = get_perception_results(&estimations, &ground_truths);
    assert_eq!(results.len(), 2);
    let first_gt = results[0].ground_truth_object.unwrap();
    let second_gt = results[1].ground_truth_object.unwrap();
    assert_eq!(first_gt.uuid, Some(12));
    assert_eq!(second_gt.uuid, Some(11));
}

/// No estimations give no results; no ground truths give only false
/// positives.
#[test]
fn assignment_degenerate_lists() {
    let nothing: Vec<DynamicObject> = Vec::new();
    let gts = vec![make_object(0, 0, Label::Car, 11)];
    assert_eq!(get_perception_results(&nothing, &gts).len(), 0);

    let estimations = vec![
        make_object(0, 0, Label::Car, 1),
        make_object(1000, 0, Label::Car, 2),
        make_object(2000, 0, Label::Car, 3),
    ];
    let results = get_perception_results(&estimations, &nothing);
    assert_eq!(results.len(), 3);
    for r in results.iter() {
        assert!(r.ground_truth_object.is_none());
    }
}

/// Two runs on identical, same-order inputs yield the identical
/// assignment.
#[test]
fn assignment_is_deterministic() {
    let estimations = vec![
        make_object(0, 0, Label::Car, 1),
        make_object(5000, 0, Label::Car, 2),
        make_object(0, 5000, Label::Pedestrian, 3),
    ];
    let ground_truths = vec![
        make_object(100, 0, Label::Car, 11),
        make_object(0, 5100, Label::Pedestrian, 12),
    ];
    let first = get_perception_results(&estimations, &ground_truths);
    let second = get_perception_results(&estimations, &ground_truths);
    assert_eq!(format!("{:?}", first), format!("{:?}", second));
}

/// Separation: a matched result is a true positive, an unmatched one a
/// false positive, and an untouched ground truth a false negative.
#[test]
fn frame_separation() {
    let gt_hit = make_object(0, 0, Label::Car, 11);
    let gt_missed = make_object(20_000, 0, Label::Car, 12);
    let estimations = vec![
        make_object(100, 0, Label::Car, 1),
        make_object(40_000, 0, Label::Car, 2),
    ];
    let ground_truths = vec![gt_hit, gt_missed];
    let results = get_perception_results(&estimations, &ground_truths);
    let frame = FrameGroundTruth { timestamp: 10000, objects: ground_truths };
    let target_labels = vec![Label::Car];
    let thresholds = vec![2000];
    let frame_result = PerceptionFrameResult::new(
        results,
        frame,
        &target_labels,
        MatchingMode::CenterDistance,
        &thresholds,
    )
    .unwrap();
    assert_eq!(frame_result.results().len(), 2);
    assert_eq!(frame_result.tp_results().len(), 1);
    assert_eq!(frame_result.fp_results().len(), 1);
    assert_eq!(frame_result.fn_objects().len(), 1);
    assert_eq!(frame_result.tp_results()[0].estimated_object.uuid, Some(1));
    assert_eq!(frame_result.fn_objects()[0].uuid, Some(12));
}

/// The nearest frame within the time threshold is the current one.
#[test]
fn current_frame_by_timestamp() {
    let frames = vec![
        FrameGroundTruth { timestamp: 0, objects: Vec::new() },
        FrameGroundTruth { timestamp: 100_000, objects: Vec::new() },
    ];
    let hit = get_current_frame(&frames, 10_000).unwrap();
    assert_eq!(hit.timestamp, 0);
    let late = get_current_frame(&frames, 120_000).unwrap();
    assert_eq!(late.timestamp, 100_000);
    assert!(get_current_frame(&frames, 500_000).is_none());
    let empty: Vec<FrameGroundTruth> = Vec::new();
    assert!(get_current_frame(&empty, 0).is_none());
}

fn make_config() -> PerceptionEvaluationConfig {
    let filter_params = FilterParams::new(&vec!["car"], 100_000, 100_000, Some(0), None).unwrap();
    let metrics_params = MetricsParams::new(&vec!["car"], 1000, 2000, 500_000, 500_000).unwrap();
    PerceptionEvaluationConfig {
        version: String::from("annotation"),
        evaluation_task: EvaluationTask::Detection,
        frame_id: FrameID::BaseLink,
        filter_params,
        metrics_params,
    }
}

/// One frame with one perfect detection: the whole report is computed,
/// one table per matching mode.
#[test]
fn manager_end_to_end() {
    let frame = FrameGroundTruth {
        timestamp: 10_000,
        objects: vec![make_object(1000, 1000, Label::Car, 11)],
    };
    let mut manager = PerceptionEvaluationManager::from(make_config(), vec![frame]);
    let estimations = vec![make_object(1000, 1000, Label::Car, 1)];
    let current = manager.get_frame_ground_truth(10_500).unwrap();
    manager.add_frame_result(&estimations, &current).unwrap();
    assert_eq!(manager.frame_results.len(), 1);
    assert_eq!(manager.frame_results[0].tp_results.len(), 1);
    assert_eq!(manager.frame_results[0].fn_objects.len(), 0);

    let score = manager.get_metrics_score().unwrap();
    assert_eq!(score.scores.len(), 4);
    assert_eq!(score.scores[0].matching_mode, MatchingMode::CenterDistance);
    assert_eq!(score.scores[1].matching_mode, MatchingMode::PlaneDistance);
    assert_eq!(score.scores[2].matching_mode, MatchingMode::Iou2d);
    assert_eq!(score.scores[3].matching_mode, MatchingMode::Iou3d);
    for table in score.scores.iter() {
        assert_eq!(table.target_labels, vec![Label::Car]);
        assert_eq!(table.ap_list.len(), 1);
        // A single kept point spans no recall interval, so its AP is zero.
        assert_eq!(table.ap_list[0], Some(0));
        assert_eq!(table.aph_list[0], Some(0));
    }
}

/// A task other than detection is refused with the named error.
#[test]
fn manager_refuses_other_tasks() {
    let mut config = make_config();
    config.evaluation_task = EvaluationTask::Tracking;
    let manager = PerceptionEvaluationManager::from(config, Vec::new());
    let result = manager.get_metrics_score();
    assert!(matches!(result, Err(MetricsError::NotImplementedError(EvaluationTask::Tracking))));
}

/// A label absent from the target labels drops its results from both the
/// true-positive and the false-positive set.
#[test]
fn out_of_scope_label_is_dropped() {
    let gt = make_object(0, 0, Label::Bus, 11);
    let estimations = vec![make_object(100, 0, Label::Bus, 1)];
    let ground_truths = vec![gt];
    let results = get_perception_results(&estimations, &ground_truths);
    let frame = FrameGroundTruth { timestamp: 10_000, objects: ground_truths };
    let target_labels = vec![Label::Car];
    let thresholds = vec![2000];
    let frame_result = PerceptionFrameResult::new(
        results,
        frame,
        &target_labels,
        MatchingMode::CenterDistance,
        &thresholds,
    )
    .unwrap();
    assert_eq!(frame_result.tp_results().len(), 0);
    assert_eq!(frame_result.fp_results().len(), 0);
    // With no true positive accounting for it, the bus stays a false
    // negative of its frame.
    assert_eq!(frame_result.fn_objects().len(), 1);
}
