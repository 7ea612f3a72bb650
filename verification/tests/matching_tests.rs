//! The four matching strategies on concrete fixed-point objects.
//!
//! Lengths are in millimetres (1.0 m = 1000 units), ratios are fractions
//! of `FIX_ONE`, and headings are in units of pi / `HALF_TURN`.

use perception_eval::frame_id::FrameID;
use perception_eval::label::Label;
use perception_eval::math::FIX_ONE;
use perception_eval::matching::{
    calculate_score_for_mode, is_better_for_mode, CenterDistanceMatching, Iou2dMatching,
    Iou3dMatching, MatchingMode, PlaneDistanceMatching,
};
use perception_eval::object::{DynamicObject, Orientation, Size3};
use perception_eval::point::Point3;

fn make_object(x: i64, y: i64, z: i64, length: i64, width: i64, height: i64, uuid: u64)
    -> DynamicObject {
    DynamicObject {
        timestamp: 10000,
        frame_id: FrameID::BaseLink,
        position: Point3 { x, y, z },
        orientation: Orientation { yaw: 0, cos: FIX_ONE, sin: 0 },
        size: Size3 { length, width, height },
        velocity: None,
        confidence: FIX_ONE,
        label: Label::Car,
        pointcloud_num: Some(1000),
        uuid: Some(uuid),
    }
}

#[test]
fn test_center_distance_matching() {
    let estimation = make_object(1000, 1000, 0, 2000, 1000, 1000, 111);
    let ground_truth = make_object(1000, 1000, 0, 2000, 1000, 1000, 100);

    let ans_score = CenterDistanceMatching.calculate_matching_score(&estimation, &ground_truth);
    assert_eq!(ans_score, 0);

    let ans_is_better = CenterDistanceMatching.is_better_than(&estimation, &ground_truth, &1000);
    assert_eq!(ans_is_better, true);
}

#[test]
fn test_plane_distance_matching() {
    let estimation = make_object(1000, 1000, 0, 2000, 1000, 1000, 111);
    let ground_truth = make_object(1000, 1000, 0, 2000, 1000, 1000, 100);

    let ans_score = PlaneDistanceMatching.calculate_matching_score(&estimation, &ground_truth);
    assert_eq!(ans_score, 0);

    let ans_is_better = PlaneDistanceMatching.is_better_than(&estimation, &ground_truth, &1000);
    assert_eq!(ans_is_better, true);
}

#[test]
fn test_iou2d_matching() {
    let estimation = make_object(1000, 1000, 0, 2000, 1000, 1000, 111);
    let ground_truth = make_object(1000, 1000, 0, 2000, 1000, 1000, 100);

    let ans_score = Iou2dMatching.calculate_matching_score(&estimation, &ground_truth);
    assert_eq!(ans_score, FIX_ONE);

    let ans_is_better = Iou2dMatching.is_better_than(&estimation, &ground_truth, &500_000);
    assert_eq!(ans_is_better, true);
}

#[test]
fn test_iou3d_matching() {
    let estimation = make_object(1000, 1000, 0, 2000, 1000, 1000, 111);
    let ground_truth = make_object(1000, 1000, 0, 2000, 1000, 1000, 100);

    let ans_score = Iou3dMatching.calculate_matching_score(&estimation, &ground_truth);
    assert_eq!(ans_score, FIX_ONE);

    let ans_is_better = Iou3dMatching.is_better_than(&estimation, &ground_truth, &500_000);
    assert_eq!(ans_is_better, true);
}

/// An object matched against an identical copy scores perfectly under all
/// four strategies, and matches at any positive threshold.
#[test]
fn self_match_all_strategies() {
    let estimation = make_object(1000, 1000, 0, 2000, 1000, 1000, 111);
    let ground_truth = make_object(1000, 1000, 0, 2000, 1000, 1000, 111);

    assert_eq!(CenterDistanceMatching.calculate_matching_score(&estimation, &ground_truth), 0);
    assert_eq!(PlaneDistanceMatching.calculate_matching_score(&estimation, &ground_truth), 0);
    assert_eq!(Iou2dMatching.calculate_matching_score(&estimation, &ground_truth), FIX_ONE);
    assert_eq!(Iou3dMatching.calculate_matching_score(&estimation, &ground_truth), FIX_ONE);

    assert!(CenterDistanceMatching.is_better_than(&estimation, &ground_truth, &1));
    assert!(PlaneDistanceMatching.is_better_than(&estimation, &ground_truth, &1));
    assert!(Iou2dMatching.is_better_than(&estimation, &ground_truth, &1));
    assert!(Iou3dMatching.is_better_than(&estimation, &ground_truth, &1));
}

/// A 100 mm shift moves the center distance and both nearest-corner
/// distances by exactly 100 mm.
#[test]
fn shifted_box_distances() {
    let ground_truth = make_object(1000, 1000, 0, 2000, 1000, 1000, 100);
    let estimation = make_object(1100, 1000, 0, 2000, 1000, 1000, 111);

    assert_eq!(CenterDistanceMatching.calculate_matching_score(&estimation, &ground_truth), 100);
    assert_eq!(PlaneDistanceMatching.calculate_matching_score(&estimation, &ground_truth), 100);
    assert!(!CenterDistanceMatching.is_better_than(&estimation, &ground_truth, &100));
    assert!(CenterDistanceMatching.is_better_than(&estimation, &ground_truth, &101));
}

/// Boxes of footprint 1.0 m x 2.0 m shifted by half their width overlap
/// in half their area: IoU = 1/3.
#[test]
fn shifted_box_iou2d() {
    let ground_truth = make_object(1000, 1000, 0, 2000, 1000, 1000, 100);
    let estimation = make_object(1500, 1000, 0, 2000, 1000, 1000, 111);

    let score = Iou2dMatching.calculate_matching_score(&estimation, &ground_truth);
    assert_eq!(score, 333_333);
}

/// Boxes lifted by half their height against each other overlap in half
/// their volume: volumetric IoU = 1/3.
#[test]
fn shifted_box_iou3d() {
    let ground_truth = make_object(1000, 1000, 0, 2000, 1000, 1000, 100);
    let estimation = make_object(1000, 1000, 500, 2000, 1000, 1000, 111);

    let score = Iou3dMatching.calculate_matching_score(&estimation, &ground_truth);
    assert_eq!(score, 333_333);
}

/// Disjoint boxes have IoU zero under both IoU strategies.
#[test]
fn disjoint_box_iou() {
    let ground_truth = make_object(0, 0, 0, 2000, 1000, 1000, 100);
    let estimation = make_object(10_000, 10_000, 0, 2000, 1000, 1000, 111);

    assert_eq!(Iou2dMatching.calculate_matching_score(&estimation, &ground_truth), 0);
    assert_eq!(Iou3dMatching.calculate_matching_score(&estimation, &ground_truth), 0);
    assert!(!Iou2dMatching.is_better_than(&estimation, &ground_truth, &0));
}

/// The mode dispatcher agrees with the individual strategies.
#[test]
fn mode_dispatch() {
    let ground_truth = make_object(1000, 1000, 0, 2000, 1000, 1000, 100);
    let estimation = make_object(1100, 1000, 0, 2000, 1000, 1000, 111);

    assert_eq!(
        calculate_score_for_mode(&MatchingMode::CenterDistance, &estimation, &ground_truth),
        100
    );
    assert_eq!(
        calculate_score_for_mode(&MatchingMode::PlaneDistance, &estimation, &ground_truth),
        100
    );
    assert_eq!(
        calculate_score_for_mode(&MatchingMode::Iou2d, &estimation, &ground_truth),
        Iou2dMatching.calculate_matching_score(&estimation, &ground_truth)
    );
    assert!(is_better_for_mode(&MatchingMode::CenterDistance, &estimation, &ground_truth, &200));
    assert!(!is_better_for_mode(&MatchingMode::Iou3d, &estimation, &ground_truth, &FIX_ONE));
}

/// The footprint of an axis-aligned box is its four corners,
/// counter-clockwise.
#[test]
fn footprint_corners() {
    let object = make_object(1000, 1000, 0, 2000, 2000, 1000, 111);
    let footprint = object.footprint();
    assert_eq!(footprint[0], Point3 { x: 2000, y: 2000, z: 0 });
    assert_eq!(footprint[1], Point3 { x: 0, y: 2000, z: 0 });
    assert_eq!(footprint[2], Point3 { x: 0, y: 0, z: 0 });
    assert_eq!(footprint[3], Point3 { x: 2000, y: 0, z: 0 });
}

/// A quarter-turn heading swaps the roles of length and width in the
/// footprint.
#[test]
fn footprint_quarter_turn() {
    let mut object = make_object(0, 0, 0, 2000, 1000, 1000, 111);
    object.orientation = Orientation { yaw: 500_000, cos: 0, sin: FIX_ONE };
    let footprint = object.footprint();
    assert_eq!(footprint[0], Point3 { x: -1000, y: 500, z: 0 });
    assert_eq!(footprint[1], Point3 { x: -1000, y: -500, z: 0 });
    assert_eq!(footprint[2], Point3 { x: 1000, y: -500, z: 0 });
    assert_eq!(footprint[3], Point3 { x: 1000, y: 500, z: 0 });
}
