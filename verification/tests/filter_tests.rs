//! Filtering, grouping, label conversion, thresholds and name parsing.

use perception_eval::config::FilterParams;
use perception_eval::evaluation_task::{set_task, EvaluationTask};
use perception_eval::filter::{filter_objects, hash_num_objects, hash_objects, is_target_object};
use perception_eval::frame_id::{FrameID, FrameIdError};
use perception_eval::label::{convert_labels, Label, LabelConverter, LabelError};
use perception_eval::math::FIX_ONE;
use perception_eval::object::{DynamicObject, Orientation, Size3};
use perception_eval::point::Point3;
use perception_eval::threshold::{get_label_threshold, LabelThreshold};

fn make_object(x: i64, y: i64, label: Label, pointcloud_num: Option<i64>, uuid: Option<u64>)
    -> DynamicObject {
    DynamicObject {
        timestamp: 10000,
        frame_id: FrameID::BaseLink,
        position: Point3 { x, y, z: 0 },
        orientation: Orientation { yaw: 0, cos: FIX_ONE, sin: 0 },
        size: Size3 { length: 2000, width: 1000, height: 1000 },
        velocity: None,
        confidence: FIX_ONE,
        label,
        pointcloud_num,
        uuid,
    }
}

#[test]
fn test_hash_objects() {
    let object = make_object(1000, 1000, Label::Car, Some(1000), Some(111));
    let object_map = hash_objects(&vec![object], &vec![Label::Car, Label::Pedestrian]);
    assert_eq!(object_map[0], vec![object]);
    assert_eq!(object_map[1], vec![]);
}

#[test]
fn test_hash_num_objects() {
    let object = make_object(1000, 1000, Label::Car, Some(1000), Some(111));
    let object_num_map = hash_num_objects(&vec![object], &vec![Label::Car, Label::Pedestrian]);
    assert_eq!(object_num_map[0], 1);
    assert_eq!(object_num_map[1], 0);
}

#[test]
fn test_is_target_object() {
    let object = make_object(1000, 1000, Label::Car, Some(1000), Some(111));
    let target_labels = vec![Label::Car, Label::Pedestrian];
    let max_x_positions = vec![20_000, 10_000];
    let max_y_positions = vec![20_000, 10_000];
    let min_point_numbers = Some(vec![100, 100]);
    let target_uuids = None;

    let is_target = is_target_object(
        &object,
        &target_labels,
        &max_x_positions,
        &max_y_positions,
        &min_point_numbers,
        &target_uuids,
    );
    assert_eq!(is_target, true);
}

/// Position bounds, the point-count floor and the id list each veto an
/// object on their own.
#[test]
fn is_target_object_vetoes() {
    let target_labels = vec![Label::Car];
    let max_x = vec![5000];
    let max_y = vec![5000];

    let far = make_object(10_000, 0, Label::Car, Some(1000), Some(111));
    assert!(!is_target_object(&far, &target_labels, &max_x, &max_y, &None, &None));

    let sparse = make_object(1000, 1000, Label::Car, Some(5), Some(111));
    assert!(!is_target_object(&sparse, &target_labels, &max_x, &max_y, &Some(vec![100]), &None));

    let stranger = make_object(1000, 1000, Label::Car, Some(1000), Some(42));
    assert!(
        !is_target_object(&stranger, &target_labels, &max_x, &max_y, &None, &Some(vec![7, 9]))
    );

    let wrong_label = make_object(1000, 1000, Label::Bus, Some(1000), Some(111));
    assert!(!is_target_object(&wrong_label, &target_labels, &max_x, &max_y, &None, &None));
}

/// Filtering keeps the near car and drops the far one.
#[test]
fn filter_objects_by_position() {
    let near = make_object(1000, 1000, Label::Car, Some(1000), Some(111));
    let far = make_object(10_000, 10_000, Label::Car, Some(1000), Some(111));
    let objects = vec![near, far];
    let params = FilterParams::new(&vec!["car"], 5000, 5000, None, None).unwrap();
    let ret = filter_objects(&objects, false, &params);
    assert_eq!(ret, vec![near]);
}

/// Ground truths are also held to the point-count filter; estimations are
/// not.
#[test]
fn filter_objects_ground_truth_only_filters() {
    let sparse = make_object(1000, 1000, Label::Car, Some(5), Some(111));
    let objects = vec![sparse];
    let params = FilterParams::new(&vec!["car"], 5000, 5000, Some(100), None).unwrap();
    assert_eq!(filter_objects(&objects, false, &params).len(), 1);
    assert_eq!(filter_objects(&objects, true, &params).len(), 0);
}

#[test]
fn label_converter_table() {
    let label_prefix = Some("autoware");
    let converter = LabelConverter::new(label_prefix).unwrap();
    assert_eq!(converter.convert("car"), Label::Car);
    assert_eq!(converter.convert("vehicle.ambulance"), Label::Car);
    assert_eq!(converter.convert("trailer"), Label::Truck);
    assert_eq!(converter.convert("vehicle.bus.bendy"), Label::Bus);
    assert_eq!(converter.convert("vehicle.bicycle"), Label::Bicycle);
    assert_eq!(converter.convert("vehicle.motorcycle"), Label::Motorbike);
    assert_eq!(converter.convert("human.pedestrian.stroller"), Label::Pedestrian);
    assert_eq!(converter.convert("animal"), Label::Animal);
    assert_eq!(converter.convert("movable_object.barrier"), Label::Unknown);
    assert_eq!(converter.convert("no_such_name"), Label::Unknown);
}

#[test]
fn label_converter_rejects_unknown_prefix() {
    let result = LabelConverter::new(Some("other"));
    assert!(matches!(result, Err(LabelError::ValueError(_))));
    assert!(LabelConverter::new(None).is_ok());
}

#[test]
fn convert_labels_list() {
    let target_labels = vec!["car", "bus", "pedestrian"];
    let converter = LabelConverter::new(Some("autoware")).unwrap();
    let result = convert_labels(&target_labels, &converter).unwrap();
    assert_eq!(result, vec![Label::Car, Label::Bus, Label::Pedestrian]);
}

#[test]
fn label_names() {
    assert_eq!(Label::Car.name(), "Car");
    let object = make_object(0, 0, Label::Pedestrian, None, None);
    assert_eq!(object.label_name(), "Pedestrian");
}

#[test]
fn threshold_lookup() {
    let label = Label::Car;
    let target_labels = vec![Label::Car, Label::Bus, Label::Pedestrian];
    let thresholds = vec![1000, 2000, 3000];

    let label_threshold = LabelThreshold::new(&label, &target_labels);
    assert_eq!(label_threshold.get_threshold(&thresholds), Some(1000));

    assert_eq!(get_label_threshold(&Label::Pedestrian, &target_labels, &thresholds), Some(3000));
    assert_eq!(get_label_threshold(&Label::Animal, &target_labels, &thresholds), None);
}

#[test]
fn evaluation_task_names() {
    let task = set_task("detection").unwrap();
    assert_eq!(task, EvaluationTask::Detection);
    assert_eq!(set_task("Tracking").unwrap(), EvaluationTask::Tracking);
    assert!(set_task("segmentation").is_err());
    assert!(task.is_3d());
    assert!(!task.is_2d());
}

#[test]
fn frame_id_names() {
    assert_eq!(FrameID::from_str("base_link").unwrap(), FrameID::BaseLink);
    assert_eq!(FrameID::from_str("Map").unwrap(), FrameID::MapFrame);
    assert_eq!(FrameID::from_str("cam_front").unwrap(), FrameID::CamFront);
    assert!(matches!(FrameID::from_str("lidar_top"), Err(FrameIdError::ValueError(_))));
}
