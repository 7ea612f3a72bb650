//! The geometric primitives of the object model.

use perception_eval::frame_id::FrameID;
use perception_eval::label::Label;
use perception_eval::math::FIX_ONE;
use perception_eval::object::{DynamicObject, Orientation, Size3};
use perception_eval::point::{distance_points, distance_points_bev, get_point_left_right, Point3};

fn make_object(x: i64, y: i64, z: i64) -> DynamicObject {
    DynamicObject {
        timestamp: 10000,
        frame_id: FrameID::BaseLink,
        position: Point3 { x, y, z },
        orientation: Orientation::identity(),
        size: Size3 { length: 2000, width: 1000, height: 1000 },
        velocity: None,
        confidence: FIX_ONE,
        label: Label::Car,
        pointcloud_num: Some(1000),
        uuid: Some(111),
    }
}

#[test]
fn point_distances() {
    let a = Point3 { x: 1000, y: 1000, z: 1000 };
    let b = Point3 { x: 2000, y: 2000, z: 2000 };
    // The floor of sqrt(3) metres and sqrt(2) metres, in millimetres.
    assert_eq!(distance_points(&a, &b), 1732);
    assert_eq!(distance_points_bev(&a, &b), 1414);
    assert_eq!(distance_points(&a, &a), 0);
}

#[test]
fn left_right_by_cross_product() {
    let p1 = Point3 { x: 1000, y: 2000, z: 0 };
    let p2 = Point3 { x: 2000, y: 1000, z: 0 };
    // Negative cross product keeps the order.
    let (left, right) = get_point_left_right(&p1, &p2);
    assert_eq!(left, p1);
    assert_eq!(right, p2);
    // Anything else swaps it.
    let (left, right) = get_point_left_right(&p2, &p1);
    assert_eq!(left, p1);
    assert_eq!(right, p2);
}

#[test]
fn box_measures() {
    let object = make_object(1000, 1000, 0);
    assert_eq!(object.area(), 2_000_000);
    assert_eq!(object.volume(), 2_000_000_000);
    assert_eq!(object.distance(), 1414);
    assert_eq!(object.distance_bev(), 1414);
    assert_eq!(object.distance_from(&Point3 { x: 1000, y: 1000, z: 1000 }), 1000);
    assert_eq!(object.distance_bev_from(&Point3 { x: 1000, y: 1000, z: 1000 }), 0);
    assert_eq!(object.heading(), 0);
}

#[test]
fn object_state_snapshot() {
    let object = make_object(1000, 1000, 0);
    let state = object.state();
    assert_eq!(state.position, object.position);
    assert_eq!(state.orientation, object.orientation);
    assert_eq!(state.size, object.size);
    assert!(state.velocity.is_none());
}

/// Weak equality ignores size, confidence, point count and instance id.
#[test]
fn weak_equality() {
    let object = make_object(1000, 1000, 0);
    let mut other = object;
    other.size = Size3 { length: 9000, width: 9000, height: 9000 };
    other.confidence = 0;
    other.pointcloud_num = None;
    other.uuid = Some(999);
    assert!(object == other);

    let mut moved = object;
    moved.position = Point3 { x: 2000, y: 1000, z: 0 };
    assert!(object != moved);

    let mut relabeled = object;
    relabeled.label = Label::Bus;
    assert!(object != relabeled);
}
