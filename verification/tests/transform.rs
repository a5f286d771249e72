use rusty_gui::event::{PhysicalPosition, PhysicalSize};
use rusty_gui::rendering::coords::CenteredPosition;
use rusty_gui::rendering::transform::{Pose, Quaternion, Transform, Vector3};

fn boxed(x: i32, y: i32, width: i32, height: i32) -> Transform {
    Transform::new(Vector3::new(x, y, 0), Quaternion::new(0, 0, 0, 0), Vector3::new(width, height, 10))
}

#[test]
fn new_transform_holds_its_fields_and_is_fresh() {
    let t = Transform::new(Vector3::new(1, 2, 3), Quaternion::new(4, 5, 6, 7), Vector3::new(8, 9, 10));
    assert_eq!(t.position, Vector3 { x: 1, y: 2, z: 3 });
    assert_eq!(t.rotation, Quaternion { s: 4, v: Vector3 { x: 5, y: 6, z: 7 } });
    assert_eq!(t.scale, Vector3 { x: 8, y: 9, z: 10 });
    let pose = Pose { position: t.position, rotation: t.rotation, scale: t.scale };
    assert_eq!(t.pose(), pose);
    assert_eq!(t.value, pose);
    assert_eq!(t.uploaded, pose);
    assert!(!t.is_stale());
    assert_eq!(t.anchor(), CenteredPosition { x: 1, y: 2 });
}

#[test]
fn contains_points_strictly_inside_the_box() {
    let t = boxed(0, 0, 75, 75);
    assert!(t.contains((10, 10)));
    assert!(t.contains((0, 0)));
    assert!(t.contains((37, 37)));
    assert!(t.contains((-37, -37)));
    assert!(t.contains((37, -37)));
}

#[test]
fn does_not_contain_points_outside_the_box() {
    let t = boxed(0, 0, 75, 75);
    assert!(!t.contains((38, 0)));
    assert!(!t.contains((0, 38)));
    assert!(!t.contains((-38, 0)));
    assert!(!t.contains((0, -38)));
    assert!(!t.contains((1000, 1000)));
    assert!(!t.contains((38, 10)));
    assert!(!t.contains((10, -38)));
}

#[test]
fn the_edge_of_the_box_is_outside() {
    let t = boxed(0, 0, 80, 40);
    assert!(t.contains((39, 19)));
    assert!(!t.contains((40, 0)));
    assert!(!t.contains((-40, 0)));
    assert!(!t.contains((0, 20)));
    assert!(!t.contains((0, -20)));
}

#[test]
fn the_box_is_centred_on_the_position() {
    let t = boxed(100, -50, 20, 10);
    assert!(t.contains((100, -50)));
    assert!(t.contains((109, -46)));
    assert!(t.contains((91, -54)));
    assert!(!t.contains((110, -50)));
    assert!(!t.contains((100, -45)));
    assert!(!t.contains((0, 0)));
}

#[test]
fn a_box_without_extent_contains_nothing() {
    assert!(!boxed(0, 0, 0, 10).contains((0, 0)));
    assert!(!boxed(0, 0, 10, 0).contains((0, 0)));
    assert!(!boxed(0, 0, -10, -10).contains((0, 0)));
    assert!(boxed(0, 0, 1, 1).contains((0, 0)));
}

#[test]
fn contains_does_not_overflow_at_the_limits() {
    let t = boxed(i32::MAX, i32::MIN, i32::MAX, i32::MAX);
    assert!(t.contains((i32::MAX as i64, i32::MIN as i64)));
    assert!(!t.contains((i64::MAX, i64::MAX)));
    assert!(!t.contains((i64::MIN, i64::MIN)));
}

#[test]
fn hit_test_converts_the_cursor_to_centered_space() {
    let t = boxed(0, 0, 75, 75);
    let surface = PhysicalSize::new(800, 600);
    assert!(t.hit_test(PhysicalPosition::new(410, 310), surface));
    assert!(t.hit_test(PhysicalPosition::new(400, 300), surface));
    assert!(!t.hit_test(PhysicalPosition::new(10, 10), surface));
    assert!(!t.hit_test(PhysicalPosition::new(438, 300), surface));
    assert!(t.hit_test(PhysicalPosition::new(437, 300), surface));
    assert!(t.hit_test(PhysicalPosition::new(363, 263), surface));
    assert!(!t.hit_test(PhysicalPosition::new(362, 263), surface));
}

#[test]
fn hit_test_follows_the_surface_size() {
    let t = boxed(0, 0, 75, 75);
    let cursor = PhysicalPosition::new(410, 310);
    assert!(t.hit_test(cursor, PhysicalSize::new(800, 600)));
    assert!(!t.hit_test(cursor, PhysicalSize::new(1600, 1200)));
    assert!(t.hit_test(PhysicalPosition::new(810, 610), PhysicalSize::new(1600, 1200)));
}

#[test]
fn a_changed_field_makes_the_transform_stale_until_synchronized() {
    let mut t = boxed(0, 0, 75, 75);
    assert!(!t.synchronize());
    t.position.x = 5;
    assert!(t.is_stale());
    let old_pose = t.value;
    assert_ne!(t.pose(), old_pose);
    assert!(t.synchronize());
    assert!(!t.is_stale());
    assert_eq!(t.uploaded, t.pose());
    assert_eq!(t.value, t.pose());
    assert!(!t.synchronize());
}

#[test]
fn update_composes_the_pose_and_leaves_the_upload() {
    let mut t = boxed(0, 0, 75, 75);
    let uploaded = t.uploaded;
    t.scale.y = 3;
    t.rotation.s = 9;
    t.update();
    assert_eq!(t.value, t.pose());
    assert_eq!(t.uploaded, uploaded);
    assert!(t.is_stale());
}

#[test]
fn a_field_set_back_is_not_uploaded_again() {
    let mut t = boxed(0, 0, 75, 75);
    t.position.y = 1;
    t.position.y = 0;
    assert!(!t.is_stale());
    assert!(!t.synchronize());
}
