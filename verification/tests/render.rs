use chase_sim::geometry::{Position, VisualTransform};
use chase_sim::units::TICKS_PER_UNIT;

#[test]
fn identity_transform_has_no_offset_and_unit_scale() {
    let t = VisualTransform::identity();
    assert_eq!(t, VisualTransform { x: 0, y: 0, depth: 0, rotation: 0, scale: TICKS_PER_UNIT });
}

#[test]
fn sync_copies_the_position_exactly() {
    let mut t = VisualTransform::identity();
    t.follow(&Position::new(1530, -1300));
    assert_eq!(t.x, 1530);
    assert_eq!(t.y, -1300);
}

#[test]
fn sync_copies_the_ends_of_the_range() {
    let mut t = VisualTransform::identity();
    t.follow(&Position::new(i64::MIN, i64::MAX));
    assert_eq!((t.x, t.y), (i64::MIN, i64::MAX));
}

#[test]
fn sync_leaves_depth_rotation_and_scale_alone() {
    let mut t = VisualTransform { x: 1, y: 2, depth: 30, rotation: 450, scale: 25 };
    t.follow(&Position::new(7, 8));
    assert_eq!(t, VisualTransform { x: 7, y: 8, depth: 30, rotation: 450, scale: 25 });
}

#[test]
fn repeated_sync_without_movement_changes_nothing() {
    let p = Position::new(538, 308);
    let mut t = VisualTransform { x: 0, y: 0, depth: 3, rotation: 0, scale: 10 };
    t.follow(&p);
    let once = t;
    for _ in 0..1000 {
        t.follow(&p);
        assert_eq!(t, once);
    }
    assert_eq!((t.x, t.y), (538, 308));
}
