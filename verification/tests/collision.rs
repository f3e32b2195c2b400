use chase_sim::collision::overlaps;
use chase_sim::geometry::{Position, RenderExtent};

fn square() -> RenderExtent {
    RenderExtent::new(500, 500)
}

#[test]
fn offset_squares_overlap() {
    let subject = Position::new(0, 0);
    let target = Position::new(250, 250);
    assert!(overlaps(&subject, &square(), &target, &square()));
}

#[test]
fn squares_apart_on_x_do_not_overlap() {
    let subject = Position::new(0, 0);
    let target = Position::new(510, 0);
    assert!(!overlaps(&subject, &square(), &target, &square()));
}

#[test]
fn squares_that_share_an_edge_do_not_overlap() {
    let subject = Position::new(0, 0);
    for target in [
        Position::new(500, 0),
        Position::new(-500, 0),
        Position::new(0, 500),
        Position::new(0, -500),
        Position::new(500, 500),
    ] {
        assert!(!overlaps(&subject, &square(), &target, &square()));
    }
}

#[test]
fn squares_one_tick_inside_the_edge_overlap() {
    let subject = Position::new(0, 0);
    for target in [
        Position::new(499, 0),
        Position::new(-499, 0),
        Position::new(0, 499),
        Position::new(0, -499),
        Position::new(499, -499),
    ] {
        assert!(overlaps(&subject, &square(), &target, &square()));
    }
}

#[test]
fn overlap_needs_both_axes() {
    let subject = Position::new(0, 0);
    assert!(!overlaps(&subject, &square(), &Position::new(100, 600), &square()));
    assert!(!overlaps(&subject, &square(), &Position::new(600, 100), &square()));
    assert!(overlaps(&subject, &square(), &Position::new(100, 100), &square()));
}

#[test]
fn a_box_inside_another_overlaps_it() {
    let outer = RenderExtent::new(1000, 1000);
    let inner = RenderExtent::new(10, 10);
    assert!(overlaps(&Position::new(0, 0), &outer, &Position::new(400, 400), &inner));
    assert!(overlaps(&Position::new(400, 400), &inner, &Position::new(0, 0), &outer));
}

#[test]
fn overlap_does_not_depend_on_who_is_the_subject() {
    let a = Position::new(-30, 12);
    let b = Position::new(100, -20);
    let small = RenderExtent::new(131, 40);
    let large = RenderExtent::new(200, 33);
    assert_eq!(overlaps(&a, &small, &b, &large), overlaps(&b, &large, &a, &small));
    assert!(overlaps(&a, &small, &b, &large));
    let short = RenderExtent::new(130, 40);
    assert_eq!(overlaps(&a, &short, &b, &large), overlaps(&b, &large, &a, &short));
    assert!(!overlaps(&a, &short, &b, &large));
}

#[test]
fn boxes_at_the_ends_of_the_range_are_compared_without_wrapping() {
    let wide = RenderExtent::new(i64::MAX, i64::MAX);
    let far = Position::new(i64::MAX, i64::MAX);
    let near = Position::new(i64::MAX - 1, i64::MAX - 1);
    assert!(overlaps(&near, &wide, &far, &wide));
    let low = Position::new(i64::MIN, i64::MIN);
    assert!(!overlaps(&low, &wide, &far, &wide));
    assert!(!overlaps(&far, &wide, &low, &wide));
}
