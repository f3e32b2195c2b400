//! Axis-aligned bounding boxes and the overlap test.

use vstd::prelude::*;

use crate::geometry::{Point, Position, RenderExtent, Size};

verus! {

/// An axis-aligned box. It covers the points whose `x` lies in the half-open
/// interval from `left` to `right` and whose `y` lies in the half-open
/// interval from `top` to `bottom`.
pub struct Aabb {
    pub left: int,
    pub right: int,
    pub top: int,
    pub bottom: int,
}

impl Aabb {
    /// Whether the box covers the point `(x, y)`.
    pub open spec fn covers(self, x: int, y: int) -> bool {
        self.left <= x < self.right && self.top <= y < self.bottom
    }

    /// Whether the box covers any point at all.
    pub open spec fn is_inhabited(self) -> bool {
        self.left < self.right && self.top < self.bottom
    }
}

/// The box of an entity: its position is the corner with the smallest
/// coordinates, and its extent grows towards larger ones.
pub open spec fn bounding_box(position: Point, extent: Size) -> Aabb {
    Aabb {
        left: position.x,
        right: position.x + extent.width,
        top: position.y,
        bottom: position.y + extent.height,
    }
}

/// The overlap test between the box of the subject and the box of a target.
/// Every comparison is strict, so boxes that only share an edge do not
/// overlap.
pub open spec fn boxes_overlap(subject: Aabb, target: Aabb) -> bool {
    &&& target.left < subject.right
    &&& target.right > subject.left
    &&& target.top < subject.bottom
    &&& target.bottom > subject.top
}

/// Tests whether the box of a subject overlaps the box of a target.
pub fn overlaps(
    subject_position: &Position,
    subject_extent: &RenderExtent,
    target_position: &Position,
    target_extent: &RenderExtent,
) -> (hit: bool)
    ensures
        hit == boxes_overlap(
            bounding_box(subject_position@, subject_extent@),
            bounding_box(target_position@, target_extent@),
        ),
{
    let subject_left: i128 = subject_position.x as i128;
    let subject_top: i128 = subject_position.y as i128;
    let subject_right: i128 = subject_left + subject_extent.width as i128;
    let subject_bottom: i128 = subject_top + subject_extent.height as i128;
    let target_left: i128 = target_position.x as i128;
    let target_top: i128 = target_position.y as i128;
    let target_right: i128 = target_left + target_extent.width as i128;
    let target_bottom: i128 = target_top + target_extent.height as i128;
    target_left < subject_right && target_right > subject_left && target_top < subject_bottom
        && target_bottom > subject_top
}

/// The overlap test does not depend on which box is called the subject.
pub proof fn lemma_overlap_is_symmetric(a: Aabb, b: Aabb)
    ensures
        boxes_overlap(a, b) == boxes_overlap(b, a),
{
}

/// Two boxes that cover at least one point each overlap exactly when some
/// point is covered by both.
pub proof fn lemma_overlap_is_a_common_point(a: Aabb, b: Aabb)
    requires
        a.is_inhabited(),
        b.is_inhabited(),
    ensures
        boxes_overlap(a, b) <==> exists|x: int, y: int| a.covers(x, y) && b.covers(x, y),
{
    if boxes_overlap(a, b) {
        let x = if a.left >= b.left {
            a.left
        } else {
            b.left
        };
        let y = if a.top >= b.top {
            a.top
        } else {
            b.top
        };
        assert(a.covers(x, y) && b.covers(x, y));
    }
}

/// A target that begins exactly where the subject ends, on either axis and
/// on either side, does not overlap it.
pub proof fn lemma_touching_boxes_do_not_overlap(subject: Aabb, target: Aabb)
    requires
        target.left == subject.right || target.right == subject.left || target.top
            == subject.bottom || target.bottom == subject.top,
    ensures
        !boxes_overlap(subject, target),
{
}

} // verus!
