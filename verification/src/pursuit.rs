//! The pursuit rule: each axis steps towards the target by a fixed amount,
//! independently of the other axis.
//!
//! The step is not shortened near the target. A pursuer whose gap on an axis
//! is smaller than the step jumps past the target and comes back on the next
//! frame, so it ends up swinging within one step of the target instead of
//! resting on it.

use vstd::prelude::*;

use crate::geometry::{Point, Position};
use crate::units::{fits_coordinate, PURSUIT_STEP};

verus! {

/// Where one frame of pursuit takes a coordinate: one step up if it is below
/// the target, one step down if it is above, and nowhere if it is equal.
pub open spec fn approach(from: int, target: int) -> int {
    if from < target {
        from + PURSUIT_STEP
    } else if from > target {
        from - PURSUIT_STEP
    } else {
        from
    }
}

/// Where one frame of pursuit of `target` takes the point `p`.
pub open spec fn pursue(p: Point, target: Point) -> Point {
    Point { x: approach(p.x, target.x), y: approach(p.y, target.y) }
}

/// Where `frames` frames of pursuit of a target that stays put take `p`.
pub open spec fn pursue_for(p: Point, target: Point, frames: nat) -> Point
    decreases frames,
{
    if frames == 0 {
        p
    } else {
        pursue(pursue_for(p, target, (frames - 1) as nat), target)
    }
}

/// Whether the point that pursuit of `target` takes `p` to can be stored.
pub open spec fn can_pursue(p: Point, target: Point) -> bool {
    fits_coordinate(pursue(p, target).x) && fits_coordinate(pursue(p, target).y)
}

/// The distance between two coordinates.
pub open spec fn gap(a: int, b: int) -> int {
    if a <= b {
        b - a
    } else {
        a - b
    }
}

/// The larger of the two axis gaps between `p` and `q`.
pub open spec fn axis_distance(p: Point, q: Point) -> int {
    if gap(p.x, q.x) >= gap(p.y, q.y) {
        gap(p.x, q.x)
    } else {
        gap(p.y, q.y)
    }
}

/// The executable form of `approach`.
fn approach_axis(from: i64, target: i64) -> (next: i64)
    requires
        fits_coordinate(approach(from as int, target as int)),
    ensures
        next == approach(from as int, target as int),
{
    if from < target {
        from + PURSUIT_STEP
    } else if from > target {
        from - PURSUIT_STEP
    } else {
        from
    }
}

impl Position {
    /// Moves this position by one frame of pursuit of `target`. An axis on
    /// which the two already agree is left as it is.
    pub fn step_toward(&mut self, target: &Position)
        requires
            can_pursue(old(self)@, target@),
        ensures
            final(self)@ == pursue(old(self)@, target@),
            old(self).x == target.x ==> final(self).x == old(self).x,
            old(self).y == target.y ==> final(self).y == old(self).y,
    {
        self.x = approach_axis(self.x, target.x);
        self.y = approach_axis(self.y, target.y);
    }
}

/// A pursuer that is more than one step away on some axis is strictly nearer
/// after a frame: the larger of its axis gaps shrinks.
pub proof fn lemma_pursuit_approaches(p: Point, target: Point)
    requires
        axis_distance(p, target) > PURSUIT_STEP,
    ensures
        axis_distance(pursue(p, target), target) < axis_distance(p, target),
{
}

/// On an axis whose gap is at least one step, a frame of pursuit shortens the
/// gap by exactly one step.
pub proof fn lemma_approach_shortens_gap(from: int, target: int)
    requires
        gap(from, target) >= PURSUIT_STEP,
    ensures
        gap(approach(from, target), target) == gap(from, target) - PURSUIT_STEP,
{
}

/// A pursuer within one step of the target on both axes is still within one
/// step after a frame.
pub proof fn lemma_pursuit_stays_close(p: Point, target: Point)
    requires
        axis_distance(p, target) <= PURSUIT_STEP,
    ensures
        axis_distance(pursue(p, target), target) <= PURSUIT_STEP,
{
}

/// After enough frames a pursuer is within one step of a target that stays
/// put, on both axes. Enough is as many frames as whole steps fit into the
/// larger axis gap, and any number beyond that.
pub proof fn lemma_pursuit_settles(p: Point, target: Point, frames: nat)
    requires
        frames * PURSUIT_STEP + PURSUIT_STEP >= axis_distance(p, target),
    ensures
        axis_distance(pursue_for(p, target, frames), target) <= PURSUIT_STEP,
{
    lemma_pursuit_distance_after(p, target, frames);
}

/// After `frames` frames the larger axis gap is within one step, or has lost
/// at least one step per frame.
proof fn lemma_pursuit_distance_after(p: Point, target: Point, frames: nat)
    ensures
        axis_distance(pursue_for(p, target, frames), target) <= PURSUIT_STEP
            || axis_distance(pursue_for(p, target, frames), target) <= axis_distance(p, target)
            - frames * PURSUIT_STEP,
    decreases frames,
{
    if frames > 0 {
        let before = (frames - 1) as nat;
        lemma_pursuit_distance_after(p, target, before);
        let q = pursue_for(p, target, before);
        assert(axis_distance(pursue(q, target), target) <= PURSUIT_STEP || axis_distance(
            pursue(q, target),
            target,
        ) <= axis_distance(q, target) - PURSUIT_STEP);
    }
}

} // verus!
