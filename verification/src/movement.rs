//! The movement rule: held direction keys move a position by a fixed step on
//! each axis, independently and without clamping.

use vstd::prelude::*;

use crate::geometry::{Point, Position};
use crate::input::InputSnapshot;
use crate::units::{fits_coordinate, PLAYER_STEP};

verus! {

/// What one frame adds to a coordinate, given whether the key towards larger
/// values and the key towards smaller values are held. Opposite keys cancel.
pub open spec fn axis_delta(forward: bool, backward: bool) -> int {
    (if forward { PLAYER_STEP as int } else { 0 }) - (if backward { PLAYER_STEP as int } else { 0 })
}

/// Where one frame of `input` takes the point `p`. Right and up increase a
/// coordinate, left and down decrease it; a diagonal moves the full step on
/// both axes.
pub open spec fn steer(p: Point, input: InputSnapshot) -> Point {
    Point {
        x: p.x + axis_delta(input.right, input.left),
        y: p.y + axis_delta(input.up, input.down),
    }
}

/// Whether the point that `input` takes `p` to can be stored.
pub open spec fn can_steer(p: Point, input: InputSnapshot) -> bool {
    fits_coordinate(steer(p, input).x) && fits_coordinate(steer(p, input).y)
}

/// The executable form of `axis_delta`.
fn delta_of(forward: bool, backward: bool) -> (delta: i64)
    ensures
        delta == axis_delta(forward, backward),
{
    let mut delta: i64 = 0;
    if forward {
        delta = delta + PLAYER_STEP;
    }
    if backward {
        delta = delta - PLAYER_STEP;
    }
    delta
}

impl Position {
    /// Moves this position by one frame of `input`.
    pub fn apply_input(&mut self, input: &InputSnapshot)
        requires
            can_steer(old(self)@, *input),
        ensures
            final(self)@ == steer(old(self)@, *input),
    {
        self.x = self.x + delta_of(input.right, input.left);
        self.y = self.y + delta_of(input.up, input.down);
    }
}

/// Holding left and nothing else takes one step off `x` and leaves `y`.
pub proof fn lemma_left_alone_steps_back_on_x(p: Point)
    ensures
        steer(p, InputSnapshot { left: true, right: false, up: false, down: false }) == (Point {
            x: p.x - PLAYER_STEP,
            y: p.y,
        }),
{
}

/// Holding up and right together adds one full step to both coordinates:
/// a diagonal is not shortened.
pub proof fn lemma_up_and_right_step_on_both_axes(p: Point)
    ensures
        steer(p, InputSnapshot { left: false, right: true, up: true, down: false }) == (Point {
            x: p.x + PLAYER_STEP,
            y: p.y + PLAYER_STEP,
        }),
{
}

/// With no key held nothing moves, and opposite keys held together cancel.
pub proof fn lemma_balanced_input_keeps_position(p: Point, input: InputSnapshot)
    requires
        input.left == input.right,
        input.up == input.down,
    ensures
        steer(p, input) == p,
{
}

} // verus!
