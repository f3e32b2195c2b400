//! The fixed-point scale and the step sizes of the scene.

use vstd::prelude::*;

verus! {

/// Number of coordinate ticks in one world unit.
pub const TICKS_PER_UNIT: i64 = 10;

/// Distance covered on an axis by one frame of a held direction key: one
/// world unit.
pub const PLAYER_STEP: i64 = 10;

/// Distance covered on an axis by one frame of pursuit: eight tenths of a
/// world unit.
pub const PURSUIT_STEP: i64 = 8;

/// Whether the integer `v` can be stored in a coordinate.
pub open spec fn fits_coordinate(v: int) -> bool {
    i64::MIN <= v <= i64::MAX
}

} // verus!
