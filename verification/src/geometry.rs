//! Positions, extents and visual transforms, each with its integer model.

use vstd::prelude::*;

verus! {

/// A point of the plane with unbounded integer coordinates, in ticks.
pub struct Point {
    pub x: int,
    pub y: int,
}

/// The size of a box with unbounded integer sides, in ticks.
pub struct Size {
    pub width: int,
    pub height: int,
}

/// The model of a visual transform: its planar offset and the three
/// quantities that the simulation carries along without reading them.
pub struct VisualView {
    pub offset: Point,
    pub depth: int,
    pub rotation: int,
    pub scale: int,
}

/// The logical world coordinate of an entity, in ticks. It is the source of
/// truth for where the entity is; what is drawn is derived from it.
#[derive(Clone, Copy, Debug, PartialEq, Eq)]
pub struct Position {
    pub x: i64,
    pub y: i64,
}

/// The bounding size of an entity, used for drawing and for overlap tests.
#[derive(Clone, Copy, Debug, PartialEq, Eq)]
pub struct RenderExtent {
    pub width: i64,
    pub height: i64,
}

/// What the renderer reads to place an entity: a planar offset, and a depth,
/// a rotation and a scale that belong to the renderer.
#[derive(Clone, Copy, Debug, PartialEq, Eq)]
pub struct VisualTransform {
    pub x: i64,
    pub y: i64,
    pub depth: i64,
    pub rotation: i64,
    pub scale: i64,
}

impl View for Position {
    type V = Point;

    open spec fn view(&self) -> Point {
        Point { x: self.x as int, y: self.y as int }
    }
}

impl View for RenderExtent {
    type V = Size;

    open spec fn view(&self) -> Size {
        Size { width: self.width as int, height: self.height as int }
    }
}

impl View for VisualTransform {
    type V = VisualView;

    open spec fn view(&self) -> VisualView {
        VisualView {
            offset: Point { x: self.x as int, y: self.y as int },
            depth: self.depth as int,
            rotation: self.rotation as int,
            scale: self.scale as int,
        }
    }
}

impl Position {
    /// The position with the given coordinates.
    pub fn new(x: i64, y: i64) -> (p: Position)
        ensures
            p@ == (Point { x: x as int, y: y as int }),
    {
        Position { x, y }
    }
}

impl RenderExtent {
    /// The extent with the given sides.
    pub fn new(width: i64, height: i64) -> (e: RenderExtent)
        ensures
            e@ == (Size { width: width as int, height: height as int }),
    {
        RenderExtent { width, height }
    }
}

impl VisualTransform {
    /// The transform that a freshly spawned sprite has: no offset, no depth,
    /// no rotation, and a scale of one world unit per unit.
    pub fn identity() -> (t: VisualTransform)
        ensures
            t@ == (VisualView {
                offset: Point { x: 0, y: 0 },
                depth: 0,
                rotation: 0,
                scale: crate::units::TICKS_PER_UNIT as int,
            }),
    {
        VisualTransform { x: 0, y: 0, depth: 0, rotation: 0, scale: crate::units::TICKS_PER_UNIT }
    }
}

} // verus!
