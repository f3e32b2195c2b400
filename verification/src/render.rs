//! Render synchronisation: the visual transform follows the position.

use vstd::prelude::*;

use crate::geometry::{Point, Position, VisualTransform, VisualView};

verus! {

/// The transform `v` after it has been made to show the point `p`: its
/// planar offset is `p`, and depth, rotation and scale are what they were.
pub open spec fn synced(v: VisualView, p: Point) -> VisualView {
    VisualView { offset: p, depth: v.depth, rotation: v.rotation, scale: v.scale }
}

impl VisualTransform {
    /// Overwrites the planar offset of this transform with `position`, and
    /// touches nothing else.
    pub fn follow(&mut self, position: &Position)
        ensures
            final(self)@ == synced(old(self)@, position@),
            final(self)@.offset == position@,
    {
        self.x = position.x;
        self.y = position.y;
    }
}

/// Synchronising twice with the same position gives what synchronising once
/// gives: a frame in which nothing moved leaves the transform as it was.
pub proof fn lemma_sync_is_idempotent(v: VisualView, p: Point)
    ensures
        synced(synced(v, p), p) == synced(v, p),
{
}

/// A transform that already shows `p` is not changed by synchronising.
pub proof fn lemma_sync_of_synced_is_identity(v: VisualView, p: Point)
    requires
        v.offset == p,
    ensures
        synced(v, p) == v,
{
}

} // verus!
