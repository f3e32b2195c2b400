//! Entities: a position, a role, and the optional data that decides which
//! systems an entity takes part in.

use vstd::prelude::*;

use crate::geometry::{Point, Position, RenderExtent, Size, VisualTransform, VisualView};
use crate::render::synced;

verus! {

/// How an entity moves, and which side of an overlap test it is on. Every
/// entity has exactly one role.
#[derive(Clone, Copy, Debug, PartialEq, Eq)]
pub enum Role {
    /// Moved by the direction keys; the subject of overlap tests and the
    /// target of pursuit.
    PlayerControlled,
    /// Moves towards the player-controlled entity; a target of overlap
    /// tests.
    Pursuer,
}

/// The model of an entity.
pub struct EntityView {
    pub position: Point,
    pub role: Role,
    pub collidable: bool,
    pub extent: Option<Size>,
    pub visual: Option<VisualView>,
}

/// One record of the scene.
#[derive(Clone, Copy, Debug, PartialEq, Eq)]
pub struct Entity {
    /// Where the entity is.
    pub position: Position,
    /// Which movement rule applies to it.
    pub role: Role,
    /// Whether it takes part in overlap tests.
    pub collidable: bool,
    /// Its bounding size. Every collidable entity needs one.
    pub extent: Option<RenderExtent>,
    /// Its visual transform, if it is drawn.
    pub visual: Option<VisualTransform>,
}

impl View for Entity {
    type V = EntityView;

    open spec fn view(&self) -> EntityView {
        EntityView {
            position: self.position@,
            role: self.role,
            collidable: self.collidable,
            extent: match self.extent {
                Some(extent) => Some(extent@),
                None => None,
            },
            visual: match self.visual {
                Some(visual) => Some(visual@),
                None => None,
            },
        }
    }
}

impl EntityView {
    /// Whether the direction keys move this entity.
    pub open spec fn is_player(self) -> bool {
        self.role is PlayerControlled
    }

    /// Whether this entity pursues the player-controlled one.
    pub open spec fn is_pursuer(self) -> bool {
        self.role is Pursuer
    }

    /// Whether this entity is a subject of overlap tests.
    pub open spec fn is_subject(self) -> bool {
        self.is_player() && self.collidable
    }

    /// Whether this entity is a target of overlap tests.
    pub open spec fn is_target(self) -> bool {
        self.is_pursuer() && self.collidable
    }

    /// This entity at another position, everything else being the same.
    pub open spec fn moved_to(self, position: Point) -> EntityView {
        EntityView {
            position,
            role: self.role,
            collidable: self.collidable,
            extent: self.extent,
            visual: self.visual,
        }
    }

    /// This entity with its visual transform, if it has one, showing its
    /// position.
    pub open spec fn shown(self) -> EntityView {
        EntityView {
            position: self.position,
            role: self.role,
            collidable: self.collidable,
            extent: self.extent,
            visual: match self.visual {
                Some(visual) => Some(synced(visual, self.position)),
                None => None,
            },
        }
    }
}

impl Entity {
    /// Whether the direction keys move this entity.
    pub fn is_player(&self) -> (yes: bool)
        ensures
            yes == self@.is_player(),
    {
        match self.role {
            Role::PlayerControlled => true,
            Role::Pursuer => false,
        }
    }

    /// Whether this entity pursues the player-controlled one.
    pub fn is_pursuer(&self) -> (yes: bool)
        ensures
            yes == self@.is_pursuer(),
    {
        match self.role {
            Role::PlayerControlled => false,
            Role::Pursuer => true,
        }
    }
}

} // verus!
