//! The scene that a simulation starts from.

use vstd::prelude::*;

use crate::entity::{Entity, EntityView, Role};
use crate::frame::has_headroom;
use crate::geometry::{Point, Position, RenderExtent, Size, VisualTransform, VisualView};
use crate::scene::{count_players, count_subjects, player_test, subject_test, Scene};
use crate::systems::has_all_extents;
use crate::units::TICKS_PER_UNIT;

verus! {

/// Where the player-controlled entity starts: at (153, 130) world units.
pub const PLAYER_START_X: i64 = 1530;

pub const PLAYER_START_Y: i64 = 1300;

/// Where the pursuer starts: at (53, 30) world units.
pub const PURSUER_START_X: i64 = 530;

pub const PURSUER_START_Y: i64 = 300;

/// The side of the square that both entities are drawn as: 50 world units.
pub const SPRITE_SIDE: i64 = 500;

/// An entity of the starting scene, given its role and its position. It is
/// collidable, has the square extent, and is drawn with a transform that has
/// not been synchronised yet.
pub open spec fn starting_entity(role: Role, x: int, y: int) -> EntityView {
    EntityView {
        position: Point { x, y },
        role,
        collidable: true,
        extent: Some(Size { width: SPRITE_SIDE as int, height: SPRITE_SIDE as int }),
        visual: Some(
            VisualView {
                offset: Point { x: 0, y: 0 },
                depth: 0,
                rotation: 0,
                scale: TICKS_PER_UNIT as int,
            },
        ),
    }
}

/// The starting scene: the player-controlled entity at index 0 and one
/// pursuer at index 1.
pub open spec fn initial_scene() -> Seq<EntityView> {
    seq![
        starting_entity(Role::PlayerControlled, PLAYER_START_X as int, PLAYER_START_Y as int),
        starting_entity(Role::Pursuer, PURSUER_START_X as int, PURSUER_START_Y as int),
    ]
}

/// Builds an entity of the starting scene.
fn spawn_sprite(scene: &mut Scene, role: Role, x: i64, y: i64)
    ensures
        final(scene)@ == old(scene)@.push(starting_entity(role, x as int, y as int)),
{
    scene.spawn(
        Entity {
            position: Position::new(x, y),
            role,
            collidable: true,
            extent: Some(RenderExtent::new(SPRITE_SIDE, SPRITE_SIDE)),
            visual: Some(VisualTransform::identity()),
        },
    );
}

/// Builds the starting scene.
pub fn setup() -> (scene: Scene)
    ensures
        scene@ == initial_scene(),
{
    let mut scene = Scene::new();
    spawn_sprite(&mut scene, Role::PlayerControlled, PLAYER_START_X, PLAYER_START_Y);
    spawn_sprite(&mut scene, Role::Pursuer, PURSUER_START_X, PURSUER_START_Y);
    assert(scene@ =~= initial_scene());
    scene
}

/// The starting scene meets what every system asks for: it has exactly one
/// player-controlled entity, which is also the only subject, every
/// collidable entity has an extent, and every coordinate has room to move.
pub proof fn lemma_initial_scene_is_playable()
    ensures
        count_players(initial_scene()) == 1,
        count_subjects(initial_scene()) == 1,
        has_all_extents(initial_scene()),
        has_headroom(initial_scene()),
{
    let s = initial_scene();
    let none = Seq::<EntityView>::empty();
    reveal(Seq::filter);
    assert(none.filter(player_test()).len() == 0);
    assert(none.filter(subject_test()).len() == 0);
    none.lemma_filter_len_push(player_test(), s[0]);
    none.lemma_filter_len_push(subject_test(), s[0]);
    none.push(s[0]).lemma_filter_len_push(player_test(), s[1]);
    none.push(s[0]).lemma_filter_len_push(subject_test(), s[1]);
    assert(s =~= none.push(s[0]).push(s[1]));
}

} // verus!
