use chase_sim::bootstrap::setup;
use chase_sim::entity::{Entity, Role};
use chase_sim::geometry::{Position, RenderExtent, VisualTransform};
use chase_sim::input::InputSnapshot;
use chase_sim::scene::{Scene, SceneError};

fn entity(role: Role, x: i64, y: i64) -> Entity {
    Entity {
        position: Position::new(x, y),
        role,
        collidable: true,
        extent: Some(RenderExtent::new(500, 500)),
        visual: Some(VisualTransform::identity()),
    }
}

fn scene_of(entities: Vec<Entity>) -> Scene {
    let mut scene = Scene::new();
    for e in entities {
        scene.spawn(e);
    }
    scene
}

#[test]
fn the_starting_scene_has_a_player_and_a_pursuer() {
    let scene = setup();
    assert_eq!(scene.len(), 2);
    assert_eq!(scene.entities[0], entity(Role::PlayerControlled, 1530, 1300));
    assert_eq!(scene.entities[1], entity(Role::Pursuer, 530, 300));
    assert!(scene.entities[0].is_player());
    assert!(!scene.entities[0].is_pursuer());
    assert!(scene.entities[1].is_pursuer());
    assert!(!scene.entities[1].is_player());
}

#[test]
fn spawn_appends_and_returns_the_index() {
    let mut scene = Scene::new();
    assert_eq!(scene.len(), 0);
    assert_eq!(scene.spawn(entity(Role::Pursuer, 1, 2)), 0);
    assert_eq!(scene.spawn(entity(Role::PlayerControlled, 3, 4)), 1);
    assert_eq!(scene.len(), 2);
    assert_eq!(scene.entities[1].position, Position { x: 3, y: 4 });
    assert_eq!(scene.entities[0].position, Position { x: 1, y: 2 });
}

#[test]
fn the_player_is_found_wherever_it_stands() {
    let scene = scene_of(vec![
        entity(Role::Pursuer, 0, 0),
        entity(Role::Pursuer, 10, 0),
        entity(Role::PlayerControlled, 20, 0),
        entity(Role::Pursuer, 30, 0),
    ]);
    assert_eq!(scene.player(), Ok(2));
    assert_eq!(scene.subject(), Ok(2));
}

#[test]
fn a_scene_without_a_player_is_refused() {
    let scene = scene_of(vec![entity(Role::Pursuer, 0, 0)]);
    assert_eq!(scene.player(), Err(SceneError::PlayerCount { found: 0 }));
    assert_eq!(scene.subject(), Err(SceneError::SubjectCount { found: 0 }));
    assert_eq!(Scene::new().player(), Err(SceneError::PlayerCount { found: 0 }));
}

#[test]
fn a_scene_with_several_players_is_refused() {
    let scene = scene_of(vec![
        entity(Role::PlayerControlled, 0, 0),
        entity(Role::Pursuer, 5, 5),
        entity(Role::PlayerControlled, 9, 9),
        entity(Role::PlayerControlled, 9, 9),
    ]);
    assert_eq!(scene.player(), Err(SceneError::PlayerCount { found: 3 }));
    assert_eq!(scene.subject(), Err(SceneError::SubjectCount { found: 3 }));
}

#[test]
fn only_collidable_players_count_as_subjects() {
    let mut ghostly = entity(Role::PlayerControlled, 0, 0);
    ghostly.collidable = false;
    let scene = scene_of(vec![ghostly, entity(Role::PlayerControlled, 9, 9)]);
    assert_eq!(scene.player(), Err(SceneError::PlayerCount { found: 2 }));
    assert_eq!(scene.subject(), Ok(1));

    let alone = scene_of(vec![ghostly, entity(Role::Pursuer, 9, 9)]);
    assert_eq!(alone.player(), Ok(0));
    assert_eq!(alone.subject(), Err(SceneError::SubjectCount { found: 0 }));
}

#[test]
fn movement_moves_every_player_and_nothing_else() {
    let mut scene = scene_of(vec![
        entity(Role::PlayerControlled, 0, 0),
        entity(Role::Pursuer, 100, 100),
        entity(Role::PlayerControlled, -50, 50),
    ]);
    let before = scene.entities.clone();
    scene.keyboard_move(&InputSnapshot { left: true, right: false, up: true, down: false });
    assert_eq!(scene.entities[0].position, Position { x: -10, y: 10 });
    assert_eq!(scene.entities[1], before[1]);
    assert_eq!(scene.entities[2].position, Position { x: -60, y: 60 });
    assert_eq!(scene.entities[0].visual, before[0].visual);
    assert_eq!(scene.entities[0].extent, before[0].extent);
    assert_eq!(scene.entities[0].role, Role::PlayerControlled);
}

#[test]
fn movement_on_a_scene_without_players_changes_nothing() {
    let mut scene = scene_of(vec![entity(Role::Pursuer, 1, 1)]);
    let before = scene.entities.clone();
    scene.keyboard_move(&InputSnapshot { left: true, right: false, up: false, down: false });
    assert_eq!(scene.entities, before);
}

#[test]
fn pursuit_moves_every_pursuer_towards_the_player() {
    let mut scene = scene_of(vec![
        entity(Role::Pursuer, 0, 0),
        entity(Role::PlayerControlled, 1000, 1000),
        entity(Role::Pursuer, 2000, 1000),
        entity(Role::Pursuer, 1000, 996),
    ]);
    assert_eq!(scene.enemy_move(), Ok(()));
    assert_eq!(scene.entities[0].position, Position { x: 8, y: 8 });
    assert_eq!(scene.entities[1].position, Position { x: 1000, y: 1000 });
    assert_eq!(scene.entities[2].position, Position { x: 1992, y: 1000 });
    assert_eq!(scene.entities[3].position, Position { x: 1000, y: 1004 });
}

#[test]
fn pursuit_fails_fast_without_a_player() {
    let mut scene = scene_of(vec![entity(Role::Pursuer, 0, 0), entity(Role::Pursuer, 50, 50)]);
    let before = scene.entities.clone();
    assert_eq!(scene.enemy_move(), Err(SceneError::PlayerCount { found: 0 }));
    assert_eq!(scene.entities, before);
}

#[test]
fn pursuit_fails_fast_with_two_players() {
    let mut scene = scene_of(vec![
        entity(Role::PlayerControlled, 0, 0),
        entity(Role::Pursuer, 100, 100),
        entity(Role::PlayerControlled, 200, 200),
    ]);
    let before = scene.entities.clone();
    assert_eq!(scene.enemy_move(), Err(SceneError::PlayerCount { found: 2 }));
    assert_eq!(scene.entities, before);
}

#[test]
fn render_sync_shows_every_position() {
    let mut scene = setup();
    scene.draw_renderable();
    for e in &scene.entities {
        let v = e.visual.unwrap();
        assert_eq!((v.x, v.y), (e.position.x, e.position.y));
        assert_eq!((v.depth, v.rotation, v.scale), (0, 0, 10));
    }
    assert_eq!(scene.entities[0].position, Position { x: 1530, y: 1300 });
    assert_eq!(scene.entities[1].visual.unwrap().x, 530);
    assert_eq!(scene.entities[1].visual.unwrap().y, 300);
}

#[test]
fn render_sync_skips_entities_that_are_not_drawn() {
    let mut hidden = entity(Role::Pursuer, 77, 88);
    hidden.visual = None;
    let mut scene = scene_of(vec![hidden, entity(Role::PlayerControlled, 5, 6)]);
    scene.draw_renderable();
    assert_eq!(scene.entities[0], hidden);
    assert_eq!(scene.entities[1].visual.unwrap().x, 5);
    assert_eq!(scene.entities[1].visual.unwrap().y, 6);
}

#[test]
fn render_sync_twice_is_render_sync_once() {
    let mut scene = setup();
    scene.draw_renderable();
    let once = scene.entities.clone();
    scene.draw_renderable();
    assert_eq!(scene.entities, once);
}

#[test]
fn collision_lists_the_overlapping_targets_in_order() {
    let scene = scene_of(vec![
        entity(Role::Pursuer, 250, 250),
        entity(Role::PlayerControlled, 0, 0),
        entity(Role::Pursuer, 510, 0),
        entity(Role::Pursuer, -499, 499),
        entity(Role::Pursuer, 500, 0),
    ]);
    assert_eq!(scene.detect_collision(), Ok(vec![0, 3]));
}

#[test]
fn collision_is_reported_again_while_it_lasts() {
    let scene = scene_of(vec![entity(Role::PlayerControlled, 0, 0), entity(Role::Pursuer, 250, 250)]);
    assert_eq!(scene.detect_collision(), Ok(vec![1]));
    assert_eq!(scene.detect_collision(), Ok(vec![1]));
}

#[test]
fn collision_moves_nothing() {
    let scene = scene_of(vec![entity(Role::PlayerControlled, 0, 0), entity(Role::Pursuer, 250, 250)]);
    let before = scene.entities.clone();
    let _ = scene.detect_collision();
    assert_eq!(scene.entities, before);
}

#[test]
fn the_starting_scene_has_no_collision() {
    assert_eq!(setup().detect_collision(), Ok(vec![]));
}

#[test]
fn collision_ignores_pursuers_that_are_not_collidable() {
    let mut ghostly = entity(Role::Pursuer, 10, 10);
    ghostly.collidable = false;
    ghostly.extent = None;
    let scene = scene_of(vec![
        entity(Role::PlayerControlled, 0, 0),
        ghostly,
        entity(Role::Pursuer, 20, 20),
    ]);
    assert_eq!(scene.detect_collision(), Ok(vec![2]));
}

#[test]
fn collision_fails_fast_without_a_subject() {
    let scene = scene_of(vec![entity(Role::Pursuer, 0, 0)]);
    assert_eq!(scene.detect_collision(), Err(SceneError::SubjectCount { found: 0 }));
}

#[test]
fn collision_fails_fast_with_two_subjects() {
    let scene = scene_of(vec![
        entity(Role::PlayerControlled, 0, 0),
        entity(Role::PlayerControlled, 0, 0),
        entity(Role::Pursuer, 0, 0),
    ]);
    assert_eq!(scene.detect_collision(), Err(SceneError::SubjectCount { found: 2 }));
}

#[test]
fn collision_refuses_a_target_without_an_extent() {
    let mut bare = entity(Role::Pursuer, 9000, 9000);
    bare.extent = None;
    let scene = scene_of(vec![
        entity(Role::PlayerControlled, 0, 0),
        entity(Role::Pursuer, 10, 10),
        bare,
        bare,
    ]);
    assert_eq!(scene.detect_collision(), Err(SceneError::MissingExtent { entity: 2 }));
}

#[test]
fn collision_refuses_a_subject_without_an_extent() {
    let mut bare = entity(Role::PlayerControlled, 0, 0);
    bare.extent = None;
    let scene = scene_of(vec![bare]);
    assert_eq!(scene.detect_collision(), Err(SceneError::MissingExtent { entity: 0 }));
}

#[test]
fn the_subject_count_is_checked_before_the_extents() {
    let mut bare = entity(Role::Pursuer, 0, 0);
    bare.extent = None;
    let scene = scene_of(vec![bare]);
    assert_eq!(scene.detect_collision(), Err(SceneError::SubjectCount { found: 0 }));
}

#[test]
fn headroom_is_lost_near_the_ends_of_the_range() {
    assert!(setup().has_headroom());
    assert!(Scene::new().has_headroom());
    let edge = scene_of(vec![entity(Role::PlayerControlled, i64::MAX - 10, i64::MIN + 10)]);
    assert!(edge.has_headroom());
    for (x, y) in [(i64::MAX - 9, 0), (i64::MIN + 9, 0), (0, i64::MAX), (0, i64::MIN)] {
        let scene = scene_of(vec![entity(Role::PlayerControlled, 0, 0), entity(Role::Pursuer, x, y)]);
        assert!(!scene.has_headroom());
    }
}
