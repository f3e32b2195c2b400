//! One frame: the four systems in their fixed order.

use vstd::prelude::*;

use crate::entity::EntityView;
use crate::input::InputSnapshot;
use crate::movement::steer;
use crate::pursuit::{pursue, pursue_for};
use crate::scene::{
    count_players, count_subjects, is_only, player_test, subject_test, Scene, SceneError,
};
use crate::systems::{
    can_move_all, can_pursue_all, lemma_sole_player_is_the_only_one, move_all, pursue_all,
    reports_collisions, sync_all,
};
use crate::units::PLAYER_STEP;

verus! {

/// The scene after a whole frame: movement, then pursuit of the player where
/// movement has put it, then render synchronisation.
pub open spec fn advance(s: Seq<EntityView>, input: InputSnapshot) -> Seq<EntityView> {
    sync_all(pursue_all(move_all(s, input)))
}

/// The scene after `frames` whole frames with the same input.
pub open spec fn advance_for(s: Seq<EntityView>, input: InputSnapshot, frames: nat) -> Seq<
    EntityView,
>
    decreases frames,
{
    if frames == 0 {
        s
    } else {
        advance(advance_for(s, input, (frames - 1) as nat), input)
    }
}

/// Whether every position that a frame of `input` produces from `s` can be
/// stored.
pub open spec fn can_update(s: Seq<EntityView>, input: InputSnapshot) -> bool {
    can_move_all(s, input) && can_pursue_all(move_all(s, input))
}

/// Whether a coordinate is at least one player step away from both ends of
/// the range of coordinates.
pub open spec fn has_room(v: int) -> bool {
    i64::MIN + PLAYER_STEP <= v <= i64::MAX - PLAYER_STEP
}

/// Whether every coordinate of every entity of `s` has room for a step.
pub open spec fn has_headroom(s: Seq<EntityView>) -> bool {
    forall|i: int|
        0 <= i < s.len() ==> has_room((#[trigger] s[i]).position.x) && has_room(s[i].position.y)
}

/// Whether two scenes have the same entities in the same roles, collidable
/// or not as in the other.
pub open spec fn same_roles(a: Seq<EntityView>, b: Seq<EntityView>) -> bool {
    &&& a.len() == b.len()
    &&& forall|i: int|
        0 <= i < a.len() ==> (#[trigger] a[i]).role == b[i].role && a[i].collidable
            == b[i].collidable
}

/// Scenes with the same roles have as many players and as many subjects.
pub proof fn lemma_counts_follow_roles(a: Seq<EntityView>, b: Seq<EntityView>)
    requires
        same_roles(a, b),
    ensures
        count_players(a) == count_players(b),
        count_subjects(a) == count_subjects(b),
    decreases a.len(),
{
    if a.len() == 0 {
        assert(a =~= b);
    } else {
        let a0 = a.drop_last();
        let b0 = b.drop_last();
        assert(same_roles(a0, b0)) by {
            assert forall|i: int| 0 <= i < a0.len() implies (#[trigger] a0[i]).role == b0[i].role
                && a0[i].collidable == b0[i].collidable by {
                assert(a0[i] == a[i]);
            }
        }
        lemma_counts_follow_roles(a0, b0);
        assert(a =~= a0.push(a.last()));
        assert(b =~= b0.push(b.last()));
        assert(a.last() == a[a.len() - 1]);
        a0.lemma_filter_len_push(player_test(), a.last());
        b0.lemma_filter_len_push(player_test(), b.last());
        a0.lemma_filter_len_push(subject_test(), a.last());
        b0.lemma_filter_len_push(subject_test(), b.last());
    }
}

/// No system changes a role or what is collidable.
pub proof fn lemma_systems_keep_roles(s: Seq<EntityView>, input: InputSnapshot)
    ensures
        same_roles(s, move_all(s, input)),
        same_roles(s, pursue_all(s)),
        same_roles(s, sync_all(s)),
        same_roles(s, advance(s, input)),
{
    let moved = move_all(s, input);
    let pursued = pursue_all(moved);
    assert(same_roles(s, moved));
    assert(same_roles(moved, pursued));
    assert(same_roles(pursued, sync_all(pursued)));
}

/// A scene with headroom can go through a frame, whatever the input.
pub proof fn lemma_headroom_allows_update(s: Seq<EntityView>, input: InputSnapshot)
    requires
        has_headroom(s),
    ensures
        can_update(s, input),
{
    let moved = move_all(s, input);
    assert forall|i: int| 0 <= i < moved.len() && (#[trigger] moved[i]).is_pursuer() implies moved[i]
        == s[i] by {}
}

/// In a frame every entity moves once, and pursuit sees where movement has
/// put the player: the player-controlled entity is steered by the input,
/// and each pursuer takes its step towards the steered position. No other
/// part of an entity than its position and its visual transform changes.
pub proof fn lemma_frame_moves_each_entity_once(
    s: Seq<EntityView>,
    input: InputSnapshot,
    player: int,
    i: int,
)
    requires
        is_only(s, player_test(), player),
        0 <= i < s.len(),
    ensures
        advance(s, input).len() == s.len(),
        s[i].is_player() ==> advance(s, input)[i].position == steer(s[i].position, input),
        s[i].is_pursuer() ==> advance(s, input)[i].position == pursue(
            s[i].position,
            steer(s[player].position, input),
        ),
        advance(s, input)[i] == advance(s, input)[i].shown(),
        advance(s, input)[i].role == s[i].role,
        advance(s, input)[i].collidable == s[i].collidable,
        advance(s, input)[i].extent == s[i].extent,
{
    let moved = move_all(s, input);
    assert(is_only(moved, player_test(), player)) by {
        assert(player_test()(moved[player]));
        assert forall|j: int| 0 <= j < moved.len() && j != player implies !player_test()(
            #[trigger] moved[j],
        ) by {
            assert(!player_test()(s[j]));
        }
    }
    lemma_sole_player_is_the_only_one(moved, player);
}

/// While the player-controlled entity is not steered anywhere, because no
/// key is held or opposite keys cancel, it stays where it is, and after any
/// number of frames each pursuer is where that many steps of pursuit of
/// that place take it.
pub proof fn lemma_unsteered_frames_pursue(
    s: Seq<EntityView>,
    input: InputSnapshot,
    player: int,
    i: int,
    frames: nat,
)
    requires
        is_only(s, player_test(), player),
        input.left == input.right,
        input.up == input.down,
        0 <= i < s.len(),
        s[i].is_pursuer(),
    ensures
        advance_for(s, input, frames).len() == s.len(),
        is_only(advance_for(s, input, frames), player_test(), player),
        advance_for(s, input, frames)[player].position == s[player].position,
        advance_for(s, input, frames)[i].is_pursuer(),
        advance_for(s, input, frames)[i].position == pursue_for(
            s[i].position,
            s[player].position,
            frames,
        ),
    decreases frames,
{
    if frames > 0 {
        let before = advance_for(s, input, (frames - 1) as nat);
        lemma_unsteered_frames_pursue(s, input, player, i, (frames - 1) as nat);
        lemma_frame_moves_each_entity_once(before, input, player, i);
        lemma_frame_moves_each_entity_once(before, input, player, player);
        let after = advance(before, input);
        assert(is_only(after, player_test(), player)) by {
            assert(player_test()(after[player]));
            assert forall|j: int| 0 <= j < after.len() && j != player implies !player_test()(
                #[trigger] after[j],
            ) by {
                lemma_frame_moves_each_entity_once(before, input, player, j);
                assert(!player_test()(before[j]));
            }
        }
    }
}

/// Synchronising a scene a second time changes nothing: a frame in which
/// no position moved leaves every visual transform as it was.
pub proof fn lemma_sync_all_is_idempotent(s: Seq<EntityView>)
    ensures
        sync_all(sync_all(s)) == sync_all(s),
{
    assert(sync_all(sync_all(s)) =~= sync_all(s));
}

/// After synchronisation the planar offset of every visual transform is
/// exactly the position of its entity.
pub proof fn lemma_sync_all_shows_positions(s: Seq<EntityView>, i: int)
    requires
        0 <= i < s.len(),
        s[i].visual is Some,
    ensures
        sync_all(s)[i].visual is Some,
        sync_all(s)[i].visual.unwrap().offset == s[i].position,
        sync_all(s)[i].position == s[i].position,
{
}

impl Scene {
    /// Whether every coordinate of the scene has room for a step. A scene
    /// that passes can go through a frame.
    pub fn has_headroom(&self) -> (ok: bool)
        ensures
            ok == has_headroom(self@),
    {
        let mut i: usize = 0;
        while i < self.entities.len()
            invariant
                i <= self.entities.len(),
                forall|j: int|
                    0 <= j < i ==> has_room((#[trigger] self@[j]).position.x) && has_room(
                        self@[j].position.y,
                    ),
            decreases self.entities.len() - i,
        {
            let p = self.entities[i].position;
            assert(p@ == self@[i as int].position);
            if p.x < i64::MIN + PLAYER_STEP || p.x > i64::MAX - PLAYER_STEP || p.y < i64::MIN
                + PLAYER_STEP || p.y > i64::MAX - PLAYER_STEP {
                return false;
            }
            i = i + 1;
        }
        true
    }

    /// Runs one frame: movement, pursuit, render synchronisation and
    /// collision detection, each to its end before the next begins.
    ///
    /// A scene without exactly one player-controlled entity stops the frame
    /// at pursuit, after movement. A scene that collision detection refuses
    /// stops it there, after the first three systems. Otherwise the answer
    /// lists the targets that overlap the subject once everything has moved.
    pub fn update(&mut self, input: &InputSnapshot) -> (r: Result<Vec<usize>, SceneError>)
        requires
            can_update(old(self)@, *input),
        ensures
            count_players(old(self)@) != 1 ==> {
                &&& r matches Err(SceneError::PlayerCount { found })
                &&& found == count_players(old(self)@)
                &&& final(self)@ == move_all(old(self)@, *input)
            },
            count_players(old(self)@) == 1 ==> {
                &&& final(self)@ == advance(old(self)@, *input)
                &&& reports_collisions(r, final(self)@)
            },
    {
        proof {
            lemma_systems_keep_roles(self@, *input);
            lemma_counts_follow_roles(self@, move_all(self@, *input));
        }
        self.keyboard_move(input);
        match self.enemy_move() {
            Ok(_) => {},
            Err(e) => {
                return Err(e);
            },
        }
        self.draw_renderable();
        self.detect_collision()
    }
}

} // verus!
