//! The four systems of a frame, each as a function of the whole scene.

use vstd::prelude::*;

use crate::collision::{bounding_box, boxes_overlap, overlaps, Aabb};
use crate::entity::EntityView;
use crate::input::InputSnapshot;
use crate::movement::{can_steer, steer};
use crate::pursuit::{can_pursue, pursue};
use crate::scene::{
    count_players, count_subjects, is_only, player_test, sole_player, sole_subject, subject_test,
    Scene, SceneError,
};

verus! {

/// The scene after movement: every player-controlled entity has been moved
/// by one frame of `input`, and nothing else has changed.
pub open spec fn move_all(s: Seq<EntityView>, input: InputSnapshot) -> Seq<EntityView> {
    Seq::new(
        s.len(),
        |i: int|
            if s[i].is_player() {
                s[i].moved_to(steer(s[i].position, input))
            } else {
                s[i]
            },
    )
}

/// The scene after pursuit: every pursuer has been moved by one frame of
/// pursuit of the player-controlled entity, and nothing else has changed.
pub open spec fn pursue_all(s: Seq<EntityView>) -> Seq<EntityView> {
    let target = s[sole_player(s)].position;
    Seq::new(
        s.len(),
        |i: int|
            if s[i].is_pursuer() {
                s[i].moved_to(pursue(s[i].position, target))
            } else {
                s[i]
            },
    )
}

/// The scene after render synchronisation: every visual transform shows the
/// position of its entity.
pub open spec fn sync_all(s: Seq<EntityView>) -> Seq<EntityView> {
    Seq::new(s.len(), |i: int| s[i].shown())
}

/// Whether every position that movement produces from `s` can be stored.
pub open spec fn can_move_all(s: Seq<EntityView>, input: InputSnapshot) -> bool {
    forall|i: int|
        0 <= i < s.len() && (#[trigger] s[i]).is_player() ==> can_steer(s[i].position, input)
}

/// Whether every position that pursuit produces from `s` can be stored.
/// Nothing is asked of a scene on which pursuit refuses to run.
pub open spec fn can_pursue_all(s: Seq<EntityView>) -> bool {
    count_players(s) == 1 ==> forall|i: int|
        0 <= i < s.len() && (#[trigger] s[i]).is_pursuer() ==> can_pursue(
            s[i].position,
            s[sole_player(s)].position,
        )
}

/// The box of an entity that has an extent.
pub open spec fn entity_box(e: EntityView) -> Aabb {
    bounding_box(e.position, e.extent.unwrap())
}

/// Whether an entity takes part in overlap tests without having an extent.
pub open spec fn lacks_extent(e: EntityView) -> bool {
    e.collidable && e.extent is None
}

/// Whether every collidable entity of `s` has an extent.
pub open spec fn has_all_extents(s: Seq<EntityView>) -> bool {
    forall|i: int| 0 <= i < s.len() ==> !lacks_extent(#[trigger] s[i])
}

/// Whether `i` is the smallest index of a collidable entity of `s` without
/// an extent.
pub open spec fn is_first_lacking_extent(s: Seq<EntityView>, i: int) -> bool {
    &&& 0 <= i < s.len()
    &&& lacks_extent(s[i])
    &&& forall|j: int| 0 <= j < i ==> !lacks_extent(#[trigger] s[j])
}

/// Whether the entity at index `i` is a target whose box overlaps the box of
/// the subject.
pub open spec fn collides(s: Seq<EntityView>, i: int) -> bool {
    &&& 0 <= i < s.len()
    &&& s[i].is_target()
    &&& boxes_overlap(entity_box(s[sole_subject(s)]), entity_box(s[i]))
}

/// Whether `hits` lists the indices of the colliding targets of `s`, each
/// once and in increasing order.
pub open spec fn lists_collisions(hits: Seq<usize>, s: Seq<EntityView>) -> bool {
    &&& forall|a: int, b: int| 0 <= a < b < hits.len() ==> hits[a] < hits[b]
    &&& forall|k: int| 0 <= k < hits.len() ==> collides(s, #[trigger] hits[k] as int)
    &&& forall|i: int| #[trigger] collides(s, i) ==> hits.contains(i as usize)
}

/// What collision detection answers on the scene `s`. It refuses a scene
/// that does not have exactly one subject; failing that, a scene in which a
/// collidable entity has no extent, naming the first such entity; and on
/// every other scene it lists the colliding targets.
pub open spec fn reports_collisions(r: Result<Vec<usize>, SceneError>, s: Seq<EntityView>) -> bool {
    match r {
        Ok(hits) => count_subjects(s) == 1 && has_all_extents(s) && lists_collisions(hits@, s),
        Err(SceneError::SubjectCount { found }) => found != 1 && found == count_subjects(s),
        Err(SceneError::MissingExtent { entity }) => count_subjects(s) == 1
            && is_first_lacking_extent(s, entity as int),
        Err(SceneError::PlayerCount { .. }) => false,
    }
}

/// The only player-controlled entity of a scene is the one that
/// `sole_player` names.
pub proof fn lemma_sole_player_is_the_only_one(s: Seq<EntityView>, i: int)
    requires
        is_only(s, player_test(), i),
    ensures
        sole_player(s) == i,
{
    let chosen = sole_player(s);
    assert(s[i].is_player());
    assert(0 <= chosen < s.len() && s[chosen].is_player());
    assert(player_test()(s[chosen]));
}

/// The only subject of a scene is the one that `sole_subject` names.
pub proof fn lemma_sole_subject_is_the_only_one(s: Seq<EntityView>, i: int)
    requires
        is_only(s, subject_test(), i),
    ensures
        sole_subject(s) == i,
{
    let chosen = sole_subject(s);
    assert(s[i].is_subject());
    assert(0 <= chosen < s.len() && s[chosen].is_subject());
    assert(subject_test()(s[chosen]));
}

impl Scene {
    /// The movement system: moves every player-controlled entity by one
    /// frame of `input`.
    pub fn keyboard_move(&mut self, input: &InputSnapshot)
        requires
            can_move_all(old(self)@, *input),
        ensures
            final(self)@ == move_all(old(self)@, *input),
    {
        let ghost before = self@;
        let mut i: usize = 0;
        while i < self.entities.len()
            invariant
                self@.len() == before.len(),
                i <= self.entities.len(),
                can_move_all(before, *input),
                forall|j: int| 0 <= j < i ==> self@[j] == move_all(before, *input)[j],
                forall|j: int| i <= j < before.len() ==> self@[j] == before[j],
            decreases self.entities.len() - i,
        {
            let mut entity = self.entities[i];
            assert(entity@ == before[i as int]);
            if entity.is_player() {
                entity.position.apply_input(input);
                self.entities.set(i, entity);
            }
            i = i + 1;
        }
        assert(self@ =~= move_all(before, *input));
    }

    /// The pursuit system: moves every pursuer one step towards the only
    /// player-controlled entity, axis by axis. A scene that does not have
    /// exactly one player-controlled entity is refused and left as it is.
    pub fn enemy_move(&mut self) -> (r: Result<(), SceneError>)
        requires
            can_pursue_all(old(self)@),
        ensures
            match r {
                Ok(_) => count_players(old(self)@) == 1 && final(self)@ == pursue_all(
                    old(self)@,
                ),
                Err(SceneError::PlayerCount { found }) => {
                    &&& found != 1
                    &&& found == count_players(old(self)@)
                    &&& final(self)@ == old(self)@
                },
                Err(_) => false,
            },
    {
        let ghost before = self@;
        let target_index = match self.player() {
            Ok(index) => index,
            Err(e) => {
                return Err(e);
            },
        };
        let target = self.entities[target_index].position;
        proof {
            lemma_sole_player_is_the_only_one(before, target_index as int);
            assert(target@ == before[sole_player(before)].position);
        }
        let mut i: usize = 0;
        while i < self.entities.len()
            invariant
                self@.len() == before.len(),
                i <= self.entities.len(),
                count_players(before) == 1,
                can_pursue_all(before),
                target@ == before[sole_player(before)].position,
                forall|j: int| 0 <= j < i ==> self@[j] == pursue_all(before)[j],
                forall|j: int| i <= j < before.len() ==> self@[j] == before[j],
            decreases self.entities.len() - i,
        {
            let mut entity = self.entities[i];
            assert(entity@ == before[i as int]);
            if entity.is_pursuer() {
                entity.position.step_toward(&target);
                self.entities.set(i, entity);
            }
            i = i + 1;
        }
        assert(self@ =~= pursue_all(before));
        Ok(())
    }

    /// The render synchronisation system: makes the visual transform of
    /// every drawn entity show the entity's position, and leaves the depth,
    /// rotation and scale of the transform alone.
    pub fn draw_renderable(&mut self)
        ensures
            final(self)@ == sync_all(old(self)@),
    {
        let ghost before = self@;
        let mut i: usize = 0;
        while i < self.entities.len()
            invariant
                self@.len() == before.len(),
                i <= self.entities.len(),
                forall|j: int| 0 <= j < i ==> self@[j] == sync_all(before)[j],
                forall|j: int| i <= j < before.len() ==> self@[j] == before[j],
            decreases self.entities.len() - i,
        {
            let mut entity = self.entities[i];
            assert(entity@ == before[i as int]);
            match entity.visual {
                Some(mut visual) => {
                    visual.follow(&entity.position);
                    entity.visual = Some(visual);
                    self.entities.set(i, entity);
                },
                None => {},
            }
            i = i + 1;
        }
        assert(self@ =~= sync_all(before));
    }

    /// The index of the first collidable entity without an extent, if there
    /// is one.
    fn first_lacking_extent(&self) -> (r: Option<usize>)
        ensures
            match r {
                Some(i) => is_first_lacking_extent(self@, i as int),
                None => has_all_extents(self@),
            },
    {
        let mut i: usize = 0;
        while i < self.entities.len()
            invariant
                i <= self.entities.len(),
                forall|j: int| 0 <= j < i ==> !lacks_extent(#[trigger] self@[j]),
            decreases self.entities.len() - i,
        {
            let entity = self.entities[i];
            assert(entity@ == self@[i as int]);
            if entity.collidable && entity.extent.is_none() {
                return Some(i);
            }
            i = i + 1;
        }
        None
    }

    /// The collision system: tests the box of the subject against the box
    /// of every target and lists the targets that overlap it. Nothing is
    /// moved or removed. A target that keeps overlapping is listed again on
    /// every call.
    pub fn detect_collision(&self) -> (r: Result<Vec<usize>, SceneError>)
        ensures
            reports_collisions(r, self@),
    {
        let subject_index = match self.subject() {
            Ok(index) => index,
            Err(e) => {
                return Err(e);
            },
        };
        match self.first_lacking_extent() {
            Some(entity) => {
                return Err(SceneError::MissingExtent { entity });
            },
            None => {},
        }
        let ghost s = self@;
        let subject = self.entities[subject_index];
        proof {
            lemma_sole_subject_is_the_only_one(s, subject_index as int);
            assert(subject@ == s[sole_subject(s)]);
            assert(!lacks_extent(s[subject_index as int]));
        }
        let subject_extent = subject.extent.unwrap();
        let mut hits: Vec<usize> = Vec::new();
        let mut i: usize = 0;
        while i < self.entities.len()
            invariant
                s == self@,
                i <= self.entities.len(),
                has_all_extents(s),
                subject@ == s[sole_subject(s)],
                subject.extent == Some(subject_extent),
                forall|a: int, b: int| 0 <= a < b < hits@.len() ==> hits@[a] < hits@[b],
                forall|k: int| 0 <= k < hits@.len() ==> hits@[k] < i,
                forall|k: int| 0 <= k < hits@.len() ==> collides(s, #[trigger] hits@[k] as int),
                forall|j: int| 0 <= j < i && #[trigger] collides(s, j) ==> hits@.contains(j as usize),
            decreases self.entities.len() - i,
        {
            let entity = self.entities[i];
            assert(entity@ == s[i as int]);
            if entity.is_pursuer() && entity.collidable {
                assert(!lacks_extent(s[i as int]));
                let extent = entity.extent.unwrap();
                if overlaps(&subject.position, &subject_extent, &entity.position, &extent) {
                    let ghost earlier = hits@;
                    hits.push(i);
                    assert(collides(s, i as int));
                    assert(hits@[earlier.len() as int] == i);
                    assert forall|j: int| 0 <= j < i + 1 && #[trigger] collides(
                        s,
                        j,
                    ) implies hits@.contains(j as usize) by {
                        if j < i {
                            let k = choose|k: int| 0 <= k < earlier.len() && earlier[k] == j as usize;
                            assert(hits@[k] == j as usize);
                        }
                    }
                }
            }
            i = i + 1;
        }
        Ok(hits)
    }
}

} // verus!
