//! The scene and its four systems, which a frame runs in a fixed order:
//! movement, pursuit, render synchronisation, collision detection.

use vstd::prelude::*;

use crate::entity::{Entity, EntityView};

verus! {

/// Why a system refused to run on a scene.
#[derive(Clone, Copy, Debug, PartialEq, Eq)]
pub enum SceneError {
    /// Pursuit needs exactly one player-controlled entity to aim at, and
    /// found this many.
    PlayerCount { found: usize },
    /// Collision detection needs exactly one collidable player-controlled
    /// entity as its subject, and found this many.
    SubjectCount { found: usize },
    /// The collidable entity at this index has no extent.
    MissingExtent { entity: usize },
}

/// The entities of a scene, addressed by their index.
pub struct Scene {
    pub entities: Vec<Entity>,
}

impl View for Scene {
    type V = Seq<EntityView>;

    open spec fn view(&self) -> Seq<EntityView> {
        Seq::new(self.entities@.len(), |i: int| self.entities@[i]@)
    }
}

/// The test that picks the player-controlled entities.
pub open spec fn player_test() -> spec_fn(EntityView) -> bool {
    |e: EntityView| e.is_player()
}

/// The test that picks the collidable player-controlled entities.
pub open spec fn subject_test() -> spec_fn(EntityView) -> bool {
    |e: EntityView| e.is_subject()
}

/// How many entities of `s` are player-controlled.
pub open spec fn count_players(s: Seq<EntityView>) -> nat {
    s.filter(player_test()).len()
}

/// How many entities of `s` are player-controlled and collidable.
pub open spec fn count_subjects(s: Seq<EntityView>) -> nat {
    s.filter(subject_test()).len()
}

/// Whether `i` is the index of the only entity of `s` that passes `test`.
pub open spec fn is_only(s: Seq<EntityView>, test: spec_fn(EntityView) -> bool, i: int) -> bool {
    &&& 0 <= i < s.len()
    &&& test(s[i])
    &&& forall|j: int| 0 <= j < s.len() && j != i ==> !test(#[trigger] s[j])
}

/// The index of a player-controlled entity of `s`: of the only one, where
/// there is exactly one.
pub open spec fn sole_player(s: Seq<EntityView>) -> int {
    choose|i: int| 0 <= i < s.len() && (#[trigger] s[i]).is_player()
}

/// The index of a collidable player-controlled entity of `s`: of the only
/// one, where there is exactly one.
pub open spec fn sole_subject(s: Seq<EntityView>) -> int {
    choose|i: int| 0 <= i < s.len() && (#[trigger] s[i]).is_subject()
}

/// Every subject is a player-controlled entity, so a scene has at most as
/// many subjects as players: one without a player has no subject, and one
/// in which every player-controlled entity is collidable has as many
/// subjects as players.
pub proof fn lemma_subjects_are_players(s: Seq<EntityView>)
    ensures
        count_subjects(s) <= count_players(s),
        (forall|i: int| 0 <= i < s.len() && (#[trigger] s[i]).is_player() ==> s[i].collidable)
            ==> count_subjects(s) == count_players(s),
    decreases s.len(),
{
    reveal(Seq::filter);
    if s.len() > 0 {
        let front = s.drop_last();
        lemma_subjects_are_players(front);
        assert(s =~= front.push(s.last()));
        front.lemma_filter_len_push(player_test(), s.last());
        front.lemma_filter_len_push(subject_test(), s.last());
        if forall|i: int| 0 <= i < s.len() && (#[trigger] s[i]).is_player() ==> s[i].collidable {
            assert forall|i: int|
                0 <= i < front.len() && (#[trigger] front[i]).is_player() implies front[i].collidable by {
                assert(front[i] == s[i]);
            }
            assert(s.last() == s[s.len() - 1]);
        }
    }
}

/// A count of zero means that no entity passes the test, and a count of one
/// that exactly one does.
proof fn lemma_small_counts(s: Seq<EntityView>, test: spec_fn(EntityView) -> bool)
    ensures
        s.filter(test).len() == 0 ==> forall|j: int| 0 <= j < s.len() ==> !test(#[trigger] s[j]),
        s.filter(test).len() == 1 ==> exists|i: int| is_only(s, test, i),
    decreases s.len(),
{
    reveal(Seq::filter);
    if s.len() > 0 {
        let front = s.drop_last();
        let last = s.len() - 1;
        lemma_small_counts(front, test);
        assert(s =~= front.push(s.last()));
        front.lemma_filter_len_push(test, s.last());
        assert forall|j: int| 0 <= j < front.len() implies front[j] == s[j] by {}
        if s.filter(test).len() == 1 {
            if test(s.last()) {
                assert(is_only(s, test, last));
            } else {
                let i = choose|i: int| is_only(front, test, i);
                assert(is_only(s, test, i));
            }
        }
    }
}

/// In a scene with exactly one player-controlled entity, `sole_player` is
/// the index of that entity, and no other entity is player-controlled.
pub proof fn lemma_one_player_is_sole(s: Seq<EntityView>)
    requires
        count_players(s) == 1,
    ensures
        is_only(s, player_test(), sole_player(s)),
{
    lemma_small_counts(s, player_test());
    let i = choose|i: int| is_only(s, player_test(), i);
    assert(s[i].is_player());
    assert(player_test()(s[sole_player(s)]));
}

/// In a scene with exactly one subject, `sole_subject` is the index of that
/// entity, and no other entity is a subject.
pub proof fn lemma_one_subject_is_sole(s: Seq<EntityView>)
    requires
        count_subjects(s) == 1,
    ensures
        is_only(s, subject_test(), sole_subject(s)),
{
    lemma_small_counts(s, subject_test());
    let i = choose|i: int| is_only(s, subject_test(), i);
    assert(s[i].is_subject());
    assert(subject_test()(s[sole_subject(s)]));
}

impl Scene {
    /// A scene without entities.
    pub fn new() -> (scene: Scene)
        ensures
            scene@ == Seq::<EntityView>::empty(),
    {
        Scene { entities: Vec::new() }
    }

    /// Adds an entity and returns its index.
    pub fn spawn(&mut self, entity: Entity) -> (index: usize)
        ensures
            final(self)@ == old(self)@.push(entity@),
            index == old(self)@.len(),
    {
        let index = self.entities.len();
        self.entities.push(entity);
        index
    }

    /// The number of entities.
    pub fn len(&self) -> (n: usize)
        ensures
            n == self@.len(),
    {
        self.entities.len()
    }

    /// Looks for the only entity that is player-controlled and, if
    /// `collidable_only` is set, collidable. Gives its index, or else the
    /// number of such entities.
    fn find_only(&self, collidable_only: bool) -> (r: Result<usize, usize>)
        ensures
            match r {
                Ok(i) => {
                    &&& !collidable_only ==> count_players(self@) == 1 && is_only(
                        self@,
                        player_test(),
                        i as int,
                    )
                    &&& collidable_only ==> count_subjects(self@) == 1 && is_only(
                        self@,
                        subject_test(),
                        i as int,
                    )
                },
                Err(n) => {
                    &&& n != 1
                    &&& !collidable_only ==> n == count_players(self@)
                    &&& collidable_only ==> n == count_subjects(self@)
                },
            },
    {
        let ghost test = if collidable_only {
            subject_test()
        } else {
            player_test()
        };
        let ghost s = self@;
        let mut count: usize = 0;
        let mut found: usize = 0;
        let mut i: usize = 0;
        while i < self.entities.len()
            invariant
                s == self@,
                test == if collidable_only {
                    subject_test()
                } else {
                    player_test()
                },
                0 <= i <= self.entities.len(),
                count <= i,
                count == s.take(i as int).filter(test).len(),
                count == 0 ==> forall|j: int| 0 <= j < i ==> !test(#[trigger] s[j]),
                count == 1 ==> is_only(s.take(i as int), test, found as int),
            decreases self.entities.len() - i,
        {
            let entity = self.entities[i];
            let passes = entity.is_player() && (!collidable_only || entity.collidable);
            proof {
                assert(entity@ == s[i as int]);
                assert(passes == test(s[i as int]));
                s.lemma_take_succ_push(i as int);
                s.take(i as int).lemma_filter_len_push(test, s[i as int]);
                if passes && count == 0 {
                    assert(is_only(s.take(i + 1), test, i as int));
                }
                if !passes && count == 1 {
                    assert(is_only(s.take(i + 1), test, found as int));
                }
            }
            if passes {
                if count == 0 {
                    found = i;
                }
                count = count + 1;
            }
            i = i + 1;
        }
        proof {
            assert(s.take(i as int) == s);
        }
        if count == 1 {
            Ok(found)
        } else {
            Err(count)
        }
    }

    /// Finds the entity that pursuit aims at: the only player-controlled
    /// one. A scene with none, or with several, is refused.
    pub fn player(&self) -> (r: Result<usize, SceneError>)
        ensures
            match r {
                Ok(i) => count_players(self@) == 1 && is_only(self@, player_test(), i as int),
                Err(SceneError::PlayerCount { found }) => found != 1 && found == count_players(
                    self@,
                ),
                Err(_) => false,
            },
    {
        match self.find_only(false) {
            Ok(i) => Ok(i),
            Err(found) => Err(SceneError::PlayerCount { found }),
        }
    }

    /// Finds the subject of collision detection: the only entity that is
    /// player-controlled and collidable. A scene with none, or with several,
    /// is refused.
    pub fn subject(&self) -> (r: Result<usize, SceneError>)
        ensures
            match r {
                Ok(i) => count_subjects(self@) == 1 && is_only(self@, subject_test(), i as int),
                Err(SceneError::SubjectCount { found }) => found != 1 && found == count_subjects(
                    self@,
                ),
                Err(_) => false,
            },
    {
        match self.find_only(true) {
            Ok(i) => Ok(i),
            Err(found) => Err(SceneError::SubjectCount { found }),
        }
    }
}

} // verus!
