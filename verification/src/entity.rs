//! The entity store's data model.
//!
//! Every simulation entity carries an identifier, a kind tag and a movable
//! body: a 2D position, a rendering depth and a 2D velocity, all in the
//! fixed-point units of [`crate::units`].

use vstd::prelude::*;

verus! {

/// What an entity is; systems dispatch on this tag.
#[derive(Clone, Copy, PartialEq, Eq, Structural, Debug)]
pub enum EntityKind {
    /// The player.  At most one exists, and only while playing.
    Bird,
    /// One member of an obstacle pair.
    Pipe,
    /// Far decorative layer, fast parallax scroll.
    Cloud,
    /// Near decorative layer, slow parallax scroll.
    Building,
}

/// Transform and velocity of an entity: position `(x, y)` and `depth` in
/// micro-units, velocity `(vx, vy)` in milli-units per second.
#[derive(Clone, Copy, PartialEq, Eq, Structural, Debug)]
pub struct MovableEntity {
    pub x: i64,
    pub y: i64,
    pub depth: i64,
    pub vx: i64,
    pub vy: i64,
}

/// One entry of the entity store.
#[derive(Clone, Copy, PartialEq, Eq, Structural, Debug)]
pub struct Entity {
    pub id: u64,
    pub kind: EntityKind,
    pub body: MovableEntity,
}

/// Whether the store holds a player entity.
pub open spec fn has_bird(s: Seq<Entity>) -> bool {
    exists|i: int| 0 <= i < s.len() && s[i].kind is Bird
}

/// Whether the store holds a player entity with this identifier.
pub open spec fn has_bird_id(s: Seq<Entity>, id: u64) -> bool {
    exists|i: int| 0 <= i < s.len() && s[i].kind is Bird && s[i].id == id
}

/// Whether the store holds an obstacle entity with this identifier.
pub open spec fn has_pipe_id(s: Seq<Entity>, id: u64) -> bool {
    exists|i: int| 0 <= i < s.len() && s[i].kind is Pipe && s[i].id == id
}

/// How many player entities the store holds.
pub open spec fn bird_count(s: Seq<Entity>) -> int
    decreases s.len(),
{
    if s.len() == 0 {
        0
    } else {
        (if s[0].kind is Bird { 1int } else { 0int }) + bird_count(s.drop_first())
    }
}

/// A store's player count is never negative.
pub proof fn lemma_bird_count_nonneg(s: Seq<Entity>)
    ensures
        bird_count(s) >= 0,
    decreases s.len(),
{
    if s.len() > 0 {
        lemma_bird_count_nonneg(s.drop_first());
    }
}

/// A player at some index forces a positive player count.
pub proof fn lemma_bird_count_at_least(s: Seq<Entity>, i: int)
    requires
        0 <= i < s.len(),
        s[i].kind is Bird,
    ensures
        bird_count(s) >= 1,
    decreases s.len(),
{
    lemma_bird_count_nonneg(s.drop_first());
    if i > 0 {
        lemma_bird_count_at_least(s.drop_first(), i - 1);
    }
}

/// A store holds a player exactly when its player count is positive.
pub proof fn lemma_has_bird_iff_count(s: Seq<Entity>)
    ensures
        has_bird(s) <==> bird_count(s) >= 1,
    decreases s.len(),
{
    lemma_bird_count_nonneg(s);
    if has_bird(s) {
        let i = choose|i: int| 0 <= i < s.len() && s[i].kind is Bird;
        lemma_bird_count_at_least(s, i);
    }
    if s.len() > 0 && bird_count(s) >= 1 {
        if s[0].kind is Bird {
            assert(has_bird(s));
        } else {
            lemma_has_bird_iff_count(s.drop_first());
            let i = choose|i: int| 0 <= i < s.drop_first().len() && s.drop_first()[i].kind is Bird;
            assert(s[i + 1].kind is Bird);
        }
    }
}

/// The player count of two stores laid end to end is the sum of the two.
pub proof fn lemma_bird_count_concat(s: Seq<Entity>, t: Seq<Entity>)
    ensures
        bird_count(s + t) == bird_count(s) + bird_count(t),
    decreases s.len(),
{
    if s.len() == 0 {
        assert(s + t =~= t);
    } else {
        assert((s + t).drop_first() =~= s.drop_first() + t);
        lemma_bird_count_concat(s.drop_first(), t);
    }
}

/// Two stores whose entries carry the same kinds hold the same number of
/// players.
pub proof fn lemma_bird_count_same_kinds(s1: Seq<Entity>, s2: Seq<Entity>)
    requires
        s1.len() == s2.len(),
        forall|i: int| 0 <= i < s1.len() ==> s1[i].kind == s2[i].kind,
    ensures
        bird_count(s1) == bird_count(s2),
    decreases s1.len(),
{
    if s1.len() > 0 {
        assert forall|i: int| 0 <= i < s1.drop_first().len() implies s1.drop_first()[i].kind
            == s2.drop_first()[i].kind by {
            assert(s1.drop_first()[i] == s1[i + 1]);
            assert(s2.drop_first()[i] == s2[i + 1]);
        }
        lemma_bird_count_same_kinds(s1.drop_first(), s2.drop_first());
    }
}

/// A store whose only player sits at index `b` has a player count of one.
pub proof fn lemma_bird_count_single(s: Seq<Entity>, b: int)
    requires
        0 <= b < s.len(),
        s[b].kind is Bird,
        forall|i: int| 0 <= i < s.len() && i != b ==> !((#[trigger] s[i]).kind is Bird),
    ensures
        bird_count(s) == 1,
    decreases s.len(),
{
    if b == 0 {
        lemma_bird_count_zero(s.drop_first());
    } else {
        lemma_bird_count_single(s.drop_first(), b - 1);
    }
}

/// A store with no player entry has a player count of zero.
pub proof fn lemma_bird_count_zero(s: Seq<Entity>)
    requires
        forall|i: int| 0 <= i < s.len() ==> !((#[trigger] s[i]).kind is Bird),
    ensures
        bird_count(s) == 0,
    decreases s.len(),
{
    if s.len() > 0 {
        lemma_bird_count_zero(s.drop_first());
    }
}

/// Executable scan for a player entity.
pub fn find_bird(entities: &Vec<Entity>) -> (r: Option<usize>)
    ensures
        match r {
            Some(i) => i < entities@.len() && entities@[i as int].kind is Bird,
            None => !has_bird(entities@),
        },
{
    let mut i: usize = 0;
    while i < entities.len()
        invariant
            i <= entities@.len(),
            forall|j: int| 0 <= j < i ==> !(entities@[j].kind is Bird),
        decreases entities@.len() - i,
    {
        if matches!(entities[i].kind, EntityKind::Bird) {
            return Some(i);
        }
        i = i + 1;
    }
    None
}

} // verus!
