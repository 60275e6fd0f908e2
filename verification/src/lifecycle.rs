//! Scoring and lifecycle: obstacle motion with off-screen removal, and
//! the handling of externally reported collision events.

use vstd::prelude::*;
use crate::entity::{Entity, EntityKind, MovableEntity, has_bird, has_bird_id, has_pipe_id};
use crate::sim::Score;
use crate::units::{sat64, sat32, sat_mul_add64, sat_inc32, PIPE_DESPAWN_X_MICRO};

verus! {

/// One tick of an obstacle's horizontal scroll; any other entity is
/// untouched.
pub open spec fn pipe_step(e: Entity, dt: int) -> Entity {
    if e.kind is Pipe {
        Entity {
            id: e.id,
            kind: e.kind,
            body: MovableEntity {
                x: sat64(e.body.x + e.body.vx * dt) as i64,
                y: e.body.y,
                depth: e.body.depth,
                vx: e.body.vx,
                vy: e.body.vy,
            },
        }
    } else {
        e
    }
}

/// Whether this tick carries the obstacle past the off-screen threshold.
pub open spec fn despawns(e: Entity, dt: int) -> bool {
    e.kind is Pipe && pipe_step(e, dt).body.x < PIPE_DESPAWN_X_MICRO
}

/// The store after the obstacle scroll: every obstacle moved, and those
/// past the threshold removed, order kept.
pub open spec fn move_pipes_spec(s: Seq<Entity>, dt: int) -> Seq<Entity>
    decreases s.len(),
{
    if s.len() == 0 {
        Seq::empty()
    } else {
        let rest = move_pipes_spec(s.drop_first(), dt);
        if despawns(s[0], dt) {
            rest
        } else {
            seq![pipe_step(s[0], dt)] + rest
        }
    }
}

/// How many obstacles this tick scrolls off-screen.
pub open spec fn passed_count(s: Seq<Entity>, dt: int) -> int
    decreases s.len(),
{
    if s.len() == 0 {
        0
    } else {
        (if despawns(s[0], dt) {
            1int
        } else {
            0int
        }) + passed_count(s.drop_first(), dt)
    }
}

/// The off-screen count is never negative.
pub proof fn lemma_passed_count_nonneg(s: Seq<Entity>, dt: int)
    ensures
        passed_count(s, dt) >= 0,
    decreases s.len(),
{
    if s.len() > 0 {
        lemma_passed_count_nonneg(s.drop_first(), dt);
    }
}

/// Saturating `i32` addition absorbs an earlier saturation when
/// everything added is non-negative.
proof fn lemma_sat32_absorb(a: int, k: int)
    requires
        a >= 0,
        k >= 0,
    ensures
        sat32(sat32(a) + k) == sat32(a + k),
{
}

/// Scrolls every obstacle left; an obstacle that crosses the off-screen
/// threshold is removed and scores one point.
pub fn move_pipes(entities: &mut Vec<Entity>, score: &mut Score, dt_ms: i64)
    requires
        dt_ms >= 0,
        old(score).0 >= 0,
    ensures
        final(entities)@ == move_pipes_spec(old(entities)@, dt_ms as int),
        final(score).0 as int == sat32(old(score).0 + passed_count(old(entities)@, dt_ms as int)),
        final(score).0 >= old(score).0,
{
    let ghost s0 = entities@;
    let ghost score0 = score.0 as int;
    let ghost dt = dt_ms as int;
    let mut out: Vec<Entity> = Vec::new();
    let mut i: usize = 0;
    proof {
        assert(s0.skip(0) =~= s0);
    }
    while i < entities.len()
        invariant
            i <= s0.len(),
            entities@ == s0,
            dt == dt_ms as int,
            dt_ms >= 0,
            score0 >= 0,
            score.0 >= score0,
            out@ + move_pipes_spec(s0.skip(i as int), dt) == move_pipes_spec(s0, dt),
            sat32(score.0 + passed_count(s0.skip(i as int), dt)) == sat32(
                score0 + passed_count(s0, dt),
            ),
        decreases s0.len() - i,
    {
        let ghost tail = s0.skip(i as int);
        proof {
            assert(tail.drop_first() =~= s0.skip(i as int + 1));
            assert(tail[0] == s0[i as int]);
            lemma_passed_count_nonneg(tail.drop_first(), dt);
        }
        let e = entities[i];
        if matches!(e.kind, EntityKind::Pipe) {
            let x1 = sat_mul_add64(e.body.x, e.body.vx, dt_ms);
            if x1 < PIPE_DESPAWN_X_MICRO {
                let ghost sc = score.0 as int;
                score.0 = sat_inc32(score.0);
                proof {
                    lemma_sat32_absorb(sc + 1, passed_count(tail.drop_first(), dt));
                }
            } else {
                out.push(Entity {
                    id: e.id,
                    kind: e.kind,
                    body: MovableEntity {
                        x: x1,
                        y: e.body.y,
                        depth: e.body.depth,
                        vx: e.body.vx,
                        vy: e.body.vy,
                    },
                });
            }
        } else {
            out.push(e);
        }
        i = i + 1;
    }
    proof {
        assert(s0.skip(s0.len() as int) =~= Seq::<Entity>::empty());
        assert(out@ + Seq::<Entity>::empty() =~= out@);
        assert(sat32(score.0 as int) == score.0 as int);
    }
    *entities = out;
}

/// The obstacle scroll removes only obstacles: the player count is kept.
pub proof fn lemma_bird_count_move_pipes(s: Seq<Entity>, dt: int)
    ensures
        crate::entity::bird_count(move_pipes_spec(s, dt)) == crate::entity::bird_count(s),
    decreases s.len(),
{
    if s.len() > 0 {
        lemma_bird_count_move_pipes(s.drop_first(), dt);
        if !despawns(s[0], dt) {
            crate::entity::lemma_bird_count_concat(
                seq![pipe_step(s[0], dt)],
                move_pipes_spec(s.drop_first(), dt),
            );
            assert(seq![pipe_step(s[0], dt)].drop_first() =~= Seq::<Entity>::empty());
            assert(crate::entity::bird_count(Seq::<Entity>::empty()) == 0);
        }
    }
}

/// Whether one reported overlap is fatal: one member is the live player
/// and the other a live obstacle.
pub open spec fn fatal_event(s: Seq<Entity>, ev: (u64, u64)) -> bool {
    ||| (has_bird_id(s, ev.0) && has_pipe_id(s, ev.1))
    ||| (has_bird_id(s, ev.1) && has_pipe_id(s, ev.0))
}

/// Whether any reported overlap of this tick is fatal.
pub open spec fn any_fatal(s: Seq<Entity>, evs: Seq<(u64, u64)>) -> bool {
    exists|k: int| 0 <= k < evs.len() && fatal_event(s, evs[k])
}

/// The store with every player entity removed, order kept.
pub open spec fn without_birds(s: Seq<Entity>) -> Seq<Entity>
    decreases s.len(),
{
    if s.len() == 0 {
        Seq::empty()
    } else {
        let rest = without_birds(s.drop_first());
        if s[0].kind is Bird {
            rest
        } else {
            seq![s[0]] + rest
        }
    }
}

/// Removing the players leaves no player.
pub proof fn lemma_without_birds_no_bird(s: Seq<Entity>)
    ensures
        !has_bird(without_birds(s)),
        forall|i: int|
            0 <= i < without_birds(s).len() ==> !((#[trigger] without_birds(s)[i]).kind is Bird),
    decreases s.len(),
{
    if s.len() > 0 {
        lemma_without_birds_no_bird(s.drop_first());
        let rest = without_birds(s.drop_first());
        if !(s[0].kind is Bird) {
            assert forall|i: int| 0 <= i < without_birds(s).len() implies !((
            #[trigger] without_birds(s)[i]).kind is Bird) by {
                if i > 0 {
                    assert(without_birds(s)[i] == rest[i - 1]);
                }
            }
        }
    }
}

/// Executable scan for a live player with this identifier.
fn has_bird_id_exec(entities: &Vec<Entity>, id: u64) -> (r: bool)
    ensures
        r == has_bird_id(entities@, id),
{
    let mut i: usize = 0;
    while i < entities.len()
        invariant
            i <= entities@.len(),
            forall|j: int|
                0 <= j < i ==> !((#[trigger] entities@[j]).kind is Bird && entities@[j].id == id),
        decreases entities@.len() - i,
    {
        if matches!(entities[i].kind, EntityKind::Bird) && entities[i].id == id {
            return true;
        }
        i = i + 1;
    }
    false
}

/// Executable scan for a live obstacle with this identifier.
fn has_pipe_id_exec(entities: &Vec<Entity>, id: u64) -> (r: bool)
    ensures
        r == has_pipe_id(entities@, id),
{
    let mut i: usize = 0;
    while i < entities.len()
        invariant
            i <= entities@.len(),
            forall|j: int|
                0 <= j < i ==> !((#[trigger] entities@[j]).kind is Pipe && entities@[j].id == id),
        decreases entities@.len() - i,
    {
        if matches!(entities[i].kind, EntityKind::Pipe) && entities[i].id == id {
            return true;
        }
        i = i + 1;
    }
    false
}

/// Consumes this tick's overlap events.  If any pairs the player with an
/// obstacle, the player is destroyed, the score is reset to 0 and the
/// caller is told to leave the playing mode; otherwise nothing changes.
pub fn check_collisions(
    entities: &mut Vec<Entity>,
    score: &mut Score,
    collisions: &Vec<(u64, u64)>,
) -> (fatal: bool)
    ensures
        fatal == any_fatal(old(entities)@, collisions@),
        fatal ==> {
            &&& final(entities)@ == without_birds(old(entities)@)
            &&& !has_bird(final(entities)@)
            &&& final(score).0 == 0
        },
        !fatal ==> final(entities)@ == old(entities)@ && *final(score) == *old(score),
{
    let ghost s0 = entities@;
    let mut fatal = false;
    let mut k: usize = 0;
    while k < collisions.len()
        invariant
            k <= collisions@.len(),
            entities@ == s0,
            fatal == exists|j: int| 0 <= j < k && fatal_event(s0, collisions@[j]),
        decreases collisions@.len() - k,
    {
        let ev = collisions[k];
        let hit = (has_bird_id_exec(entities, ev.0) && has_pipe_id_exec(entities, ev.1)) || (
        has_bird_id_exec(entities, ev.1) && has_pipe_id_exec(entities, ev.0));
        proof {
            assert(hit == fatal_event(s0, collisions@[k as int]));
        }
        fatal = fatal || hit;
        k = k + 1;
    }
    if fatal {
        score.0 = 0;
        let mut out: Vec<Entity> = Vec::new();
        let mut i: usize = 0;
        proof {
            assert(s0.skip(0) =~= s0);
        }
        while i < entities.len()
            invariant
                i <= s0.len(),
                entities@ == s0,
                out@ + without_birds(s0.skip(i as int)) == without_birds(s0),
            decreases s0.len() - i,
        {
            let ghost tail = s0.skip(i as int);
            proof {
                assert(tail.drop_first() =~= s0.skip(i as int + 1));
                assert(tail[0] == s0[i as int]);
            }
            let e = entities[i];
            if !matches!(e.kind, EntityKind::Bird) {
                out.push(e);
            }
            i = i + 1;
        }
        proof {
            assert(s0.skip(s0.len() as int) =~= Seq::<Entity>::empty());
            assert(out@ + Seq::<Entity>::empty() =~= out@);
            lemma_without_birds_no_bird(s0);
        }
        *entities = out;
    }
    fatal
}

} // verus!
