//! The per-tick motion step: gravity and jump impulse for the player,
//! parallax scroll and wrap-around for the two decorative layers.

use vstd::prelude::*;
use crate::entity::{
    Entity, EntityKind, MovableEntity, has_bird, bird_count, lemma_bird_count_nonneg,
    lemma_bird_count_at_least,
};
use crate::sim::{Gravity, PlayAudio};
use crate::units::{
    sat64, sat_add64, sat_mul_add64, GRAVITY_RATE, JUMP_VELOCITY_MILLI, CLOUD_SPEED_MILLI,
    CLOUD_WRAP_MIN_MICRO, CLOUD_WRAP_MAX_MICRO, BUILDING_SPEED_MILLI, BUILDING_WRAP_MIN_MICRO,
    BUILDING_WRAP_MAX_MICRO,
};

verus! {

/// One scroll step of a decorative layer's x coordinate: move left by
/// `speed * dt`, and re-enter at `wrap_max` after crossing `wrap_min`.
pub open spec fn decor_x_step(x: int, speed: int, dt: int, wrap_min: int, wrap_max: int) -> int {
    let moved = sat64(x - speed * dt);
    if moved < wrap_min {
        wrap_max
    } else {
        moved
    }
}

/// One tick of a far-layer entity; any other entity is untouched.
pub open spec fn cloud_step(e: Entity, dt: int) -> Entity {
    if e.kind is Cloud {
        Entity {
            id: e.id,
            kind: e.kind,
            body: MovableEntity {
                x: decor_x_step(
                    e.body.x as int,
                    CLOUD_SPEED_MILLI as int,
                    dt,
                    CLOUD_WRAP_MIN_MICRO as int,
                    CLOUD_WRAP_MAX_MICRO as int,
                ) as i64,
                y: e.body.y,
                depth: e.body.depth,
                vx: e.body.vx,
                vy: e.body.vy,
            },
        }
    } else {
        e
    }
}

/// One tick of a near-layer entity; any other entity is untouched.
pub open spec fn building_step(e: Entity, dt: int) -> Entity {
    if e.kind is Building {
        Entity {
            id: e.id,
            kind: e.kind,
            body: MovableEntity {
                x: decor_x_step(
                    e.body.x as int,
                    BUILDING_SPEED_MILLI as int,
                    dt,
                    BUILDING_WRAP_MIN_MICRO as int,
                    BUILDING_WRAP_MAX_MICRO as int,
                ) as i64,
                y: e.body.y,
                depth: e.body.depth,
                vx: e.body.vx,
                vy: e.body.vy,
            },
        }
    } else {
        e
    }
}

/// The whole store after the far-layer scroll.
pub open spec fn clouds_spec(s: Seq<Entity>, dt: int) -> Seq<Entity> {
    Seq::new(s.len(), |i: int| cloud_step(s[i], dt))
}

/// The whole store after the near-layer scroll.
pub open spec fn buildings_spec(s: Seq<Entity>, dt: int) -> Seq<Entity> {
    Seq::new(s.len(), |i: int| building_step(s[i], dt))
}

/// The gravity accumulator after one tick: reset to 0 by a jump edge,
/// then lowered by `GRAVITY_RATE * dt` either way.
pub open spec fn gravity_after(g: int, jump: bool, dt: int) -> int {
    sat64((if jump { 0int } else { g }) - GRAVITY_RATE * dt)
}

/// One tick of the player: the jump edge replaces the vertical velocity
/// by the jump impulse, the updated accumulator is added to it, and the
/// position integrates the new velocity.
pub open spec fn bird_step(e: Entity, g: int, jump: bool, dt: int) -> Entity {
    let ga = gravity_after(g, jump, dt);
    let vy1 = sat64((if jump { JUMP_VELOCITY_MILLI as int } else { e.body.vy as int }) + ga);
    Entity {
        id: e.id,
        kind: e.kind,
        body: MovableEntity {
            x: sat64(e.body.x + e.body.vx * dt) as i64,
            y: sat64(e.body.y + vy1 * dt) as i64,
            depth: e.body.depth,
            vx: e.body.vx,
            vy: vy1 as i64,
        },
    }
}

/// The whole store after the player's motion step.
pub open spec fn birds_spec(s: Seq<Entity>, g: int, jump: bool, dt: int) -> Seq<Entity> {
    Seq::new(s.len(), |i: int| if s[i].kind is Bird { bird_step(s[i], g, jump, dt) } else { s[i] })
}

/// Scrolls the far decorative layer left and wraps it at the far bound.
pub fn animate_clouds(entities: &mut Vec<Entity>, dt_ms: i64)
    requires
        dt_ms >= 0,
    ensures
        final(entities)@ == clouds_spec(old(entities)@, dt_ms as int),
{
    let ghost s0 = entities@;
    let mut i: usize = 0;
    while i < entities.len()
        invariant
            i <= s0.len(),
            entities@.len() == s0.len(),
            dt_ms >= 0,
            forall|j: int| 0 <= j < i ==> entities@[j] == cloud_step(s0[j], dt_ms as int),
            forall|j: int| i <= j < s0.len() ==> entities@[j] == s0[j],
        decreases s0.len() - i,
    {
        let e = entities[i];
        if matches!(e.kind, EntityKind::Cloud) {
            let moved = sat_mul_add64(e.body.x, -CLOUD_SPEED_MILLI, dt_ms);
            let x1 = if moved < CLOUD_WRAP_MIN_MICRO { CLOUD_WRAP_MAX_MICRO } else { moved };
            entities[i] = Entity {
                id: e.id,
                kind: e.kind,
                body: MovableEntity { x: x1, y: e.body.y, depth: e.body.depth, vx: e.body.vx, vy: e.body.vy },
            };
        }
        i = i + 1;
    }
    proof {
        assert(entities@ =~= clouds_spec(s0, dt_ms as int));
    }
}

/// Scrolls the near decorative layer left and wraps it at the near bound.
pub fn animate_buildings(entities: &mut Vec<Entity>, dt_ms: i64)
    requires
        dt_ms >= 0,
    ensures
        final(entities)@ == buildings_spec(old(entities)@, dt_ms as int),
{
    let ghost s0 = entities@;
    let mut i: usize = 0;
    while i < entities.len()
        invariant
            i <= s0.len(),
            entities@.len() == s0.len(),
            dt_ms >= 0,
            forall|j: int| 0 <= j < i ==> entities@[j] == building_step(s0[j], dt_ms as int),
            forall|j: int| i <= j < s0.len() ==> entities@[j] == s0[j],
        decreases s0.len() - i,
    {
        let e = entities[i];
        if matches!(e.kind, EntityKind::Building) {
            let moved = sat_mul_add64(e.body.x, -BUILDING_SPEED_MILLI, dt_ms);
            let x1 = if moved < BUILDING_WRAP_MIN_MICRO { BUILDING_WRAP_MAX_MICRO } else { moved };
            entities[i] = Entity {
                id: e.id,
                kind: e.kind,
                body: MovableEntity { x: x1, y: e.body.y, depth: e.body.depth, vx: e.body.vx, vy: e.body.vy },
            };
        }
        i = i + 1;
    }
    proof {
        assert(entities@ =~= buildings_spec(s0, dt_ms as int));
    }
}

/// Applies the jump edge and gravity to the player and integrates its
/// position.  The accumulator moves only when a player exists, as the
/// motion step is per-player.  Returns the audio trigger for the jump.
pub fn bird_controller(
    entities: &mut Vec<Entity>,
    gravity: &mut Gravity,
    dt_ms: i64,
    jump_edge: bool,
) -> (audio: Option<PlayAudio>)
    requires
        dt_ms >= 0,
        bird_count(old(entities)@) <= 1,
    ensures
        final(entities)@ == birds_spec(old(entities)@, old(gravity).0 as int, jump_edge, dt_ms as int),
        has_bird(old(entities)@) ==> final(gravity).0 as int == gravity_after(
            old(gravity).0 as int,
            jump_edge,
            dt_ms as int,
        ),
        !has_bird(old(entities)@) ==> *final(gravity) == *old(gravity) && final(entities)@ == old(entities)@,
        audio is Some <==> (jump_edge && has_bird(old(entities)@)),
        audio matches Some(a) ==> a.0@ == "sounds/jump.ogg"@,
{
    let ghost s0 = entities@;
    match crate::entity::find_bird(entities) {
        None => {
            proof {
                assert(entities@ =~= birds_spec(s0, gravity.0 as int, jump_edge, dt_ms as int));
            }
            None
        },
        Some(i) => {
            let e = entities[i];
            let g0 = if jump_edge { 0 } else { gravity.0 };
            let ga = sat_mul_add64(g0, -GRAVITY_RATE, dt_ms);
            gravity.0 = ga;
            let vy0 = if jump_edge { JUMP_VELOCITY_MILLI } else { e.body.vy };
            let vy1 = sat_add64(vy0, ga);
            let y1 = sat_mul_add64(e.body.y, vy1, dt_ms);
            let x1 = sat_mul_add64(e.body.x, e.body.vx, dt_ms);
            entities[i] = Entity {
                id: e.id,
                kind: e.kind,
                body: MovableEntity { x: x1, y: y1, depth: e.body.depth, vx: e.body.vx, vy: vy1 },
            };
            proof {
                lemma_bird_count_unique(s0, i as int);
                assert(entities@ =~= birds_spec(s0, old(gravity).0 as int, jump_edge, dt_ms as int));
            }
            if jump_edge {
                Some(PlayAudio("sounds/jump.ogg".to_owned()))
            } else {
                None
            }
        },
    }
}

/// In a store with at most one player, no index besides `i` holds one.
proof fn lemma_bird_count_unique(s: Seq<Entity>, i: int)
    requires
        bird_count(s) <= 1,
        0 <= i < s.len(),
        s[i].kind is Bird,
    ensures
        forall|j: int| 0 <= j < s.len() && j != i ==> !(s[j].kind is Bird),
    decreases s.len(),
{
    if s.len() > 0 {
        lemma_bird_count_nonneg(s.drop_first());
        if i == 0 {
            assert forall|j: int| 0 <= j < s.len() && j != 0 implies !(s[j].kind is Bird) by {
                if s[j].kind is Bird {
                    lemma_bird_count_at_least(s.drop_first(), j - 1);
                }
            }
        } else {
            lemma_bird_count_unique(s.drop_first(), i - 1);
            if s[0].kind is Bird {
                lemma_bird_count_at_least(s.drop_first(), i - 1);
            }
            assert forall|j: int| 0 <= j < s.len() && j != i implies !(s[j].kind is Bird) by {
                if j > 0 {
                    assert(s[j] == s.drop_first()[j - 1]);
                }
            }
        }
    }
}

/// With no jump input the accumulator can only fall, and with it the
/// player's vertical velocity: one tick never raises either.
pub proof fn lemma_no_jump_velocity_monotone(e: Entity, g: int, dt: int)
    requires
        i64::MIN <= g <= 0,
        dt >= 0,
    ensures
        gravity_after(g, false, dt) <= g,
        i64::MIN <= gravity_after(g, false, dt) <= 0,
        bird_step(e, g, false, dt).body.vy <= e.body.vy,
{
}

/// The state of a no-jump glide: the accumulator and vertical velocity
/// after a whole sequence of tick durations.
pub open spec fn glide(g: int, vy: int, dts: Seq<int>) -> (int, int)
    decreases dts.len(),
{
    if dts.len() == 0 {
        (g, vy)
    } else {
        let g1 = gravity_after(g, false, dts[0]);
        let vy1 = sat64(vy + g1);
        glide(g1, vy1, dts.drop_first())
    }
}

/// Over any sequence of non-negative tick durations with no jump input,
/// the vertical velocity never increases, and the accumulator stays
/// non-positive.
pub proof fn lemma_glide_velocity_monotone(g: int, vy: int, dts: Seq<int>)
    requires
        i64::MIN <= g <= 0,
        i64::MIN <= vy <= i64::MAX,
        forall|k: int| 0 <= k < dts.len() ==> dts[k] >= 0,
    ensures
        glide(g, vy, dts).1 <= vy,
        i64::MIN <= glide(g, vy, dts).0 <= 0,
        i64::MIN <= glide(g, vy, dts).1 <= i64::MAX,
    decreases dts.len(),
{
    if dts.len() > 0 {
        let g1 = gravity_after(g, false, dts[0]);
        let vy1 = sat64(vy + g1);
        lemma_glide_velocity_monotone(g1, vy1, dts.drop_first());
    }
}

/// A jump edge wipes out the prior accumulator and velocity: any two
/// players, whatever their history, leave a jump tick with the same
/// accumulator and the same vertical velocity.  With `dt == 0` these are
/// exactly 0 and the jump impulse.
pub proof fn lemma_jump_resets(e1: Entity, g1: int, e2: Entity, g2: int, dt: int)
    ensures
        gravity_after(g1, true, dt) == gravity_after(g2, true, dt),
        bird_step(e1, g1, true, dt).body.vy == bird_step(e2, g2, true, dt).body.vy,
        gravity_after(g1, true, 0) == 0,
        bird_step(e1, g1, true, 0).body.vy == JUMP_VELOCITY_MILLI,
{
}

} // verus!
