//! The spawn scheduler for obstacle pairs and the one-time placement of
//! the decorative layers.  Random placement is drawn through the one
//! trusted wrapper over the `rand` crate.

use vstd::prelude::*;
use rand::Rng;
use crate::entity::{Entity, EntityKind, MovableEntity};
use crate::sim::LastPipeSpawnTime;
use crate::units::{
    SPAWN_INTERVAL_MS, PIPE_GAP_MICRO, PIPE_HEIGHT_MICRO, PIPE_SPAWN_X_MICRO, PIPE_SPEED_MILLI,
    PIPE_OFFSET_MICRO, PIPE_DEPTH_MICRO, GAP_CENTER_MIN_MICRO, GAP_CENTER_MAX_MICRO, CLOUD_COUNT,
    CLOUD_SPAWN_X_MIN_MICRO, CLOUD_SPAWN_X_MAX_MICRO, CLOUD_SPAWN_Y_MIN_MICRO,
    CLOUD_SPAWN_Y_MAX_MICRO, CLOUD_DEPTH_MIN_MICRO, CLOUD_DEPTH_MAX_MICRO, BUILDING_COUNT,
    BUILDING_SPAWN_X_MIN_MICRO, BUILDING_SPAWN_X_MAX_MICRO, BUILDING_SPAWN_Y_MICRO,
    BUILDING_DEPTH_MIN_MICRO, BUILDING_DEPTH_MAX_MICRO,
};

verus! {

/// Relies on `rand::thread_rng` and `rand::Rng::gen_range` on `lo..hi`:
/// a draw from the thread-local generator, uniform over the half-open
/// range; `gen_range` panics on an empty range, so one is excluded here.
/// Nothing relates two draws: every outcome in the range must be handled.
#[verifier::external_body]
fn sample_uniform(lo: i64, hi: i64) -> (r: i64)
    requires
        lo < hi,
    ensures
        lo <= r < hi,
{
    rand::thread_rng().gen_range(lo..hi)
}

/// The identifier counter after one allocation.
pub open spec fn bump_spec(n: u64) -> u64 {
    if n == u64::MAX {
        0
    } else {
        (n + 1) as u64
    }
}

/// The identifier counter after `k` allocations.
pub open spec fn bump_n(n: u64, k: nat) -> u64
    decreases k,
{
    if k == 0 {
        n
    } else {
        bump_n(bump_spec(n), (k - 1) as nat)
    }
}

/// Hands out the next entity identifier.
pub(crate) fn bump_id(n: &mut u64)
    ensures
        *final(n) == bump_spec(*old(n)),
{
    if *n == u64::MAX {
        *n = 0;
    } else {
        *n = *n + 1;
    }
}

/// Whether the scheduler is due: more than the spawn interval has passed
/// since the last spawn.
pub open spec fn should_spawn(now: int, last: int) -> bool {
    now - last > SPAWN_INTERVAL_MS
}

/// One member of an obstacle pair: at the spawn column, centered `off`
/// above the gap center `g`, scrolling left at the fixed obstacle speed.
pub open spec fn pipe_member(id: u64, g: int, off: int) -> Entity {
    Entity {
        id,
        kind: EntityKind::Pipe,
        body: MovableEntity {
            x: PIPE_SPAWN_X_MICRO,
            y: (g + off) as i64,
            depth: PIPE_DEPTH_MICRO,
            vx: PIPE_SPEED_MILLI,
            vy: 0,
        },
    }
}

/// A whole obstacle pair around the gap center `g`: the upper member
/// first, then the lower one.
pub open spec fn pipe_pair(g: int, id_up: u64, id_lo: u64) -> Seq<Entity> {
    seq![
        pipe_member(id_up, g, PIPE_OFFSET_MICRO as int),
        pipe_member(id_lo, g, -(PIPE_OFFSET_MICRO as int)),
    ]
}

/// An obstacle pair around gap center `g` sits symmetrically: the upper
/// member at `g + gap/2 + height/2`, the lower at `g - gap/2 - height/2`,
/// both at the same spawn column with the same leftward velocity.
pub proof fn lemma_pair_geometry(g: int, id_up: u64, id_lo: u64)
    requires
        GAP_CENTER_MIN_MICRO <= g < GAP_CENTER_MAX_MICRO,
    ensures
        pipe_pair(g, id_up, id_lo).len() == 2,
        pipe_pair(g, id_up, id_lo)[0].body.y == g + PIPE_GAP_MICRO / 2 + PIPE_HEIGHT_MICRO / 2,
        pipe_pair(g, id_up, id_lo)[1].body.y == g - PIPE_GAP_MICRO / 2 - PIPE_HEIGHT_MICRO / 2,
        pipe_pair(g, id_up, id_lo)[0].body.x == pipe_pair(g, id_up, id_lo)[1].body.x,
        pipe_pair(g, id_up, id_lo)[0].body.vx == PIPE_SPEED_MILLI,
        pipe_pair(g, id_up, id_lo)[1].body.vx == PIPE_SPEED_MILLI,
{
}

/// When due, appends an obstacle pair with a uniformly drawn gap center
/// and records the spawn time; otherwise changes nothing.
pub fn spawn_pipes(
    entities: &mut Vec<Entity>,
    last_pipe_spawn_time: &mut LastPipeSpawnTime,
    next_id: &mut u64,
    now_ms: i64,
)
    requires
        0 <= old(last_pipe_spawn_time).0 <= now_ms,
    ensures
        should_spawn(now_ms as int, old(last_pipe_spawn_time).0 as int) ==> {
            &&& (exists|g: int|
                GAP_CENTER_MIN_MICRO <= g < GAP_CENTER_MAX_MICRO && final(entities)@ == old(
                    entities,
                )@ + pipe_pair(g, *old(next_id), bump_spec(*old(next_id))))
            &&& final(last_pipe_spawn_time).0 == now_ms
            &&& *final(next_id) == bump_n(*old(next_id), 2)
        },
        !should_spawn(now_ms as int, old(last_pipe_spawn_time).0 as int) ==> {
            &&& final(entities)@ == old(entities)@
            &&& *final(last_pipe_spawn_time) == *old(last_pipe_spawn_time)
            &&& *final(next_id) == *old(next_id)
        },
{
    if now_ms - last_pipe_spawn_time.0 > SPAWN_INTERVAL_MS {
        last_pipe_spawn_time.0 = now_ms;
        let g = sample_uniform(GAP_CENTER_MIN_MICRO, GAP_CENTER_MAX_MICRO);
        let id_up = *next_id;
        bump_id(next_id);
        let id_lo = *next_id;
        bump_id(next_id);
        let ghost s0 = entities@;
        entities.push(Entity {
            id: id_up,
            kind: EntityKind::Pipe,
            body: MovableEntity {
                x: PIPE_SPAWN_X_MICRO,
                y: g + PIPE_OFFSET_MICRO,
                depth: PIPE_DEPTH_MICRO,
                vx: PIPE_SPEED_MILLI,
                vy: 0,
            },
        });
        entities.push(Entity {
            id: id_lo,
            kind: EntityKind::Pipe,
            body: MovableEntity {
                x: PIPE_SPAWN_X_MICRO,
                y: g - PIPE_OFFSET_MICRO,
                depth: PIPE_DEPTH_MICRO,
                vx: PIPE_SPEED_MILLI,
                vy: 0,
            },
        });
        proof {
            assert(entities@ =~= s0 + pipe_pair(g as int, id_up, id_lo));
            assert(entities@ == old(entities)@ + pipe_pair(
                g as int,
                *old(next_id),
                bump_spec(*old(next_id)),
            ));
            assert(bump_n(*old(next_id), 2) == bump_n(bump_spec(*old(next_id)), 1));
            assert(bump_n(bump_spec(*old(next_id)), 1) == bump_n(
                bump_spec(bump_spec(*old(next_id))),
                0,
            ));
        }
    }
}

/// The spawn times a whole run of ticks produces, given the recorded
/// previous spawn time and the tick timestamps in order.
pub open spec fn spawn_times(last: int, times: Seq<int>) -> Seq<int>
    decreases times.len(),
{
    if times.len() == 0 {
        Seq::empty()
    } else {
        let t = times[0];
        if should_spawn(t, last) {
            seq![t] + spawn_times(t, times.drop_first())
        } else {
            spawn_times(last, times.drop_first())
        }
    }
}

/// Over any sequence of tick timestamps, no spawn falls within the spawn
/// interval of the one before it, and the first falls more than the
/// interval after the recorded previous spawn.
pub proof fn lemma_spawn_separation(last: int, times: Seq<int>)
    ensures
        spawn_times(last, times).len() > 0 ==> spawn_times(last, times)[0] - last
            > SPAWN_INTERVAL_MS,
        forall|a: int, b: int|
            #![trigger spawn_times(last, times)[a], spawn_times(last, times)[b]]
            0 <= a && b == a + 1 && b < spawn_times(last, times).len() ==> spawn_times(
                last,
                times,
            )[b] - spawn_times(last, times)[a] > SPAWN_INTERVAL_MS,
    decreases times.len(),
{
    if times.len() > 0 {
        let t = times[0];
        if should_spawn(t, last) {
            lemma_spawn_separation(t, times.drop_first());
            let sp = spawn_times(last, times);
            let rest = spawn_times(t, times.drop_first());
            assert(sp == seq![t] + rest);
            assert forall|a: int, b: int|
                #![trigger sp[a], sp[b]]
                0 <= a && b == a + 1 && b < sp.len() implies sp[b] - sp[a]
                > SPAWN_INTERVAL_MS by {
                if a == 0 {
                    assert(sp[0] == t);
                    assert(sp[1] == rest[0]);
                } else {
                    assert(sp[a] == rest[a - 1]);
                    assert(sp[b] == rest[b - 1]);
                }
            }
        } else {
            lemma_spawn_separation(last, times.drop_first());
        }
    }
}

/// Places the far decorative layer: a fixed count of entities at
/// uniformly drawn positions and depths, motionless in the store (the
/// scroll is applied by the animation step).
pub fn spawn_clouds(entities: &mut Vec<Entity>, next_id: &mut u64)
    ensures
        final(entities)@.len() == old(entities)@.len() + CLOUD_COUNT,
        forall|j: int| 0 <= j < old(entities)@.len() ==> final(entities)@[j] == old(entities)@[j],
        forall|j: int|
            old(entities)@.len() <= j < final(entities)@.len() ==> cloud_spawn_ok(
                #[trigger] final(entities)@[j],
            ),
        *final(next_id) == bump_n(*old(next_id), CLOUD_COUNT as nat),
{
    let ghost s0 = entities@;
    let ghost n0 = *next_id;
    let mut i: usize = 0;
    while i < CLOUD_COUNT
        invariant
            i <= CLOUD_COUNT,
            entities@.len() == s0.len() + i,
            forall|j: int| 0 <= j < s0.len() ==> entities@[j] == s0[j],
            forall|j: int|
                s0.len() <= j < entities@.len() ==> cloud_spawn_ok(#[trigger] entities@[j]),
            *next_id == bump_n(n0, i as nat),
        decreases CLOUD_COUNT - i,
    {
        let x = sample_uniform(CLOUD_SPAWN_X_MIN_MICRO, CLOUD_SPAWN_X_MAX_MICRO);
        let y = sample_uniform(CLOUD_SPAWN_Y_MIN_MICRO, CLOUD_SPAWN_Y_MAX_MICRO);
        let depth = sample_uniform(CLOUD_DEPTH_MIN_MICRO, CLOUD_DEPTH_MAX_MICRO);
        let id = *next_id;
        bump_id(next_id);
        entities.push(Entity {
            id,
            kind: EntityKind::Cloud,
            body: MovableEntity { x, y, depth, vx: 0, vy: 0 },
        });
        proof {
            lemma_bump_n_unfold(n0, i as nat);
        }
        i = i + 1;
    }
}

/// What holds of every far-layer entity as placed.
pub open spec fn cloud_spawn_ok(e: Entity) -> bool {
    &&& e.kind is Cloud
    &&& CLOUD_SPAWN_X_MIN_MICRO <= e.body.x < CLOUD_SPAWN_X_MAX_MICRO
    &&& CLOUD_SPAWN_Y_MIN_MICRO <= e.body.y < CLOUD_SPAWN_Y_MAX_MICRO
    &&& CLOUD_DEPTH_MIN_MICRO <= e.body.depth < CLOUD_DEPTH_MAX_MICRO
    &&& e.body.vx == 0
    &&& e.body.vy == 0
}

/// Places the near decorative layer at a fixed height, with uniformly
/// drawn columns and depths.
pub fn spawn_buildings(entities: &mut Vec<Entity>, next_id: &mut u64)
    ensures
        final(entities)@.len() == old(entities)@.len() + BUILDING_COUNT,
        forall|j: int| 0 <= j < old(entities)@.len() ==> final(entities)@[j] == old(entities)@[j],
        forall|j: int|
            old(entities)@.len() <= j < final(entities)@.len() ==> building_spawn_ok(
                #[trigger] final(entities)@[j],
            ),
        *final(next_id) == bump_n(*old(next_id), BUILDING_COUNT as nat),
{
    let ghost s0 = entities@;
    let ghost n0 = *next_id;
    let mut i: usize = 0;
    while i < BUILDING_COUNT
        invariant
            i <= BUILDING_COUNT,
            entities@.len() == s0.len() + i,
            forall|j: int| 0 <= j < s0.len() ==> entities@[j] == s0[j],
            forall|j: int|
                s0.len() <= j < entities@.len() ==> building_spawn_ok(#[trigger] entities@[j]),
            *next_id == bump_n(n0, i as nat),
        decreases BUILDING_COUNT - i,
    {
        let x = sample_uniform(BUILDING_SPAWN_X_MIN_MICRO, BUILDING_SPAWN_X_MAX_MICRO);
        let depth = sample_uniform(BUILDING_DEPTH_MIN_MICRO, BUILDING_DEPTH_MAX_MICRO);
        let id = *next_id;
        bump_id(next_id);
        entities.push(Entity {
            id,
            kind: EntityKind::Building,
            body: MovableEntity { x, y: BUILDING_SPAWN_Y_MICRO, depth, vx: 0, vy: 0 },
        });
        proof {
            lemma_bump_n_unfold(n0, i as nat);
        }
        i = i + 1;
    }
}

/// What holds of every near-layer entity as placed.
pub open spec fn building_spawn_ok(e: Entity) -> bool {
    &&& e.kind is Building
    &&& BUILDING_SPAWN_X_MIN_MICRO <= e.body.x < BUILDING_SPAWN_X_MAX_MICRO
    &&& e.body.y == BUILDING_SPAWN_Y_MICRO
    &&& BUILDING_DEPTH_MIN_MICRO <= e.body.depth < BUILDING_DEPTH_MAX_MICRO
    &&& e.body.vx == 0
    &&& e.body.vy == 0
}

/// Allocation chains compose: `b` more allocations after `a` of them
/// are `a + b` allocations.
pub proof fn lemma_bump_n_compose(n: u64, a: nat, b: nat)
    ensures
        bump_n(bump_n(n, a), b) == bump_n(n, a + b),
    decreases a,
{
    if a == 0 {
        assert(bump_n(n, 0) == n);
    } else {
        lemma_bump_n_compose(bump_spec(n), (a - 1) as nat, b);
        assert(bump_n(n, a) == bump_n(bump_spec(n), (a - 1) as nat));
        assert(bump_n(n, a + b) == bump_n(bump_spec(n), (a + b - 1) as nat));
    }
}

/// Allocating once more after `k` allocations is `k + 1` allocations.
proof fn lemma_bump_n_unfold(n: u64, k: nat)
    ensures
        bump_spec(bump_n(n, k)) == bump_n(n, k + 1),
    decreases k,
{
    assert(bump_n(n, k + 1) == bump_n(bump_spec(n), k));
    if k == 0 {
        assert(bump_n(bump_spec(n), 0) == bump_spec(n));
        assert(bump_n(n, 0) == n);
    } else {
        lemma_bump_n_unfold(bump_spec(n), (k - 1) as nat);
        assert(bump_n(n, k) == bump_n(bump_spec(n), (k - 1) as nat));
    }
}

} // verus!
