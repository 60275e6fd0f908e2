//! The simulation state and the tick that advances it.
//!
//! One call of [`tick`] is one frame: the external host hands in the
//! elapsed time, the jump edge and this tick's overlap events, and drains
//! the returned audio trigger.  Within the playing mode the systems run
//! in a fixed order — spawn, decorative scroll, player motion, obstacle
//! scroll with scoring, collision handling — and a mode change takes
//! effect at the tick boundary, with teardown on the transition edge.

use vstd::prelude::*;
use crate::entity::{
    Entity, EntityKind, MovableEntity, has_bird, bird_count, lemma_bird_count_concat,
    lemma_bird_count_same_kinds, lemma_bird_count_single, lemma_bird_count_zero,
    lemma_has_bird_iff_count,
};
use crate::modes::{GameMode, mode_step, mode_step_exec};
use crate::physics::{
    clouds_spec, buildings_spec, birds_spec, gravity_after, animate_clouds, animate_buildings,
    bird_controller,
};
use crate::spawn::{
    should_spawn, pipe_pair, bump_spec, bump_n, cloud_spawn_ok, building_spawn_ok, spawn_pipes,
    spawn_clouds, spawn_buildings, bump_id,
};
use crate::lifecycle::{
    move_pipes_spec, passed_count, any_fatal, without_birds, move_pipes, check_collisions,
    lemma_bird_count_move_pipes,
};
use crate::units::{
    sat64, sat32, sat_add64, GAP_CENTER_MIN_MICRO, GAP_CENTER_MAX_MICRO, CLOUD_COUNT,
    BUILDING_COUNT, BIRD_START_X_MICRO, BIRD_START_Y_MICRO, BIRD_DEPTH_MICRO,
};

verus! {

/// The run's score: one point per obstacle scrolled off-screen.
#[derive(Clone, Copy, PartialEq, Eq, Structural, Debug)]
pub struct Score(pub i32);

/// When the last obstacle pair was spawned, in milliseconds of
/// simulation time.
#[derive(Clone, Copy, PartialEq, Eq, Structural, Debug)]
pub struct LastPipeSpawnTime(pub i64);

/// The gravity accumulator: the current downward pull added to the
/// player's vertical velocity each tick, milli-units/s, never positive.
#[derive(Clone, Copy, PartialEq, Eq, Structural, Debug)]
pub struct Gravity(pub i64);

/// A request that the audio collaborator play the named asset.
#[derive(Debug)]
pub struct PlayAudio(pub String);

/// The whole simulation: mode, the shared counters and the entity store.
pub struct SimulationState {
    pub mode: GameMode,
    pub score: Score,
    pub last_pipe_spawn_time: LastPipeSpawnTime,
    pub gravity: Gravity,
    /// Milliseconds since the current run began.
    pub now_ms: i64,
    /// The next entity identifier to hand out.
    pub next_id: u64,
    pub entities: Vec<Entity>,
}

/// How many entities a fresh run starts with.
pub open spec fn fresh_store_len() -> int {
    CLOUD_COUNT as int + BUILDING_COUNT as int + 1
}

/// The player entity as a run starts.
pub open spec fn bird_entity(id: u64) -> Entity {
    Entity {
        id,
        kind: EntityKind::Bird,
        body: MovableEntity {
            x: BIRD_START_X_MICRO,
            y: BIRD_START_Y_MICRO,
            depth: BIRD_DEPTH_MICRO,
            vx: 0,
            vy: 0,
        },
    }
}

/// The store of a freshly started run: the far layer, then the near
/// layer, then the player, spawned with identifiers from `n0` on.
pub open spec fn fresh_store(s: Seq<Entity>, n0: u64) -> bool {
    &&& s.len() == fresh_store_len()
    &&& forall|i: int| 0 <= i < CLOUD_COUNT as int ==> cloud_spawn_ok(#[trigger] s[i])
    &&& forall|i: int|
        CLOUD_COUNT as int <= i < CLOUD_COUNT as int + BUILDING_COUNT as int
            ==> building_spawn_ok(#[trigger] s[i])
    &&& s[CLOUD_COUNT as int + BUILDING_COUNT as int] == bird_entity(
        bump_n(n0, (CLOUD_COUNT + BUILDING_COUNT) as nat),
    )
}

impl SimulationState {
    /// The state invariant every tick preserves: the score is never
    /// negative, the accumulator never positive, the spawn clock never
    /// ahead of now, the store empty outside the playing mode and
    /// holding exactly one player inside it.
    pub open spec fn wf(self) -> bool {
        &&& self.score.0 >= 0
        &&& self.gravity.0 <= 0
        &&& 0 <= self.last_pipe_spawn_time.0 <= self.now_ms
        &&& !(self.mode is Playing) ==> self.entities@.len() == 0
        &&& self.mode is Playing ==> bird_count(self.entities@) == 1
    }

    /// A fresh simulation: in the menu, with nothing spawned and every
    /// counter at zero.
    pub fn new() -> (s: Self)
        ensures
            s.wf(),
            s.mode is MainMenu,
            s.score.0 == 0,
            s.last_pipe_spawn_time.0 == 0,
            s.gravity.0 == 0,
            s.now_ms == 0,
            s.next_id == 0,
            s.entities@ == Seq::<Entity>::empty(),
    {
        let s = SimulationState {
            mode: GameMode::MainMenu,
            score: Score(0),
            last_pipe_spawn_time: LastPipeSpawnTime(0),
            gravity: Gravity(0),
            now_ms: 0,
            next_id: 0,
            entities: Vec::new(),
        };
        proof {
            assert(s.entities@ =~= Seq::<Entity>::empty());
            assert(bird_count(s.entities@) == 0);
        }
        s
    }
}

/// Tears down the run: every simulation entity is destroyed.
pub fn clear_entities(entities: &mut Vec<Entity>)
    ensures
        final(entities)@ == Seq::<Entity>::empty(),
{
    entities.clear();
    proof {
        assert(entities@ =~= Seq::<Entity>::empty());
    }
}

/// (Re)initializes a run: tears the store down, resets the score, the
/// spawn clock, the run clock and the accumulator, and places the
/// decorative layers and the player.  The mode is left to the caller.
pub fn game_setup(state: &mut SimulationState)
    ensures
        final(state).mode == old(state).mode,
        final(state).score.0 == 0,
        final(state).last_pipe_spawn_time.0 == 0,
        final(state).gravity.0 == 0,
        final(state).now_ms == 0,
        final(state).next_id == bump_n(
            old(state).next_id,
            (CLOUD_COUNT + BUILDING_COUNT + 1) as nat,
        ),
        fresh_store(final(state).entities@, old(state).next_id),
        bird_count(final(state).entities@) == 1,
{
    let ghost n0 = state.next_id;
    clear_entities(&mut state.entities);
    state.score = Score(0);
    state.last_pipe_spawn_time = LastPipeSpawnTime(0);
    state.gravity = Gravity(0);
    state.now_ms = 0;
    spawn_clouds(&mut state.entities, &mut state.next_id);
    let ghost sc = state.entities@;
    spawn_buildings(&mut state.entities, &mut state.next_id);
    let ghost sb = state.entities@;
    let id = state.next_id;
    bump_id(&mut state.next_id);
    state.entities.push(Entity {
        id,
        kind: EntityKind::Bird,
        body: MovableEntity {
            x: BIRD_START_X_MICRO,
            y: BIRD_START_Y_MICRO,
            depth: BIRD_DEPTH_MICRO,
            vx: 0,
            vy: 0,
        },
    });
    proof {
        let s = state.entities@;
        let b = CLOUD_COUNT as int + BUILDING_COUNT as int;
        crate::spawn::lemma_bump_n_compose(n0, CLOUD_COUNT as nat, BUILDING_COUNT as nat);
        crate::spawn::lemma_bump_n_compose(n0, (CLOUD_COUNT + BUILDING_COUNT) as nat, 1);
        assert(bump_n(bump_n(n0, (CLOUD_COUNT + BUILDING_COUNT) as nat), 1) == bump_n(
            bump_spec(bump_n(n0, (CLOUD_COUNT + BUILDING_COUNT) as nat)),
            0,
        ));
        assert(s == sb.push(bird_entity(id)));
        assert forall|i: int| 0 <= i < s.len() && i != b implies !((#[trigger] s[i]).kind
            is Bird) by {
            if i < CLOUD_COUNT as int {
                assert(s[i] == sc[i]);
                assert(cloud_spawn_ok(sc[i]));
            } else {
                assert(s[i] == sb[i]);
                assert(building_spawn_ok(sb[i]));
            }
        }
        lemma_bird_count_single(s, b);
    }
}

/// A negative time step is treated as no elapsed time: the simulation
/// never moves backward.
pub open spec fn clamp_dt(dt_ms: int) -> int {
    if dt_ms < 0 {
        0
    } else {
        dt_ms
    }
}

/// What one playing-mode tick does, for the gap center `g` the spawner
/// drew (irrelevant when no spawn was due): the run clock advances, a
/// due spawn appends an obstacle pair and records its time, the
/// decorative layers scroll, the player integrates gravity and the jump,
/// the obstacles scroll with off-screen removal scoring, and a fatal
/// collision ends the run — empty store, score 0, game-over mode — at
/// the tick boundary.
pub open spec fn playing_rel(
    pre: SimulationState,
    post: SimulationState,
    dt: int,
    jump: bool,
    evs: Seq<(u64, u64)>,
    g: int,
    audio: Option<PlayAudio>,
) -> bool {
    let now1 = sat64(pre.now_ms + dt);
    let last0 = pre.last_pipe_spawn_time.0 as int;
    let spawned = should_spawn(now1, last0);
    let s1 = if spawned {
        pre.entities@ + pipe_pair(g, pre.next_id, bump_spec(pre.next_id))
    } else {
        pre.entities@
    };
    let nid1 = if spawned {
        bump_n(pre.next_id, 2)
    } else {
        pre.next_id
    };
    let last1 = if spawned {
        now1
    } else {
        last0
    };
    let s2 = clouds_spec(s1, dt);
    let s3 = buildings_spec(s2, dt);
    let hb = has_bird(s3);
    let g1 = if hb {
        gravity_after(pre.gravity.0 as int, jump, dt)
    } else {
        pre.gravity.0 as int
    };
    let s4 = birds_spec(s3, pre.gravity.0 as int, jump, dt);
    let s5 = move_pipes_spec(s4, dt);
    let sc1 = sat32(pre.score.0 + passed_count(s4, dt));
    let fatal = any_fatal(s5, evs);
    &&& post.now_ms as int == now1
    &&& post.last_pipe_spawn_time.0 as int == last1
    &&& post.next_id == nid1
    &&& post.gravity.0 as int == g1
    &&& post.mode == mode_step(GameMode::Playing, jump, fatal)
    &&& fatal ==> post.entities@ == Seq::<Entity>::empty() && post.score.0 == 0
    &&& !fatal ==> post.entities@ == s5 && post.score.0 as int == sc1
    &&& audio is Some <==> (jump && hb)
    &&& (match audio {
        Some(a) => a.0@ == "sounds/jump.ogg"@,
        None => true,
    })
}

/// What one tick does, whatever the mode.  In the menu and game-over
/// modes only a jump edge matters, and it starts a fresh run; in the
/// playing mode the systems run as [`playing_rel`] says, for some gap
/// center in the spawner's range.
pub open spec fn tick_rel(
    pre: SimulationState,
    post: SimulationState,
    dt_ms: int,
    jump: bool,
    evs: Seq<(u64, u64)>,
    audio: Option<PlayAudio>,
) -> bool {
    let dt = clamp_dt(dt_ms);
    match pre.mode {
        GameMode::Playing => exists|g: int|
            GAP_CENTER_MIN_MICRO <= g < GAP_CENTER_MAX_MICRO && playing_rel(
                pre,
                post,
                dt,
                jump,
                evs,
                g,
                audio,
            ),
        _ => if jump {
            &&& post.mode is Playing
            &&& post.score.0 == 0
            &&& post.last_pipe_spawn_time.0 == 0
            &&& post.now_ms == 0
            &&& post.gravity.0 == 0
            &&& post.next_id == bump_n(pre.next_id, (CLOUD_COUNT + BUILDING_COUNT + 1) as nat)
            &&& fresh_store(post.entities@, pre.next_id)
            &&& audio is None
        } else {
            &&& post.mode == pre.mode
            &&& post.score == pre.score
            &&& post.last_pipe_spawn_time == pre.last_pipe_spawn_time
            &&& post.gravity == pre.gravity
            &&& post.now_ms == pre.now_ms
            &&& post.next_id == pre.next_id
            &&& post.entities@ == pre.entities@
            &&& audio is None
        },
    }
}

/// A tick never changes the mode except along the three allowed
/// transitions of the mode machine.
pub proof fn lemma_tick_mode_transitions(
    pre: SimulationState,
    post: SimulationState,
    dt_ms: int,
    jump: bool,
    evs: Seq<(u64, u64)>,
    audio: Option<PlayAudio>,
)
    requires
        tick_rel(pre, post, dt_ms, jump, evs, audio),
        post.mode != pre.mode,
    ensures
        crate::modes::allowed_transition(pre.mode, post.mode),
{
    match pre.mode {
        GameMode::Playing => {
            let g = choose|g: int|
                GAP_CENTER_MIN_MICRO <= g < GAP_CENTER_MAX_MICRO && playing_rel(
                    pre,
                    post,
                    clamp_dt(dt_ms),
                    jump,
                    evs,
                    g,
                    audio,
                );
            assert(playing_rel(pre, post, clamp_dt(dt_ms), jump, evs, g, audio));
        },
        _ => {},
    }
}

/// A tick that ends the playing mode leaves the score at exactly zero
/// and the store with nothing in it — in particular with no player.
pub proof fn lemma_game_over_resets_score(
    pre: SimulationState,
    post: SimulationState,
    dt_ms: int,
    jump: bool,
    evs: Seq<(u64, u64)>,
    audio: Option<PlayAudio>,
)
    requires
        tick_rel(pre, post, dt_ms, jump, evs, audio),
        pre.mode is Playing,
        post.mode is GameOver,
    ensures
        post.score.0 == 0,
        post.entities@.len() == 0,
        !has_bird(post.entities@),
{
    let g = choose|g: int|
        GAP_CENTER_MIN_MICRO <= g < GAP_CENTER_MAX_MICRO && playing_rel(
            pre,
            post,
            clamp_dt(dt_ms),
            jump,
            evs,
            g,
            audio,
        );
    assert(playing_rel(pre, post, clamp_dt(dt_ms), jump, evs, g, audio));
}

/// One frame of the simulation.  `dt_ms` is clamped to be non-negative,
/// `jump_edge` is the one-shot key-press signal, and `collisions` are
/// this tick's externally detected overlap events by entity identifier.
/// Returns the audio trigger the host should fire, if any.
#[verifier::rlimit(100)]
pub fn tick(
    state: &mut SimulationState,
    dt_ms: i64,
    jump_edge: bool,
    collisions: &Vec<(u64, u64)>,
) -> (audio: Option<PlayAudio>)
    requires
        old(state).wf(),
    ensures
        final(state).wf(),
        tick_rel(*old(state), *final(state), dt_ms as int, jump_edge, collisions@, audio),
{
    let ghost pre = *state;
    let dt = if dt_ms < 0 { 0 } else { dt_ms };
    match state.mode {
        GameMode::Playing => {
            let now1 = sat_add64(state.now_ms, dt);
            state.now_ms = now1;
            spawn_pipes(&mut state.entities, &mut state.last_pipe_spawn_time, &mut state.next_id, now1);
            let ghost s1 = state.entities@;
            proof {
                if should_spawn(now1 as int, pre.last_pipe_spawn_time.0 as int) {
                    let g = choose|g: int|
                        GAP_CENTER_MIN_MICRO <= g < GAP_CENTER_MAX_MICRO && s1 == pre.entities@
                            + pipe_pair(g, pre.next_id, bump_spec(pre.next_id));
                    let pair = pipe_pair(g, pre.next_id, bump_spec(pre.next_id));
                    assert(pair[0].kind is Pipe && pair[1].kind is Pipe);
                    assert forall|i: int| 0 <= i < pair.len() implies !((#[trigger] pair[i]).kind
                        is Bird) by {}
                    lemma_bird_count_zero(pair);
                    lemma_bird_count_concat(pre.entities@, pair);
                }
                assert(bird_count(s1) == 1);
            }
            animate_clouds(&mut state.entities, dt);
            let ghost s2 = state.entities@;
            animate_buildings(&mut state.entities, dt);
            let ghost s3 = state.entities@;
            proof {
                assert forall|i: int| 0 <= i < s1.len() implies s1[i].kind == s2[i].kind by {
                    assert(s2[i] == crate::physics::cloud_step(s1[i], dt as int));
                }
                lemma_bird_count_same_kinds(s1, s2);
                assert forall|i: int| 0 <= i < s2.len() implies s2[i].kind == s3[i].kind by {
                    assert(s3[i] == crate::physics::building_step(s2[i], dt as int));
                }
                lemma_bird_count_same_kinds(s2, s3);
                lemma_has_bird_iff_count(s3);
            }
            let audio = bird_controller(&mut state.entities, &mut state.gravity, dt, jump_edge);
            let ghost s4 = state.entities@;
            proof {
                assert forall|i: int| 0 <= i < s3.len() implies s3[i].kind == s4[i].kind by {
                    assert(s4[i] == (if s3[i].kind is Bird {
                        crate::physics::bird_step(s3[i], pre.gravity.0 as int, jump_edge, dt as int)
                    } else {
                        s3[i]
                    }));
                }
                lemma_bird_count_same_kinds(s3, s4);
            }
            move_pipes(&mut state.entities, &mut state.score, dt);
            let ghost s5 = state.entities@;
            proof {
                lemma_bird_count_move_pipes(s4, dt as int);
            }
            let fatal = check_collisions(&mut state.entities, &mut state.score, collisions);
            state.mode = mode_step_exec(GameMode::Playing, jump_edge, fatal);
            if fatal {
                clear_entities(&mut state.entities);
            }
            proof {
                let dti = clamp_dt(dt_ms as int);
                assert(dti == dt as int);
                if should_spawn(now1 as int, pre.last_pipe_spawn_time.0 as int) {
                    let g = choose|g: int|
                        GAP_CENTER_MIN_MICRO <= g < GAP_CENTER_MAX_MICRO && s1 == pre.entities@
                            + pipe_pair(g, pre.next_id, bump_spec(pre.next_id));
                    assert(playing_rel(pre, *state, dti, jump_edge, collisions@, g, audio));
                    assert(exists|g2: int|
                        GAP_CENTER_MIN_MICRO <= g2 < GAP_CENTER_MAX_MICRO && playing_rel(
                            pre,
                            *state,
                            dti,
                            jump_edge,
                            collisions@,
                            g2,
                            audio,
                        ));
                } else {
                    assert(playing_rel(
                        pre,
                        *state,
                        dti,
                        jump_edge,
                        collisions@,
                        GAP_CENTER_MIN_MICRO as int,
                        audio,
                    ));
                    assert(exists|g2: int|
                        GAP_CENTER_MIN_MICRO <= g2 < GAP_CENTER_MAX_MICRO && playing_rel(
                            pre,
                            *state,
                            dti,
                            jump_edge,
                            collisions@,
                            g2,
                            audio,
                        ));
                }
            }
            audio
        },
        _ => {
            if jump_edge {
                game_setup(state);
                state.mode = GameMode::Playing;
                None
            } else {
                None
            }
        },
    }
}

} // verus!
