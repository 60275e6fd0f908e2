use flappy_core::entity::{Entity, EntityKind, MovableEntity};
use flappy_core::modes::GameMode;
use flappy_core::sim::SimulationState;

fn no_events() -> Vec<(u64, u64)> {
    Vec::new()
}

fn bird_of(s: &SimulationState) -> Option<Entity> {
    let mut found = None;
    for e in s.entities.iter() {
        if matches!(e.kind, EntityKind::Bird) {
            found = Some(*e);
        }
    }
    found
}

fn pipes_of(s: &SimulationState) -> Vec<Entity> {
    let mut v = Vec::new();
    for e in s.entities.iter() {
        if matches!(e.kind, EntityKind::Pipe) {
            v.push(*e);
        }
    }
    v
}

#[test]
fn new_state_is_menu_with_empty_store() {
    let s = SimulationState::new();
    assert_eq!(s.mode, GameMode::MainMenu);
    assert_eq!(s.score.0, 0);
    assert_eq!(s.last_pipe_spawn_time.0, 0);
    assert_eq!(s.gravity.0, 0);
    assert_eq!(s.now_ms, 0);
    assert_eq!(s.entities.len(), 0);
}

#[test]
fn menu_jump_starts_playing_run() {
    let mut s = SimulationState::new();
    let audio = flappy_core::sim::tick(&mut s, 16, true, &no_events());
    assert_eq!(s.mode, GameMode::Playing);
    assert_eq!(s.score.0, 0);
    assert_eq!(s.last_pipe_spawn_time.0, 0);
    assert_eq!(s.now_ms, 0);
    assert!(audio.is_none());
    assert_eq!(s.entities.len(), 121);
    let b = bird_of(&s).expect("a fresh run holds the player");
    assert_eq!(b.body.x, -100_000_000);
    assert_eq!(b.body.y, 0);
    assert_eq!(b.body.vy, 0);
    assert_eq!(b.id, 120);
}

#[test]
fn menu_without_jump_stays_menu() {
    let mut s = SimulationState::new();
    let audio = flappy_core::sim::tick(&mut s, 16, false, &no_events());
    assert_eq!(s.mode, GameMode::MainMenu);
    assert_eq!(s.entities.len(), 0);
    assert!(audio.is_none());
}

#[test]
fn no_spawn_at_or_before_interval() {
    let mut s = SimulationState::new();
    flappy_core::sim::tick(&mut s, 0, true, &no_events());
    // Exactly the interval is not enough: the comparison is strict.
    flappy_core::sim::tick(&mut s, 5000, false, &no_events());
    assert_eq!(s.now_ms, 5000);
    assert_eq!(pipes_of(&s).len(), 0);
    assert_eq!(s.last_pipe_spawn_time.0, 0);
}

#[test]
fn one_pair_spawns_after_interval_elapses() {
    let mut s = SimulationState::new();
    flappy_core::sim::tick(&mut s, 0, true, &no_events());
    flappy_core::sim::tick(&mut s, 5001, false, &no_events());
    assert_eq!(s.now_ms, 5001);
    assert_eq!(s.last_pipe_spawn_time.0, 5001);
    let pipes = pipes_of(&s);
    assert_eq!(pipes.len(), 2);
    // Spawned at x = 800 units, then scrolled left at 100 units/s for
    // 5.001 s within the same tick.
    assert_eq!(pipes[0].body.x, 299_900_000);
    assert_eq!(pipes[1].body.x, 299_900_000);
    assert_eq!(pipes[0].body.vx, -100_000);
    assert_eq!(pipes[1].body.vx, -100_000);
    // Upper member sits gap + height above the lower one.
    assert_eq!(pipes[0].body.y - pipes[1].body.y, 845_000_000);
    // The gap center the pair was drawn around lies in the spawner's range.
    let gap_center = pipes[0].body.y - 422_500_000;
    assert!((-200_000_000..200_000_000).contains(&gap_center));
    assert_eq!(gap_center, pipes[1].body.y + 422_500_000);
    // A second tick well inside the interval spawns nothing more.
    flappy_core::sim::tick(&mut s, 1000, false, &no_events());
    assert_eq!(pipes_of(&s).len(), 2);
}

#[test]
fn gravity_integrates_exactly() {
    let mut s = SimulationState::new();
    flappy_core::sim::tick(&mut s, 0, true, &no_events());
    let audio = flappy_core::sim::tick(&mut s, 1000, false, &no_events());
    assert!(audio.is_none());
    assert_eq!(s.gravity.0, -5_000);
    let b = bird_of(&s).unwrap();
    assert_eq!(b.body.vy, -5_000);
    assert_eq!(b.body.y, -5_000_000);
}

#[test]
fn jump_overrides_any_prior_fall() {
    let mut s = SimulationState::new();
    flappy_core::sim::tick(&mut s, 0, true, &no_events());
    // Fall for a while first.
    flappy_core::sim::tick(&mut s, 1000, false, &no_events());
    flappy_core::sim::tick(&mut s, 1000, false, &no_events());
    assert!(bird_of(&s).unwrap().body.vy < -5_000);
    let y_before = bird_of(&s).unwrap().body.y;
    let audio = flappy_core::sim::tick(&mut s, 1000, true, &no_events());
    // The accumulator restarts from zero and the velocity from the jump
    // impulse, whatever came before.
    assert_eq!(s.gravity.0, -5_000);
    let b = bird_of(&s).unwrap();
    assert_eq!(b.body.vy, 145_000);
    assert_eq!(b.body.y, y_before + 145_000_000);
    let a = audio.expect("a jump fires the jump sound");
    assert_eq!(a.0, "sounds/jump.ogg");
}

#[test]
fn velocity_never_rises_without_jump() {
    let mut s = SimulationState::new();
    flappy_core::sim::tick(&mut s, 0, true, &no_events());
    let mut last_vy = bird_of(&s).unwrap().body.vy;
    for _ in 0..50 {
        flappy_core::sim::tick(&mut s, 16, false, &no_events());
        let vy = bird_of(&s).unwrap().body.vy;
        assert!(vy <= last_vy);
        last_vy = vy;
    }
}

#[test]
fn negative_dt_moves_nothing() {
    let mut s = SimulationState::new();
    flappy_core::sim::tick(&mut s, 0, true, &no_events());
    let b0 = bird_of(&s).unwrap();
    flappy_core::sim::tick(&mut s, -500, false, &no_events());
    let b1 = bird_of(&s).unwrap();
    assert_eq!(s.now_ms, 0);
    assert_eq!(b0.body.y, b1.body.y);
    assert_eq!(s.gravity.0, 0);
}

#[test]
fn offscreen_pipe_is_removed_and_scores() {
    let mut s = SimulationState::new();
    s.mode = GameMode::Playing;
    s.entities.push(Entity {
        id: 0,
        kind: EntityKind::Bird,
        body: MovableEntity { x: -100_000_000, y: 0, depth: 2_000_000, vx: 0, vy: 0 },
    });
    // One obstacle just past the -800-unit threshold.
    s.entities.push(Entity {
        id: 1,
        kind: EntityKind::Pipe,
        body: MovableEntity { x: -801_000_000, y: 0, depth: 1_000_000, vx: -100_000, vy: 0 },
    });
    s.next_id = 2;
    flappy_core::sim::tick(&mut s, 0, false, &no_events());
    assert_eq!(s.score.0, 1);
    assert_eq!(pipes_of(&s).len(), 0);
    assert!(bird_of(&s).is_some());
    assert_eq!(s.mode, GameMode::Playing);
}

#[test]
fn pipe_above_threshold_stays_and_scores_nothing() {
    let mut s = SimulationState::new();
    s.mode = GameMode::Playing;
    s.entities.push(Entity {
        id: 0,
        kind: EntityKind::Bird,
        body: MovableEntity { x: -100_000_000, y: 0, depth: 2_000_000, vx: 0, vy: 0 },
    });
    s.entities.push(Entity {
        id: 1,
        kind: EntityKind::Pipe,
        body: MovableEntity { x: -799_000_000, y: 0, depth: 1_000_000, vx: -100_000, vy: 0 },
    });
    s.next_id = 2;
    flappy_core::sim::tick(&mut s, 0, false, &no_events());
    assert_eq!(s.score.0, 0);
    assert_eq!(pipes_of(&s).len(), 1);
}

#[test]
fn fatal_collision_ends_the_run() {
    let mut s = SimulationState::new();
    flappy_core::sim::tick(&mut s, 0, true, &no_events());
    flappy_core::sim::tick(&mut s, 5001, false, &no_events());
    // Score something first, so the reset is visible.
    let bird_id = bird_of(&s).unwrap().id;
    let pipe_id = pipes_of(&s)[0].id;
    let events = vec![(bird_id, pipe_id)];
    flappy_core::sim::tick(&mut s, 16, false, &events);
    assert_eq!(s.mode, GameMode::GameOver);
    assert_eq!(s.score.0, 0);
    assert!(bird_of(&s).is_none());
    // Teardown on leaving the playing mode empties the store.
    assert_eq!(s.entities.len(), 0);
}

#[test]
fn collision_of_unknown_ids_is_harmless() {
    let mut s = SimulationState::new();
    flappy_core::sim::tick(&mut s, 0, true, &no_events());
    let events = vec![(7777, 8888), (8888, 7777)];
    flappy_core::sim::tick(&mut s, 16, false, &events);
    assert_eq!(s.mode, GameMode::Playing);
    assert!(bird_of(&s).is_some());
}

#[test]
fn two_decoratives_overlapping_is_no_collision() {
    let mut s = SimulationState::new();
    flappy_core::sim::tick(&mut s, 0, true, &no_events());
    // A pair of decorative entities reported as overlapping must not end
    // the run: only player-obstacle pairs are fatal.
    let c0 = s.entities[0].id;
    let c1 = s.entities[1].id;
    let events = vec![(c0, c1)];
    flappy_core::sim::tick(&mut s, 16, false, &events);
    assert_eq!(s.mode, GameMode::Playing);
}

#[test]
fn game_over_jump_restarts_playing() {
    let mut s = SimulationState::new();
    flappy_core::sim::tick(&mut s, 0, true, &no_events());
    flappy_core::sim::tick(&mut s, 5001, false, &no_events());
    let bird_id = bird_of(&s).unwrap().id;
    let pipe_id = pipes_of(&s)[0].id;
    flappy_core::sim::tick(&mut s, 16, false, &vec![(bird_id, pipe_id)]);
    assert_eq!(s.mode, GameMode::GameOver);
    // No jump: stays in game over.
    flappy_core::sim::tick(&mut s, 16, false, &no_events());
    assert_eq!(s.mode, GameMode::GameOver);
    // Jump: straight back into a fresh run, not the menu.
    flappy_core::sim::tick(&mut s, 16, true, &no_events());
    assert_eq!(s.mode, GameMode::Playing);
    assert_eq!(s.score.0, 0);
    assert_eq!(s.last_pipe_spawn_time.0, 0);
    assert_eq!(s.now_ms, 0);
    assert_eq!(s.entities.len(), 121);
    assert!(bird_of(&s).is_some());
}

#[test]
fn far_layer_wraps_at_its_bound() {
    let mut v = vec![Entity {
        id: 0,
        kind: EntityKind::Cloud,
        body: MovableEntity { x: -670_000_001, y: 370_000_000, depth: 1_200_000, vx: 0, vy: 0 },
    }];
    flappy_core::physics::animate_clouds(&mut v, 0);
    assert_eq!(v[0].body.x, 670_000_000);
    // Inside the bound nothing wraps; the layer scrolls at 100 units/s.
    v[0].body.x = 0;
    flappy_core::physics::animate_clouds(&mut v, 1000);
    assert_eq!(v[0].body.x, -100_000_000);
}

#[test]
fn near_layer_wraps_at_its_bound() {
    let mut v = vec![Entity {
        id: 0,
        kind: EntityKind::Building,
        body: MovableEntity { x: -800_000_001, y: -375_000_000, depth: 300_000, vx: 0, vy: 0 },
    }];
    flappy_core::physics::animate_buildings(&mut v, 0);
    assert_eq!(v[0].body.x, 800_000_000);
    // Inside the bound nothing wraps; the layer scrolls at 50 units/s.
    v[0].body.x = 0;
    flappy_core::physics::animate_buildings(&mut v, 1000);
    assert_eq!(v[0].body.x, -50_000_000);
}

#[test]
fn layers_ignore_each_other() {
    let mut v = vec![
        Entity {
            id: 0,
            kind: EntityKind::Cloud,
            body: MovableEntity { x: 0, y: 0, depth: 1_000_000, vx: 0, vy: 0 },
        },
        Entity {
            id: 1,
            kind: EntityKind::Building,
            body: MovableEntity { x: 0, y: 0, depth: 0, vx: 0, vy: 0 },
        },
    ];
    flappy_core::physics::animate_clouds(&mut v, 1000);
    assert_eq!(v[1].body.x, 0);
    flappy_core::physics::animate_buildings(&mut v, 1000);
    assert_eq!(v[0].body.x, -100_000_000);
    assert_eq!(v[1].body.x, -50_000_000);
}

#[test]
fn mode_text_matches_mode() {
    assert_eq!(
        flappy_core::modes::mode_ui_text(&GameMode::MainMenu),
        Some("Press SPACE to start"),
    );
    assert_eq!(flappy_core::modes::mode_ui_text(&GameMode::Playing), None);
    assert_eq!(
        flappy_core::modes::mode_ui_text(&GameMode::GameOver),
        Some("Game Over\nPress SPACE to restart"),
    );
}

#[test]
fn fresh_run_places_layers_in_their_bands() {
    let mut s = SimulationState::new();
    flappy_core::sim::tick(&mut s, 0, true, &no_events());
    let mut clouds = 0;
    let mut buildings = 0;
    for e in s.entities.iter() {
        match e.kind {
            EntityKind::Cloud => {
                clouds += 1;
                assert!((-670_000_000..670_000_000).contains(&e.body.x));
                assert!((350_000_000..400_000_000).contains(&e.body.y));
                assert!((1_000_000..1_500_000).contains(&e.body.depth));
            }
            EntityKind::Building => {
                buildings += 1;
                assert!((-640_000_000..640_000_000).contains(&e.body.x));
                assert_eq!(e.body.y, -375_000_000);
                assert!((0..500_000).contains(&e.body.depth));
            }
            _ => {}
        }
    }
    assert_eq!(clouds, 100);
    assert_eq!(buildings, 20);
}
