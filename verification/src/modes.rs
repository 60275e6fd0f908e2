//! The game-mode state machine and the mode-dependent UI text.

use vstd::prelude::*;

verus! {

/// The three top-level modes.  Exactly one is active at a time; mode
/// changes are the only way entities are mass-destroyed.
#[derive(Clone, Copy, PartialEq, Eq, Structural, Debug)]
pub enum GameMode {
    /// Initial mode; waits for a jump edge to start a run.
    MainMenu,
    /// The simulation proper runs.
    Playing,
    /// Entered on a fatal collision; a jump edge starts a fresh run.
    GameOver,
}

/// The mode after one tick, given the two tick outcomes that can force a
/// transition: a jump edge and a fatal player-obstacle collision.
pub open spec fn mode_step(m: GameMode, jump_edge: bool, fatal: bool) -> GameMode {
    match m {
        GameMode::MainMenu => if jump_edge { GameMode::Playing } else { GameMode::MainMenu },
        GameMode::Playing => if fatal { GameMode::GameOver } else { GameMode::Playing },
        GameMode::GameOver => if jump_edge { GameMode::Playing } else { GameMode::GameOver },
    }
}

/// Whether a direct change from `from` to `to` is an allowed transition.
pub open spec fn allowed_transition(from: GameMode, to: GameMode) -> bool {
    ||| (from is MainMenu && to is Playing)
    ||| (from is Playing && to is GameOver)
    ||| (from is GameOver && to is Playing)
}

/// The mode machine never takes a step outside its three transitions:
/// menu to playing and game-over to playing on a jump edge, playing to
/// game-over on a collision.
pub proof fn lemma_mode_step_allowed(m: GameMode, jump_edge: bool, fatal: bool)
    ensures
        mode_step(m, jump_edge, fatal) != m ==> allowed_transition(m, mode_step(m, jump_edge, fatal)),
{
}

/// The exec twin of [`mode_step`].
pub fn mode_step_exec(m: GameMode, jump_edge: bool, fatal: bool) -> (r: GameMode)
    ensures
        r == mode_step(m, jump_edge, fatal),
{
    match m {
        GameMode::MainMenu => if jump_edge { GameMode::Playing } else { GameMode::MainMenu },
        GameMode::Playing => if fatal { GameMode::GameOver } else { GameMode::Playing },
        GameMode::GameOver => if jump_edge { GameMode::Playing } else { GameMode::GameOver },
    }
}

/// The overlay text a UI collaborator shows for a mode, if any.
pub fn mode_ui_text(m: &GameMode) -> (r: Option<&'static str>)
    ensures
        match m {
            GameMode::MainMenu => r matches Some(t) && t@ == "Press SPACE to start"@,
            GameMode::Playing => r is None,
            GameMode::GameOver => r matches Some(t) && t@ == "Game Over\nPress SPACE to restart"@,
        },
{
    match m {
        GameMode::MainMenu => Some("Press SPACE to start"),
        GameMode::Playing => None,
        GameMode::GameOver => Some("Game Over\nPress SPACE to restart"),
    }
}

} // verus!
