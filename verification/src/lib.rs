//! Core simulation of a side-scrolling obstacle-avoidance game.
//!
//! A player entity falls under gravity and must pass through gaps in
//! obstacle pairs that scroll leftward; passing obstacles scores points,
//! touching one ends the run.  The whole simulation works on fixed-point
//! integers: positions are micro-units, velocities are milli-units per
//! second, and time is counted in milliseconds, so that one tick of the
//! simulation is exact integer arithmetic.
//!
//! Rendering, audio playback and input capture are external collaborators:
//! they deliver `dt`, the jump edge and collision events into [`sim::tick`]
//! and read the entity store back out.

pub mod units;
pub mod entity;
pub mod modes;
pub mod physics;
pub mod spawn;
pub mod lifecycle;
pub mod sim;
