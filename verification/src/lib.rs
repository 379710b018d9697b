//! Core of a terminal space-invaders game: a double-buffered frame grid,
//! a diffing renderer, the player entity with its projectile, the invader
//! swarm, collision resolution, and the session state machine that drives
//! one simulation tick at a time.
//!
//! All timing is in whole milliseconds and all sub-cell positions are in
//! thousandths of a cell, so every motion law is exact integer arithmetic.

pub mod frame;
pub mod render;
pub mod player;
pub mod swarm;
pub mod collision;
pub mod session;
pub mod score;

use vstd::prelude::*;

verus! {

/// Width of the play field in columns.
pub const NUM_COLS: usize = 40;

/// Height of the play field in rows.
pub const NUM_ROWS: usize = 20;

} // verus!
