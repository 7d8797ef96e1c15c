//! Fixed parameters of the battle.
//!
//! Lengths are in milli-pixels (1/1000 of a pixel) and durations in
//! milliseconds, so that the simulation never needs fractional values.

use vstd::prelude::*;

verus! {

/// Number of lanes (horizontal tracks) on the board.
pub const ROWS: usize = 5;

/// Number of tile columns on the board.
pub const COLS: usize = 9;

/// Side length of one grid tile, in milli-pixels.
pub const TILE_SIZE: i64 = 100_000;

/// Width of one grid tile, in milli-pixels.
pub const TILE_WIDTH: i64 = TILE_SIZE;

/// Height of one grid tile, in milli-pixels.
pub const TILE_HEIGHT: i64 = TILE_SIZE;

/// Width of the playfield, in milli-pixels. A zombie spawns at this x.
pub const SCREEN_WIDTH: i64 = 900_000;

/// Height of the playfield, in milli-pixels.
pub const SCREEN_HEIGHT: i64 = 600_000;

/// Height of the bar at the top of the screen; the grid starts below it.
pub const UI_BAR_HEIGHT: i64 = 80_000;

/// Side length of one slot in the bar, in milli-pixels.
pub const SLOT_SIZE: i64 = 60_000;

/// Gap between bar slots, in milli-pixels.
pub const SLOT_PADDING: i64 = 10_000;

/// Resource value of one sun pickup.
pub const SUN_VALUE: i32 = 25;

/// Shortest wait between naturally falling suns, in milliseconds.
pub const NATURAL_SUN_MIN_INTERVAL: i64 = 7_000;

/// Longest wait between naturally falling suns, in milliseconds.
pub const NATURAL_SUN_MAX_INTERVAL: i64 = 10_000;

/// Shortest wait between zombie spawn waves, in milliseconds.
pub const NATURAL_ZOMBIE_MIN_SPAWN_INTERVAL: i64 = 5_000;

/// Longest wait between zombie spawn waves, in milliseconds.
pub const NATURAL_ZOMBIE_MAX_SPAWN_INTERVAL: i64 = 10_000;

/// Most zombies one spawn wave may hold.
pub const MAX_ZOMBIE_SPAWN: u32 = 4;

/// Most plant types a player may take into battle.
pub const MAX_SELECTED_PLANTS: usize = 6;

/// Western floor for x-coordinates, in milli-pixels. The battle is already
/// lost once a zombie's x drops below zero; movement clamps here, a full
/// screen further out, so that positions stay bounded.
pub const X_FLOOR: i64 = -1_000_000;

/// Upper bound on the elapsed time handed to one update step, in
/// milliseconds (about eleven days). Keeps every timer product inside i64.
pub const MAX_FRAME_MS: i64 = 1_000_000_000;

/// Bound on the magnitude of pointer coordinates handed to the simulation,
/// in milli-pixels. Keeps squared distances inside i64.
pub const MOUSE_LIMIT: i64 = 1_000_000_000;

} // verus!
