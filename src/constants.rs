//! Built-in dimensions, thresholds and cadences of the game.
use vstd::prelude::*;

verus! {

/// Width of the display the art buffer is scaled up to.
pub const SCALED_WINDOW_WIDTH: usize = 960;
/// Height of the display the art buffer is scaled up to.
pub const SCALED_WINDOW_HEIGHT: usize = 540;
/// Width of the art buffer the game is simulated against.
pub const ART_WIDTH: usize = 256;
/// Height of the art buffer the game is simulated against.
pub const ART_HEIGHT: usize = 224;

/// Horizontal size of one body segment, and of one horizontal grid step.
pub const SNAKE_BODY_WIDTH: i32 = 6;
/// Vertical size of one body segment, and of one vertical grid step.
pub const SNAKE_BODY_HEIGHT: i32 = 8;

/// Play-field bounds; a head that leaves them wraps to the opposite edge.
pub const LOWER_BOUND_X: i32 = 2;
pub const UPPER_BOUND_X: i32 = 256;
pub const LOWER_BOUND_Y: i32 = 2;
pub const UPPER_BOUND_Y: i32 = 224;

/// Squared distance under which food counts as near (24 px).
pub const FOOD_NEAR_DISTANCE_SQUARED: i128 = 576;
/// Squared distance under which food or a loot crate is picked up (12 px).
pub const PICKUP_DISTANCE_SQUARED: i128 = 144;

/// Start of a run: head position and default timings.
pub const START_X: i32 = 40;
pub const START_Y: i32 = 150;
pub const DEFAULT_MOVE_INTERVAL_MS: u64 = 100;
pub const DEFAULT_FOOD_SCORE_VALUE: u32 = 100;
pub const FOOD_START_X: i32 = 100;
pub const FOOD_START_Y: i32 = 100;

/// Delta assumed for the first frame of a run, when no earlier frame exists.
pub const FIRST_FRAME_DELTA_MS: u64 = 16;

/// Animation cadences, in milliseconds.
pub const STARS_FRAME_MS: u64 = 250;
pub const GLOBE_FRAME_MS: u64 = 1000;
pub const BODY_FRAME_MS: u64 = 1500;
pub const FOOD_FRAME_MS: u64 = 500;
pub const LOOT_CRATE_FRAME_MS: u64 = 750;
/// Head animation: a full cycle, and the length of each phase within it.
/// The head shows the idle frame for the first phase of each cycle, then
/// alternates between its two blink frames once per phase.
pub const HEAD_CYCLE_MS: u64 = 5000;
pub const HEAD_PHASE_MS: u64 = 500;
/// Head frame shown while food is near.
pub const HEAD_ALERT_FRAME: usize = 3;
/// Head frame shown at the start of each cycle.
pub const HEAD_IDLE_FRAME: usize = 2;

/// Frame counts of the cycling background layers.
pub const BACKGROUND_FRAMES: usize = 6;

/// Game-over darkening: one step per interval, eight steps, then restart.
pub const GAME_OVER_FRAME_MS: u64 = 500;
pub const GAME_OVER_STEPS: usize = 8;
/// Darkness of the game-over screen, in percent.
pub const GAME_OVER_DARKNESS_START: u32 = 50;
pub const GAME_OVER_DARKNESS_STEP: u32 = 10;
pub const GAME_OVER_DARKNESS_MAX: u32 = 80;

/// Loot crates: how often a spawn is attempted, and its chance in percent.
pub const LOOT_CRATE_CHECK_INTERVAL_MS: u64 = 10000;
pub const LOOT_CRATE_SPAWN_CHANCE: u32 = 25;

/// Spawn areas of food and loot crates (half-open ranges).
pub const FOOD_SPAWN_MIN_X: i32 = 12;
pub const FOOD_SPAWN_MAX_X: i32 = 246;
pub const FOOD_SPAWN_MIN_Y: i32 = 12;
pub const FOOD_SPAWN_MAX_Y: i32 = 214;
pub const CRATE_SPAWN_MIN_X: i32 = 18;
pub const CRATE_SPAWN_MAX_X: i32 = 240;
pub const CRATE_SPAWN_MIN_Y: i32 = 18;
pub const CRATE_SPAWN_MAX_Y: i32 = 208;

} // verus!
