//! Random draws that place pickups and decide loot-crate spawns.
use vstd::prelude::*;
use rand::Rng;
use crate::constants::{
    CRATE_SPAWN_MAX_X, CRATE_SPAWN_MAX_Y, CRATE_SPAWN_MIN_X, CRATE_SPAWN_MIN_Y, FOOD_SPAWN_MAX_X,
    FOOD_SPAWN_MAX_Y, FOOD_SPAWN_MIN_X, FOOD_SPAWN_MIN_Y,
};
use crate::geometry::Vector2D;

verus! {

/// The random values one frame may consume: where food would spawn, the
/// percentile roll of a loot-crate spawn attempt, and where the crate would
/// spawn.
#[derive(Clone, Copy, Debug, PartialEq, Eq, Structural)]
pub struct SpawnRolls {
    pub food_position: Vector2D,
    /// In `0..100`; a spawn attempt succeeds below the spawn chance.
    pub crate_chance: u32,
    pub crate_position: Vector2D,
}

impl SpawnRolls {
    /// The values lie in the ranges they are drawn from.
    pub open spec fn valid(self) -> bool {
        &&& FOOD_SPAWN_MIN_X <= self.food_position.x < FOOD_SPAWN_MAX_X
        &&& FOOD_SPAWN_MIN_Y <= self.food_position.y < FOOD_SPAWN_MAX_Y
        &&& self.crate_chance < 100
        &&& CRATE_SPAWN_MIN_X <= self.crate_position.x < CRATE_SPAWN_MAX_X
        &&& CRATE_SPAWN_MIN_Y <= self.crate_position.y < CRATE_SPAWN_MAX_Y
    }
}

/// Relies on `rand::rng` and `Rng::random_range`: a value drawn from the
/// thread-local generator in the half-open range `lo..hi`, which must not be
/// empty (an empty range panics). The generator itself panics only when the
/// operating system cannot seed it, which no argument can rule out.
#[verifier::external_body]
fn random_in_range(lo: i32, hi: i32) -> (r: i32)
    requires
        lo < hi,
    ensures
        lo <= r < hi,
{
    rand::rng().random_range(lo..hi)
}

/// Draws a fresh set of spawn values, each uniformly from its range.
pub fn draw_spawn_rolls() -> (r: SpawnRolls)
    ensures
        r.valid(),
{
    let fx = random_in_range(FOOD_SPAWN_MIN_X, FOOD_SPAWN_MAX_X);
    let fy = random_in_range(FOOD_SPAWN_MIN_Y, FOOD_SPAWN_MAX_Y);
    let chance = random_in_range(0, 100);
    let cx = random_in_range(CRATE_SPAWN_MIN_X, CRATE_SPAWN_MAX_X);
    let cy = random_in_range(CRATE_SPAWN_MIN_Y, CRATE_SPAWN_MAX_Y);
    SpawnRolls {
        food_position: Vector2D { x: fx, y: fy },
        crate_chance: chance as u32,
        crate_position: Vector2D { x: cx, y: cy },
    }
}

} // verus!
