//! Food and loot crates: positioned pickups with a two-frame sprite.
use vstd::prelude::*;
use crate::geometry::Vector2D;

verus! {

/// A spawnable, positioned pickup. Food and loot crates share this shape and
/// differ only in what picking them up does.
#[derive(Clone, Copy, Debug, PartialEq, Eq, Structural)]
pub struct Collectible {
    pub position: Vector2D,
    pub is_active: bool,
    pub sprite_frame_index: usize,
    /// Time since the sprite frame last changed, in milliseconds.
    pub sprite_timer: u64,
}

/// Food: picking it up scores and grows the snake.
pub type Food = Collectible;

/// A loot crate: picking it up opens the powerup selection.
pub type LootCrate = Collectible;

/// An inactive pickup resting at `(x, y)`.
pub open spec fn inactive_at(x: i32, y: i32) -> Collectible {
    Collectible {
        position: Vector2D { x, y },
        is_active: false,
        sprite_frame_index: 0,
        sprite_timer: 0,
    }
}

/// An active pickup freshly placed at `position`.
pub open spec fn spawned_at(position: Vector2D) -> Collectible {
    Collectible { position, is_active: true, sprite_frame_index: 0, sprite_timer: 0 }
}

impl Collectible {
    /// An inactive pickup resting at `(x, y)`.
    pub fn inactive(x: i32, y: i32) -> (r: Collectible)
        ensures
            r == inactive_at(x, y),
    {
        Collectible {
            position: Vector2D { x, y },
            is_active: false,
            sprite_frame_index: 0,
            sprite_timer: 0,
        }
    }

    /// Places the pickup at `position` and activates it, restarting its sprite.
    pub fn spawn(&mut self, position: Vector2D)
        ensures
            *final(self) == spawned_at(position),
    {
        *self = Collectible { position, is_active: true, sprite_frame_index: 0, sprite_timer: 0 };
    }
}

} // verus!
