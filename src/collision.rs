//! Collisions of the head with the body, with food and with loot crates.
use vstd::prelude::*;
use crate::collectible::{Food, LootCrate};
use crate::constants::{
    FOOD_NEAR_DISTANCE_SQUARED, PICKUP_DISTANCE_SQUARED, SNAKE_BODY_HEIGHT, SNAKE_BODY_WIDTH,
};
use crate::geometry::{distance_squared, distance_squared_between, Direction, Vector2D};
use crate::perks::PowerupSlot;
use crate::snake::{Snake, SnakeView};

verus! {

/// Some segment other than the head occupies the head's position.
pub open spec fn head_hits_body(body: Seq<Vector2D>) -> bool {
    exists|k: int| 1 <= k < body.len() && #[trigger] body[k] == body[0]
}

/// `v` held within the range of `i32`.
pub open spec fn clamp_i32(v: int) -> i32 {
    if v < i32::MIN {
        i32::MIN
    } else if v > i32::MAX {
        i32::MAX
    } else {
        v as i32
    }
}

/// The segment added on growth: one cell behind the tail, opposite to the
/// heading.
pub open spec fn grown_segment(tail: Vector2D, d: Direction) -> Vector2D {
    match d {
        Direction::Left => Vector2D { x: clamp_i32(tail.x + SNAKE_BODY_WIDTH), y: tail.y },
        Direction::Right => Vector2D { x: clamp_i32(tail.x - SNAKE_BODY_WIDTH), y: tail.y },
        Direction::Up => Vector2D { x: tail.x, y: clamp_i32(tail.y + SNAKE_BODY_HEIGHT) },
        Direction::Down => Vector2D { x: tail.x, y: clamp_i32(tail.y - SNAKE_BODY_HEIGHT) },
    }
}

/// `a + b`, held at `u32::MAX` instead of overflowing.
pub open spec fn saturating_sum_u32(a: u32, b: u32) -> u32 {
    if a + b > u32::MAX {
        u32::MAX
    } else {
        (a + b) as u32
    }
}

/// Active food lies within the near threshold of the head.
pub open spec fn food_is_near(s: SnakeView, food: Food) -> bool {
    food.is_active && distance_squared(s.body[0], food.position) < FOOD_NEAR_DISTANCE_SQUARED
}

/// Active food lies within the pickup threshold of the head.
pub open spec fn food_is_eaten(s: SnakeView, food: Food) -> bool {
    food.is_active && distance_squared(s.body[0], food.position) < PICKUP_DISTANCE_SQUARED
}

/// Snake, food and score after the food check. Inactive food changes
/// nothing. Otherwise `food_near` records whether the food is near, and food
/// within the pickup threshold is deactivated, scores `food_score_value` and
/// grows the snake by one trailing segment.
pub open spec fn after_food_check(s: SnakeView, food: Food, score: u32, food_score_value: u32) -> (
    SnakeView,
    Food,
    u32,
) {
    if !food.is_active {
        (s, food, score)
    } else if !food_is_near(s, food) {
        (SnakeView { food_near: false, ..s }, food, score)
    } else if !food_is_eaten(s, food) {
        (SnakeView { food_near: true, ..s }, food, score)
    } else {
        (
            SnakeView {
                food_near: true,
                body: s.body.push(grown_segment(s.body.last(), s.direction)),
                ..s
            },
            Food { is_active: false, ..food },
            saturating_sum_u32(score, food_score_value),
        )
    }
}

/// The self-collision test of the frame pipeline.
pub struct CheckSelfCollision;

impl CheckSelfCollision {
    /// Two segments overlap exactly when they stand on the same cell; movement
    /// is grid-quantised, so no tolerance is needed.
    pub fn positions_overlap(pos1: &Vector2D, pos2: &Vector2D) -> (r: bool)
        ensures
            r == (*pos1 == *pos2),
    {
        pos1.x == pos2.x && pos1.y == pos2.y
    }
}

/// Whether the head overlaps any other segment; the scan stops at the first hit.
pub fn check_self_collision(player: &Snake) -> (r: bool)
    requires
        player@.wf(),
    ensures
        r == head_hits_body(player.body@),
{
    let head = player.body[0];
    let mut i: usize = 1;
    while i < player.body.len()
        invariant
            1 <= i <= player.body@.len(),
            head == player.body@[0],
            forall|k: int| 1 <= k < i ==> player.body@[k] != head,
        decreases player.body@.len() - i,
    {
        if CheckSelfCollision::positions_overlap(&head, &player.body[i]) {
            return true;
        }
        i = i + 1;
    }
    false
}

/// One coordinate moved by `offset`, held within `i32`.
fn offset_clamped(v: i32, offset: i32) -> (r: i32)
    ensures
        r == clamp_i32(v + offset),
{
    let w: i64 = v as i64 + offset as i64;
    if w < i32::MIN as i64 {
        i32::MIN
    } else if w > i32::MAX as i64 {
        i32::MAX
    } else {
        w as i32
    }
}

/// Tests the head against the food: sets `food_near`, and on a pickup
/// deactivates the food, adds `food_score_value` to the score (held at
/// `u32::MAX`) and appends a segment behind the tail. Returns whether the
/// food was eaten.
pub fn check_food_collision(
    player: &mut Snake,
    food: &mut Food,
    score: &mut u32,
    food_score_value: u32,
) -> (r: bool)
    requires
        old(player)@.wf(),
    ensures
        (final(player)@, *final(food), *final(score)) == after_food_check(
            old(player)@,
            *old(food),
            *old(score),
            food_score_value,
        ),
        r == food_is_eaten(old(player)@, *old(food)),
{
    if !food.is_active {
        return false;
    }
    let head = player.body[0];
    let d = distance_squared_between(&head, &food.position);
    if d < FOOD_NEAR_DISTANCE_SQUARED {
        player.food_near = true;
        if d < PICKUP_DISTANCE_SQUARED {
            food.is_active = false;
            *score = score.saturating_add(food_score_value);
            let tail = player.body[player.body.len() - 1];
            let segment = match player.direction {
                Direction::Left => Vector2D { x: offset_clamped(tail.x, SNAKE_BODY_WIDTH), y: tail.y },
                Direction::Right => Vector2D { x: offset_clamped(tail.x, -SNAKE_BODY_WIDTH), y: tail.y },
                Direction::Up => Vector2D { x: tail.x, y: offset_clamped(tail.y, SNAKE_BODY_HEIGHT) },
                Direction::Down => Vector2D { x: tail.x, y: offset_clamped(tail.y, -SNAKE_BODY_HEIGHT) },
            };
            player.body.push(segment);
            return true;
        }
    } else {
        player.food_near = false;
    }
    false
}

/// An active loot crate lies within the pickup threshold of the head.
pub open spec fn crate_is_collected(s: SnakeView, loot_crate: LootCrate) -> bool {
    loot_crate.is_active && distance_squared(s.body[0], loot_crate.position)
        < PICKUP_DISTANCE_SQUARED
}

/// Tests the head against the loot crate. On a pickup the crate is
/// deactivated, eligibility is set and the selection opens with the first
/// option highlighted; no score is awarded. Otherwise nothing changes.
/// Returns whether the crate was collected.
pub fn check_loot_crate_collision(
    player: &Snake,
    loot_crate: &mut LootCrate,
    powerup_eligibility: &mut bool,
    in_powerup_selection: &mut bool,
    highlighted_powerup: &mut Option<PowerupSlot>,
) -> (r: bool)
    requires
        player@.wf(),
    ensures
        r == crate_is_collected(player@, *old(loot_crate)),
        r ==> *final(loot_crate) == (LootCrate { is_active: false, ..*old(loot_crate) })
            && *final(powerup_eligibility) && *final(in_powerup_selection)
            && *final(highlighted_powerup) == Some(PowerupSlot::First),
        !r ==> *final(loot_crate) == *old(loot_crate) && *final(powerup_eligibility)
            == *old(powerup_eligibility) && *final(in_powerup_selection)
            == *old(in_powerup_selection) && *final(highlighted_powerup)
            == *old(highlighted_powerup),
{
    if !loot_crate.is_active {
        return false;
    }
    let d = distance_squared_between(&player.body[0], &loot_crate.position);
    if d < PICKUP_DISTANCE_SQUARED {
        loot_crate.is_active = false;
        *powerup_eligibility = true;
        *in_powerup_selection = true;
        *highlighted_powerup = Some(PowerupSlot::First);
        true
    } else {
        false
    }
}

} // verus!
