//! Grid stepping of the snake and wrapping at the play-field bounds.
use vstd::prelude::*;
use crate::constants::{
    LOWER_BOUND_X, LOWER_BOUND_Y, SNAKE_BODY_HEIGHT, SNAKE_BODY_WIDTH, UPPER_BOUND_X,
    UPPER_BOUND_Y,
};
use crate::geometry::{Direction, Vector2D};
use crate::snake::{Snake, SnakeView};

verus! {

/// `a + b`, held at `u64::MAX` instead of overflowing.
pub open spec fn saturating_sum(a: u64, b: u64) -> u64 {
    if a + b > u64::MAX {
        u64::MAX
    } else {
        (a + b) as u64
    }
}

/// Horizontal wrap: past the left edge the head reappears one segment in
/// from the right edge, past the right edge one segment in from the left.
pub open spec fn wrap_x(x: int) -> i32 {
    if x < LOWER_BOUND_X {
        (UPPER_BOUND_X - SNAKE_BODY_WIDTH) as i32
    } else if x > UPPER_BOUND_X {
        (LOWER_BOUND_X + SNAKE_BODY_WIDTH) as i32
    } else {
        x as i32
    }
}

/// Vertical wrap, as `wrap_x` with the segment height.
pub open spec fn wrap_y(y: int) -> i32 {
    if y < LOWER_BOUND_Y {
        (UPPER_BOUND_Y - SNAKE_BODY_HEIGHT) as i32
    } else if y > UPPER_BOUND_Y {
        (LOWER_BOUND_Y + SNAKE_BODY_HEIGHT) as i32
    } else {
        y as i32
    }
}

/// Offset of one grid step in direction `d`.
pub open spec fn step_offset(d: Direction) -> (int, int) {
    match d {
        Direction::Right => (SNAKE_BODY_WIDTH as int, 0),
        Direction::Left => (-SNAKE_BODY_WIDTH as int, 0),
        Direction::Up => (0, -SNAKE_BODY_HEIGHT as int),
        Direction::Down => (0, SNAKE_BODY_HEIGHT as int),
    }
}

/// Where the head lands after one step in direction `d`, after wrapping.
pub open spec fn stepped_head(h: Vector2D, d: Direction) -> Vector2D {
    Vector2D { x: wrap_x(h.x + step_offset(d).0), y: wrap_y(h.y + step_offset(d).1) }
}

/// Every segment takes the place of its predecessor; the head goes to `head`.
pub open spec fn shifted_body(body: Seq<Vector2D>, head: Vector2D) -> Seq<Vector2D> {
    seq![head] + body.subrange(0, body.len() - 1)
}

/// Whether advancing the step timer by `delta` completes a step.
pub open spec fn step_due(s: SnakeView, delta: u64) -> bool {
    saturating_sum(s.move_timer, delta) >= s.move_interval
}

/// The snake after `delta` milliseconds: the timer advances, and once it
/// reaches the interval the snake moves one cell and the timer restarts at
/// zero (excess time is dropped).
pub open spec fn moved_snake(s: SnakeView, delta: u64) -> SnakeView {
    if step_due(s, delta) {
        SnakeView {
            move_timer: 0,
            body: shifted_body(s.body, stepped_head(s.body[0], s.direction)),
            ..s
        }
    } else {
        SnakeView { move_timer: saturating_sum(s.move_timer, delta), ..s }
    }
}

/// The wrap of the play field's horizontal bounds.
pub struct HorizontalBounds;

impl HorizontalBounds {
    /// Wraps a horizontal head coordinate that left the play field.
    pub fn execute(&self, x: i64) -> (r: i32)
        ensures
            r == wrap_x(x as int),
    {
        if x < LOWER_BOUND_X as i64 {
            UPPER_BOUND_X - SNAKE_BODY_WIDTH
        } else if x > UPPER_BOUND_X as i64 {
            LOWER_BOUND_X + SNAKE_BODY_WIDTH
        } else {
            x as i32
        }
    }
}

/// The wrap of the play field's vertical bounds.
pub struct VerticalBounds;

impl VerticalBounds {
    /// Wraps a vertical head coordinate that left the play field.
    pub fn execute(&self, y: i64) -> (r: i32)
        ensures
            r == wrap_y(y as int),
    {
        if y < LOWER_BOUND_Y as i64 {
            UPPER_BOUND_Y - SNAKE_BODY_HEIGHT
        } else if y > UPPER_BOUND_Y as i64 {
            LOWER_BOUND_Y + SNAKE_BODY_HEIGHT
        } else {
            y as i32
        }
    }
}

/// Moves every segment onto its predecessor, tail first, then puts the head
/// at `head`.
fn shift_segments(body: &mut Vec<Vector2D>, head: Vector2D)
    requires
        old(body)@.len() >= 1,
    ensures
        final(body)@ == shifted_body(old(body)@, head),
{
    let body_size = body.len();
    let ghost before = body@;
    let mut i: usize = body_size - 1;
    while i > 0
        invariant
            body@.len() == before.len(),
            before.len() == body_size,
            0 <= i < body_size,
            forall|j: int| 0 <= j <= i ==> body@[j] == before[j],
            forall|j: int| i < j < body_size ==> body@[j] == before[j - 1],
        decreases i,
    {
        let prev = body[i - 1];
        body.set(i, prev);
        i = i - 1;
    }
    body.set(0, head);
    assert(body@ =~= shifted_body(before, head));
}

/// Advances the snake's step timer by `delta_time` milliseconds and, when a
/// step is due, shifts every segment onto its predecessor (tail first) and
/// then moves the head one cell, wrapping at the bounds.
pub fn update_snake_movement(player: &mut Snake, delta_time: u64)
    requires
        old(player)@.wf(),
    ensures
        final(player)@ == moved_snake(old(player)@, delta_time),
{
    player.move_timer = player.move_timer.saturating_add(delta_time);
    if player.move_timer >= player.move_interval {
        player.move_timer = 0;
        let head = player.body[0];
        let (dx, dy): (i64, i64) = match player.direction {
            Direction::Right => (SNAKE_BODY_WIDTH as i64, 0),
            Direction::Left => (-(SNAKE_BODY_WIDTH as i64), 0),
            Direction::Up => (0, -(SNAKE_BODY_HEIGHT as i64)),
            Direction::Down => (0, SNAKE_BODY_HEIGHT as i64),
        };
        let x = HorizontalBounds.execute(head.x as i64 + dx);
        let y = VerticalBounds.execute(head.y as i64 + dy);
        shift_segments(&mut player.body, Vector2D { x, y });
    }
}

} // verus!
