//! Positions on the art grid and headings.
use vstd::prelude::*;

verus! {

/// A position in art-buffer pixels.
#[derive(Clone, Copy, Debug, PartialEq, Eq, Structural)]
pub struct Vector2D {
    pub x: i32,
    pub y: i32,
}

/// Heading of the snake.
#[derive(Clone, Copy, Debug, PartialEq, Eq, Structural)]
pub enum Direction {
    Right,
    Left,
    Up,
    Down,
}

/// The heading that points the other way.
pub open spec fn opposite(d: Direction) -> Direction {
    match d {
        Direction::Right => Direction::Left,
        Direction::Left => Direction::Right,
        Direction::Up => Direction::Down,
        Direction::Down => Direction::Up,
    }
}

/// Squared Euclidean distance between two positions.
pub open spec fn distance_squared(a: Vector2D, b: Vector2D) -> int {
    (a.x - b.x) * (a.x - b.x) + (a.y - b.y) * (a.y - b.y)
}

impl Direction {
    /// Whether `other` points exactly the other way.
    pub fn is_opposite(&self, other: &Direction) -> (r: bool)
        ensures
            r == (*other == opposite(*self)),
    {
        match (*self, *other) {
            (Direction::Up, Direction::Down) | (Direction::Down, Direction::Up) | (
                Direction::Left,
                Direction::Right,
            ) | (Direction::Right, Direction::Left) => true,
            _ => false,
        }
    }
}

/// Squared distance between two positions, exact for every pair of positions.
pub fn distance_squared_between(a: &Vector2D, b: &Vector2D) -> (r: i128)
    ensures
        r == distance_squared(*a, *b),
{
    let dx: i128 = a.x as i128 - b.x as i128;
    let dy: i128 = a.y as i128 - b.y as i128;
    assert(dx * dx <= 0x1_0000_0000_0000_0000) by (nonlinear_arith)
        requires
            -0x1_0000_0000 <= dx <= 0x1_0000_0000,
    ;
    assert(dy * dy <= 0x1_0000_0000_0000_0000) by (nonlinear_arith)
        requires
            -0x1_0000_0000 <= dy <= 0x1_0000_0000,
    ;
    assert(dx * dx >= 0 && dy * dy >= 0) by (nonlinear_arith);
    dx * dx + dy * dy
}

} // verus!
