//! The snake: heading, body segments, stepping timer and sprite state.
use vstd::prelude::*;
use crate::constants::{DEFAULT_MOVE_INTERVAL_MS, SNAKE_BODY_HEIGHT, SNAKE_BODY_WIDTH};
use crate::geometry::{Direction, Vector2D};

verus! {

/// The player's snake. `body[0]` is the head, the last segment the tail.
pub struct Snake {
    pub direction: Direction,
    pub body: Vec<Vector2D>,
    /// Time accumulated since the last grid step, in milliseconds.
    pub move_timer: u64,
    /// Time between two grid steps, in milliseconds.
    pub move_interval: u64,
    pub body_sprite_frame_index: usize,
    /// Time since the body sprite last changed, in milliseconds.
    pub body_sprite_timer: u64,
    pub head_sprite_frame_index: usize,
    /// Time since the snake was created, driving the head animation cycle.
    pub head_sprite_clock: u64,
    /// Food is within the near threshold but not yet eaten.
    pub food_near: bool,
}

/// Mathematical model of a `Snake`.
pub struct SnakeView {
    pub direction: Direction,
    pub body: Seq<Vector2D>,
    pub move_timer: u64,
    pub move_interval: u64,
    pub body_sprite_frame_index: usize,
    pub body_sprite_timer: u64,
    pub head_sprite_frame_index: usize,
    pub head_sprite_clock: u64,
    pub food_near: bool,
}

impl View for Snake {
    type V = SnakeView;

    open spec fn view(&self) -> SnakeView {
        SnakeView {
            direction: self.direction,
            body: self.body@,
            move_timer: self.move_timer,
            move_interval: self.move_interval,
            body_sprite_frame_index: self.body_sprite_frame_index,
            body_sprite_timer: self.body_sprite_timer,
            head_sprite_frame_index: self.head_sprite_frame_index,
            head_sprite_clock: self.head_sprite_clock,
            food_near: self.food_near,
        }
    }
}

impl SnakeView {
    /// A snake always has a head.
    pub open spec fn wf(self) -> bool {
        self.body.len() >= 1
    }

    pub open spec fn head(self) -> Vector2D {
        self.body[0]
    }

    pub open spec fn tail(self) -> Vector2D {
        self.body.last()
    }
}

/// The body a new snake starts with: the head, then two segments trailing
/// behind it, two and three segment sizes away.
pub open spec fn initial_body(x: i32, y: i32, d: Direction) -> Seq<Vector2D> {
    let (dx, dy): (int, int) = match d {
        Direction::Right => (-SNAKE_BODY_WIDTH as int, 0),
        Direction::Left => (SNAKE_BODY_WIDTH as int, 0),
        Direction::Down => (0, -SNAKE_BODY_HEIGHT as int),
        Direction::Up => (0, SNAKE_BODY_HEIGHT as int),
    };
    seq![
        Vector2D { x, y },
        Vector2D { x: (x + 2 * dx) as i32, y: (y + 2 * dy) as i32 },
        Vector2D { x: (x + 3 * dx) as i32, y: (y + 3 * dy) as i32 },
    ]
}

/// The state of a freshly created snake.
pub open spec fn initial_snake(x: i32, y: i32, d: Direction) -> SnakeView {
    SnakeView {
        direction: d,
        body: initial_body(x, y, d),
        move_timer: 0,
        move_interval: DEFAULT_MOVE_INTERVAL_MS,
        body_sprite_frame_index: 0,
        body_sprite_timer: 0,
        head_sprite_frame_index: 0,
        head_sprite_clock: 0,
        food_near: false,
    }
}

impl Snake {
    /// A snake with its head at `(x, y)`, heading `initial_direction`.
    pub fn new(x: i32, y: i32, initial_direction: Direction) -> (r: Snake)
        requires
            -0x7fff_ffff + 24 <= x <= 0x7fff_ffff - 24,
            -0x7fff_ffff + 24 <= y <= 0x7fff_ffff - 24,
        ensures
            r@ == initial_snake(x, y, initial_direction),
    {
        let w = SNAKE_BODY_WIDTH;
        let h = SNAKE_BODY_HEIGHT;
        let body = match initial_direction {
            Direction::Right => {
                let (a, b) = (x - w * 2, x - w * 3);
                vec![Vector2D { x, y }, Vector2D { x: a, y }, Vector2D { x: b, y }]
            },
            Direction::Left => {
                let (a, b) = (x + w * 2, x + w * 3);
                vec![Vector2D { x, y }, Vector2D { x: a, y }, Vector2D { x: b, y }]
            },
            Direction::Down => {
                let (a, b) = (y - h * 2, y - h * 3);
                vec![Vector2D { x, y }, Vector2D { x, y: a }, Vector2D { x, y: b }]
            },
            Direction::Up => {
                let (a, b) = (y + h * 2, y + h * 3);
                vec![Vector2D { x, y }, Vector2D { x, y: a }, Vector2D { x, y: b }]
            },
        };
        let r = Snake {
            direction: initial_direction,
            body,
            move_timer: 0,
            move_interval: DEFAULT_MOVE_INTERVAL_MS,
            body_sprite_frame_index: 0,
            body_sprite_timer: 0,
            head_sprite_frame_index: 0,
            head_sprite_clock: 0,
            food_near: false,
        };
        assert(r@.body =~= initial_body(x, y, initial_direction));
        r
    }
}

} // verus!
