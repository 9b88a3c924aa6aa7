//! Self-resetting timers that cycle sprite frames.
//!
//! Each timer accumulates the elapsed frame time and, once it reaches its
//! interval, advances its frame by one and restarts from zero; a single
//! update never advances more than one frame.
use vstd::prelude::*;
use crate::collectible::{Food, LootCrate};
use crate::constants::{
    BACKGROUND_FRAMES, BODY_FRAME_MS, FOOD_FRAME_MS, GAME_OVER_DARKNESS_MAX,
    GAME_OVER_DARKNESS_START, GAME_OVER_DARKNESS_STEP, GAME_OVER_FRAME_MS, GAME_OVER_STEPS,
    GLOBE_FRAME_MS, HEAD_ALERT_FRAME, HEAD_CYCLE_MS, HEAD_IDLE_FRAME, HEAD_PHASE_MS,
    LOOT_CRATE_FRAME_MS, STARS_FRAME_MS,
};
use crate::movement::saturating_sum;
use crate::snake::{Snake, SnakeView};

verus! {

/// The frame after `frame` in a cycle of `count` frames.
pub open spec fn next_frame(frame: usize, count: usize) -> usize
    recommends
        count > 0,
{
    ((frame % count + 1) % (count as int)) as usize
}

/// Frame and timer after `delta` milliseconds of a timer with the given
/// interval over a cycle of `count` frames.
pub open spec fn timed_frame(frame: usize, timer: u64, delta: u64, interval: u64, count: usize) -> (
    usize,
    u64,
) {
    if saturating_sum(timer, delta) >= interval {
        (next_frame(frame, count), 0)
    } else {
        (frame, saturating_sum(timer, delta))
    }
}

/// Advances one frame timer by `delta` milliseconds.
fn advance_timed_frame(frame: &mut usize, timer: &mut u64, delta: u64, interval: u64, count: usize)
    requires
        count > 0,
    ensures
        (*final(frame), *final(timer)) == timed_frame(*old(frame), *old(timer), delta, interval, count),
{
    let t = timer.saturating_add(delta);
    if t >= interval {
        *frame = (*frame % count + 1) % count;
        *timer = 0;
    } else {
        *timer = t;
    }
}

/// Animation state of the two background layers.
#[derive(Clone, Copy, Debug, PartialEq, Eq, Structural)]
pub struct Background {
    /// Horizontal scroll of the star layer, one pixel per frame.
    pub stars_offset_x: usize,
    pub stars_sprite_frame_index: usize,
    pub stars_timer: u64,
    pub globe_sprite_frame_index: usize,
    pub globe_timer: u64,
}

pub open spec fn initial_background() -> Background {
    Background {
        stars_offset_x: 0,
        stars_sprite_frame_index: 0,
        stars_timer: 0,
        globe_sprite_frame_index: 0,
        globe_timer: 0,
    }
}

impl Background {
    /// Both layers at their first frame, not yet scrolled.
    pub fn new() -> (r: Background)
        ensures
            r == initial_background(),
    {
        Background {
            stars_offset_x: 0,
            stars_sprite_frame_index: 0,
            stars_timer: 0,
            globe_sprite_frame_index: 0,
            globe_timer: 0,
        }
    }
}

/// `x + 1`, wrapping to zero past `usize::MAX`.
pub open spec fn wrapping_next(x: usize) -> usize {
    if x == usize::MAX {
        0
    } else {
        (x + 1) as usize
    }
}

/// The star layer after `delta` milliseconds.
pub open spec fn stars_after(b: Background, delta: u64) -> Background {
    let (f, t) = timed_frame(b.stars_sprite_frame_index, b.stars_timer, delta, STARS_FRAME_MS, BACKGROUND_FRAMES);
    Background { stars_sprite_frame_index: f, stars_timer: t, ..b }
}

/// The globe layer after `delta` milliseconds.
pub open spec fn globe_after(b: Background, delta: u64) -> Background {
    let (f, t) = timed_frame(b.globe_sprite_frame_index, b.globe_timer, delta, GLOBE_FRAME_MS, BACKGROUND_FRAMES);
    Background { globe_sprite_frame_index: f, globe_timer: t, ..b }
}

/// Both layers after one frame of `delta` milliseconds: each cycles its
/// frame on its own cadence, and the star layer scrolls by one pixel.
pub open spec fn background_after(b: Background, delta: u64) -> Background {
    let b2 = globe_after(stars_after(b, delta), delta);
    Background { stars_offset_x: wrapping_next(b.stars_offset_x), ..b2 }
}

/// The star layer's blinking timer.
pub struct AlternateStarsSpriteFrame;

impl AlternateStarsSpriteFrame {
    pub fn execute(&self, background: &mut Background, delta_time: u64)
        ensures
            *final(background) == stars_after(*old(background), delta_time),
    {
        advance_timed_frame(
            &mut background.stars_sprite_frame_index,
            &mut background.stars_timer,
            delta_time,
            STARS_FRAME_MS,
            BACKGROUND_FRAMES,
        );
    }
}

/// The globe layer's rotation timer.
pub struct AlternateGlobeSpriteFrame;

impl AlternateGlobeSpriteFrame {
    pub fn execute(&self, background: &mut Background, delta_time: u64)
        ensures
            *final(background) == globe_after(*old(background), delta_time),
    {
        advance_timed_frame(
            &mut background.globe_sprite_frame_index,
            &mut background.globe_timer,
            delta_time,
            GLOBE_FRAME_MS,
            BACKGROUND_FRAMES,
        );
    }
}

/// Advances both background layers by one frame of `delta_time` milliseconds.
pub fn update_background_animation(background: &mut Background, delta_time: u64)
    ensures
        *final(background) == background_after(*old(background), delta_time),
{
    let offset = background.stars_offset_x;
    AlternateStarsSpriteFrame.execute(background, delta_time);
    AlternateGlobeSpriteFrame.execute(background, delta_time);
    background.stars_offset_x = if offset == usize::MAX {
        0
    } else {
        offset + 1
    };
}

/// The body sprite after `delta` milliseconds.
pub open spec fn body_animated(s: SnakeView, delta: u64) -> SnakeView {
    let (f, t) = timed_frame(s.body_sprite_frame_index, s.body_sprite_timer, delta, BODY_FRAME_MS, 2);
    SnakeView { body_sprite_frame_index: f, body_sprite_timer: t, ..s }
}

/// The body sprite's timer.
pub struct AlternateBodySpriteFrameIndex;

impl AlternateBodySpriteFrameIndex {
    pub fn execute(&self, player: &mut Snake, delta_time: u64)
        ensures
            final(player)@ == body_animated(old(player)@, delta_time),
    {
        advance_timed_frame(
            &mut player.body_sprite_frame_index,
            &mut player.body_sprite_timer,
            delta_time,
            BODY_FRAME_MS,
            2,
        );
    }
}

/// Head frame at `clock` milliseconds into the animation: the idle frame for
/// the first phase of each cycle, then the two blink frames in turn, one
/// phase each.
pub open spec fn head_cycle_frame(clock: u64) -> usize {
    let p = clock % HEAD_CYCLE_MS;
    if p < HEAD_PHASE_MS {
        HEAD_IDLE_FRAME
    } else if ((p - HEAD_PHASE_MS) / HEAD_PHASE_MS as int) % 2 == 0 {
        0
    } else {
        1
    }
}

/// The head sprite after `delta` milliseconds: the alert frame while food is
/// near, else the frame of the cycle.
pub open spec fn head_animated(s: SnakeView, delta: u64) -> SnakeView {
    let clock = saturating_sum(s.head_sprite_clock, delta);
    SnakeView {
        head_sprite_clock: clock,
        head_sprite_frame_index: if s.food_near {
            HEAD_ALERT_FRAME
        } else {
            head_cycle_frame(clock)
        },
        ..s
    }
}

/// The head sprite's cycle.
pub struct AlternateHeadSpriteFrameIndex;

impl AlternateHeadSpriteFrameIndex {
    pub fn execute(&self, player: &mut Snake, delta_time: u64)
        ensures
            final(player)@ == head_animated(old(player)@, delta_time),
    {
        player.head_sprite_clock = player.head_sprite_clock.saturating_add(delta_time);
        if player.food_near {
            player.head_sprite_frame_index = HEAD_ALERT_FRAME;
        } else {
            let p = player.head_sprite_clock % HEAD_CYCLE_MS;
            player.head_sprite_frame_index = if p < HEAD_PHASE_MS {
                HEAD_IDLE_FRAME
            } else if ((p - HEAD_PHASE_MS) / HEAD_PHASE_MS) % 2 == 0 {
                0
            } else {
                1
            };
        }
    }
}

/// A pickup's sprite after `delta` milliseconds: it cycles only while active.
pub open spec fn pickup_animated(c: Food, delta: u64, interval: u64) -> Food {
    if c.is_active {
        let (f, t) = timed_frame(c.sprite_frame_index, c.sprite_timer, delta, interval, 2);
        Food { sprite_frame_index: f, sprite_timer: t, ..c }
    } else {
        c
    }
}

/// The food sprite's timer.
pub struct AlternateBetweenFoodSpriteFrames;

impl AlternateBetweenFoodSpriteFrames {
    pub fn execute(&self, food: &mut Food, delta_time: u64)
        ensures
            *final(food) == pickup_animated(*old(food), delta_time, FOOD_FRAME_MS),
    {
        if food.is_active {
            advance_timed_frame(
                &mut food.sprite_frame_index,
                &mut food.sprite_timer,
                delta_time,
                FOOD_FRAME_MS,
                2,
            );
        }
    }
}

/// Advances the loot crate's glow while it is active.
pub fn update_loot_crate_sprite_animation(loot_crate: &mut LootCrate, delta_time: u64)
    ensures
        *final(loot_crate) == pickup_animated(*old(loot_crate), delta_time, LOOT_CRATE_FRAME_MS),
{
    if loot_crate.is_active {
        advance_timed_frame(
            &mut loot_crate.sprite_frame_index,
            &mut loot_crate.sprite_timer,
            delta_time,
            LOOT_CRATE_FRAME_MS,
            2,
        );
    }
}

/// State of the darkening sequence shown after a crash.
#[derive(Clone, Copy, Debug, PartialEq, Eq, Structural)]
pub struct GameOverAnimation {
    /// Steps shown so far.
    pub frame: usize,
    /// Darkness of the screen, in percent.
    pub darkness: u32,
    pub timer: u64,
}

pub open spec fn initial_game_over_animation() -> GameOverAnimation {
    GameOverAnimation { frame: 0, darkness: GAME_OVER_DARKNESS_START, timer: 0 }
}

impl GameOverAnimation {
    pub fn new() -> (r: GameOverAnimation)
        ensures
            r == initial_game_over_animation(),
    {
        GameOverAnimation { frame: 0, darkness: GAME_OVER_DARKNESS_START, timer: 0 }
    }
}

/// The darkening after `delta` milliseconds: once per interval it takes one
/// step and darkens by a tenth, up to its cap.
pub open spec fn game_over_animated(a: GameOverAnimation, delta: u64) -> GameOverAnimation {
    let t = saturating_sum(a.timer, delta);
    if t >= GAME_OVER_FRAME_MS {
        GameOverAnimation {
            frame: if a.frame == usize::MAX {
                usize::MAX
            } else {
                (a.frame + 1) as usize
            },
            darkness: if a.darkness + GAME_OVER_DARKNESS_STEP > GAME_OVER_DARKNESS_MAX {
                GAME_OVER_DARKNESS_MAX
            } else {
                (a.darkness + GAME_OVER_DARKNESS_STEP) as u32
            },
            timer: 0,
        }
    } else {
        GameOverAnimation { timer: t, ..a }
    }
}

/// Whether the darkening has run its course, so the game restarts.
pub open spec fn game_over_finished(a: GameOverAnimation, delta: u64) -> bool {
    saturating_sum(a.timer, delta) >= GAME_OVER_FRAME_MS && game_over_animated(a, delta).frame
        >= GAME_OVER_STEPS
}

/// Advances the darkening by `delta_time` milliseconds; returns whether it
/// has just taken its last step, so the game should restart.
pub fn update_game_over_animation(animation: &mut GameOverAnimation, delta_time: u64) -> (r: bool)
    ensures
        *final(animation) == game_over_animated(*old(animation), delta_time),
        r == game_over_finished(*old(animation), delta_time),
{
    let t = animation.timer.saturating_add(delta_time);
    if t >= GAME_OVER_FRAME_MS {
        animation.frame = animation.frame.saturating_add(1);
        animation.darkness = if animation.darkness > GAME_OVER_DARKNESS_MAX - GAME_OVER_DARKNESS_STEP {
            GAME_OVER_DARKNESS_MAX
        } else {
            animation.darkness + GAME_OVER_DARKNESS_STEP
        };
        animation.timer = 0;
        animation.frame >= GAME_OVER_STEPS
    } else {
        animation.timer = t;
        false
    }
}

} // verus!
