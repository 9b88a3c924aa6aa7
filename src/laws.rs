//! Properties of the game rules, proved over the models the functions'
//! contracts are stated in.
use vstd::prelude::*;
use crate::animation::initial_background;
use crate::collision::head_hits_body;
use crate::constants::{
    LOWER_BOUND_X, LOWER_BOUND_Y, PICKUP_DISTANCE_SQUARED, FOOD_NEAR_DISTANCE_SQUARED,
    START_X, START_Y, UPPER_BOUND_X, UPPER_BOUND_Y,
};
use crate::game::{frame, frame_delta, history_with, initial_game, GameView};
use crate::geometry::{distance_squared, Direction};
use crate::movement::{moved_snake, saturating_sum, step_due, step_offset};
use crate::perks::{
    doubled, first_new_threshold, first_new_threshold_from, threshold_table, Perk, PowerupSlot,
};
use crate::random::SpawnRolls;
use crate::snake::{initial_body, SnakeView};

verus! {

/// While the step timer, advanced by the frame time, stays below the step
/// interval, the body does not move at all.
pub proof fn lemma_no_step_before_interval(s: SnakeView, delta: u64)
    requires
        s.wf(),
        saturating_sum(s.move_timer, delta) < s.move_interval,
    ensures
        moved_snake(s, delta).body == s.body,
        moved_snake(s, delta).move_timer == s.move_timer + delta,
{
}

/// A completed step moves every segment onto its predecessor's old place,
/// keeps the length, restarts the timer, and moves the head by exactly one
/// step along the heading whenever that step stays within the play field.
pub proof fn lemma_step_follows_predecessor(s: SnakeView, delta: u64)
    requires
        s.wf(),
        step_due(s, delta),
    ensures
        moved_snake(s, delta).body.len() == s.body.len(),
        moved_snake(s, delta).move_timer == 0,
        forall|i: int|
            1 <= i < s.body.len() ==> #[trigger] moved_snake(s, delta).body[i] == s.body[i - 1],
        LOWER_BOUND_X <= s.body[0].x + step_offset(s.direction).0 <= UPPER_BOUND_X
            && LOWER_BOUND_Y <= s.body[0].y + step_offset(s.direction).1 <= UPPER_BOUND_Y
            ==> moved_snake(s, delta).body[0].x == s.body[0].x + step_offset(s.direction).0
            && moved_snake(s, delta).body[0].y == s.body[0].y + step_offset(s.direction).1,
{
}

/// A frame of normal play in which no step falls due.
pub open spec fn still_play_frame(s: GameView, now: u64) -> bool {
    &&& s.wf()
    &&& !s.game_over
    &&& !s.in_powerup_selection
    &&& !step_due(s.player, frame_delta(s.last_frame_time, now))
}

/// If some segment other than the head stands on the head's cell, the next
/// frame of play ends the game, whichever segment it is. (The frame moves
/// the snake before it tests for collisions, so this holds of frames in
/// which no step falls due.)
pub proof fn lemma_self_collision_ends_game(s: GameView, now: u64, rolls: SpawnRolls, k: int)
    requires
        still_play_frame(s, now),
        1 <= k < s.player.body.len(),
        s.player.body[k] == s.player.body[0],
    ensures
        frame(s, now, rolls).0.game_over,
        frame(s, now, rolls).1.crashed,
        frame(s, now, rolls).1.game_over,
{
    assert(head_hits_body(s.player.body));
}

/// Active food within the pickup distance of the head is eaten by the next
/// frame of play: it ends inactive, the score grows by exactly the food value
/// and the body by exactly one segment. (Assumes no step falls due in the
/// frame, no self-collision, and a score that does not reach `u32::MAX`.)
pub proof fn lemma_food_within_reach_is_eaten(s: GameView, now: u64, rolls: SpawnRolls)
    requires
        still_play_frame(s, now),
        !head_hits_body(s.player.body),
        s.food.is_active,
        distance_squared(s.player.body[0], s.food.position) < PICKUP_DISTANCE_SQUARED,
        s.score + s.food_score_value <= u32::MAX,
    ensures
        !frame(s, now, rolls).0.food.is_active,
        frame(s, now, rolls).0.score == s.score + s.food_score_value,
        frame(s, now, rolls).0.player.body.len() == s.player.body.len() + 1,
        frame(s, now, rolls).1.food_eaten,
{
}

/// Active food that is near the head but outside the pickup distance sets
/// `food_near` and is not eaten: score and body length stay. (Assumes no
/// step falls due in the frame and no self-collision.)
pub proof fn lemma_food_near_not_eaten(s: GameView, now: u64, rolls: SpawnRolls)
    requires
        still_play_frame(s, now),
        !head_hits_body(s.player.body),
        s.food.is_active,
        PICKUP_DISTANCE_SQUARED <= distance_squared(s.player.body[0], s.food.position)
            < FOOD_NEAR_DISTANCE_SQUARED,
    ensures
        frame(s, now, rolls).0.player.food_near,
        frame(s, now, rolls).0.food.is_active,
        frame(s, now, rolls).0.score == s.score,
        frame(s, now, rolls).0.player.body.len() == s.player.body.len(),
        !frame(s, now, rolls).1.food_eaten,
{
}

proof fn lemma_new_threshold_from(score: u32, granted: Seq<u32>, i: nat)
    ensures
        match first_new_threshold_from(score, granted, i) {
            Some(t) => !granted.contains(t) && t <= score && threshold_table().contains(t),
            None => forall|j: int|
                i <= j < threshold_table().len() && #[trigger] threshold_table()[j] <= score
                    ==> granted.contains(threshold_table()[j]),
        },
    decreases threshold_table().len() - i,
{
    if i < threshold_table().len() {
        lemma_new_threshold_from(score, granted, i + 1);
        if threshold_table()[i as int] <= score && !granted.contains(threshold_table()[i as int]) {
            assert(threshold_table().contains(threshold_table()[i as int]));
        }
    }
}

/// A threshold already granted is never granted again, however often the
/// score reaches it; and once every threshold the score has reached is
/// granted, no new offer comes.
pub proof fn lemma_granted_threshold_not_retriggered(score: u32, granted: Seq<u32>, t: u32)
    requires
        granted.contains(t),
    ensures
        first_new_threshold(score, granted) != Some(t),
        (forall|j: int|
            0 <= j < threshold_table().len() && threshold_table()[j] <= score
                ==> granted.contains(#[trigger] threshold_table()[j]))
            ==> first_new_threshold(score, granted) is None,
{
    lemma_new_threshold_from(score, granted, 0);
    if (forall|j: int|
        0 <= j < threshold_table().len() && threshold_table()[j] <= score
            ==> granted.contains(#[trigger] threshold_table()[j])) {
        if let Some(x) = first_new_threshold(score, granted) {
            let j = choose|j: int| 0 <= j < threshold_table().len() && threshold_table()[j] == x;
            assert(threshold_table()[j] <= score);
        }
    }
}

/// Confirming with the second option highlighted applies the second perk's
/// effect once (the food value doubles, the step interval stays), records
/// it at the current score, clears eligibility and returns to normal play.
pub proof fn lemma_confirm_commits_second_option(s: GameView, now: u64, rolls: SpawnRolls)
    requires
        !s.game_over,
        s.in_powerup_selection,
        s.highlighted_powerup == Some(PowerupSlot::Second),
        s.powerup_selection_keys.confirm,
        !s.powerup_selection_keys.left,
    ensures
        frame(s, now, rolls).0.food_score_value == doubled(s.food_score_value),
        frame(s, now, rolls).0.player.move_interval == s.player.move_interval,
        frame(s, now, rolls).0.selected_powerup == Some(Perk::HungryWorm),
        frame(s, now, rolls).0.powerup_history == history_with(
            s.powerup_history,
            s.score,
            Perk::HungryWorm,
        ),
        !frame(s, now, rolls).0.powerup_eligibility,
        !frame(s, now, rolls).0.in_powerup_selection,
        frame(s, now, rolls).0.highlighted_powerup is None,
        frame(s, now, rolls).1.perk_chosen == Some(Perk::HungryWorm),
{
}

/// A restarted game has no score, is not over, has the initial three-segment
/// snake, inactive food, and every animation at its first frame.
pub proof fn lemma_restart_state()
    ensures
        initial_game().score == 0,
        !initial_game().game_over,
        initial_game().player.body == initial_body(START_X, START_Y, Direction::Right),
        initial_game().player.body.len() == 3,
        !initial_game().food.is_active,
        !initial_game().loot_crate.is_active,
        initial_game().player.head_sprite_frame_index == 0,
        initial_game().player.body_sprite_frame_index == 0,
        initial_game().food.sprite_frame_index == 0,
        initial_game().loot_crate.sprite_frame_index == 0,
        initial_game().background == initial_background(),
        initial_game().game_over_animation.frame == 0,
        !initial_game().powerup_eligibility,
        !initial_game().in_powerup_selection,
        initial_game().granted_thresholds.len() == 0,
        initial_game().powerup_history.len() == 0,
{
}

} // verus!
