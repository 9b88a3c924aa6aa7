use space_worm::audio::{AudioCue, MusicId, SfxId};
use space_worm::collectible::Collectible;
use space_worm::game::{FrameReport, GameState};
use space_worm::geometry::{Direction, Vector2D};
use space_worm::perks::{Perk, PowerupSlot};
use space_worm::random::SpawnRolls;
use space_worm::snake::Snake;

fn far_rolls() -> SpawnRolls {
    SpawnRolls {
        food_position: Vector2D { x: 200, y: 40 },
        crate_chance: 99,
        crate_position: Vector2D { x: 30, y: 30 },
    }
}

fn v(x: i32, y: i32) -> Vector2D {
    Vector2D { x, y }
}

#[test]
fn ten_steps_right_move_head_sixty_pixels() {
    let mut game = GameState::start();
    assert_eq!(game.player.body, vec![v(40, 150), v(28, 150), v(22, 150)]);
    let rolls = far_rolls();
    for _ in 0..10 {
        let report = game.update_game_logic(100, &rolls);
        assert!(!report.game_over);
    }
    assert_eq!(game.player.body, vec![v(100, 150), v(94, 150), v(88, 150)]);
    assert!(!game.game_over);
}

#[test]
fn food_at_head_is_eaten_in_that_tick() {
    let mut game = GameState::start();
    let rolls = far_rolls();
    game.update_game_logic(50, &rolls);
    assert!(game.food.is_active);
    game.food = Collectible {
        position: game.player.body[0],
        is_active: true,
        sprite_frame_index: 0,
        sprite_timer: 0,
    };
    let report = game.update_game_logic(10, &rolls);
    assert!(report.food_eaten);
    assert!(!game.food.is_active);
    assert_eq!(game.score, 100);
    assert_eq!(game.player.body.len(), 4);
    assert_eq!(game.player.body[3], v(16, 150));
}

#[test]
fn self_collision_at_any_segment_ends_game() {
    for k in 1..5usize {
        let mut game = GameState::start();
        let mut body = vec![v(50, 50), v(44, 50), v(38, 50), v(32, 50), v(26, 50)];
        body[k] = v(50, 50);
        game.player.body = body;
        let report = game.update_game_logic(10, &far_rolls());
        assert!(game.game_over, "segment {}", k);
        assert!(report.crashed && report.game_over);
    }
}

#[test]
fn crash_cuts_the_frame_short() {
    let mut game = GameState::start();
    game.player.body = vec![v(50, 50), v(50, 50)];
    game.food = Collectible { position: v(50, 50), is_active: true, sprite_frame_index: 0, sprite_timer: 0 };
    game.update_game_logic(10, &far_rolls());
    assert!(game.game_over);
    assert!(game.food.is_active);
    assert_eq!(game.score, 0);
}

#[test]
fn food_within_pickup_distance_scores_and_grows() {
    let mut game = GameState::start();
    game.food = Collectible { position: v(47, 158), is_active: true, sprite_frame_index: 0, sprite_timer: 0 };
    game.update_game_logic(10, &far_rolls());
    assert!(!game.food.is_active);
    assert_eq!(game.score, 100);
    assert_eq!(game.player.body.len(), 4);
    assert!(game.player.food_near);
}

#[test]
fn food_near_but_not_reached_only_alerts() {
    let mut game = GameState::start();
    game.food = Collectible { position: v(55, 150), is_active: true, sprite_frame_index: 0, sprite_timer: 0 };
    game.update_game_logic(10, &far_rolls());
    assert!(game.food.is_active);
    assert!(game.player.food_near);
    assert_eq!(game.player.head_sprite_frame_index, 3);
    assert_eq!(game.score, 0);
    assert_eq!(game.player.body.len(), 3);
}

#[test]
fn food_far_away_clears_alert() {
    let mut game = GameState::start();
    game.player.food_near = true;
    game.food = Collectible { position: v(64, 150), is_active: true, sprite_frame_index: 0, sprite_timer: 0 };
    game.update_game_logic(10, &far_rolls());
    assert!(!game.player.food_near);
}

#[test]
fn inactive_food_spawns_at_rolled_position() {
    let mut game = GameState::start();
    assert!(!game.food.is_active);
    game.update_game_logic(10, &far_rolls());
    assert!(game.food.is_active);
    assert_eq!(game.food.position, v(200, 40));
}

#[test]
fn no_step_before_interval() {
    let mut snake = Snake::new(40, 150, Direction::Right);
    let before = snake.body.clone();
    space_worm::movement::update_snake_movement(&mut snake, 60);
    assert_eq!(snake.body, before);
    assert_eq!(snake.move_timer, 60);
    space_worm::movement::update_snake_movement(&mut snake, 39);
    assert_eq!(snake.body, before);
    space_worm::movement::update_snake_movement(&mut snake, 1);
    assert_eq!(snake.body, vec![v(46, 150), v(40, 150), v(28, 150)]);
    assert_eq!(snake.move_timer, 0);
}

#[test]
fn excess_time_is_dropped() {
    let mut snake = Snake::new(40, 150, Direction::Down);
    space_worm::movement::update_snake_movement(&mut snake, 250);
    assert_eq!(snake.body[0], v(40, 158));
    assert_eq!(snake.move_timer, 0);
}

#[test]
fn step_sizes_per_direction() {
    let cases = [
        (Direction::Right, v(46, 150)),
        (Direction::Left, v(34, 150)),
        (Direction::Up, v(40, 142)),
        (Direction::Down, v(40, 158)),
    ];
    for (d, head) in cases {
        let mut snake = Snake::new(40, 150, d);
        space_worm::movement::update_snake_movement(&mut snake, 100);
        assert_eq!(snake.body[0], head);
        assert_eq!(snake.body[1], v(40, 150));
    }
}

#[test]
fn head_wraps_at_every_edge() {
    let cases = [
        (Direction::Right, v(254, 100), v(8, 100)),
        (Direction::Left, v(4, 100), v(250, 100)),
        (Direction::Up, v(100, 6), v(100, 216)),
        (Direction::Down, v(100, 220), v(100, 10)),
    ];
    for (d, start, end) in cases {
        let mut snake = Snake::new(100, 100, d);
        snake.body[0] = start;
        space_worm::movement::update_snake_movement(&mut snake, 100);
        assert_eq!(snake.body[0], end);
    }
}

#[test]
fn reversal_is_ignored() {
    let mut game = GameState::start();
    assert!(!game.handle_key_down("KeyA"));
    assert_eq!(game.player.direction, Direction::Right);
    game.handle_key_down("KeyW");
    assert_eq!(game.player.direction, Direction::Up);
    game.handle_key_down("KeyS");
    assert_eq!(game.player.direction, Direction::Up);
    game.handle_key_down("KeyA");
    assert_eq!(game.player.direction, Direction::Left);
    game.handle_key_down("KeyX");
    assert_eq!(game.player.direction, Direction::Left);
}

#[test]
fn score_threshold_opens_selection_once() {
    let mut game = GameState::start();
    game.score = 400;
    game.food = Collectible { position: v(40, 150), is_active: true, sprite_frame_index: 0, sprite_timer: 0 };
    let report = game.update_game_logic(10, &far_rolls());
    assert_eq!(game.score, 500);
    assert!(report.selection_started);
    assert!(game.in_powerup_selection);
    assert_eq!(game.highlighted_powerup, Some(PowerupSlot::First));
    assert_eq!(game.granted_thresholds, vec![500]);

    game.handle_key_down("Escape");
    let report = game.handle_powerup_selection();
    assert_eq!(report.perk_chosen, Some(Perk::NeedForSpeed));
    assert!(!game.in_powerup_selection);

    // Reaching the same threshold again offers nothing new.
    game.score = 400;
    game.food = Collectible { position: game.player.body[0], is_active: true, sprite_frame_index: 0, sprite_timer: 0 };
    let report = game.update_game_logic(10, &far_rolls());
    assert!(report.food_eaten);
    assert!(!report.selection_started);
    assert!(!game.powerup_eligibility);
    assert!(!game.in_powerup_selection);
    assert_eq!(game.granted_thresholds, vec![500]);
}

#[test]
fn confirm_on_second_option_doubles_food_value() {
    let mut game = GameState::start();
    game.in_powerup_selection = true;
    game.powerup_eligibility = true;
    game.highlighted_powerup = Some(PowerupSlot::Second);
    game.score = 700;
    game.handle_key_down("Space");
    let report = game.handle_powerup_selection();
    assert_eq!(report.perk_chosen, Some(Perk::HungryWorm));
    assert_eq!(game.food_score_value, 200);
    assert_eq!(game.player.move_interval, 100);
    assert!(!game.powerup_eligibility);
    assert!(!game.in_powerup_selection);
    assert_eq!(game.highlighted_powerup, None);
    assert_eq!(game.powerup_history, vec![(700, Perk::HungryWorm)]);
    // The next frame plays on and applies nothing more.
    game.update_game_logic(10, &far_rolls());
    assert_eq!(game.food_score_value, 200);
}

#[test]
fn cursor_moves_then_confirm_picks_speed() {
    let mut game = GameState::start();
    game.in_powerup_selection = true;
    game.highlighted_powerup = Some(PowerupSlot::First);
    game.handle_key_down("KeyD");
    let report = game.handle_powerup_selection();
    assert_eq!(report.perk_chosen, None);
    assert_eq!(game.highlighted_powerup, Some(PowerupSlot::Second));
    game.handle_key_down("KeyA");
    game.handle_key_down("Space");
    let report = game.handle_powerup_selection();
    assert_eq!(report.perk_chosen, Some(Perk::NeedForSpeed));
    assert_eq!(game.player.move_interval, 75);
    assert_eq!(game.food_score_value, 100);
}

#[test]
fn restart_resets_everything() {
    let mut game = GameState::start();
    game.score = 1234;
    game.game_over = true;
    game.player.body.push(v(1, 1));
    game.food_score_value = 400;
    game.background.stars_sprite_frame_index = 4;
    game.granted_thresholds.push(500);
    game.restart_level();
    assert_eq!(game.score, 0);
    assert!(!game.game_over);
    assert_eq!(game.player.body, vec![v(40, 150), v(28, 150), v(22, 150)]);
    assert!(!game.food.is_active);
    assert_eq!(game.food.position, v(100, 100));
    assert_eq!(game.food.sprite_frame_index, 0);
    assert_eq!(game.background.stars_sprite_frame_index, 0);
    assert_eq!(game.player.head_sprite_frame_index, 0);
    assert_eq!(game.food_score_value, 100);
    assert!(game.granted_thresholds.is_empty());
}

#[test]
fn game_over_space_restarts() {
    let mut game = GameState::start();
    game.game_over = true;
    game.score = 300;
    assert!(!game.handle_key_down("KeyW"));
    assert!(game.game_over);
    assert!(game.handle_key_down("Space"));
    assert!(!game.game_over);
    assert_eq!(game.score, 0);
}

#[test]
fn game_over_darkens_then_restarts() {
    let mut game = GameState::start();
    game.game_over = true;
    game.score = 300;
    let rolls = far_rolls();
    game.advance_frame(0, &rolls);
    let mut now = 0u64;
    for step in 1..8usize {
        now += 500;
        let report = game.advance_frame(now, &rolls);
        assert!(report.game_over);
        assert_eq!(game.game_over_animation.frame, step);
    }
    assert_eq!(game.game_over_animation.darkness, 80);
    now += 500;
    let report = game.advance_frame(now, &rolls);
    assert!(report.restarted);
    assert!(!game.game_over);
    assert_eq!(game.score, 0);
}

#[test]
fn first_frame_uses_default_delta() {
    let mut game = GameState::start();
    game.update_delta_time(5000);
    assert_eq!(game.delta_time, 16);
    game.update_delta_time(5100);
    assert_eq!(game.delta_time, 100);
    game.update_delta_time(5050);
    assert_eq!(game.delta_time, 0);
}

#[test]
fn loot_crate_spawns_on_timer_and_opens_selection() {
    let mut game = GameState::start();
    let rolls = SpawnRolls {
        food_position: v(200, 40),
        crate_chance: 10,
        crate_position: v(100, 100),
    };
    game.loot_crate_timer = 9990;
    game.update_game_logic(10, &rolls);
    assert!(game.loot_crate.is_active);
    assert_eq!(game.loot_crate.position, v(100, 100));
    assert_eq!(game.loot_crate_timer, 0);

    game.loot_crate.position = game.player.body[0];
    let report = game.update_game_logic(10, &rolls);
    assert!(!game.loot_crate.is_active);
    assert!(report.selection_started);
    assert!(game.powerup_eligibility);
    assert_eq!(game.highlighted_powerup, Some(PowerupSlot::First));
    assert_eq!(game.score, 0);
}

#[test]
fn failed_crate_roll_restarts_timer() {
    let mut game = GameState::start();
    game.loot_crate_timer = 9990;
    game.update_game_logic(10, &far_rolls());
    assert!(!game.loot_crate.is_active);
    assert_eq!(game.loot_crate_timer, 0);
}

#[test]
fn audio_cues_follow_the_report() {
    let report = FrameReport {
        game_over: true,
        crashed: true,
        food_eaten: false,
        selection_started: false,
        perk_chosen: None,
        restarted: false,
    };
    assert_eq!(report.audio_cues(), vec![AudioCue::StopMusic, AudioCue::PlaySfx(SfxId::Crash)]);
    let report = FrameReport {
        game_over: false,
        crashed: false,
        food_eaten: true,
        selection_started: true,
        perk_chosen: Some(Perk::HungryWorm),
        restarted: true,
    };
    assert_eq!(
        report.audio_cues(),
        vec![
            AudioCue::PlaySfx(SfxId::Eat),
            AudioCue::PauseMusic,
            AudioCue::PlaySfx(SfxId::NewPerk),
            AudioCue::PlaySfx(SfxId::HungryWorm),
            AudioCue::ResumeMusic,
            AudioCue::PlayMusic(MusicId::Music0),
        ]
    );
}

#[test]
fn tick_draws_spawns_in_range() {
    for i in 0..50u64 {
        let mut game = GameState::start();
        game.tick(i);
        // The fresh food is active unless it landed within reach and was eaten.
        assert!(game.food.is_active || game.score == 100);
        assert!((12..246).contains(&game.food.position.x));
        assert!((12..214).contains(&game.food.position.y));
    }
}

#[test]
fn rolls_lie_in_their_ranges() {
    for _ in 0..200 {
        let r = space_worm::random::draw_spawn_rolls();
        assert!((12..246).contains(&r.food_position.x));
        assert!((12..214).contains(&r.food_position.y));
        assert!(r.crate_chance < 100);
        assert!((18..240).contains(&r.crate_position.x));
        assert!((18..208).contains(&r.crate_position.y));
    }
}

#[test]
fn history_keeps_one_entry_per_score() {
    let mut history = vec![(500, Perk::NeedForSpeed), (700, Perk::HungryWorm)];
    space_worm::game::record_powerup(&mut history, 500, Perk::HungryWorm);
    assert_eq!(history, vec![(500, Perk::HungryWorm), (700, Perk::HungryWorm)]);
    space_worm::game::record_powerup(&mut history, 900, Perk::NeedForSpeed);
    assert_eq!(
        history,
        vec![(500, Perk::HungryWorm), (700, Perk::HungryWorm), (900, Perk::NeedForSpeed)]
    );
}
