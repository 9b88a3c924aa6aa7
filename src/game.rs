//! The game state and the per-frame orchestrator.
use vstd::prelude::*;
use crate::animation::{
    background_after, body_animated, game_over_animated, game_over_finished, head_animated,
    initial_background, initial_game_over_animation, pickup_animated, update_background_animation,
    update_game_over_animation, update_loot_crate_sprite_animation,
    AlternateBetweenFoodSpriteFrames, AlternateBodySpriteFrameIndex,
    AlternateHeadSpriteFrameIndex, Background, GameOverAnimation,
};
use crate::audio::{AudioCue, MusicId, SfxId};
use crate::collectible::{inactive_at, spawned_at, Collectible, Food, LootCrate};
use crate::collision::{
    after_food_check, check_food_collision, check_loot_crate_collision, check_self_collision,
    crate_is_collected, food_is_eaten, head_hits_body, CheckSelfCollision,
};
use crate::constants::{
    DEFAULT_FOOD_SCORE_VALUE, FIRST_FRAME_DELTA_MS, FOOD_FRAME_MS, FOOD_START_X, FOOD_START_Y,
    LOOT_CRATE_CHECK_INTERVAL_MS, LOOT_CRATE_FRAME_MS, LOOT_CRATE_SPAWN_CHANCE, START_X, START_Y,
};
use crate::geometry::{Direction, Vector2D};
use crate::input::{handle_game_over_input, handle_key_down, key_of, recorded, steered};
use crate::movement::{moved_snake, saturating_sum, update_snake_movement};
use crate::perks::{
    apply_powerup_effect, check_perk_eligibility, first_new_threshold, handle_powerup_selection,
    no_keys, perk_effect, selection_outcome, Perk, PowerupSlot, SelectionKeys,
};
use crate::random::{draw_spawn_rolls, SpawnRolls};
use crate::snake::{initial_snake, Snake, SnakeView};

verus! {

/// Everything one running game owns.
pub struct GameState {
    pub player: Snake,
    pub food: Food,
    pub loot_crate: LootCrate,
    /// Length of the current frame, in milliseconds.
    pub delta_time: u64,
    /// Clock reading of the previous frame, in milliseconds.
    pub last_frame_time: Option<u64>,
    pub game_over: bool,
    pub score: u32,
    /// Points one food is worth.
    pub food_score_value: u32,
    pub powerup_eligibility: bool,
    pub in_powerup_selection: bool,
    pub highlighted_powerup: Option<PowerupSlot>,
    pub selected_powerup: Option<Perk>,
    /// The perk taken at each score, one entry per score, in the order the
    /// scores were first recorded.
    pub powerup_history: Vec<(u32, Perk)>,
    /// Score thresholds that already produced a perk offer.
    pub granted_thresholds: Vec<u32>,
    pub powerup_selection_keys: SelectionKeys,
    pub background: Background,
    /// Time since the last loot-crate spawn attempt, in milliseconds.
    pub loot_crate_timer: u64,
    pub game_over_animation: GameOverAnimation,
}

/// Mathematical model of a `GameState`.
pub struct GameView {
    pub player: SnakeView,
    pub food: Food,
    pub loot_crate: LootCrate,
    pub delta_time: u64,
    pub last_frame_time: Option<u64>,
    pub game_over: bool,
    pub score: u32,
    pub food_score_value: u32,
    pub powerup_eligibility: bool,
    pub in_powerup_selection: bool,
    pub highlighted_powerup: Option<PowerupSlot>,
    pub selected_powerup: Option<Perk>,
    pub powerup_history: Seq<(u32, Perk)>,
    pub granted_thresholds: Seq<u32>,
    pub powerup_selection_keys: SelectionKeys,
    pub background: Background,
    pub loot_crate_timer: u64,
    pub game_over_animation: GameOverAnimation,
}

impl View for GameState {
    type V = GameView;

    open spec fn view(&self) -> GameView {
        GameView {
            player: self.player@,
            food: self.food,
            loot_crate: self.loot_crate,
            delta_time: self.delta_time,
            last_frame_time: self.last_frame_time,
            game_over: self.game_over,
            score: self.score,
            food_score_value: self.food_score_value,
            powerup_eligibility: self.powerup_eligibility,
            in_powerup_selection: self.in_powerup_selection,
            highlighted_powerup: self.highlighted_powerup,
            selected_powerup: self.selected_powerup,
            powerup_history: self.powerup_history@,
            granted_thresholds: self.granted_thresholds@,
            powerup_selection_keys: self.powerup_selection_keys,
            background: self.background,
            loot_crate_timer: self.loot_crate_timer,
            game_over_animation: self.game_over_animation,
        }
    }
}

impl GameView {
    pub open spec fn wf(self) -> bool {
        &&& self.player.wf()
        &&& scores_unique(self.powerup_history)
    }
}

/// No score occurs twice in the history.
pub open spec fn scores_unique(h: Seq<(u32, Perk)>) -> bool {
    forall|i: int, j: int| 0 <= i < j < h.len() ==> #[trigger] h[i].0 != #[trigger] h[j].0
}

/// Whether the history has an entry for `score`.
pub open spec fn has_score(h: Seq<(u32, Perk)>, score: u32) -> bool {
    exists|i: int| 0 <= i < h.len() && #[trigger] h[i].0 == score
}

/// The history after recording `perk` at `score`: an entry for that score
/// takes the new perk in place; otherwise a new entry goes at the end.
pub open spec fn history_with(h: Seq<(u32, Perk)>, score: u32, perk: Perk) -> Seq<(u32, Perk)> {
    if has_score(h, score) {
        h.map_values(|e: (u32, Perk)| if e.0 == score { (score, perk) } else { e })
    } else {
        h.push((score, perk))
    }
}

/// Records `perk` as taken at `score`, keeping one entry per score.
pub fn record_powerup(history: &mut Vec<(u32, Perk)>, score: u32, perk: Perk)
    requires
        scores_unique(old(history)@),
    ensures
        final(history)@ == history_with(old(history)@, score, perk),
        scores_unique(final(history)@),
{
    let ghost h = history@;
    let mut i: usize = 0;
    while i < history.len()
        invariant
            history@ == h,
            h == old(history)@,
            scores_unique(h),
            0 <= i <= h.len(),
            forall|k: int| 0 <= k < i ==> #[trigger] h[k].0 != score,
        decreases h.len() - i,
    {
        if history[i].0 == score {
            history.set(i, (score, perk));
            assert(history@ =~= history_with(h, score, perk)) by {
                assert(has_score(h, score));
                assert forall|k: int| 0 <= k < h.len() implies #[trigger] history@[k] == history_with(h, score, perk)[k] by {
                    if k < i {
                        assert(h[k].0 != h[i as int].0);
                    } else if k > i {
                        assert(h[i as int].0 != h[k].0);
                    }
                }
            }
            return;
        }
        i = i + 1;
    }
    history.push((score, perk));
    assert(!has_score(h, score));
    assert(history@ =~= history_with(h, score, perk));
}

/// What one frame did, for the presentation layer.
#[derive(Clone, Copy, Debug, PartialEq, Eq, Structural)]
pub struct FrameReport {
    /// The game is over after this frame.
    pub game_over: bool,
    /// The snake ran into itself in this frame.
    pub crashed: bool,
    pub food_eaten: bool,
    /// The perk selection opened in this frame.
    pub selection_started: bool,
    /// The perk committed in this frame, if any.
    pub perk_chosen: Option<Perk>,
    /// The game-over sequence ended and a new run began.
    pub restarted: bool,
}

pub open spec fn quiet_report(game_over: bool) -> FrameReport {
    FrameReport {
        game_over,
        crashed: false,
        food_eaten: false,
        selection_started: false,
        perk_chosen: None,
        restarted: false,
    }
}

/// The sound a committed perk announces itself with.
pub open spec fn perk_sfx(p: Perk) -> SfxId {
    match p {
        Perk::NeedForSpeed => SfxId::Turbo,
        Perk::HungryWorm => SfxId::HungryWorm,
    }
}

/// The audio a frame asks for, in order: a crash stops the music and plays
/// its sound; eating plays a sound; an opening selection pauses the music and
/// announces itself; a committed perk plays its sound and resumes the music;
/// a restart starts the music.
pub open spec fn report_cues(r: FrameReport) -> Seq<AudioCue> {
    (if r.crashed {
        seq![AudioCue::StopMusic, AudioCue::PlaySfx(SfxId::Crash)]
    } else {
        Seq::empty()
    }) + (if r.food_eaten {
        seq![AudioCue::PlaySfx(SfxId::Eat)]
    } else {
        Seq::empty()
    }) + (if r.selection_started {
        seq![AudioCue::PauseMusic, AudioCue::PlaySfx(SfxId::NewPerk)]
    } else {
        Seq::empty()
    }) + (match r.perk_chosen {
        Some(p) => seq![AudioCue::PlaySfx(perk_sfx(p)), AudioCue::ResumeMusic],
        None => Seq::empty(),
    }) + (if r.restarted {
        seq![AudioCue::PlayMusic(MusicId::Music0)]
    } else {
        Seq::empty()
    })
}

impl FrameReport {
    /// The audio cues this frame asks the host to play, in order.
    pub fn audio_cues(&self) -> (r: Vec<AudioCue>)
        ensures
            r@ == report_cues(*self),
    {
        let mut r: Vec<AudioCue> = Vec::new();
        if self.crashed {
            r.push(AudioCue::StopMusic);
            r.push(AudioCue::PlaySfx(SfxId::Crash));
        }
        if self.food_eaten {
            r.push(AudioCue::PlaySfx(SfxId::Eat));
        }
        if self.selection_started {
            r.push(AudioCue::PauseMusic);
            r.push(AudioCue::PlaySfx(SfxId::NewPerk));
        }
        if let Some(p) = self.perk_chosen {
            let sfx = match p {
                Perk::NeedForSpeed => SfxId::Turbo,
                Perk::HungryWorm => SfxId::HungryWorm,
            };
            r.push(AudioCue::PlaySfx(sfx));
            r.push(AudioCue::ResumeMusic);
        }
        if self.restarted {
            r.push(AudioCue::PlayMusic(MusicId::Music0));
        }
        assert(r@ =~= report_cues(*self));
        r
    }
}

/// A game around `player`: nothing scored, food resting inactive at its start
/// position, no loot crate, no perk progress, all animations at their start.
pub open spec fn game_with(player: SnakeView) -> GameView {
    GameView {
        player,
        food: inactive_at(FOOD_START_X, FOOD_START_Y),
        loot_crate: inactive_at(0, 0),
        delta_time: 0,
        last_frame_time: None,
        game_over: false,
        score: 0,
        food_score_value: DEFAULT_FOOD_SCORE_VALUE,
        powerup_eligibility: false,
        in_powerup_selection: false,
        highlighted_powerup: None,
        selected_powerup: None,
        powerup_history: Seq::empty(),
        granted_thresholds: Seq::empty(),
        powerup_selection_keys: no_keys(),
        background: initial_background(),
        loot_crate_timer: 0,
        game_over_animation: initial_game_over_animation(),
    }
}

/// The state every run starts from.
pub open spec fn initial_game() -> GameView {
    game_with(initial_snake(START_X, START_Y, Direction::Right))
}

/// Length of a frame read at `now`: the time since the previous reading, a
/// fixed first-frame length when there is none, and zero if the clock went
/// backwards.
pub open spec fn frame_delta(last: Option<u64>, now: u64) -> u64 {
    match last {
        None => FIRST_FRAME_DELTA_MS,
        Some(l) => if now >= l {
            (now - l) as u64
        } else {
            0
        },
    }
}

pub open spec fn with_delta(s: GameView, now: u64) -> GameView {
    GameView { delta_time: frame_delta(s.last_frame_time, now), last_frame_time: Some(now), ..s }
}

/// Inactive food is placed at `position`; active food stays.
pub open spec fn food_spawned(s: GameView, position: Vector2D) -> GameView {
    if s.food.is_active {
        s
    } else {
        GameView { food: spawned_at(position), ..s }
    }
}

pub open spec fn snake_moved(s: GameView) -> GameView {
    GameView { player: moved_snake(s.player, s.delta_time), ..s }
}

/// The food check, followed on a pickup by the perk-threshold check.
pub open spec fn food_checked(s: GameView) -> GameView {
    let (p, f, score) = after_food_check(s.player, s.food, s.score, s.food_score_value);
    if food_is_eaten(s.player, s.food) {
        match first_new_threshold(score, s.granted_thresholds) {
            Some(t) => GameView {
                player: p,
                food: f,
                score,
                granted_thresholds: s.granted_thresholds.push(t),
                powerup_eligibility: true,
                ..s
            },
            None => GameView { player: p, food: f, score, ..s },
        }
    } else {
        GameView { player: p, food: f, score, ..s }
    }
}

/// The loot-crate timer: once its interval has passed with no crate active,
/// it restarts and a spawn is attempted, which succeeds when the roll falls
/// under the spawn chance.
pub open spec fn crate_timer_checked(s: GameView, rolls: SpawnRolls) -> GameView {
    let t = saturating_sum(s.loot_crate_timer, s.delta_time);
    if t >= LOOT_CRATE_CHECK_INTERVAL_MS && !s.loot_crate.is_active {
        if rolls.crate_chance < LOOT_CRATE_SPAWN_CHANCE {
            GameView { loot_crate_timer: 0, loot_crate: spawned_at(rolls.crate_position), ..s }
        } else {
            GameView { loot_crate_timer: 0, ..s }
        }
    } else {
        GameView { loot_crate_timer: t, ..s }
    }
}

pub open spec fn crate_checked(s: GameView) -> GameView {
    if crate_is_collected(s.player, s.loot_crate) {
        GameView {
            loot_crate: LootCrate { is_active: false, ..s.loot_crate },
            powerup_eligibility: true,
            in_powerup_selection: true,
            highlighted_powerup: Some(PowerupSlot::First),
            ..s
        }
    } else {
        s
    }
}

/// Sprite timers of food, loot crate, body and head.
pub open spec fn sprites_animated(s: GameView) -> GameView {
    GameView {
        food: pickup_animated(s.food, s.delta_time, FOOD_FRAME_MS),
        loot_crate: pickup_animated(s.loot_crate, s.delta_time, LOOT_CRATE_FRAME_MS),
        player: head_animated(body_animated(s.player, s.delta_time), s.delta_time),
        ..s
    }
}

/// Eligibility opens the selection, with the first option highlighted.
pub open spec fn selection_opened(s: GameView) -> GameView {
    if s.powerup_eligibility && !s.in_powerup_selection {
        GameView { in_powerup_selection: true, highlighted_powerup: Some(PowerupSlot::First), ..s }
    } else {
        s
    }
}

/// The state after the self-collision check of a frame in normal play:
/// food spawned, background advanced, snake moved.
pub open spec fn play_prefix(s: GameView, rolls: SpawnRolls) -> GameView {
    let s1 = food_spawned(s, rolls.food_position);
    let s2 = GameView { background: background_after(s1.background, s1.delta_time), ..s1 };
    snake_moved(s2)
}

/// One frame of normal play, after the delta bookkeeping.
pub open spec fn play_frame(s: GameView, rolls: SpawnRolls) -> (GameView, FrameReport) {
    let s3 = play_prefix(s, rolls);
    if head_hits_body(s3.player.body) {
        (
            GameView { game_over: true, ..s3 },
            FrameReport { crashed: true, ..quiet_report(true) },
        )
    } else {
        let s4 = food_checked(s3);
        let s5 = crate_checked(crate_timer_checked(s4, rolls));
        let s6 = selection_opened(sprites_animated(s5));
        (
            s6,
            FrameReport {
                food_eaten: food_is_eaten(s3.player, s3.food),
                selection_started: s6.in_powerup_selection,
                ..quiet_report(false)
            },
        )
    }
}

/// One frame of the open selection: pending input is handled, and a
/// committed perk takes effect and is recorded with the current score.
pub open spec fn selection_frame(s: GameView) -> (GameView, FrameReport) {
    let o = selection_outcome(
        s.powerup_selection_keys,
        s.highlighted_powerup,
        s.selected_powerup,
        s.powerup_eligibility,
        s.in_powerup_selection,
    );
    let s1 = GameView {
        powerup_selection_keys: o.keys,
        highlighted_powerup: o.highlighted,
        selected_powerup: o.selected,
        powerup_eligibility: o.eligibility,
        in_powerup_selection: o.in_selection,
        ..s
    };
    if o.committed {
        let p = o.selected.unwrap();
        let (mi, fv) = perk_effect(p, s.player.move_interval, s.food_score_value);
        (
            GameView {
                player: SnakeView { move_interval: mi, ..s.player },
                food_score_value: fv,
                powerup_history: history_with(s.powerup_history, s.score, p),
                ..s1
            },
            FrameReport { perk_chosen: Some(p), ..quiet_report(false) },
        )
    } else {
        (s1, quiet_report(false))
    }
}

/// One frame after game over: the darkening advances, and once it has run
/// its course the game restarts.
pub open spec fn game_over_frame(s: GameView) -> (GameView, FrameReport) {
    if game_over_finished(s.game_over_animation, s.delta_time) {
        (initial_game(), FrameReport { restarted: true, ..quiet_report(false) })
    } else {
        (
            GameView {
                game_over_animation: game_over_animated(s.game_over_animation, s.delta_time),
                ..s
            },
            quiet_report(true),
        )
    }
}

/// The state after a key press: on the game-over screen `Space` starts a new
/// run and other keys do nothing; during the selection the key is queued;
/// otherwise it may steer the snake.
pub open spec fn key_pressed(s: GameView, code: Seq<char>) -> GameView {
    if s.game_over {
        if code == "Space"@ {
            initial_game()
        } else {
            s
        }
    } else if s.in_powerup_selection {
        GameView {
            powerup_selection_keys: recorded(s.powerup_selection_keys, key_of(code)),
            ..s
        }
    } else {
        GameView {
            player: SnakeView { direction: steered(s.player.direction, key_of(code)), ..s.player },
            ..s
        }
    }
}

/// One whole frame read at clock `now` with the random values `rolls`.
pub open spec fn frame(s: GameView, now: u64, rolls: SpawnRolls) -> (GameView, FrameReport) {
    let s1 = with_delta(s, now);
    if s1.game_over {
        game_over_frame(s1)
    } else if s1.in_powerup_selection {
        selection_frame(s1)
    } else {
        play_frame(s1, rolls)
    }
}

/// Places inactive food; the pipeline's food spawner.
pub struct SpawnFood;

impl SpawnFood {
    pub fn execute(&self, game_state: &mut GameState, position: Vector2D)
        ensures
            final(game_state)@ == food_spawned(old(game_state)@, position),
    {
        if !game_state.food.is_active {
            game_state.food.spawn(position);
        }
    }
}

/// The pipeline's movement step.
pub struct ModifyCoordinatesOfBodyParts;

impl ModifyCoordinatesOfBodyParts {
    pub fn execute(&self, game_state: &mut GameState)
        requires
            old(game_state)@.wf(),
        ensures
            final(game_state)@ == snake_moved(old(game_state)@),
    {
        update_snake_movement(&mut game_state.player, game_state.delta_time);
    }
}

impl CheckSelfCollision {
    /// Ends the game when the head overlaps another segment; returns whether
    /// it did.
    pub fn execute(&self, game_state: &mut GameState) -> (r: bool)
        requires
            old(game_state)@.wf(),
        ensures
            r == head_hits_body(old(game_state)@.player.body),
            final(game_state)@ == (if r {
                GameView { game_over: true, ..old(game_state)@ }
            } else {
                old(game_state)@
            }),
    {
        if check_self_collision(&game_state.player) {
            game_state.game_over = true;
            true
        } else {
            false
        }
    }
}

/// The pipeline's food check, including the perk-threshold check on a pickup.
pub struct CheckIfFoodWasEaten;

impl CheckIfFoodWasEaten {
    pub fn execute(&self, game_state: &mut GameState) -> (r: bool)
        requires
            old(game_state)@.wf(),
        ensures
            final(game_state)@ == food_checked(old(game_state)@),
            r == food_is_eaten(old(game_state)@.player, old(game_state)@.food),
    {
        let eaten = check_food_collision(
            &mut game_state.player,
            &mut game_state.food,
            &mut game_state.score,
            game_state.food_score_value,
        );
        if eaten {
            check_perk_eligibility(
                game_state.score,
                &mut game_state.granted_thresholds,
                &mut game_state.powerup_eligibility,
            );
        }
        eaten
    }
}

/// The pipeline's game-over handling: the darkening, then the restart.
pub struct CheckGameOver;

impl CheckGameOver {
    pub fn execute(&self, game_state: &mut GameState) -> (r: FrameReport)
        requires
            old(game_state)@.wf(),
        ensures
            final(game_state)@.wf(),
            (final(game_state)@, r) == game_over_frame(old(game_state)@),
    {
        if update_game_over_animation(&mut game_state.game_over_animation, game_state.delta_time) {
            game_state.restart_level();
            FrameReport {
                game_over: false,
                crashed: false,
                food_eaten: false,
                selection_started: false,
                perk_chosen: None,
                restarted: true,
            }
        } else {
            FrameReport {
                game_over: true,
                crashed: false,
                food_eaten: false,
                selection_started: false,
                perk_chosen: None,
                restarted: false,
            }
        }
    }
}

impl GameState {
    /// A game around `player`, with everything else at its start.
    pub fn new(player: Snake) -> (r: GameState)
        ensures
            r@ == game_with(player@),
    {
        let r = GameState {
            player,
            food: Collectible::inactive(FOOD_START_X, FOOD_START_Y),
            loot_crate: Collectible::inactive(0, 0),
            delta_time: 0,
            last_frame_time: None,
            game_over: false,
            score: 0,
            food_score_value: DEFAULT_FOOD_SCORE_VALUE,
            powerup_eligibility: false,
            in_powerup_selection: false,
            highlighted_powerup: None,
            selected_powerup: None,
            powerup_history: Vec::new(),
            granted_thresholds: Vec::new(),
            powerup_selection_keys: SelectionKeys::none(),
            background: Background::new(),
            loot_crate_timer: 0,
            game_over_animation: GameOverAnimation::new(),
        };
        assert(r@.powerup_history =~= Seq::empty());
        assert(r@.granted_thresholds =~= Seq::empty());
        r
    }

    /// A game at the start of a run.
    pub fn start() -> (r: GameState)
        ensures
            r@ == initial_game(),
            r@.wf(),
    {
        GameState::new(Snake::new(START_X, START_Y, Direction::Right))
    }

    /// Replaces the whole state by the start of a new run: score zero, the
    /// initial three-segment snake, food inactive at its start position, all
    /// animations at their first frame and no perk progress.
    pub fn restart_level(&mut self)
        ensures
            final(self)@ == initial_game(),
    {
        *self = GameState::start();
    }

    /// Records the clock reading `now_ms` and the length of this frame.
    pub fn update_delta_time(&mut self, now_ms: u64)
        ensures
            final(self)@ == with_delta(old(self)@, now_ms),
    {
        self.delta_time = match self.last_frame_time {
            None => FIRST_FRAME_DELTA_MS,
            Some(last) => if now_ms >= last {
                now_ms - last
            } else {
                0
            },
        };
        self.last_frame_time = Some(now_ms);
    }

    fn check_loot_crate_timer(&mut self, rolls: &SpawnRolls)
        ensures
            final(self)@ == crate_timer_checked(old(self)@, *rolls),
    {
        let t = self.loot_crate_timer.saturating_add(self.delta_time);
        if t >= LOOT_CRATE_CHECK_INTERVAL_MS && !self.loot_crate.is_active {
            self.loot_crate_timer = 0;
            if rolls.crate_chance < LOOT_CRATE_SPAWN_CHANCE {
                self.loot_crate.spawn(rolls.crate_position);
            }
        } else {
            self.loot_crate_timer = t;
        }
    }

    fn animate_sprites(&mut self)
        ensures
            final(self)@ == sprites_animated(old(self)@),
    {
        AlternateBetweenFoodSpriteFrames.execute(&mut self.food, self.delta_time);
        update_loot_crate_sprite_animation(&mut self.loot_crate, self.delta_time);
        AlternateBodySpriteFrameIndex.execute(&mut self.player, self.delta_time);
        AlternateHeadSpriteFrameIndex.execute(&mut self.player, self.delta_time);
    }

    /// One frame of normal play lasting `delta_time` milliseconds: food
    /// spawn, background, movement, self-collision (which ends the frame on a
    /// hit), food, loot crate, sprite timers, and the opening of the perk
    /// selection.
    pub fn update_game_logic(&mut self, delta_time: u64, rolls: &SpawnRolls) -> (r: FrameReport)
        requires
            old(self)@.wf(),
        ensures
            (final(self)@, r) == play_frame(GameView { delta_time, ..old(self)@ }, *rolls),
            final(self)@.wf(),
    {
        self.delta_time = delta_time;
        SpawnFood.execute(self, rolls.food_position);
        update_background_animation(&mut self.background, self.delta_time);
        ModifyCoordinatesOfBodyParts.execute(self);
        if CheckSelfCollision.execute(self) {
            return FrameReport {
                game_over: true,
                crashed: true,
                food_eaten: false,
                selection_started: false,
                perk_chosen: None,
                restarted: false,
            };
        }
        let food_eaten = CheckIfFoodWasEaten.execute(self);
        self.check_loot_crate_timer(rolls);
        check_loot_crate_collision(
            &self.player,
            &mut self.loot_crate,
            &mut self.powerup_eligibility,
            &mut self.in_powerup_selection,
            &mut self.highlighted_powerup,
        );
        self.animate_sprites();
        if self.powerup_eligibility && !self.in_powerup_selection {
            self.in_powerup_selection = true;
            self.highlighted_powerup = Some(PowerupSlot::First);
        }
        FrameReport {
            game_over: false,
            crashed: false,
            food_eaten,
            selection_started: self.in_powerup_selection,
            perk_chosen: None,
            restarted: false,
        }
    }

    /// One frame of the open selection: handles the pending input and, on a
    /// commit, applies the perk and records it with the current score.
    pub fn handle_powerup_selection(&mut self) -> (r: FrameReport)
        requires
            old(self)@.wf(),
        ensures
            final(self)@.wf(),
            (final(self)@, r) == selection_frame(old(self)@),
    {
        let committed = handle_powerup_selection(
            &mut self.powerup_selection_keys,
            &mut self.highlighted_powerup,
            &mut self.selected_powerup,
            &mut self.powerup_eligibility,
            &mut self.in_powerup_selection,
        );
        if committed {
            match self.selected_powerup {
                Some(p) => {
                    apply_powerup_effect(&p, &mut self.player.move_interval, &mut self.food_score_value);
                    record_powerup(&mut self.powerup_history, self.score, p);
                    FrameReport {
                        game_over: false,
                        crashed: false,
                        food_eaten: false,
                        selection_started: false,
                        perk_chosen: Some(p),
                        restarted: false,
                    }
                },
                None => FrameReport {
                    game_over: false,
                    crashed: false,
                    food_eaten: false,
                    selection_started: false,
                    perk_chosen: None,
                    restarted: false,
                },
            }
        } else {
            FrameReport {
                game_over: false,
                crashed: false,
                food_eaten: false,
                selection_started: false,
                perk_chosen: None,
                restarted: false,
            }
        }
    }

    /// One whole frame read at clock `now_ms`, with `rolls` as its random
    /// values: after game over the darkening runs, during the selection the
    /// input is handled, otherwise the game plays.
    pub fn advance_frame(&mut self, now_ms: u64, rolls: &SpawnRolls) -> (r: FrameReport)
        requires
            old(self)@.wf(),
        ensures
            (final(self)@, r) == frame(old(self)@, now_ms, *rolls),
            final(self)@.wf(),
    {
        self.update_delta_time(now_ms);
        if self.game_over {
            CheckGameOver.execute(self)
        } else if self.in_powerup_selection {
            self.handle_powerup_selection()
        } else {
            let delta = self.delta_time;
            self.update_game_logic(delta, rolls)
        }
    }

    /// One whole frame read at clock `now_ms`, with freshly drawn random values.
    pub fn tick(&mut self, now_ms: u64) -> (r: FrameReport)
        requires
            old(self)@.wf(),
        ensures
            exists|rolls: SpawnRolls|
                rolls.valid() && (final(self)@, r) == #[trigger] frame(old(self)@, now_ms, rolls),
            final(self)@.wf(),
    {
        let rolls = draw_spawn_rolls();
        self.advance_frame(now_ms, &rolls)
    }

    /// A key press: on the game-over screen `Space` restarts the game
    /// (returns `true`); otherwise the key steers or feeds the selection.
    pub fn handle_key_down(&mut self, key_code: &str) -> (r: bool)
        ensures
            r == (old(self)@.game_over && key_code@ == "Space"@),
            final(self)@ == key_pressed(old(self)@, key_code@),
    {
        if self.game_over {
            if handle_game_over_input(key_code) {
                self.restart_level();
                return true;
            }
            return false;
        }
        handle_key_down(
            key_code,
            &mut self.player.direction,
            self.game_over,
            self.in_powerup_selection,
            &mut self.powerup_selection_keys,
        );
        false
    }
}

} // verus!
