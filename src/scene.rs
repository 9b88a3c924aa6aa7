//! Where each game sprite goes on the art buffer.
use vstd::prelude::*;
use crate::collectible::Collectible;
use crate::game::{GameState, GameView};
use crate::constants::ART_WIDTH;
use crate::draw::{draw_shaded, drawn, Shade};
use crate::geometry::{Direction, Vector2D};
use crate::perks::{default_powerups, PowerupSlot};
use crate::render::{get_powerup_sprite_indices, powerup_sprite_index};
use crate::snake::{Snake, SnakeView};
use crate::sprites::{SpriteFrame, SpriteMaps};

verus! {

/// Which sprite sheet a placement draws from.
#[derive(Clone, Copy, Debug, PartialEq, Eq, Structural)]
pub enum SpriteLayer {
    Head,
    Body,
    Tail,
    Food,
    LootCrate,
    Stars,
    Planet,
    GameOverScreen,
    Powerups,
    ChoosePowerup,
}

/// One sprite frame to draw with its top-left corner at `(x, y)`.
#[derive(Clone, Copy, Debug, PartialEq, Eq, Structural)]
pub struct Placement {
    pub layer: SpriteLayer,
    pub frame: usize,
    pub x: usize,
    pub y: usize,
    pub shade: Shade,
}

/// A coordinate on the art buffer; positions left of or above it clamp to 0.
pub open spec fn screen_coordinate(v: int) -> usize {
    if v < 0 {
        0
    } else {
        v as usize
    }
}

/// How far the head sprite is shifted up and left, so that its artwork
/// meets the neck for each heading.
pub open spec fn head_offset(d: Direction) -> int {
    match d {
        Direction::Right => 0,
        Direction::Left => 10,
        Direction::Up => 7,
        Direction::Down => 0,
    }
}

/// The tail frame: one for right and up, the other for left and down.
pub open spec fn tail_frame(d: Direction) -> usize {
    match d {
        Direction::Right | Direction::Up => 0,
        _ => 1,
    }
}

pub open spec fn at(layer: SpriteLayer, frame: usize, p: Vector2D, offset: int) -> Placement {
    Placement {
        layer,
        frame,
        x: screen_coordinate(p.x - offset),
        y: screen_coordinate(p.y - offset),
        shade: Shade::Plain,
    }
}

/// The snake's sprites in drawing order: the head (its current frame,
/// shifted for the heading), then every segment between head and tail, then
/// the tail when the snake is longer than its head.
pub open spec fn snake_scene(s: SnakeView) -> Seq<Placement> {
    let n = s.body.len();
    let middle = if n >= 2 {
        (n - 2) as nat
    } else {
        0
    };
    seq![at(SpriteLayer::Head, s.head_sprite_frame_index, s.body[0], head_offset(s.direction))]
        + Seq::new(middle, |i: int| at(SpriteLayer::Body, 0, s.body[i + 1], 0)) + (if n > 1 {
        seq![at(SpriteLayer::Tail, tail_frame(s.direction), s.body[n - 1], 0)]
    } else {
        Seq::empty()
    })
}

fn to_screen(v: i32, offset: i32) -> (r: usize)
    requires
        0 <= offset <= 10,
    ensures
        r == screen_coordinate(v - offset),
{
    let w: i64 = v as i64 - offset as i64;
    if w < 0 {
        0
    } else {
        w as usize
    }
}

fn place(layer: SpriteLayer, frame: usize, p: Vector2D, offset: i32) -> (r: Placement)
    requires
        0 <= offset <= 10,
    ensures
        r == at(layer, frame, p, offset as int),
{
    Placement {
        layer,
        frame,
        x: to_screen(p.x, offset),
        y: to_screen(p.y, offset),
        shade: Shade::Plain,
    }
}

/// The sprites that draw the snake, in drawing order.
pub fn snake_placements(player: &Snake) -> (r: Vec<Placement>)
    requires
        player@.wf(),
    ensures
        r@ == snake_scene(player@),
{
    let n = player.body.len();
    let offset: i32 = match player.direction {
        Direction::Right => 0,
        Direction::Left => 10,
        Direction::Up => 7,
        Direction::Down => 0,
    };
    let mut r: Vec<Placement> = Vec::new();
    r.push(place(SpriteLayer::Head, player.head_sprite_frame_index, player.body[0], offset));
    let mut i: usize = 1;
    while i + 1 < n
        invariant
            n == player.body@.len(),
            n >= 1,
            1 <= i,
            i + 1 <= n || i == 1,
            r@.len() == i,
            r@[0] == at(SpriteLayer::Head, player.head_sprite_frame_index, player.body@[0], head_offset(player.direction)),
            forall|k: int| 1 <= k < i ==> #[trigger] r@[k] == at(SpriteLayer::Body, 0, player.body@[k], 0),
        decreases n - i,
    {
        r.push(place(SpriteLayer::Body, 0, player.body[i], 0));
        i = i + 1;
    }
    if n > 1 {
        let frame: usize = match player.direction {
            Direction::Right | Direction::Up => 0,
            _ => 1,
        };
        r.push(place(SpriteLayer::Tail, frame, player.body[n - 1], 0));
    }
    assert(r@ =~= snake_scene(player@));
    r
}

/// The sprite that draws a pickup, if it is active.
pub open spec fn pickup_scene(c: Collectible, layer: SpriteLayer) -> Option<Placement> {
    if c.is_active {
        Some(at(layer, c.sprite_frame_index, c.position, 0))
    } else {
        None
    }
}

/// The sprite that draws a pickup, if it is active.
pub fn pickup_placement(pickup: &Collectible, layer: SpriteLayer) -> (r: Option<Placement>)
    ensures
        r == pickup_scene(*pickup, layer),
{
    if pickup.is_active {
        Some(place(layer, pickup.sprite_frame_index, pickup.position, 0))
    } else {
        None
    }
}

/// The frames a layer draws from.
pub open spec fn layer_frames(m: &SpriteMaps, layer: SpriteLayer) -> Seq<SpriteFrame> {
    match layer {
        SpriteLayer::Head => m.head@,
        SpriteLayer::Body => m.body@,
        SpriteLayer::Tail => m.tail@,
        SpriteLayer::Food => m.food@,
        SpriteLayer::LootCrate => m.loot_crate@,
        SpriteLayer::Stars => m.stars@,
        SpriteLayer::Planet => m.planet@,
        SpriteLayer::GameOverScreen => m.game_over_screen@,
        SpriteLayer::Powerups => m.powerups@,
        SpriteLayer::ChoosePowerup => m.choose_powerup@,
    }
}

fn frames_of(m: &SpriteMaps, layer: SpriteLayer) -> (r: &Vec<SpriteFrame>)
    ensures
        r@ == layer_frames(m, layer),
{
    match layer {
        SpriteLayer::Head => &m.head,
        SpriteLayer::Body => &m.body,
        SpriteLayer::Tail => &m.tail,
        SpriteLayer::Food => &m.food,
        SpriteLayer::LootCrate => &m.loot_crate,
        SpriteLayer::Stars => &m.stars,
        SpriteLayer::Planet => &m.planet,
        SpriteLayer::GameOverScreen => &m.game_over_screen,
        SpriteLayer::Powerups => &m.powerups,
        SpriteLayer::ChoosePowerup => &m.choose_powerup,
    }
}

/// The frame a placement draws: its index clamped to the last frame loaded;
/// none when the layer has no frames or the frame's pixels are short.
pub open spec fn placed_frame(m: &SpriteMaps, p: Placement) -> Option<SpriteFrame> {
    let frames = layer_frames(m, p.layer);
    if frames.len() == 0 {
        None
    } else {
        let f = if p.frame < frames.len() {
            frames[p.frame as int]
        } else {
            frames.last()
        };
        if f.data@.len() >= f.width * f.height {
            Some(f)
        } else {
            None
        }
    }
}

/// The art buffer after drawing one placement.
pub open spec fn painted_one(buf: Seq<u32>, m: &SpriteMaps, p: Placement) -> Seq<u32> {
    match placed_frame(m, p) {
        None => buf,
        Some(f) => Seq::new(buf.len(), |j: int| drawn(p.x, p.y, f, buf, ART_WIDTH, p.shade, j)),
    }
}

/// The art buffer after drawing the placements in order, later ones over
/// earlier ones.
pub open spec fn painted(buf: Seq<u32>, m: &SpriteMaps, ps: Seq<Placement>) -> Seq<u32>
    decreases ps.len(),
{
    if ps.len() == 0 {
        buf
    } else {
        painted_one(painted(buf, m, ps.drop_last()), m, ps.last())
    }
}

/// Draws the placements in order onto the art buffer.
pub fn draw_placements(art_buffer: &mut [u32], sprites: &SpriteMaps, placements: &Vec<Placement>)
    ensures
        final(art_buffer)@ == painted(old(art_buffer)@, sprites, placements@),
{
    let mut i: usize = 0;
    while i < placements.len()
        invariant
            0 <= i <= placements@.len(),
            art_buffer@ == painted(old(art_buffer)@, sprites, placements@.subrange(0, i as int)),
        decreases placements@.len() - i,
    {
        let ghost prev = art_buffer@;
        let p = placements[i];
        let frames = frames_of(sprites, p.layer);
        if frames.len() > 0 {
            let k = if p.frame < frames.len() {
                p.frame
            } else {
                frames.len() - 1
            };
            let f = &frames[k];
            assert(f.width as u64 * f.height as u64 <= u64::MAX) by (nonlinear_arith)
                requires
                    f.width <= u32::MAX,
                    f.height <= u32::MAX,
            ;
            if f.data.len() as u64 >= f.width as u64 * f.height as u64 {
                draw_shaded(p.x, p.y, f, art_buffer, ART_WIDTH, p.shade);
                assert(art_buffer@ =~= painted_one(prev, sprites, p));
            }
        }
        assert(placements@.subrange(0, i + 1).drop_last() =~= placements@.subrange(0, i as int));
        i = i + 1;
    }
    assert(placements@.subrange(0, placements@.len() as int) =~= placements@);
}

/// Colour the art buffer is cleared to under the background.
pub const BACKGROUND_COLOR: u32 = 0xFF00_1122;

/// The star layer scrolls at one twelfth of the scroll offset.
pub const PARALLAX_DIVISOR: usize = 12;

/// How many copies of a star frame `width` pixels wide, shifted left by
/// `shift`, it takes to cover the art buffer's width.
pub open spec fn star_tile_count(width: int, shift: int) -> int {
    (ART_WIDTH + shift + width - 1) / width
}

/// The background in drawing order: star tiles scrolled left by the
/// parallax shift (the first one clamped to the left edge), then the globe
/// under its shadow gradient. A layer with no frames is left out.
pub open spec fn background_scene(m: &SpriteMaps, stars_offset_x: usize, stars_sprite_frame_index: usize, globe_sprite_frame_index: usize) -> Seq<Placement> {
    let stars = m.stars@;
    let planet = m.planet@;
    let star_part = if stars.len() == 0 {
        Seq::empty()
    } else {
        let f = (stars_sprite_frame_index as int) % (stars.len() as int);
        let w = stars[f as int].width as int;
        if w == 0 {
            Seq::empty()
        } else {
            let shift = (stars_offset_x / PARALLAX_DIVISOR) as int % w;
            Seq::new(
                star_tile_count(w, shift) as nat,
                |k: int|
                    Placement {
                        layer: SpriteLayer::Stars,
                        frame: f as usize,
                        x: screen_coordinate(k * w - shift),
                        y: 0,
                        shade: Shade::Plain,
                    },
            )
        }
    };
    let globe_part = if planet.len() == 0 {
        Seq::empty()
    } else {
        seq![
            Placement {
                layer: SpriteLayer::Planet,
                frame: ((globe_sprite_frame_index as int) % (planet.len() as int)) as usize,
                x: 0,
                y: 0,
                shade: Shade::Gradient,
            },
        ]
    };
    star_part + globe_part
}

proof fn lemma_tile_count(w: int, shift: int, k: int)
    requires
        w > 0,
        0 <= shift < w,
        k >= 0,
        (k - 1) * w - shift < ART_WIDTH || k == 0,
        k * w - shift >= ART_WIDTH,
    ensures
        k == star_tile_count(w, shift),
{
    assert(k == (ART_WIDTH + shift + w - 1) / w) by (nonlinear_arith)
        requires
            w > 0,
            0 <= shift < w,
            k >= 0,
            (k - 1) * w - shift < 256 || k == 0,
            k * w - shift >= 256,
    ;
}

/// The background's placements.
pub fn background_placements(
    sprites: &SpriteMaps,
    stars_offset_x: usize,
    stars_sprite_frame_index: usize,
    globe_sprite_frame_index: usize,
) -> (r: Vec<Placement>)
    ensures
        r@ == background_scene(sprites, stars_offset_x, stars_sprite_frame_index, globe_sprite_frame_index),
{
    let mut r: Vec<Placement> = Vec::new();
    if sprites.stars.len() > 0 {
        let f = stars_sprite_frame_index % sprites.stars.len();
        let w = sprites.stars[f].width as usize;
        if w > 0 {
            let shift = (stars_offset_x / PARALLAX_DIVISOR) % w;
            let ghost tiles = Seq::new(
                star_tile_count(w as int, shift as int) as nat,
                |k: int|
                    Placement {
                        layer: SpriteLayer::Stars,
                        frame: f,
                        x: screen_coordinate(k * w - shift),
                        y: 0,
                        shade: Shade::Plain,
                    },
            );
            let mut k: usize = 0;
            let mut x_pos: i64 = -(shift as i64);
            while x_pos < ART_WIDTH as i64
                invariant
                    w > 0,
                    w <= u32::MAX,
                    shift < w,
                    x_pos == k * w - shift,
                    (k - 1) * w - shift < ART_WIDTH || k == 0,
                    k <= ART_WIDTH + 1,
                    r@.len() == k,
                    forall|i: int| 0 <= i < k ==> #[trigger] r@[i] == (Placement {
                        layer: SpriteLayer::Stars,
                        frame: f,
                        x: screen_coordinate(i * w - shift),
                        y: 0,
                        shade: Shade::Plain,
                    }),
                decreases ART_WIDTH + 1 - k,
            {
                let x: usize = if x_pos < 0 {
                    0
                } else {
                    x_pos as usize
                };
                r.push(Placement { layer: SpriteLayer::Stars, frame: f, x, y: 0, shade: Shade::Plain });
                assert(k * w + w - shift < ART_WIDTH + w) by (nonlinear_arith)
                    requires
                        k * w - shift < ART_WIDTH,
                ;
                assert((k + 1) * w == k * w + w) by (nonlinear_arith);
                assert(k + 1 <= ART_WIDTH + 1) by (nonlinear_arith)
                    requires
                        k * w - shift < 256,
                        w >= 1,
                        0 <= shift < w,
                        k >= 0,
                ;
                x_pos = x_pos + w as i64;
                k = k + 1;
            }
            proof {
                lemma_tile_count(w as int, shift as int, k as int);
            }
            assert(r@ =~= tiles);
        }
    }
    if sprites.planet.len() > 0 {
        r.push(
            Placement {
                layer: SpriteLayer::Planet,
                frame: globe_sprite_frame_index % sprites.planet.len(),
                x: 0,
                y: 0,
                shade: Shade::Gradient,
            },
        );
    }
    assert(r@ =~= background_scene(
        sprites,
        stars_offset_x,
        stars_sprite_frame_index,
        globe_sprite_frame_index,
    ));
    r
}

/// Sets every pixel of the buffer to `color`.
pub fn fill_buffer(buffer: &mut [u32], color: u32)
    ensures
        final(buffer)@ == Seq::new(old(buffer)@.len(), |j: int| color),
{
    let mut i: usize = 0;
    while i < buffer.len()
        invariant
            0 <= i <= buffer@.len(),
            buffer@.len() == old(buffer)@.len(),
            forall|j: int| 0 <= j < i ==> #[trigger] buffer@[j] == color,
        decreases buffer@.len() - i,
    {
        buffer[i] = color;
        i = i + 1;
    }
    assert(buffer@ =~= Seq::new(old(buffer)@.len(), |j: int| color));
}

/// Clears the art buffer and draws the scrolling star layer and the shaded
/// globe.
pub fn draw_parallax_background(
    art_buffer: &mut [u32],
    sprites: &SpriteMaps,
    stars_offset_x: usize,
    stars_sprite_frame_index: usize,
    globe_sprite_frame_index: usize,
)
    ensures
        final(art_buffer)@ == painted(
            Seq::new(old(art_buffer)@.len(), |j: int| BACKGROUND_COLOR),
            sprites,
            background_scene(sprites, stars_offset_x, stars_sprite_frame_index, globe_sprite_frame_index),
        ),
{
    fill_buffer(art_buffer, BACKGROUND_COLOR);
    let placements = background_placements(
        sprites,
        stars_offset_x,
        stars_sprite_frame_index,
        globe_sprite_frame_index,
    );
    draw_placements(art_buffer, sprites, &placements);
}

/// Draws the snake: head, body segments, tail.
pub fn draw_snake(art_buffer: &mut [u32], player: &Snake, sprites: &SpriteMaps)
    requires
        player@.wf(),
    ensures
        final(art_buffer)@ == painted(old(art_buffer)@, sprites, snake_scene(player@)),
{
    let placements = snake_placements(player);
    draw_placements(art_buffer, sprites, &placements);
}

/// The placements of an optional pickup.
pub open spec fn optional_scene(p: Option<Placement>) -> Seq<Placement> {
    match p {
        Some(q) => seq![q],
        None => Seq::empty(),
    }
}

/// Draws a pickup on `layer` if it is active.
pub fn draw_pickup(art_buffer: &mut [u32], pickup: &Collectible, layer: SpriteLayer, sprites: &SpriteMaps)
    ensures
        final(art_buffer)@ == painted(old(art_buffer)@, sprites, optional_scene(pickup_scene(*pickup, layer))),
{
    let mut placements: Vec<Placement> = Vec::new();
    if let Some(p) = pickup_placement(pickup, layer) {
        placements.push(p);
    }
    assert(placements@ =~= optional_scene(pickup_scene(*pickup, layer)));
    draw_placements(art_buffer, sprites, &placements);
}

/// Darkness of a perk card: highlighted cards are lighter.
pub open spec fn card_shade(highlighted: Option<PowerupSlot>, slot: PowerupSlot) -> Shade {
    if highlighted == Some(slot) {
        Shade::Uniform(80)
    } else {
        Shade::Uniform(50)
    }
}

/// The selection screen: its banner across the top, then the two perk cards
/// side by side on the lower half, the highlighted one lighter.
pub open spec fn selection_scene(highlighted: Option<PowerupSlot>) -> Seq<Placement> {
    seq![
        Placement { layer: SpriteLayer::ChoosePowerup, frame: 0, x: 0, y: 0, shade: Shade::Plain },
        Placement {
            layer: SpriteLayer::Powerups,
            frame: powerup_sprite_index(default_powerups().0),
            x: 0,
            y: 112,
            shade: card_shade(highlighted, PowerupSlot::First),
        },
        Placement {
            layer: SpriteLayer::Powerups,
            frame: powerup_sprite_index(default_powerups().1),
            x: 128,
            y: 112,
            shade: card_shade(highlighted, PowerupSlot::Second),
        },
    ]
}

/// Draws the perk selection screen.
pub fn draw_powerup_selection_screen(
    art_buffer: &mut [u32],
    sprites: &SpriteMaps,
    highlighted_powerup: Option<PowerupSlot>,
)
    ensures
        final(art_buffer)@ == painted(old(art_buffer)@, sprites, selection_scene(highlighted_powerup)),
{
    let (first, second) = get_powerup_sprite_indices();
    let shade_first = if highlighted_powerup == Some(PowerupSlot::First) {
        Shade::Uniform(80)
    } else {
        Shade::Uniform(50)
    };
    let shade_second = if highlighted_powerup == Some(PowerupSlot::Second) {
        Shade::Uniform(80)
    } else {
        Shade::Uniform(50)
    };
    let placements = vec![
        Placement { layer: SpriteLayer::ChoosePowerup, frame: 0, x: 0, y: 0, shade: Shade::Plain },
        Placement { layer: SpriteLayer::Powerups, frame: first, x: 0, y: 112, shade: shade_first },
        Placement { layer: SpriteLayer::Powerups, frame: second, x: 128, y: 112, shade: shade_second },
    ];
    assert(placements@ =~= selection_scene(highlighted_powerup));
    draw_placements(art_buffer, sprites, &placements);
}

/// The game-over screen: frame `frame` of its sequence at `darkness`
/// percent, when that frame is loaded.
pub open spec fn game_over_scene(m: &SpriteMaps, frame: usize, darkness: u32) -> Seq<Placement> {
    if frame < m.game_over_screen@.len() {
        seq![
            Placement {
                layer: SpriteLayer::GameOverScreen,
                frame,
                x: 0,
                y: 0,
                shade: Shade::Uniform(darkness),
            },
        ]
    } else {
        Seq::empty()
    }
}

/// Draws step `game_over_frame` of the game-over sequence.
pub fn draw_game_over_screen(
    art_buffer: &mut [u32],
    sprites: &SpriteMaps,
    game_over_frame: usize,
    game_over_darkness: u32,
)
    ensures
        final(art_buffer)@ == painted(old(art_buffer)@, sprites, game_over_scene(sprites, game_over_frame, game_over_darkness)),
{
    let mut placements: Vec<Placement> = Vec::new();
    if game_over_frame < sprites.game_over_screen.len() {
        placements.push(
            Placement {
                layer: SpriteLayer::GameOverScreen,
                frame: game_over_frame,
                x: 0,
                y: 0,
                shade: Shade::Uniform(game_over_darkness),
            },
        );
    }
    assert(placements@ =~= game_over_scene(sprites, game_over_frame, game_over_darkness));
    draw_placements(art_buffer, sprites, &placements);
}

/// Everything drawn during normal play, in order: background, food, loot
/// crate, snake.
pub open spec fn play_scene(g: GameView, m: &SpriteMaps) -> Seq<Placement> {
    background_scene(
        m,
        g.background.stars_offset_x,
        g.background.stars_sprite_frame_index,
        g.background.globe_sprite_frame_index,
    ) + optional_scene(pickup_scene(g.food, SpriteLayer::Food)) + optional_scene(
        pickup_scene(g.loot_crate, SpriteLayer::LootCrate),
    ) + snake_scene(g.player)
}

/// Draws the current screen onto the art buffer: the game-over sequence,
/// the perk selection, or the playing field on a cleared background.
pub fn render_game(art_buffer: &mut [u32], game: &GameState, sprites: &SpriteMaps)
    requires
        game@.wf(),
    ensures
        game.game_over ==> final(art_buffer)@ == painted(
            old(art_buffer)@,
            sprites,
            game_over_scene(sprites, game.game_over_animation.frame, game.game_over_animation.darkness),
        ),
        !game.game_over && game.in_powerup_selection ==> final(art_buffer)@ == painted(
            old(art_buffer)@,
            sprites,
            selection_scene(game.highlighted_powerup),
        ),
        !game.game_over && !game.in_powerup_selection ==> final(art_buffer)@ == painted(
            Seq::new(old(art_buffer)@.len(), |j: int| BACKGROUND_COLOR),
            sprites,
            play_scene(game@, sprites),
        ),
{
    if game.game_over {
        draw_game_over_screen(
            art_buffer,
            sprites,
            game.game_over_animation.frame,
            game.game_over_animation.darkness,
        );
    } else if game.in_powerup_selection {
        draw_powerup_selection_screen(art_buffer, sprites, game.highlighted_powerup);
    } else {
        fill_buffer(art_buffer, BACKGROUND_COLOR);
        let mut placements = background_placements(
            sprites,
            game.background.stars_offset_x,
            game.background.stars_sprite_frame_index,
            game.background.globe_sprite_frame_index,
        );
        if let Some(p) = pickup_placement(&game.food, SpriteLayer::Food) {
            placements.push(p);
        }
        if let Some(p) = pickup_placement(&game.loot_crate, SpriteLayer::LootCrate) {
            placements.push(p);
        }
        let mut snake = snake_placements(&game.player);
        placements.append(&mut snake);
        assert(placements@ =~= play_scene(game@, sprites));
        draw_placements(art_buffer, sprites, &placements);
    }
}

} // verus!
