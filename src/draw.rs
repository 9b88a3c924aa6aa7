//! Compositing a sprite onto a pixel buffer with alpha blending and
//! optional darkening.
use vstd::prelude::*;
use crate::sprites::SpriteFrame;

verus! {

pub open spec fn alpha_of(p: u32) -> int {
    p as int / 0x100_0000
}

pub open spec fn red_of(p: u32) -> int {
    (p as int / 0x1_0000) % 0x100
}

pub open spec fn green_of(p: u32) -> int {
    (p as int / 0x100) % 0x100
}

pub open spec fn blue_of(p: u32) -> int {
    p as int % 0x100
}

/// A colour channel scaled to `percent` percent, capped at full intensity.
pub open spec fn scaled_channel(c: int, percent: u32) -> int {
    if c * percent / 100 > 255 {
        255
    } else {
        c * percent / 100
    }
}

/// A pixel with its colour channels scaled to `darkness` percent; alpha
/// stays. `None` leaves the pixel as it is.
pub open spec fn darkened(p: u32, darkness: Option<u32>) -> u32 {
    match darkness {
        None => p,
        Some(pct) => (alpha_of(p) * 0x100_0000 + scaled_channel(red_of(p), pct) * 0x1_0000
            + scaled_channel(green_of(p), pct) * 0x100 + scaled_channel(blue_of(p), pct)) as u32,
    }
}

/// How the colours of a drawn sprite are darkened.
#[derive(Clone, Copy, Debug, PartialEq, Eq, Structural)]
pub enum Shade {
    /// Colours stay as they are.
    Plain,
    /// Colours scaled to this many percent.
    Uniform(u32),
    /// The globe's shadow: from a little past the middle of the art buffer
    /// to the right, colours fall from 80 to 60 percent.
    Gradient,
}

/// Darkness of the globe's shadow at column `world_x`: none up to
/// `256 / 1.9`, then falling from 80 percent to 60 percent at `256 / 1.7`.
pub open spec fn gradient_darkness(world_x: int) -> Option<u32> {
    if 19 * world_x <= 2560 {
        None
    } else if 17 * (19 * world_x - 2560) / 256 >= 20 {
        Some(60)
    } else {
        Some((80 - 17 * (19 * world_x - 2560) / 256) as u32)
    }
}

/// Darkness applied to a sprite pixel drawn at column `world_x`.
pub open spec fn shade_darkness(shade: Shade, world_x: int) -> Option<u32> {
    match shade {
        Shade::Plain => None,
        Shade::Uniform(p) => Some(p),
        Shade::Gradient => gradient_darkness(world_x),
    }
}

fn darkness_at(shade: Shade, world_x: usize) -> (r: Option<u32>)
    ensures
        r == shade_darkness(shade, world_x as int),
{
    match shade {
        Shade::Plain => None,
        Shade::Uniform(p) => Some(p),
        Shade::Gradient => {
            if world_x <= 134 {
                None
            } else if world_x >= 151 {
                assert(17 * (19 * world_x - 2560) / 256 >= 20) by (nonlinear_arith)
                    requires
                        world_x >= 151,
                ;
                Some(60)
            } else {
                let d = (17 * (19 * world_x as u64 - 2560) / 256) as u32;
                if d >= 20 {
                    Some(60)
                } else {
                    Some(80 - d)
                }
            }
        },
    }
}

/// One channel of `fg` over `bg` at opacity `a` out of 255.
pub open spec fn mixed(fg: int, bg: int, a: int) -> int {
    fg * a / 255 + bg * (255 - a) / 255
}

/// `fg` drawn over `bg`: a transparent `fg` leaves `bg`; otherwise the
/// colours mix by `fg`'s alpha and the result is opaque.
pub open spec fn blended(fg: u32, bg: u32) -> u32 {
    let a = alpha_of(fg);
    if a == 0 {
        bg
    } else {
        (0xFF00_0000 + mixed(red_of(fg), red_of(bg), a) * 0x1_0000 + mixed(
            green_of(fg),
            green_of(bg),
            a,
        ) * 0x100 + mixed(blue_of(fg), blue_of(bg), a)) as u32
    }
}

/// Whether buffer index `j` of a window `window_width` pixels wide lies
/// under a `width` x `height` sprite placed at `(x, y)`. Columns right of the
/// window's edge are clipped.
pub open spec fn covers(x: int, y: int, width: int, height: int, window_width: int, j: int) -> bool {
    &&& window_width > 0
    &&& x <= j % window_width < x + width
    &&& y <= j / window_width < y + height
}

/// The sprite pixel that lands on buffer index `j`.
pub open spec fn sprite_offset(x: int, y: int, width: int, window_width: int, j: int) -> int {
    (j / window_width - y) * width + (j % window_width - x)
}

/// The buffer after drawing: covered pixels get the (darkened) sprite pixel
/// blended over them, the rest stay.
pub open spec fn drawn(
    x: usize,
    y: usize,
    sprite: SpriteFrame,
    window: Seq<u32>,
    window_width: usize,
    shade: Shade,
    j: int,
) -> u32 {
    if covers(x as int, y as int, sprite.width as int, sprite.height as int, window_width as int, j) {
        blended(
            darkened(
                sprite.data@[sprite_offset(x as int, y as int, sprite.width as int, window_width as int, j)],
                shade_darkness(shade, j % (window_width as int)),
            ),
            window[j],
        )
    } else {
        window[j]
    }
}

/// Scales the colour channels of a pixel to `darkness` percent.
fn maybe_darken(sprite_pixel: u32, darkness: Option<u32>) -> (r: u32)
    ensures
        r == darkened(sprite_pixel, darkness),
{
    match darkness {
        None => sprite_pixel,
        Some(pct) => {
            let a = sprite_pixel / 0x100_0000;
            let r = (sprite_pixel / 0x1_0000) % 0x100;
            let g = (sprite_pixel / 0x100) % 0x100;
            let b = sprite_pixel % 0x100;
            assert(r * pct <= 255 * 0xffff_ffff && g * pct <= 255 * 0xffff_ffff && b * pct <= 255
                * 0xffff_ffff) by (nonlinear_arith)
                requires
                    r < 256,
                    g < 256,
                    b < 256,
                    pct <= 0xffff_ffff,
            ;
            let rs = (r as u64) * (pct as u64) / 100;
            let gs = (g as u64) * (pct as u64) / 100;
            let bs = (b as u64) * (pct as u64) / 100;
            let rs: u32 = if rs > 255 {
                255
            } else {
                rs as u32
            };
            let gs: u32 = if gs > 255 {
                255
            } else {
                gs as u32
            };
            let bs: u32 = if bs > 255 {
                255
            } else {
                bs as u32
            };
            a * 0x100_0000 + rs * 0x1_0000 + gs * 0x100 + bs
        },
    }
}

/// `fg` drawn over `bg`.
fn blend(fg: u32, bg: u32) -> (r: u32)
    ensures
        r == blended(fg, bg),
{
    let a = fg / 0x100_0000;
    if a == 0 {
        return bg;
    }
    let fr = (fg / 0x1_0000) % 0x100;
    let fgr = (fg / 0x100) % 0x100;
    let fb = fg % 0x100;
    let br = (bg / 0x1_0000) % 0x100;
    let bgr = (bg / 0x100) % 0x100;
    let bb = bg % 0x100;
    assert(forall|c: int, d: int|
        0 <= c < 256 && 0 <= d < 256 && 0 < a < 256 ==> #[trigger] mixed(c, d, a as int) <= 255)
        by {
        assert forall|c: int, d: int| 0 <= c < 256 && 0 <= d < 256 && 0 < a < 256 implies #[trigger] mixed(
            c,
            d,
            a as int,
        ) <= 255 by {
            let ai = a as int;
            assert(c * ai / 255 + d * (255 - ai) / 255 <= 255) by (nonlinear_arith)
                requires
                    0 <= c < 256,
                    0 <= d < 256,
                    0 < ai < 256,
            ;
        }
    }
    assert(fr * a <= 65025 && fgr * a <= 65025 && fb * a <= 65025) by (nonlinear_arith)
        requires
            fr < 256,
            fgr < 256,
            fb < 256,
            a < 256,
    ;
    assert(br * (255 - a) <= 65025 && bgr * (255 - a) <= 65025 && bb * (255 - a) <= 65025)
        by (nonlinear_arith)
        requires
            br < 256,
            bgr < 256,
            bb < 256,
            a < 256,
    ;
    let r = fr * a / 255 + br * (255 - a) / 255;
    let g = fgr * a / 255 + bgr * (255 - a) / 255;
    let b = fb * a / 255 + bb * (255 - a) / 255;
    assert(r == mixed(fr as int, br as int, a as int));
    assert(g == mixed(fgr as int, bgr as int, a as int));
    assert(b == mixed(fb as int, bb as int, a as int));
    0xFF00_0000 + r * 0x1_0000 + g * 0x100 + b
}

proof fn lemma_index_position(row: int, col: int, x: int, y: int, ww: int, j: int)
    requires
        ww > 0,
        0 <= x + col < ww,
        0 <= y + row,
        j == (y + row) * ww + x + col,
    ensures
        j / ww == y + row,
        j % ww == x + col,
{
    vstd::arithmetic::div_mod::lemma_fundamental_div_mod_converse(j, ww, y + row, x + col);
}

/// The buffer index of column `x + col`, row `y + row` of a window
/// `window_width` pixels wide, if that cell lies within the window's width
/// and within the first `len` pixels.
fn window_index(x: usize, y: usize, row: usize, col: usize, window_width: usize, len: usize) -> (r: Option<usize>)
    requires
        window_width > 0,
    ensures
        match r {
            Some(j) => j < len && x + col < window_width && j == (y + row) * window_width + x + col,
            None => forall|j: int|
                0 <= j < len ==> !(#[trigger] (j % (window_width as int)) == x + col && j / (
                window_width as int) == y + row),
        },
{
    let ghost ww = window_width as int;
    proof {
        assert forall|j: int|
            0 <= j < len && #[trigger] (j % ww) == x + col && j / ww == y + row implies (y + row)
                * ww + x + col == j && x + col < ww by {
            vstd::arithmetic::div_mod::lemma_fundamental_div_mod(j, ww);
            assert(j == ww * (j / ww) + j % ww);
            assert(ww * (y + row) == (y + row) * ww) by (nonlinear_arith);
            vstd::arithmetic::div_mod::lemma_mod_bound(j, ww);
        }
        assert forall|j: int|
            0 <= j < len && #[trigger] (j % ww) == x + col && j / ww == y + row implies (y + row)
                * ww <= j by {
            assert((y + row) * ww >= 0) by (nonlinear_arith)
                requires
                    y + row >= 0,
                    ww > 0,
            ;
        }
    }
    let wy = match y.checked_add(row) {
        Some(v) => v,
        None => return None,
    };
    let wx = match x.checked_add(col) {
        Some(v) => v,
        None => return None,
    };
    if wx >= window_width {
        return None;
    }
    let base = match wy.checked_mul(window_width) {
        Some(v) => v,
        None => return None,
    };
    match base.checked_add(wx) {
        Some(j) => if j < len {
            Some(j)
        } else {
            None
        },
        None => None,
    }
}

/// The buffer pixels a row-by-row drawing has reached once it is at column
/// `col` of row `row`.
pub open spec fn drawn_before(x: int, y: int, w: int, ww: int, row: int, col: int, j: int) -> bool {
    covers(x, y, w, row, ww, j) || (covers(x, y, col, row + 1, ww, j) && j / ww == y + row)
}

proof fn lemma_same_cell(x: int, y: int, row: int, col: int, ww: int, k: int, j: int)
    requires
        ww > 0,
        k >= 0,
        j == (y + row) * ww + x + col,
        k != j,
    ensures
        !(k % ww == x + col && k / ww == y + row),
{
    vstd::arithmetic::div_mod::lemma_fundamental_div_mod(k, ww);
    if k % ww == x + col && k / ww == y + row {
        assert(ww * (y + row) == (y + row) * ww) by (nonlinear_arith);
    }
}

/// Draws `sprite` with its top-left corner at `(x, y)` of a buffer
/// `window_width` pixels wide, blending each pixel over the buffer by its
/// alpha after darkening it as `shade` says for its column. Parts right of
/// the window's edge or past the buffer's end are clipped.
pub fn draw_shaded(
    x: usize,
    y: usize,
    sprite: &SpriteFrame,
    window_buffer: &mut [u32],
    window_width: usize,
    shade: Shade,
)
    requires
        sprite.data@.len() >= sprite.width * sprite.height,
    ensures
        final(window_buffer)@.len() == old(window_buffer)@.len(),
        forall|j: int|
            0 <= j < old(window_buffer)@.len() ==> #[trigger] final(window_buffer)@[j] == drawn(
                x,
                y,
                *sprite,
                old(window_buffer)@,
                window_width,
                shade,
                j,
            ),
{
    let ghost before = window_buffer@;
    if window_width == 0 {
        return;
    }
    let w = sprite.width as usize;
    let h = sprite.height as usize;
    let len = window_buffer.len();
    let dlen = sprite.data.len();
    let mut row: usize = 0;
    while row < h
        invariant
            w == sprite.width,
            h == sprite.height,
            window_width > 0,
            len == before.len(),
            window_buffer@.len() == before.len(),
            sprite.data@.len() >= sprite.width * sprite.height,
            dlen == sprite.data@.len(),
            0 <= row <= h,
            forall|j: int|
                0 <= j < len ==> #[trigger] window_buffer@[j] == (if covers(x as int, y as int, w as int, row as int, window_width as int, j) {
                    drawn(x, y, *sprite, before, window_width, shade, j)
                } else {
                    before[j]
                }),
        decreases h - row,
    {
        let mut col: usize = 0;
        while col < w
            invariant
                w == sprite.width,
                h == sprite.height,
                window_width > 0,
                len == before.len(),
                window_buffer@.len() == before.len(),
                sprite.data@.len() >= sprite.width * sprite.height,
            dlen == sprite.data@.len(),
                0 <= row < h,
                0 <= col <= w,
                forall|j: int|
                    0 <= j < len ==> #[trigger] window_buffer@[j] == (if drawn_before(x as int, y as int, w as int, window_width as int, row as int, col as int, j) {
                        drawn(x, y, *sprite, before, window_width, shade, j)
                    } else {
                        before[j]
                    }),
            decreases w - col,
        {
            let target = window_index(x, y, row, col, window_width, len);
            match target {
                Some(j) => {
                    proof {
                        lemma_index_position(row as int, col as int, x as int, y as int, window_width as int, j as int);
                        assert(row * w + col < w * h) by (nonlinear_arith)
                            requires
                                row < h,
                                col < w,
                        ;
                        assert(row * w + col < dlen);
                        assert(sprite_offset(x as int, y as int, w as int, window_width as int, j as int) == row * w + col);
                    }
                    let p = maybe_darken(sprite.data[row * w + col], darkness_at(shade, x + col));
                    let v = blend(p, window_buffer[j]);
                    let ghost prev = window_buffer@;
                    window_buffer[j] = v;
                    proof {
                        assert forall|k: int| 0 <= k < len implies #[trigger] window_buffer@[k] == (if drawn_before(x as int, y as int, w as int, window_width as int, row as int, col + 1, k) {
                            drawn(x, y, *sprite, before, window_width, shade, k)
                        } else {
                            before[k]
                        }) by {
                            if k != j {
                                lemma_same_cell(x as int, y as int, row as int, col as int, window_width as int, k, j as int);
                                assert(window_buffer@[k] == prev[k]);
                            }
                        }
                    }
                },
                None => {
                    proof {
                        assert forall|k: int| 0 <= k < len implies #[trigger] window_buffer@[k] == (if drawn_before(x as int, y as int, w as int, window_width as int, row as int, col + 1, k) {
                            drawn(x, y, *sprite, before, window_width, shade, k)
                        } else {
                            before[k]
                        }) by {
                            assert(drawn_before(x as int, y as int, w as int, window_width as int, row as int, col + 1, k)
                                == drawn_before(x as int, y as int, w as int, window_width as int, row as int, col as int, k));
                        }
                    }
                },
            }
            col = col + 1;
        }
        row = row + 1;
    }
}

/// Draws `sprite` at `(x, y)`, with its colours scaled to `darkness`
/// percent when given.
pub fn draw_sprite(
    x: usize,
    y: usize,
    sprite: &SpriteFrame,
    window_buffer: &mut [u32],
    window_width: usize,
    darkness: Option<u32>,
)
    requires
        sprite.data@.len() >= sprite.width * sprite.height,
    ensures
        final(window_buffer)@.len() == old(window_buffer)@.len(),
        forall|j: int|
            0 <= j < old(window_buffer)@.len() ==> #[trigger] final(window_buffer)@[j] == drawn(
                x,
                y,
                *sprite,
                old(window_buffer)@,
                window_width,
                match darkness {
                    Some(p) => Shade::Uniform(p),
                    None => Shade::Plain,
                },
                j,
            ),
{
    let shade = match darkness {
        Some(p) => Shade::Uniform(p),
        None => Shade::Plain,
    };
    draw_shaded(x, y, sprite, window_buffer, window_width, shade);
}

/// Draws `sprite` at `(x, y)` under the globe's shadow gradient.
pub fn draw_sprite_with_gradient_shading(
    x: usize,
    y: usize,
    sprite: &SpriteFrame,
    window_buffer: &mut [u32],
    window_width: usize,
)
    requires
        sprite.data@.len() >= sprite.width * sprite.height,
    ensures
        final(window_buffer)@.len() == old(window_buffer)@.len(),
        forall|j: int|
            0 <= j < old(window_buffer)@.len() ==> #[trigger] final(window_buffer)@[j] == drawn(
                x,
                y,
                *sprite,
                old(window_buffer)@,
                window_width,
                Shade::Gradient,
                j,
            ),
{
    draw_shaded(x, y, sprite, window_buffer, window_width, Shade::Gradient);
}

} // verus!
