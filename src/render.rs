//! Pure helpers of the presentation: upscaling the art buffer and what the
//! selection screen shows for each perk.
use vstd::prelude::*;
use crate::constants::{ART_HEIGHT, ART_WIDTH, SCALED_WINDOW_HEIGHT, SCALED_WINDOW_WIDTH};
use crate::perks::{default_powerups, get_default_powerups, Perk};

verus! {

/// The art-buffer index shown at index `i` of the scaled screen: each screen
/// pixel takes the art pixel its position scales down to (nearest neighbour,
/// rounding down).
pub open spec fn scaled_source_index(i: int) -> int {
    let y = i / (SCALED_WINDOW_WIDTH as int);
    let x = i % (SCALED_WINDOW_WIDTH as int);
    (y * ART_HEIGHT / (SCALED_WINDOW_HEIGHT as int)) * ART_WIDTH + x * ART_WIDTH / (
    SCALED_WINDOW_WIDTH as int)
}

proof fn lemma_scaled_source_in_range(i: int)
    requires
        0 <= i < SCALED_WINDOW_WIDTH * SCALED_WINDOW_HEIGHT,
    ensures
        0 <= scaled_source_index(i) < ART_WIDTH * ART_HEIGHT,
{
    let y = i / 960;
    let x = i % 960;
    assert(0 <= y < 540 && 0 <= x < 960) by (nonlinear_arith)
        requires
            0 <= i < 518400,
            y == i / 960,
            x == i % 960,
    ;
    assert(0 <= y * 224 / 540 < 224) by (nonlinear_arith)
        requires
            0 <= y < 540,
    ;
    assert(0 <= x * 256 / 960 < 256) by (nonlinear_arith)
        requires
            0 <= x < 960,
    ;
    let sy = y * 224 / 540;
    let sx = x * 256 / 960;
    assert(0 <= sy * 256 + sx < 57344) by (nonlinear_arith)
        requires
            0 <= sy < 224,
            0 <= sx < 256,
    ;
}

/// Scales the art buffer up to the screen buffer.
pub fn scale_buffer_to_screen(src_buffer: &[u32], pixel_buffer: &mut [u32])
    requires
        src_buffer@.len() >= ART_WIDTH * ART_HEIGHT,
        old(pixel_buffer)@.len() >= SCALED_WINDOW_WIDTH * SCALED_WINDOW_HEIGHT,
    ensures
        final(pixel_buffer)@.len() == old(pixel_buffer)@.len(),
        forall|i: int|
            0 <= i < SCALED_WINDOW_WIDTH * SCALED_WINDOW_HEIGHT ==> #[trigger] final(pixel_buffer)@[i]
                == src_buffer@[scaled_source_index(i)],
        forall|i: int|
            SCALED_WINDOW_WIDTH * SCALED_WINDOW_HEIGHT <= i < old(pixel_buffer)@.len()
                ==> #[trigger] final(pixel_buffer)@[i] == old(pixel_buffer)@[i],
{
    let total: usize = SCALED_WINDOW_WIDTH * SCALED_WINDOW_HEIGHT;
    let mut k: usize = 0;
    while k < total
        invariant
            total == SCALED_WINDOW_WIDTH * SCALED_WINDOW_HEIGHT,
            0 <= k <= total,
            src_buffer@.len() >= ART_WIDTH * ART_HEIGHT,
            pixel_buffer@.len() == old(pixel_buffer)@.len(),
            old(pixel_buffer)@.len() >= total,
            forall|i: int|
                0 <= i < k ==> #[trigger] pixel_buffer@[i] == src_buffer@[scaled_source_index(i)],
            forall|i: int|
                k <= i < pixel_buffer@.len() ==> #[trigger] pixel_buffer@[i] == old(pixel_buffer)@[i],
        decreases total - k,
    {
        let y = k / SCALED_WINDOW_WIDTH;
        let x = k % SCALED_WINDOW_WIDTH;
        proof {
            lemma_scaled_source_in_range(k as int);
        }
        assert(y < 540 && x < 960) by (nonlinear_arith)
            requires
                k < 518400,
                y == k / 960,
                x == k % 960,
        ;
        let src_y = y * ART_HEIGHT / SCALED_WINDOW_HEIGHT;
        let src_x = x * ART_WIDTH / SCALED_WINDOW_WIDTH;
        let v = src_buffer[src_y * ART_WIDTH + src_x];
        pixel_buffer[k] = v;
        k = k + 1;
    }
}

/// Index of a perk's card in the perk sprite sheet.
pub open spec fn powerup_sprite_index(p: Perk) -> usize {
    match p {
        Perk::NeedForSpeed => 0,
        Perk::HungryWorm => 1,
    }
}

/// Index of a perk's card in the perk sprite sheet.
pub fn get_powerup_sprite_index(powerup: &Perk) -> (r: usize)
    ensures
        r == powerup_sprite_index(*powerup),
{
    match powerup {
        Perk::NeedForSpeed => 0,
        Perk::HungryWorm => 1,
    }
}

/// Card indices of the two perks the selection offers.
pub fn get_powerup_sprite_indices() -> (r: (usize, usize))
    ensures
        r == (powerup_sprite_index(default_powerups().0), powerup_sprite_index(default_powerups().1)),
{
    let (powerup1, powerup2) = get_default_powerups();
    (get_powerup_sprite_index(&powerup1), get_powerup_sprite_index(&powerup2))
}

/// Title and one-line description the selection screen shows for a perk.
pub open spec fn powerup_info(p: Perk) -> (Seq<char>, Seq<char>) {
    match p {
        Perk::NeedForSpeed => ("Need 4 Speed"@, "+25% movement speed"@),
        Perk::HungryWorm => ("Hungry Worm"@, "2x score from food"@),
    }
}

/// Title and one-line description the selection screen shows for a perk.
pub fn get_powerup_info(powerup: &Perk) -> (r: (&'static str, &'static str))
    ensures
        (r.0@, r.1@) == powerup_info(*powerup),
{
    match powerup {
        Perk::NeedForSpeed => ("Need 4 Speed", "+25% movement speed"),
        Perk::HungryWorm => ("Hungry Worm", "2x score from food"),
    }
}

} // verus!
