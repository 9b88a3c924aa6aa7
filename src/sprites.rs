//! Sprite frames: packing decoded pixels and cutting frames out of sprite
//! sheets.
use vstd::prelude::*;

verus! {

/// One sprite frame: `data` holds `width * height` ARGB pixels, row by row.
pub struct SpriteFrame {
    pub width: u32,
    pub height: u32,
    pub data: Vec<u32>,
}

impl SpriteFrame {
    pub fn new(width: u32, height: u32, data: Vec<u32>) -> (r: SpriteFrame)
        ensures
            r.width == width,
            r.height == height,
            r.data@ == data@,
    {
        SpriteFrame { width, height, data }
    }
}

/// The frames of every sprite the game draws, by role.
pub struct SpriteMaps {
    pub body: Vec<SpriteFrame>,
    pub food: Vec<SpriteFrame>,
    pub head: Vec<SpriteFrame>,
    pub tail: Vec<SpriteFrame>,
    pub game_over_screen: Vec<SpriteFrame>,
    pub stars: Vec<SpriteFrame>,
    pub planet: Vec<SpriteFrame>,
    pub blue_strip: Vec<SpriteFrame>,
    pub powerups: Vec<SpriteFrame>,
    pub choose_powerup: Vec<SpriteFrame>,
    pub loot_crate: Vec<SpriteFrame>,
}

impl SpriteMaps {
    /// No frames loaded yet; the host adds them as they arrive.
    pub fn new() -> (r: SpriteMaps)
        ensures
            r.body@.len() == 0 && r.food@.len() == 0 && r.head@.len() == 0 && r.tail@.len() == 0
                && r.game_over_screen@.len() == 0 && r.stars@.len() == 0 && r.planet@.len() == 0
                && r.blue_strip@.len() == 0 && r.powerups@.len() == 0 && r.choose_powerup@.len()
                == 0 && r.loot_crate@.len() == 0,
    {
        SpriteMaps {
            body: Vec::new(),
            food: Vec::new(),
            head: Vec::new(),
            tail: Vec::new(),
            game_over_screen: Vec::new(),
            stars: Vec::new(),
            planet: Vec::new(),
            blue_strip: Vec::new(),
            powerups: Vec::new(),
            choose_powerup: Vec::new(),
            loot_crate: Vec::new(),
        }
    }
}

/// A pixel in ARGB order: alpha in the highest byte, then red, green, blue.
pub open spec fn argb(r: u8, g: u8, b: u8, a: u8) -> u32 {
    (a * 0x100_0000 + r * 0x1_0000 + g * 0x100 + b) as u32
}

/// Packs one RGBA pixel into ARGB order.
pub fn pack_argb(r: u8, g: u8, b: u8, a: u8) -> (p: u32)
    ensures
        p == argb(r, g, b, a),
{
    (a as u32) * 0x100_0000 + (r as u32) * 0x1_0000 + (g as u32) * 0x100 + (b as u32)
}

/// The ARGB pixels of an RGBA byte buffer, four bytes per pixel (a trailing
/// partial pixel is ignored).
pub open spec fn argb_pixels(rgba: Seq<u8>) -> Seq<u32> {
    Seq::new(
        (rgba.len() / 4) as nat,
        |i: int| argb(rgba[4 * i], rgba[4 * i + 1], rgba[4 * i + 2], rgba[4 * i + 3]),
    )
}

/// Converts an RGBA byte buffer to ARGB pixels.
pub fn img_to_buffer(rgba: &Vec<u8>) -> (r: Vec<u32>)
    ensures
        r@ == argb_pixels(rgba@),
{
    let len = rgba.len();
    let n = len / 4;
    let mut r: Vec<u32> = Vec::new();
    let mut i: usize = 0;
    while i < n
        invariant
            n == rgba@.len() / 4,
            len == rgba@.len(),
            n == len / 4,
            0 <= i <= n,
            r@.len() == i,
            forall|j: int| 0 <= j < i ==> #[trigger] r@[j] == argb_pixels(rgba@)[j],
        decreases n - i,
    {
        assert(4 * i + 3 < len) by (nonlinear_arith)
            requires
                i < n,
                n == len / 4,
        ;
        let k = 4 * i;
        r.push(pack_argb(rgba[k], rgba[k + 1], rgba[k + 2], rgba[k + 3]));
        i = i + 1;
    }
    assert(r@ =~= argb_pixels(rgba@));
    r
}

/// Why a sprite frame could not be produced.
#[derive(Clone, Copy, Debug, PartialEq, Eq, Structural)]
pub enum SpriteError {
    /// The bytes are not a PNG image the decoder reads.
    Undecodable,
    /// The pixel count does not match the sheet's dimensions.
    SizeMismatch,
    /// The sheet holds no whole frame of the requested size.
    InvalidDimensions,
    /// The sheet has fewer frames than the requested index needs.
    FrameOutOfBounds,
}

/// Why a frame cannot be cut from a sheet of `len` pixels, if it cannot.
/// Frames are numbered row by row.
pub open spec fn sheet_error(len: int, map_width: u32, map_height: u32, sprite_width: u32, sprite_height: u32, frame_index: u32) -> Option<SpriteError> {
    if len != map_width * map_height {
        Some(SpriteError::SizeMismatch)
    } else if sprite_width == 0 || sprite_height == 0 || map_width / sprite_width == 0
        || map_height / sprite_height == 0 {
        Some(SpriteError::InvalidDimensions)
    } else if frame_index / (map_width / sprite_width) >= map_height / sprite_height {
        Some(SpriteError::FrameOutOfBounds)
    } else {
        None
    }
}

/// Pixel `i` (row by row) of frame `frame_index` of a sheet.
pub open spec fn frame_pixel(pixels: Seq<u32>, map_width: u32, sprite_width: u32, sprite_height: u32, frame_index: u32, i: int) -> u32 {
    let columns = map_width / sprite_width;
    let fx = frame_index % columns;
    let fy = frame_index / columns;
    pixels[(fy * sprite_height + i / (sprite_width as int)) * map_width + fx * sprite_width + i
        % (sprite_width as int)]
}

/// The pixels of frame `frame_index` of a sheet.
pub open spec fn frame_pixels(pixels: Seq<u32>, map_width: u32, sprite_width: u32, sprite_height: u32, frame_index: u32) -> Seq<u32> {
    Seq::new(
        (sprite_width * sprite_height) as nat,
        |i: int| frame_pixel(pixels, map_width, sprite_width, sprite_height, frame_index, i),
    )
}

proof fn lemma_frame_index_in_range(
    map_width: int,
    map_height: int,
    sw: int,
    sh: int,
    frame: int,
    i: int,
)
    requires
        sw > 0,
        sh > 0,
        map_width / sw > 0,
        map_height / sh > 0,
        0 <= frame,
        frame / (map_width / sw) < map_height / sh,
        0 <= i < sw * sh,
    ensures
        ({
            let columns = map_width / sw;
            let fx = frame % columns;
            let fy = frame / columns;
            let x = fx * sw + i % sw;
            let y = fy * sh + i / sw;
            &&& 0 <= x < map_width
            &&& 0 <= y < map_height
            &&& 0 <= y * map_width + x < map_width * map_height
        }),
{
    let columns = map_width / sw;
    let rows = map_height / sh;
    let fx = frame % columns;
    let fy = frame / columns;
    assert(0 <= fx < columns) by (nonlinear_arith)
        requires
            columns > 0,
            frame >= 0,
            fx == frame % columns,
    ;
    assert(0 <= fy) by (nonlinear_arith)
        requires
            columns > 0,
            frame >= 0,
            fy == frame / columns,
    ;
    assert(0 <= i / sw < sh && 0 <= i % sw < sw) by (nonlinear_arith)
        requires
            sw > 0,
            sh > 0,
            0 <= i < sw * sh,
    ;
    assert(columns * sw <= map_width && rows * sh <= map_height) by (nonlinear_arith)
        requires
            sw > 0,
            sh > 0,
            columns == map_width / sw,
            rows == map_height / sh,
    ;
    let x = fx * sw + i % sw;
    let y = fy * sh + i / sw;
    assert(0 <= x < map_width) by (nonlinear_arith)
        requires
            0 <= fx < columns,
            0 <= i % sw < sw,
            columns * sw <= map_width,
            x == fx * sw + i % sw,
            sw > 0,
    ;
    assert(0 <= y < map_height) by (nonlinear_arith)
        requires
            0 <= fy < rows,
            0 <= i / sw < sh,
            rows * sh <= map_height,
            y == fy * sh + i / sw,
            sh > 0,
    ;
    assert(0 <= y * map_width + x < map_width * map_height) by (nonlinear_arith)
        requires
            0 <= x < map_width,
            0 <= y < map_height,
    ;
}

/// Cuts frame `frame_index` (numbered row by row) out of a sheet of
/// `map_width * map_height` ARGB pixels holding frames of
/// `sprite_width * sprite_height` pixels.
pub fn extract_sprite_frame(
    pixels: &Vec<u32>,
    map_width: u32,
    map_height: u32,
    sprite_width: u32,
    sprite_height: u32,
    frame_index: u32,
) -> (r: Result<SpriteFrame, SpriteError>)
    ensures
        match r {
            Err(e) => sheet_error(
                pixels@.len() as int,
                map_width,
                map_height,
                sprite_width,
                sprite_height,
                frame_index,
            ) == Some(e),
            Ok(f) => sheet_error(
                pixels@.len() as int,
                map_width,
                map_height,
                sprite_width,
                sprite_height,
                frame_index,
            ) is None && f.width == sprite_width && f.height == sprite_height && f.data@
                == frame_pixels(pixels@, map_width, sprite_width, sprite_height, frame_index),
        },
{
    assert(map_width as u64 * map_height as u64 <= u64::MAX) by (nonlinear_arith)
        requires
            map_width <= u32::MAX,
            map_height <= u32::MAX,
    ;
    let ulen: usize = pixels.len();
    let plen: u64 = ulen as u64;
    if plen != map_width as u64 * map_height as u64 {
        return Err(SpriteError::SizeMismatch);
    }
    if sprite_width == 0 || sprite_height == 0 {
        return Err(SpriteError::InvalidDimensions);
    }
    let columns = map_width / sprite_width;
    let rows = map_height / sprite_height;
    if columns == 0 || rows == 0 {
        return Err(SpriteError::InvalidDimensions);
    }
    if frame_index / columns >= rows {
        return Err(SpriteError::FrameOutOfBounds);
    }
    let fx = frame_index % columns;
    let fy = frame_index / columns;
    let sw = sprite_width as u64;
    let sh = sprite_height as u64;
    assert(sw * sh <= u64::MAX) by (nonlinear_arith)
        requires
            sw <= u32::MAX,
            sh <= u32::MAX,
    ;
    let total: u64 = sw * sh;
    let mut data: Vec<u32> = Vec::new();
    let mut i: u64 = 0;
    while i < total
        invariant
            pixels@.len() == map_width * map_height,
            plen == pixels@.len(),
            ulen == pixels@.len(),
            sw == sprite_width,
            sh == sprite_height,
            sw > 0,
            sh > 0,
            columns == map_width / sprite_width,
            rows == map_height / sprite_height,
            columns > 0,
            rows > 0,
            frame_index / columns < rows,
            fx == frame_index % columns,
            fy == frame_index / columns,
            total == sw * sh,
            0 <= i <= total,
            data@.len() == i,
            forall|j: int|
                0 <= j < i ==> #[trigger] data@[j] == frame_pixel(
                    pixels@,
                    map_width,
                    sprite_width,
                    sprite_height,
                    frame_index,
                    j,
                ),
        decreases total - i,
    {
        proof {
            lemma_frame_index_in_range(
                map_width as int,
                map_height as int,
                sw as int,
                sh as int,
                frame_index as int,
                i as int,
            );
        }
        let ghost gx: int = fx * sw + i % sw;
        let ghost gy: int = fy * sh + i / sw;
        assert(fx * sw <= gx && fy * sh <= gy) by (nonlinear_arith)
            requires
                gx == fx * sw + i % sw,
                gy == fy * sh + i / sw,
                sw > 0,
                i >= 0,
        ;
        assert(0 <= gx < map_width && 0 <= gy < map_height && gy * map_width + gx < map_width
            * map_height);
        let x: u64 = fx as u64 * sw + i % sw;
        let y: u64 = fy as u64 * sh + i / sw;
        assert(y * map_width + x == gy * map_width + gx) by (nonlinear_arith)
            requires
                y == gy,
                x == gx,
        ;
        let index = y * map_width as u64 + x;
        assert(index < ulen);
        assert(pixels@[index as usize as int] == frame_pixel(
            pixels@,
            map_width,
            sprite_width,
            sprite_height,
            frame_index,
            i as int,
        ));
        data.push(pixels[index as usize]);
        i = i + 1;
    }
    assert(data@ =~= frame_pixels(pixels@, map_width, sprite_width, sprite_height, frame_index));
    Ok(SpriteFrame::new(sprite_width, sprite_height, data))
}

/// An image decoded to RGBA bytes, four per pixel, row by row.
pub struct DecodedImage {
    pub width: u32,
    pub height: u32,
    pub rgba: Vec<u8>,
}

/// What the PNG decoder makes of a byte buffer: width, height and RGBA
/// bytes, or nothing when the bytes are not a PNG image it reads.
pub uninterp spec fn decoded_png_rgba(bytes: Seq<u8>) -> Option<(u32, u32, Seq<u8>)>;

/// Relies on `image::load_from_memory_with_format` with `ImageFormat::Png`,
/// then `DynamicImage::to_rgba8`, `ImageBuffer::dimensions` and
/// `ImageBuffer::into_raw`: the decoded image as RGBA bytes. The format is
/// given as a built-in one, so the decoder neither guesses it nor consults
/// the process-wide detection and decoding hooks, and the result depends on
/// the bytes alone.
#[verifier::external_body]
fn decode_rgba(bytes: &[u8]) -> (r: Option<DecodedImage>)
    ensures
        match r {
            Some(d) => decoded_png_rgba(bytes@) == Some((d.width, d.height, d.rgba@)),
            None => decoded_png_rgba(bytes@) is None,
        },
{
    match image::load_from_memory_with_format(bytes, image::ImageFormat::Png) {
        Ok(img) => {
            let rgba = img.to_rgba8();
            let (width, height) = rgba.dimensions();
            Some(DecodedImage { width, height, rgba: rgba.into_raw() })
        },
        Err(_) => None,
    }
}

/// Frame `frame_index` of a decoded sprite sheet, or why there is none.
pub open spec fn frame_of_image(decoded: Option<(u32, u32, Seq<u8>)>, sprite_width: u32, sprite_height: u32, frame_index: u32) -> Result<Seq<u32>, SpriteError> {
    match decoded {
        None => Err(SpriteError::Undecodable),
        Some((w, h, rgba)) => {
            let px = argb_pixels(rgba);
            match sheet_error(px.len() as int, w, h, sprite_width, sprite_height, frame_index) {
                Some(e) => Err(e),
                None => Ok(frame_pixels(px, w, sprite_width, sprite_height, frame_index)),
            }
        },
    }
}

/// Cuts frame `frame_index` out of an already decoded sprite sheet.
pub fn frame_from_decoded(
    image: &DecodedImage,
    sprite_width: u32,
    sprite_height: u32,
    frame_index: u32,
) -> (r: Result<SpriteFrame, SpriteError>)
    ensures
        match r {
            Ok(f) => frame_of_image(
                Some((image.width, image.height, image.rgba@)),
                sprite_width,
                sprite_height,
                frame_index,
            ) == Ok::<Seq<u32>, SpriteError>(f.data@) && f.width == sprite_width && f.height
                == sprite_height,
            Err(e) => frame_of_image(
                Some((image.width, image.height, image.rgba@)),
                sprite_width,
                sprite_height,
                frame_index,
            ) == Err::<Seq<u32>, SpriteError>(e),
        },
{
    let pixels = img_to_buffer(&image.rgba);
    extract_sprite_frame(&pixels, image.width, image.height, sprite_width, sprite_height, frame_index)
}

/// Decodes a PNG sprite sheet and cuts frame `frame_index` out of it.
pub fn load_sprite_frame(
    bytes: &[u8],
    sprite_width: u32,
    sprite_height: u32,
    frame_index: u32,
) -> (r: Result<SpriteFrame, SpriteError>)
    ensures
        match r {
            Ok(f) => frame_of_image(decoded_png_rgba(bytes@), sprite_width, sprite_height, frame_index)
                == Ok::<Seq<u32>, SpriteError>(f.data@) && f.width == sprite_width && f.height
                == sprite_height,
            Err(e) => frame_of_image(decoded_png_rgba(bytes@), sprite_width, sprite_height, frame_index)
                == Err::<Seq<u32>, SpriteError>(e),
        },
{
    match decode_rgba(bytes) {
        None => Err(SpriteError::Undecodable),
        Some(image) => frame_from_decoded(&image, sprite_width, sprite_height, frame_index),
    }
}

} // verus!
