use space_worm::draw::{draw_sprite, draw_sprite_with_gradient_shading};
use space_worm::game::GameState;
use space_worm::geometry::{Direction, Vector2D};
use space_worm::perks::{Perk, PowerupSlot};
use space_worm::render::{get_powerup_info, get_powerup_sprite_indices, scale_buffer_to_screen};
use space_worm::scene::{
    background_placements, draw_powerup_selection_screen, render_game, snake_placements,
    Placement, SpriteLayer, BACKGROUND_COLOR,
};
use space_worm::draw::Shade;
use space_worm::snake::Snake;
use space_worm::sprites::{
    extract_sprite_frame, img_to_buffer, load_sprite_frame, pack_argb, SpriteError, SpriteFrame,
    SpriteMaps,
};

fn solid(width: u32, height: u32, pixel: u32) -> SpriteFrame {
    SpriteFrame::new(width, height, vec![pixel; (width * height) as usize])
}

#[test]
fn pack_argb_orders_channels() {
    assert_eq!(pack_argb(0x11, 0x22, 0x33, 0x44), 0x4411_2233);
    assert_eq!(img_to_buffer(&vec![1, 2, 3, 4, 5, 6, 7, 8, 9]), vec![0x0401_0203, 0x0805_0607]);
}

#[test]
fn extract_frame_cuts_row_by_row() {
    // A 4x2 sheet of 2x1 frames: frames 0..3 in row-major order.
    let pixels: Vec<u32> = (0..8).collect();
    let f = extract_sprite_frame(&pixels, 4, 2, 2, 1, 3).ok().unwrap();
    assert_eq!((f.width, f.height), (2, 1));
    assert_eq!(f.data, vec![6, 7]);
    let f = extract_sprite_frame(&pixels, 4, 2, 2, 2, 1).ok().unwrap();
    assert_eq!(f.data, vec![2, 3, 6, 7]);
}

#[test]
fn extract_frame_errors() {
    let pixels: Vec<u32> = (0..8).collect();
    assert_eq!(extract_sprite_frame(&pixels, 4, 3, 2, 1, 0).err(), Some(SpriteError::SizeMismatch));
    assert_eq!(extract_sprite_frame(&pixels, 4, 2, 0, 1, 0).err(), Some(SpriteError::InvalidDimensions));
    assert_eq!(extract_sprite_frame(&pixels, 4, 2, 5, 1, 0).err(), Some(SpriteError::InvalidDimensions));
    assert_eq!(extract_sprite_frame(&pixels, 4, 2, 2, 1, 4).err(), Some(SpriteError::FrameOutOfBounds));
}

#[test]
fn load_sprite_frame_decodes_png() {
    let mut img = image::RgbaImage::new(2, 2);
    img.put_pixel(0, 0, image::Rgba([10, 20, 30, 255]));
    img.put_pixel(1, 0, image::Rgba([1, 2, 3, 4]));
    img.put_pixel(0, 1, image::Rgba([5, 6, 7, 8]));
    img.put_pixel(1, 1, image::Rgba([9, 10, 11, 12]));
    let mut bytes: Vec<u8> = Vec::new();
    img.write_to(&mut std::io::Cursor::new(&mut bytes), image::ImageFormat::Png).unwrap();
    let f = load_sprite_frame(&bytes, 1, 2, 1).ok().unwrap();
    assert_eq!(f.data, vec![0x0401_0203, 0x0C09_0A0B]);
    let f = load_sprite_frame(&bytes, 2, 2, 0).ok().unwrap();
    assert_eq!(f.data, vec![0xFF0A_141E, 0x0401_0203, 0x0805_0607, 0x0C09_0A0B]);
    assert_eq!(load_sprite_frame(&[1, 2, 3], 1, 1, 0).err(), Some(SpriteError::Undecodable));
}

#[test]
fn draw_sprite_blends_by_alpha() {
    let mut buf = vec![0xFF00_0000u32; 16];
    draw_sprite(1, 1, &solid(2, 1, 0xFFFF_0000), &mut buf, 4, None);
    assert_eq!(buf[5], 0xFFFF_0000);
    assert_eq!(buf[6], 0xFFFF_0000);
    assert_eq!(buf[4], 0xFF00_0000);
    // Half-transparent white over black.
    let mut buf = vec![0xFF00_0000u32; 4];
    draw_sprite(0, 0, &solid(1, 1, 0x80FF_FFFF), &mut buf, 2, None);
    assert_eq!(buf[0], 0xFF80_8080);
    // Fully transparent pixels leave the buffer.
    let mut buf = vec![0x1234_5678u32; 4];
    draw_sprite(0, 0, &solid(2, 2, 0x00FF_FFFF), &mut buf, 2, None);
    assert_eq!(buf, vec![0x1234_5678u32; 4]);
}

#[test]
fn draw_sprite_darkens_and_clips() {
    let mut buf = vec![0u32; 8];
    draw_sprite(3, 0, &solid(2, 2, 0xFF64_C8FF), &mut buf, 4, Some(50));
    assert_eq!(buf[3], 0xFF32_647F);
    assert_eq!(buf[7], 0xFF32_647F);
    // The column past the right edge is not wrapped onto the next row.
    assert_eq!(buf[4], 0);
}

#[test]
fn gradient_shades_right_side_only() {
    let mut buf = vec![0u32; 256];
    draw_sprite_with_gradient_shading(0, 0, &solid(256, 1, 0xFF64_6464), &mut buf, 256);
    assert_eq!(buf[100], 0xFF64_6464);
    assert_eq!(buf[200], 0xFF3C_3C3C);
    assert_eq!(buf[140], 0xFF4A_4A4A);
}

#[test]
fn scale_maps_corners() {
    let src: Vec<u32> = (0..(256 * 224) as u32).collect();
    let mut dst = vec![0u32; 960 * 540];
    scale_buffer_to_screen(&src, &mut dst);
    assert_eq!(dst[0], 0);
    assert_eq!(dst[959], 255);
    assert_eq!(dst[539 * 960 + 959], 223 * 256 + 255);
    assert_eq!(dst[2 * 960 + 4], src[1]);
}

#[test]
fn powerup_info_and_cards() {
    assert_eq!(get_powerup_info(&Perk::NeedForSpeed), ("Need 4 Speed", "+25% movement speed"));
    assert_eq!(get_powerup_info(&Perk::HungryWorm), ("Hungry Worm", "2x score from food"));
    assert_eq!(get_powerup_sprite_indices(), (0, 1));
}

#[test]
fn snake_placements_offset_head_by_heading() {
    let mut snake = Snake::new(40, 150, Direction::Left);
    snake.head_sprite_frame_index = 2;
    snake.body.push(Vector2D { x: 70, y: 150 });
    let p = snake_placements(&snake);
    assert_eq!(p.len(), 4);
    assert_eq!(p[0], Placement { layer: SpriteLayer::Head, frame: 2, x: 30, y: 140, shade: Shade::Plain });
    assert_eq!(p[1], Placement { layer: SpriteLayer::Body, frame: 0, x: 52, y: 150, shade: Shade::Plain });
    assert_eq!(p[3], Placement { layer: SpriteLayer::Tail, frame: 1, x: 70, y: 150, shade: Shade::Plain });
}

#[test]
fn background_tiles_cover_the_width() {
    let mut sprites = SpriteMaps::new();
    sprites.stars.push(solid(100, 1, 0xFFFF_FFFF));
    sprites.planet.push(solid(1, 1, 0xFFFF_FFFF));
    let p = background_placements(&sprites, 12 * 30, 3, 7);
    // Shift 30: tiles at -30 (clamped to 0), 70, 170, 270 is past the edge.
    let xs: Vec<usize> = p.iter().filter(|q| q.layer == SpriteLayer::Stars).map(|q| q.x).collect();
    assert_eq!(xs, vec![0, 70, 170]);
    assert_eq!(p.last().unwrap().layer, SpriteLayer::Planet);
    assert_eq!(p.last().unwrap().shade, Shade::Gradient);
}

#[test]
fn selection_screen_lights_highlighted_card() {
    let mut sprites = SpriteMaps::new();
    sprites.powerups.push(solid(1, 1, 0xFF64_6464));
    sprites.powerups.push(solid(1, 1, 0xFF64_6464));
    let mut buf = vec![0u32; 256 * 224];
    draw_powerup_selection_screen(&mut buf, &sprites, Some(PowerupSlot::Second));
    assert_eq!(buf[112 * 256], 0xFF32_3232);
    assert_eq!(buf[112 * 256 + 128], 0xFF50_5050);
}

#[test]
fn render_clears_and_draws_play_field() {
    let game = GameState::start();
    let mut sprites = SpriteMaps::new();
    sprites.head.push(solid(1, 1, 0xFFAA_AAAA));
    let mut buf = vec![0u32; 256 * 224];
    render_game(&mut buf, &game, &sprites);
    assert_eq!(buf[0], BACKGROUND_COLOR);
    assert_eq!(buf[150 * 256 + 40], 0xFFAA_AAAA);
}
