//! Game rules of a grid-stepped snake arcade game: movement, collisions,
//! collectibles, perk selection, sprite-animation timers and the per-frame
//! orchestrator that ties them together, plus the pure parts of drawing a
//! frame (sprite decoding, compositing and upscaling).
//!
//! Positions are whole art-buffer pixels and times whole milliseconds.

pub mod constants;
pub mod geometry;
pub mod snake;
pub mod movement;
pub mod collectible;
pub mod collision;
pub mod perks;
pub mod animation;
pub mod audio;
pub mod random;
pub mod input;
pub mod game;
pub mod laws;
pub mod render;
pub mod sprites;
pub mod draw;
pub mod scene;
