//! Frame-update core of a tile and sprite based handheld game: integer
//! vectors, the per-frame input snapshot, the video-memory allocator, the
//! shadow sprite table, the cursor and unit entities, the frame controller
//! and the conversion of map documents into level data.

pub mod background;
pub mod color;
pub mod cursor;
pub mod game;
pub mod input;
pub mod level;
pub mod oam;
pub mod transform;
pub mod unit;
pub mod vram;
