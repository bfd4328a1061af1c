//! Core logic of the VoxParty isometric party game: grid world, movement,
//! health checks, input recording, scene flow and the developer console.

pub mod isom;
pub mod collision;
pub mod episode;
pub mod world;
pub mod text;
pub mod font;
pub mod debug;
pub mod health;
pub mod touch;
pub mod clock;
pub mod input;
pub mod player;
pub mod npc;
pub mod overlay_text;
pub mod scene;
pub mod console;
pub mod audio;
pub mod haptic;
pub mod canvas;
pub mod tiles;
pub mod sprite_gen;
pub mod particles;
pub mod sprites;
pub mod sprite_store;
pub mod telemetry;
