//! Game-side logic of the niveluno engine and its map compiler: the data
//! model of compiled maps, string interning for the compiler, the entity
//! catalogue, the per-frame input and time state, and the game state machine.
//! Rendering, audio, windowing and floating-point geometry live in the
//! application crate.

pub mod asset;
pub mod audio;
pub mod banner;
pub mod big_buffer;
pub mod compiler;
pub mod entity_params;
pub mod equipment;
pub mod error;
pub mod g_game;
pub mod game;
pub mod gcyl;
pub mod input;
pub mod instance;
pub mod level;
pub mod map;
pub mod mesh;
pub mod payload;
pub mod interning;
pub mod text_util;
pub mod texture;
pub mod time;
