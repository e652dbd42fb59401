//! A brick-breaking game for the terminal, as a verified simulation core.
//!
//! The library owns every rule of the game: how the ball moves and reflects,
//! when the paddle returns it, which brick breaks, how the paddle answers a
//! key, and which cells of the screen have to be repainted afterwards. Each
//! operation returns the list of [`render::Action`]s that bring the terminal
//! in line with the new state; the program around the library only performs
//! them and reports the key that was pressed.

pub mod arena;
pub mod render;
pub mod paddle;
pub mod ball;
pub mod bricks;
pub mod scene;
pub mod game;
