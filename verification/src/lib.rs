//! Simulation core of a grid-based snake game.
//!
//! The crate owns the authoritative game state (snake body, collectibles,
//! timers, score and the warning flash) and advances it once per tick.
//! Windowing, drawing and input polling belong to the host program.

pub mod constants;
pub mod game;
pub mod geometry;
pub mod objs;
pub mod snake;
pub mod timer;
pub mod utils;
