//! Fixed configuration shared by the simulation and its renderer.

use vstd::prelude::*;

verus! {

/// Width of one grid cell, in pixels.
pub const SNAKE_W: u32 = 20;

/// Height of one grid cell, in pixels.
pub const SNAKE_H: u32 = 20;

/// Width of the playing field, in pixels.
pub const WINDOW_W: u32 = 800;

/// Height of the playing field, in pixels.
pub const WINDOW_H: u32 = 600;

/// Value that the flash counter takes when a reversal is refused.
pub const MAX_SNAKE_FLASH_COUNT: u8 = 6;

/// Number of cells of a freshly created snake.
pub const START_LENGTH: usize = 2;

/// Number of eggs placed when a game starts.
pub const START_EGGS: usize = 1;

/// Number of viruses placed when a game starts.
pub const START_VIRUSES: usize = 9;

/// Score and growth granted by an ordinary egg.
pub const EGG_CREDIT: u8 = 1;

/// Score and growth granted by a special egg.
pub const SPECIAL_EGG_CREDIT: u8 = 3;

/// A relocated egg is special with probability
/// `SPECIAL_NUMERATOR / SPECIAL_DENOMINATOR`.
pub const SPECIAL_NUMERATOR: u32 = 3;

pub const SPECIAL_DENOMINATOR: u32 = 10;

/// Time between two movement steps of the snake, in nanoseconds.
pub const MOVE_INTERVAL: u64 = 180_000_000;

/// Time between two steps of the swallowed-egg marker, in nanoseconds.
pub const MARKER_INTERVAL: u64 = 25_000_000;

/// Time between two steps of the warning flash, in nanoseconds.
pub const FLASH_INTERVAL: u64 = 300_000_000;

} // verus!
