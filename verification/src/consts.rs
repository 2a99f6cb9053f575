use vstd::prelude::*;

verus! {

/// Side of one cell of the field, in pixels.
pub const BLOCK_SIZE: i64 = 45;

/// Width of the playing field, in pixels (ten cells).
pub const PLAY_PANE_WIDTH: i64 = 450;

/// Height of the playing field, in pixels (twenty cells).
pub const GAME_HEIGHT: i64 = 900;

/// Number of rows of the field.
pub const BLOCK_HEIGHT: usize = 20;

/// Number of cells in one row of the field.
pub const BLOCK_WIDTH: usize = 10;

} // verus!
