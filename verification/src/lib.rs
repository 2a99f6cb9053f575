//! Game logic of a falling-block puzzle: the playing field, the moving
//! piece, its rotation offsets, the per-frame physics decisions and the
//! timers that drive gravity, stacking and key repetition.
//!
//! Positions are whole pixels; one cell of the field is `BLOCK_SIZE`
//! pixels wide. Durations are whole microseconds.

pub mod commons;
pub mod component;
pub mod config;
pub mod consts;
pub mod events;
pub mod text;
pub mod system;
pub mod world;
