//! Core of a terminal pixel-grid editor: a rectangular grid of palette
//! colors, a cursor clamped to the grid, a fixed cyclic palette, and the
//! state machine that drives the interactive session. Terminal I/O lives
//! outside this crate; everything here is pure state and is verified.

pub mod color;
pub mod term;
