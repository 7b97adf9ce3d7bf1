//! A chess board model with its on-screen layout and a drag-and-drop
//! controller for moving pieces with a pointer.
//!
//! Screen coordinates are fixed-point integers: one pixel is
//! `layout::UNITS_PER_PIXEL` units, which makes the layout arithmetic exact.
use vstd::prelude::*;

pub mod board;
pub mod layout;
pub mod piece;
pub mod render;
pub mod scene;

verus! {

/// Width of one sprite cell of the atlas, in pixels.
pub const SPRITE_W: u32 = 150;

/// Height of one sprite cell of the atlas, in pixels.
pub const SPRITE_H: u32 = 150;

/// Number of sprite cells in one row of the atlas.
pub const SPRITE_SHEET_W: usize = 6;

/// Number of rows of the atlas.
pub const SPRITE_SHEET_H: usize = 3;

} // verus!
