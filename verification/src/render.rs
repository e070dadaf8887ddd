//! What the controller hands to whoever draws the board: plain rectangles with
//! whole-number positions, exact sizes and colours.

use vstd::prelude::*;

verus! {

/// An opaque colour by its red, green and blue parts.
#[derive(Clone, Copy, Debug, PartialEq, Eq, Structural)]
pub struct Color {
    pub r: u8,
    pub g: u8,
    pub b: u8,
}

/// A length in pixels, kept exact as `numer / denom`.
#[derive(Clone, Copy, Debug, PartialEq, Eq, Structural)]
pub struct Ratio {
    pub numer: u32,
    pub denom: u32,
}

/// The size at which one cell is drawn.
#[derive(Clone, Copy, Debug, PartialEq, Eq, Structural)]
pub struct CellSize {
    pub width: Ratio,
    pub height: Ratio,
}

/// One rectangle to draw: its top-left corner in pixels, its size and its colours.
#[derive(Clone, Copy, Debug, PartialEq, Eq, Structural)]
pub struct DrawRect {
    pub x: u32,
    pub y: u32,
    pub size: CellSize,
    pub fill: Color,
    pub outline: Color,
}

} // verus!
