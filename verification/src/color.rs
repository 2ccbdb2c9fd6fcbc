//! Plain RGB color values.
//!
//! The simulation core never draws anything; it only decides which color a
//! host adapter should use for a cell or a widget. Colors are therefore
//! plain 8-bit RGB triples that any rendering backend can translate.

use vstd::prelude::*;

verus! {

/// An opaque-alpha RGB color with 8-bit channels.
#[derive(Clone, Copy, Debug, PartialEq, Eq, Structural)]
pub struct Color {
    pub r: u8,
    pub g: u8,
    pub b: u8,
}

impl Color {
    /// Pure white, the color of live cells and of idle button backgrounds.
    pub open spec fn white() -> Color {
        Color { r: 255, g: 255, b: 255 }
    }

    /// Pure black, the color of dead cells and of hovered button backgrounds.
    pub open spec fn black() -> Color {
        Color { r: 0, g: 0, b: 0 }
    }
}

/// The color that marks a live cell.
pub fn color_alive() -> (c: Color)
    ensures
        c == Color::white(),
{
    Color { r: 255, g: 255, b: 255 }
}

/// The color that marks a dead cell.
pub fn color_dead() -> (c: Color)
    ensures
        c == Color::black(),
{
    Color { r: 0, g: 0, b: 0 }
}

} // verus!
