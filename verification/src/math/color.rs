//! Color values for materials and clear operations.

use vstd::prelude::*;

verus! {

/// How a color's channels are laid out.
#[derive(Clone, Copy, Debug, PartialEq, Eq, Structural)]
pub enum Format {
    /// Red, green, blue and alpha channels, 8 bits each.
    RGBA { r: u8, g: u8, b: u8, a: u8 },
    /// Red, green and blue channels, 8 bits each.
    RGB { r: u8, g: u8, b: u8 },
    /// A standard-gamma encoding, not yet carrying channels.
    SRGB,
}

/// A color, wrapped around its channel format.
#[derive(Clone, Copy, Debug, PartialEq, Eq, Structural)]
pub struct Color {
    /// The channel layout and values.
    pub format: Format,
}

impl Color {
    /// An opaque color from red, green and blue channels.
    pub fn rgb(r: u8, g: u8, b: u8) -> (c: Self)
        ensures
            c.format == (Format::RGB { r, g, b }),
    {
        Color { format: Format::RGB { r, g, b } }
    }

    /// A color from red, green, blue and alpha channels.
    pub fn rgba(r: u8, g: u8, b: u8, a: u8) -> (c: Self)
        ensures
            c.format == (Format::RGBA { r, g, b, a }),
    {
        Color { format: Format::RGBA { r, g, b, a } }
    }

    /// Fully saturated blue.
    pub fn blue() -> (c: Self)
        ensures
            c.format == (Format::RGB { r: 0, g: 0, b: 255 }),
    {
        Color::rgb(0, 0, 255)
    }

    /// Fully saturated red.
    pub fn red() -> (c: Self)
        ensures
            c.format == (Format::RGB { r: 255, g: 0, b: 0 }),
    {
        Color::rgb(255, 0, 0)
    }

    /// Fully saturated green.
    pub fn green() -> (c: Self)
        ensures
            c.format == (Format::RGB { r: 0, g: 255, b: 0 }),
    {
        Color::rgb(0, 255, 0)
    }

    /// Black: every channel dark.
    pub fn black() -> (c: Self)
        ensures
            c.format == (Format::RGB { r: 0, g: 0, b: 0 }),
    {
        Color::rgb(0, 0, 0)
    }

    /// White: every channel saturated.
    pub fn white() -> (c: Self)
        ensures
            c.format == (Format::RGB { r: 255, g: 255, b: 255 }),
    {
        Color::rgb(255, 255, 255)
    }
}

} // verus!
