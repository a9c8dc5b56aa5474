//! An RGBA color with 8-bit channels.

use vstd::prelude::*;

verus! {

#[derive(Clone, Copy, Debug, PartialEq, Eq, Structural)]
pub struct Color {
    pub red: u8,
    pub green: u8,
    pub blue: u8,
    pub alpha: u8,
}

impl Color {
    pub fn new(red: u8, green: u8, blue: u8, alpha: u8) -> (c: Color)
        ensures
            c == (Color { red, green, blue, alpha }),
    {
        Color { red, green, blue, alpha }
    }

    /// Opaque white, the neutral tint.
    pub fn white() -> (c: Color)
        ensures
            c == (Color { red: 255u8, green: 255u8, blue: 255u8, alpha: 255u8 }),
    {
        Color { red: 255, green: 255, blue: 255, alpha: 255 }
    }
}

} // verus!
