//! Colour data.

use vstd::prelude::*;

verus! {

/// Colour in decimal form: each component in `[0, 255]`.
#[derive(Clone, Copy, Debug, PartialEq, Eq, Structural)]
pub struct Decimal {
    /// Red component.
    pub r: u8,
    /// Green component.
    pub g: u8,
    /// Blue component.
    pub b: u8,
    /// Alpha component.
    pub a: u8,
}

impl Decimal {
    pub fn new(r: u8, g: u8, b: u8, a: u8) -> (c: Decimal)
        ensures
            c == (Decimal { r, g, b, a }),
    {
        Decimal { r, g, b, a }
    }
}

} // verus!
