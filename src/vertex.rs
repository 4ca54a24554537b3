//! Vertex data kept on the CPU side, in pixels.

use vstd::prelude::*;

verus! {

/// Vertex with a position only.
#[derive(Clone, Copy, Debug, PartialEq, Eq, Structural)]
pub struct Plain {
    pub x: i64,
    pub y: i64,
}

/// Vertex with a position and texture coordinates (each `0` or `1` for
/// the corners of a whole texture).
#[derive(Clone, Copy, Debug, PartialEq, Eq, Structural)]
pub struct Textured {
    pub x: i64,
    pub y: i64,
    pub u: i64,
    pub v: i64,
}

/// Number of indices that draw one quad as two triangles.
pub const QUAD_INDEX_COUNT: u32 = 6;

} // verus!
