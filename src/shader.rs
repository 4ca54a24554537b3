//! Data handed to the shaders.

use crate::color::Decimal;
use crate::geometry::Point2;
use vstd::prelude::*;

verus! {

/// Sources needed to create a GPU shader program.
#[derive(Clone, Copy, Debug)]
pub struct ShaderDescriptor<'a> {
    /// Source code of the vertex shader.
    pub vertex_shader: &'a str,
    /// Source code of the fragment shader.
    pub fragment_shader: &'a str,
}

/// Per-mesh uniform data of the general shader.
#[derive(Clone, Copy, Debug, PartialEq, Eq, Structural)]
pub struct MeshUniform {
    /// Position in screen coordinates.
    pub position: Point2,
    /// Depth of the mesh; lower values are drawn on top.
    pub z: i64,
    /// Alpha of the white overlay, in thousandths.
    pub overlay_alpha: i64,
    /// Background colour.
    pub back_colour: Decimal,
}

impl MeshUniform {
    pub fn new(position: Point2, z: i64, overlay_alpha: i64, back_colour: Decimal) -> (r:
        MeshUniform)
        ensures
            r == (MeshUniform { position, z, overlay_alpha, back_colour }),
    {
        MeshUniform { position, z, overlay_alpha, back_colour }
    }
}

} // verus!
