//! Basic textured rectangle.

use crate::color::Decimal;
use crate::dirty::DirtyFlag;
use crate::geometry::{Point2, Vector2};
use crate::shader::MeshUniform;
use crate::texture::ID_EMPTY;
use crate::vertex::{QUAD_INDEX_COUNT, Textured};
use vstd::prelude::*;

verus! {

/// Corners of a textured quad of the given size, with the whole texture
/// spread over it.
pub open spec fn textured_corners(size: Vector2) -> Seq<Textured> {
    seq![
        Textured { x: 0, y: 0, u: 0, v: 0 },
        Textured { x: 0, y: size.y, u: 0, v: 1 },
        Textured { x: size.x, y: size.y, u: 1, v: 1 },
        Textured { x: size.x, y: 0, u: 1, v: 0 },
    ]
}

/// Abstract state of a sprite.
pub struct SpriteView {
    pub vertices: Seq<Textured>,
    pub mesh_uniform: MeshUniform,
    pub texture_id: u64,
    pub vertex_dirty: bool,
    pub uniform_dirty: bool,
    /// Vertex data last written to the GPU.
    pub gpu_vertices: Seq<Textured>,
    /// Uniform data last written to the GPU.
    pub gpu_uniform: MeshUniform,
}

impl SpriteView {
    /// A snapshot whose flag is clear is what the GPU holds.
    pub open spec fn wf(self) -> bool {
        &&& !self.vertex_dirty ==> self.gpu_vertices == self.vertices
        &&& !self.uniform_dirty ==> self.gpu_uniform == self.mesh_uniform
    }

    /// State after a draw: every snapshot whose flag was set has been
    /// written, whole, and the flags are clear.
    pub open spec fn drawn(self) -> SpriteView {
        SpriteView {
            vertex_dirty: false,
            uniform_dirty: false,
            gpu_vertices: self.vertices,
            gpu_uniform: self.mesh_uniform,
            ..self
        }
    }
}

/// What a draw of a sprite hands to the graphics backend.
#[derive(Clone, Copy, Debug, PartialEq, Eq)]
pub struct SpriteDraw {
    /// Vertex snapshot to upload, whole, when it changed.
    pub vertices: Option<[Textured; 4]>,
    /// Uniform snapshot to upload, whole, when it changed.
    pub mesh_uniform: Option<MeshUniform>,
    /// Texture to bind; a missing one falls back to the empty texture.
    pub texture_id: u64,
    /// Number of indices of the indexed draw.
    pub index_count: u32,
}

/// Rectangular element that can be drawn.
pub struct Sprite {
    /// Vertex data in the local frame of the sprite.
    vertices: [Textured; 4],
    /// Uniform data of the sprite.
    mesh_uniform: MeshUniform,
    /// Texture drawn on the sprite.
    texture_id: u64,
    /// The vertex buffer must be rewritten.
    vertex_dirty: DirtyFlag,
    /// The uniform buffer must be rewritten.
    uniform_dirty: DirtyFlag,
    /// Vertex data last written to the GPU.
    gpu_vertices: Ghost<Seq<Textured>>,
    /// Uniform data last written to the GPU.
    gpu_uniform: Ghost<MeshUniform>,
}

impl View for Sprite {
    type V = SpriteView;

    closed spec fn view(&self) -> SpriteView {
        SpriteView {
            vertices: self.vertices@,
            mesh_uniform: self.mesh_uniform,
            texture_id: self.texture_id,
            vertex_dirty: self.vertex_dirty@,
            uniform_dirty: self.uniform_dirty@,
            gpu_vertices: self.gpu_vertices@,
            gpu_uniform: self.gpu_uniform@,
        }
    }
}

impl Sprite {
    /// Vertex data of a sprite of the given size.
    pub fn compute_vertices(size: &Vector2) -> (r: [Textured; 4])
        ensures
            r@ == textured_corners(*size),
    {
        let r = [
            Textured { x: 0, y: 0, u: 0, v: 0 },
            Textured { x: 0, y: size.y, u: 0, v: 1 },
            Textured { x: size.x, y: size.y, u: 1, v: 1 },
            Textured { x: size.x, y: 0, u: 1, v: 0 },
        ];
        assert(r@ =~= textured_corners(*size));
        r
    }

    /// A sprite with nothing to upload, drawing the texture `texture_id`, or
    /// the empty texture when none is given: its buffers are created holding
    /// its initial snapshots.
    pub fn new(
        position: Point2,
        size: Vector2,
        z_index: i64,
        back_colour: Decimal,
        texture_id: Option<u64>,
    ) -> (r: Sprite)
        ensures
            r@ == (SpriteView {
                vertices: textured_corners(size),
                mesh_uniform: MeshUniform { position, z: z_index, overlay_alpha: 0, back_colour },
                texture_id: match texture_id {
                    Some(id) => id,
                    None => ID_EMPTY,
                },
                vertex_dirty: false,
                uniform_dirty: false,
                gpu_vertices: textured_corners(size),
                gpu_uniform: MeshUniform { position, z: z_index, overlay_alpha: 0, back_colour },
            }),
            r@.wf(),
    {
        let texture_id = match texture_id {
            Some(id) => id,
            None => ID_EMPTY,
        };
        let vertices = Sprite::compute_vertices(&size);
        let mesh_uniform = MeshUniform::new(position, z_index, 0, back_colour);
        Sprite {
            vertices,
            mesh_uniform,
            texture_id,
            vertex_dirty: DirtyFlag::new(),
            uniform_dirty: DirtyFlag::new(),
            gpu_vertices: Ghost(vertices@),
            gpu_uniform: Ghost(mesh_uniform),
        }
    }

    /// Set the alpha of the sprite's overlay, in thousandths.
    pub fn set_overlay_alpha(&mut self, alpha: i64)
        requires
            old(self)@.wf(),
        ensures
            final(self)@.wf(),
            final(self)@ == (SpriteView {
                mesh_uniform: MeshUniform { overlay_alpha: alpha, ..old(self)@.mesh_uniform },
                uniform_dirty: true,
                ..old(self)@
            }),
    {
        self.mesh_uniform.overlay_alpha = alpha;
        self.uniform_dirty.mark();
    }

    /// Move the sprite.
    pub fn set_position(&mut self, position: Point2)
        requires
            old(self)@.wf(),
        ensures
            final(self)@.wf(),
            final(self)@ == (SpriteView {
                mesh_uniform: MeshUniform { position, ..old(self)@.mesh_uniform },
                uniform_dirty: true,
                ..old(self)@
            }),
    {
        self.mesh_uniform.position = position;
        self.uniform_dirty.mark();
    }

    /// Resize the sprite.
    pub fn set_size(&mut self, size: Vector2)
        requires
            old(self)@.wf(),
        ensures
            final(self)@.wf(),
            final(self)@ == (SpriteView {
                vertices: textured_corners(size),
                vertex_dirty: true,
                ..old(self)@
            }),
    {
        self.vertices = Sprite::compute_vertices(&size);
        self.vertex_dirty.mark();
    }

    /// Clear the dirty flags and return the snapshots to upload before the
    /// sprite's indexed draw, with the texture to bind.
    pub fn draw(&mut self) -> (r: SpriteDraw)
        requires
            old(self)@.wf(),
        ensures
            final(self)@ == old(self)@.drawn(),
            final(self)@.wf(),
            r.vertices is Some <==> old(self)@.vertex_dirty,
            r.vertices is Some ==> r.vertices->0@ == old(self)@.vertices,
            r.mesh_uniform == (if old(self)@.uniform_dirty {
                Some(old(self)@.mesh_uniform)
            } else {
                None
            }),
            r.texture_id == old(self)@.texture_id,
            r.index_count == QUAD_INDEX_COUNT,
    {
        let vertices = if self.vertex_dirty.check_and_clear() {
            Some(self.vertices)
        } else {
            None
        };
        let mesh_uniform = if self.uniform_dirty.check_and_clear() {
            Some(self.mesh_uniform)
        } else {
            None
        };
        proof {
            self.gpu_vertices = Ghost(self.vertices@);
            self.gpu_uniform = Ghost(self.mesh_uniform);
        }
        SpriteDraw { vertices, mesh_uniform, texture_id: self.texture_id, index_count: QUAD_INDEX_COUNT }
    }
}

} // verus!
