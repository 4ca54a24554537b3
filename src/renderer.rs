//! Shader programs and the meshes drawn with each, by ID.

use crate::error::RendererAddMeshError;
use vstd::prelude::*;

verus! {

/// ID of the integrated UI shader.
pub const SHADER_ID_UI: usize = 0;

/// Shaders of type `S`, each with the meshes of type `M` it draws. A
/// shader's ID is its position; a mesh's ID is its position among the
/// meshes of its shader.
pub struct Renderer<S, M> {
    shaders_meshes: Vec<(S, Vec<M>)>,
}

impl<S, M> View for Renderer<S, M> {
    type V = Seq<(S, Seq<M>)>;

    closed spec fn view(&self) -> Seq<(S, Seq<M>)> {
        self.shaders_meshes@.map_values(|e: (S, Vec<M>)| (e.0, e.1@))
    }
}

impl<S, M> Renderer<S, M> {
    /// A renderer without shaders.
    pub fn new() -> (r: Renderer<S, M>)
        ensures
            r@ == Seq::<(S, Seq<M>)>::empty(),
    {
        let r = Renderer { shaders_meshes: Vec::new() };
        assert(r@ =~= Seq::<(S, Seq<M>)>::empty());
        r
    }

    /// Number of shaders.
    pub fn shader_count(&self) -> (r: usize)
        ensures
            r == self@.len(),
    {
        self.shaders_meshes.len()
    }

    /// Add a shader without meshes and return its ID.
    pub fn add_shader(&mut self, shader: S) -> (id: usize)
        requires
            old(self)@.len() < usize::MAX,
        ensures
            id == old(self)@.len(),
            final(self)@ == old(self)@.push((shader, Seq::<M>::empty())),
    {
        self.shaders_meshes.push((shader, Vec::new()));
        assert(self@ =~= old(self)@.push((shader, Seq::<M>::empty())));
        self.shaders_meshes.len() - 1
    }

    /// Add a mesh drawn with the shader `shader_id`. Returns the shader ID
    /// and the mesh's ID, or `InvalidShader` when no shader has that ID.
    pub fn add_mesh(&mut self, shader_id: usize, mesh: M) -> (r: Result<
        (usize, usize),
        RendererAddMeshError,
    >)
        requires
            shader_id < old(self)@.len() ==> old(self)@[shader_id as int].1.len() < usize::MAX,
        ensures
            shader_id >= old(self)@.len() ==> r == Err::<(usize, usize), RendererAddMeshError>(
                RendererAddMeshError::InvalidShader,
            ) && final(self)@ == old(self)@,
            shader_id < old(self)@.len() ==> {
                let (shader, meshes) = old(self)@[shader_id as int];
                &&& r == Ok::<(usize, usize), RendererAddMeshError>(
                    (shader_id, meshes.len() as usize),
                )
                &&& final(self)@ == old(self)@.update(shader_id as int, (shader, meshes.push(mesh)))
            },
    {
        if shader_id >= self.shaders_meshes.len() {
            return Err(RendererAddMeshError::InvalidShader);
        }
        let entry = &mut self.shaders_meshes[shader_id];
        entry.1.push(mesh);
        let mesh_id = entry.1.len() - 1;
        assert(self@ =~= old(self)@.update(
            shader_id as int,
            (old(self)@[shader_id as int].0, old(self)@[shader_id as int].1.push(mesh)),
        ));
        Ok((shader_id, mesh_id))
    }

    /// Number of meshes of the shader `shader_id`, or `None` when no shader
    /// has that ID.
    pub fn mesh_count(&self, shader_id: usize) -> (r: Option<usize>)
        ensures
            r == (if shader_id < self@.len() {
                Some(self@[shader_id as int].1.len() as usize)
            } else {
                None
            }),
    {
        if shader_id < self.shaders_meshes.len() {
            Some(self.shaders_meshes[shader_id].1.len())
        } else {
            None
        }
    }
}

} // verus!
