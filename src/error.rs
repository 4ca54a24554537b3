//! Error types of the toolkit.

use vstd::prelude::*;

verus! {

/// Possible errors during mesh creation.
#[derive(Clone, Copy, Debug, PartialEq, Eq, Structural)]
pub enum MeshCreationError {
    /// Error while creating the vertex buffer.
    VertexBufferCreation,
    /// Error while creating the index buffer.
    IndexBufferCreation,
}

impl MeshCreationError {
    /// Human-readable description.
    pub fn message(&self) -> (r: &'static str)
        ensures
            r == (match *self {
                MeshCreationError::VertexBufferCreation => "Failed to create the vertex buffer.",
                MeshCreationError::IndexBufferCreation => "Failed to create the index buffer.",
            }),
    {
        match self {
            MeshCreationError::VertexBufferCreation => "Failed to create the vertex buffer.",
            MeshCreationError::IndexBufferCreation => "Failed to create the index buffer.",
        }
    }
}

/// Possible errors during renderer creation.
#[derive(Clone, Copy, Debug, PartialEq, Eq, Structural)]
pub enum RendererCreationError {
    /// Error while creating the default shaders.
    ShaderCreation,
}

impl RendererCreationError {
    /// Human-readable description.
    pub fn message(&self) -> (r: &'static str)
        ensures
            r == "Failed to create the default shaders.",
    {
        "Failed to create the default shaders."
    }
}

/// Possible errors when adding a mesh to a renderer.
#[derive(Clone, Copy, Debug, PartialEq, Eq, Structural)]
pub enum RendererAddMeshError {
    /// The specified shader ID does not exist.
    InvalidShader,
    /// Failed to create the mesh.
    MeshCreationFailed,
}

impl RendererAddMeshError {
    /// Human-readable description.
    pub fn message(&self) -> (r: &'static str)
        ensures
            r == (match *self {
                RendererAddMeshError::InvalidShader => "The specified shader ID does not exist.",
                RendererAddMeshError::MeshCreationFailed => "Failed to create the mesh.",
            }),
    {
        match self {
            RendererAddMeshError::InvalidShader => "The specified shader ID does not exist.",
            RendererAddMeshError::MeshCreationFailed => "Failed to create the mesh.",
        }
    }
}

/// Possible errors during shader creation.
#[derive(Clone, Copy, Debug, PartialEq, Eq, Structural)]
pub enum ShaderCreationError {
    /// Error while creating the program from source.
    FromSourceCreation,
}

impl ShaderCreationError {
    /// Human-readable description.
    pub fn message(&self) -> (r: &'static str)
        ensures
            r == "Failed to create the shader from source.",
    {
        "Failed to create the shader from source."
    }
}

/// Possible errors during application creation.
#[derive(Clone, Copy, Debug, PartialEq, Eq, Structural)]
pub enum AppCreationError {
    /// Error while creating the window.
    WindowCreation,
    /// Error while creating the rendering surface.
    SurfaceCreation,
    /// Error while retrieving a compatible rendering device.
    NoPhysicalGraphicsDevice,
    /// Error while creating a logical rendering device or the command queue.
    DeviceOrQueueCreation,
}

impl AppCreationError {
    /// Human-readable description.
    pub fn message(&self) -> (r: &'static str)
        ensures
            r == (match *self {
                AppCreationError::WindowCreation => "Failed to create the window.",
                AppCreationError::SurfaceCreation => "Failed to create the rendering surface.",
                AppCreationError::NoPhysicalGraphicsDevice =>
                    "Failed to get a compatible physical rendering device.",
                AppCreationError::DeviceOrQueueCreation =>
                    "Failed to create a logical rendering device or a command queue.",
            }),
    {
        match self {
            AppCreationError::WindowCreation => "Failed to create the window.",
            AppCreationError::SurfaceCreation => "Failed to create the rendering surface.",
            AppCreationError::NoPhysicalGraphicsDevice =>
                "Failed to get a compatible physical rendering device.",
            AppCreationError::DeviceOrQueueCreation =>
                "Failed to create a logical rendering device or a command queue.",
        }
    }
}

/// Possible errors during rendering context creation.
#[derive(Clone, Copy, Debug, PartialEq, Eq, Structural)]
pub enum ContextCreationError {
    /// Error while creating the rendering surface.
    SurfaceCreation,
    /// Error while retrieving a compatible rendering device.
    NoPhysicalGraphicsDevice,
    /// Error while creating a logical rendering device or the command queue.
    DeviceOrQueueCreation,
}

/// Possible errors while loading the default assets.
#[derive(Clone, Copy, Debug, PartialEq, Eq, Structural)]
pub enum AssetCreationError {
    /// The default font could not be loaded.
    FontLoading,
    /// A default texture could not be loaded.
    TextureLoading,
}

/// Possible errors while rendering a frame.
#[derive(Clone, Copy, Debug, PartialEq, Eq, Structural)]
pub enum RenderError {
    /// The surface is lost or outdated: reconfigure it and try again.
    SurfaceInvalid,
    /// The device ran out of memory.
    OutOfMemory,
    /// The device did not hand out a frame in time.
    GraphicsDeviceNotResponding,
}

impl RenderError {
    /// Whether reconfiguring the surface lets rendering go on.
    pub fn is_recoverable(&self) -> (r: bool)
        ensures
            r == (*self == RenderError::SurfaceInvalid),
    {
        match self {
            RenderError::SurfaceInvalid => true,
            _ => false,
        }
    }
}

} // verus!
