use rwgfx::application::{accepts_size, render_error_action, LoopAction};
use rwgfx::asset::Manager;
use rwgfx::color::Decimal;
use rwgfx::error::{
    AppCreationError, MeshCreationError, RenderError, RendererAddMeshError, RendererCreationError,
    ShaderCreationError,
};
use rwgfx::geometry::{Point2, Vector2};
use rwgfx::renderer::Renderer;
use rwgfx::sprite::Sprite;
use rwgfx::text::TextHandler;
use rwgfx::texture::{ID_EMPTY, ID_HAMBURGER};

#[test]
fn texture_lookup_falls_back_to_empty() {
    let mut m: Manager<&str, u8> = Manager::new("empty", TextHandler::new());
    assert_eq!(*m.get_texture_or_default(ID_HAMBURGER), "empty");
    assert_eq!(m.get_texture(ID_HAMBURGER), None);
    m.add_texture(ID_HAMBURGER, "hamburger");
    assert_eq!(*m.get_texture_or_default(ID_HAMBURGER), "hamburger");
    assert_eq!(*m.get_texture_or_default(999), "empty");
    assert_eq!(m.get_texture(ID_EMPTY), Some(&"empty"));
}

#[test]
fn manager_text_handler_is_shared() {
    let mut m: Manager<u8, u8> = Manager::new(0, TextHandler::new());
    m.text_handler_mut().add_glyphs(1, 3);
    assert_eq!(m.text_handler().font(1).unwrap().glyphs(1), Some(&3));
}

#[test]
fn sprite_without_texture_uses_empty() {
    let mut s = Sprite::new(Point2::new(0, 0), Vector2::new(5, 6), 1, Decimal::new(1, 2, 3, 4), None);
    let d = s.draw();
    assert_eq!(d.texture_id, ID_EMPTY);
    assert_eq!(d.vertices, None);
    let t = Sprite::new(Point2::new(0, 0), Vector2::new(5, 6), 1, Decimal::new(1, 2, 3, 4), Some(9));
    let mut t = t;
    assert_eq!(t.draw().texture_id, 9);
}

#[test]
fn sprite_setters_mark_their_buffers() {
    let mut s = Sprite::new(Point2::new(0, 0), Vector2::new(5, 6), 1, Decimal::new(1, 2, 3, 4), None);
    s.set_size(Vector2::new(8, 9));
    let d = s.draw();
    assert_eq!(d.vertices, Some(Sprite::compute_vertices(&Vector2::new(8, 9))));
    assert_eq!(d.mesh_uniform, None);
    s.set_overlay_alpha(300);
    s.set_position(Point2::new(4, 4));
    let d = s.draw();
    assert_eq!(d.vertices, None);
    let u = d.mesh_uniform.unwrap();
    assert_eq!(u.overlay_alpha, 300);
    assert_eq!(u.position, Point2::new(4, 4));
    assert_eq!(d.index_count, 6);
}

#[test]
fn renderer_mesh_ids() {
    let mut r: Renderer<&str, u32> = Renderer::new();
    assert_eq!(r.add_mesh(0, 1), Err(RendererAddMeshError::InvalidShader));
    assert_eq!(r.add_shader("ui"), 0);
    assert_eq!(r.add_shader("other"), 1);
    assert_eq!(r.add_mesh(0, 10), Ok((0, 0)));
    assert_eq!(r.add_mesh(0, 11), Ok((0, 1)));
    assert_eq!(r.add_mesh(1, 12), Ok((1, 0)));
    assert_eq!(r.add_mesh(2, 13), Err(RendererAddMeshError::InvalidShader));
    assert_eq!(r.mesh_count(0), Some(2));
    assert_eq!(r.mesh_count(5), None);
    assert_eq!(r.shader_count(), 2);
}

#[test]
fn error_messages() {
    assert_eq!(MeshCreationError::VertexBufferCreation.message(), "Failed to create the vertex buffer.");
    assert_eq!(MeshCreationError::IndexBufferCreation.message(), "Failed to create the index buffer.");
    assert_eq!(RendererCreationError::ShaderCreation.message(), "Failed to create the default shaders.");
    assert_eq!(RendererAddMeshError::MeshCreationFailed.message(), "Failed to create the mesh.");
    assert_eq!(RendererAddMeshError::InvalidShader.message(), "The specified shader ID does not exist.");
    assert_eq!(ShaderCreationError::FromSourceCreation.message(), "Failed to create the shader from source.");
    assert_eq!(AppCreationError::WindowCreation.message(), "Failed to create the window.");
    assert_eq!(AppCreationError::SurfaceCreation.message(), "Failed to create the rendering surface.");
    assert_eq!(
        AppCreationError::NoPhysicalGraphicsDevice.message(),
        "Failed to get a compatible physical rendering device."
    );
    assert_eq!(
        AppCreationError::DeviceOrQueueCreation.message(),
        "Failed to create a logical rendering device or a command queue."
    );
}

#[test]
fn frame_loop_reactions() {
    assert_eq!(render_error_action(RenderError::SurfaceInvalid), LoopAction::Reconfigure);
    assert_eq!(render_error_action(RenderError::OutOfMemory), LoopAction::Exit);
    assert_eq!(render_error_action(RenderError::GraphicsDeviceNotResponding), LoopAction::Continue);
    assert!(RenderError::SurfaceInvalid.is_recoverable());
    assert!(!RenderError::OutOfMemory.is_recoverable());
    assert!(accepts_size(800, 600));
    assert!(!accepts_size(0, 600));
    assert!(!accepts_size(800, 0));
}

#[test]
fn second_sprite_draw_uploads_nothing() {
    let mut s = Sprite::new(Point2::new(1, 1), Vector2::new(2, 2), 0, Decimal::new(0, 0, 0, 0), Some(3));
    s.set_position(Point2::new(9, 9));
    s.set_size(Vector2::new(4, 4));
    let first = s.draw();
    assert!(first.vertices.is_some());
    assert!(first.mesh_uniform.is_some());
    let second = s.draw();
    assert_eq!(second.vertices, None);
    assert_eq!(second.mesh_uniform, None);
    assert_eq!(second.texture_id, 3);
}
