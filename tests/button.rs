use rwgfx::button::{Button, ALPHA_STEP};
use rwgfx::color::Decimal;
use rwgfx::event::{ElementState, MouseButton, PointerEvent};
use rwgfx::geometry::{Point2, Vector2};
use rwgfx::shader::MeshUniform;
use rwgfx::time::Duration;
use rwgfx::vertex::Plain;

fn red() -> Decimal {
    Decimal::new(128, 13, 13, 255)
}

fn button() -> Button {
    Button::new(Point2::new(350, 250), Vector2::new(100, 100), -75, red())
}

fn cursor(x: i64, y: i64) -> PointerEvent {
    PointerEvent::CursorMoved { x, y }
}

fn left(state: ElementState) -> PointerEvent {
    PointerEvent::MouseInput { state, button: MouseButton::Left }
}

#[test]
fn button_moves_halfway_then_snaps() {
    let mut b = Button::new(Point2::new(0, 0), Vector2::new(10, 10), 0, red());
    b.set_position(Point2::new(100, 100));
    b.update(&Duration::from_millis(100));
    assert_eq!(b.position(), Point2::new(50, 50));
    b.update(&Duration::from_millis(100));
    assert_eq!(b.position(), Point2::new(100, 100));
    assert!(b.is_settled());
}

#[test]
fn new_button_has_nothing_to_upload() {
    let mut b = button();
    let d = b.draw();
    assert_eq!(d.vertices, None);
    assert_eq!(d.mesh_uniform, None);
    assert_eq!(d.index_count, 6);
}

#[test]
fn compute_vertices_gives_the_corners() {
    let v = Button::compute_vertices(&Vector2::new(30, 40));
    assert_eq!(
        v,
        [Plain { x: 0, y: 0 }, Plain { x: 0, y: 40 }, Plain { x: 30, y: 40 }, Plain { x: 30, y: 0 }]
    );
}

#[test]
fn enter_press_release_leave_returns_alpha_target() {
    let mut b = button();
    assert!(b.consume_event(&cursor(400, 300)));
    assert_eq!(b.overlay_alpha_target(), ALPHA_STEP);
    assert!(b.consume_event(&left(ElementState::Pressed)));
    assert_eq!(b.overlay_alpha_target(), 2 * ALPHA_STEP);
    assert!(b.consume_event(&left(ElementState::Released)));
    assert_eq!(b.overlay_alpha_target(), ALPHA_STEP);
    assert!(b.consume_event(&cursor(0, 0)));
    assert_eq!(b.overlay_alpha_target(), 0);
    assert!(!b.is_hovered());
    assert!(!b.is_pressed());
}

#[test]
fn leave_while_pressed_then_release() {
    let mut b = button();
    b.consume_event(&cursor(350, 250));
    b.consume_event(&left(ElementState::Pressed));
    assert!(b.consume_event(&cursor(1000, 1000)));
    assert_eq!(b.overlay_alpha_target(), ALPHA_STEP);
    assert!(b.is_pressed());
    assert!(b.consume_event(&left(ElementState::Released)));
    assert_eq!(b.overlay_alpha_target(), 0);
}

#[test]
fn repeated_moves_inside_are_not_consumed() {
    let mut b = button();
    assert!(b.consume_event(&cursor(360, 260)));
    assert!(!b.consume_event(&cursor(370, 270)));
    assert_eq!(b.overlay_alpha_target(), ALPHA_STEP);
}

#[test]
fn edges_count_as_inside() {
    let mut b = button();
    assert!(b.consume_event(&cursor(450, 350)));
    let mut c = button();
    assert!(!c.consume_event(&cursor(451, 350)));
    assert!(!c.consume_event(&cursor(349, 300)));
}

#[test]
fn press_outside_and_other_buttons_are_ignored() {
    let mut b = button();
    assert!(!b.consume_event(&left(ElementState::Pressed)));
    b.consume_event(&cursor(400, 300));
    let right = PointerEvent::MouseInput { state: ElementState::Pressed, button: MouseButton::Right };
    assert!(!b.consume_event(&right));
    assert!(!b.consume_event(&left(ElementState::Released)));
    assert!(!b.consume_event(&PointerEvent::Other));
    assert_eq!(b.overlay_alpha_target(), ALPHA_STEP);
}

#[test]
fn hover_animates_overlay_and_marks_uniform() {
    let mut b = button();
    b.consume_event(&cursor(400, 300));
    b.update(&Duration::from_millis(50));
    assert_eq!(b.overlay_alpha(), 50);
    let d = b.draw();
    assert_eq!(d.vertices, None);
    assert_eq!(
        d.mesh_uniform,
        Some(MeshUniform::new(Point2::new(350, 250), -75, 50, red()))
    );
    let again = b.draw();
    assert_eq!(again.mesh_uniform, None);
}

#[test]
fn resize_marks_vertices() {
    let mut b = button();
    b.set_size(Vector2::new(200, 50));
    b.update(&Duration::from_millis(200));
    assert_eq!(b.size(), Vector2::new(200, 50));
    let d = b.draw();
    assert_eq!(d.vertices, Some(Button::compute_vertices(&Vector2::new(200, 50))));
    assert_eq!(d.mesh_uniform, None);
}

#[test]
fn update_of_settled_button_marks_nothing() {
    let mut b = button();
    b.update(&Duration::from_millis(16));
    let d = b.draw();
    assert_eq!(d.vertices, None);
    assert_eq!(d.mesh_uniform, None);
}
