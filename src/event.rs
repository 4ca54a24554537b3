//! Input events that widgets react to.

use vstd::prelude::*;

verus! {

/// A mouse button.
#[derive(Clone, Copy, Debug, PartialEq, Eq, Structural)]
pub enum MouseButton {
    Left,
    Right,
    Middle,
    Other,
}

/// Whether a button went down or up.
#[derive(Clone, Copy, Debug, PartialEq, Eq, Structural)]
pub enum ElementState {
    Pressed,
    Released,
}

/// A window event, reduced to what widgets read.
#[derive(Clone, Copy, Debug, PartialEq, Eq, Structural)]
pub enum PointerEvent {
    /// The cursor moved to `(x, y)`, in pixels.
    CursorMoved { x: i64, y: i64 },
    /// A mouse button changed state.
    MouseInput { state: ElementState, button: MouseButton },
    /// Any other event.
    Other,
}

} // verus!
