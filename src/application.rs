//! Decisions of the frame loop.

use crate::error::RenderError;
use vstd::prelude::*;

verus! {

/// What the frame loop does after a failed frame.
#[derive(Clone, Copy, Debug, PartialEq, Eq, Structural)]
pub enum LoopAction {
    /// Go on with the next frame.
    Continue,
    /// Reconfigure the surface at the current size, then go on.
    Reconfigure,
    /// Leave the loop.
    Exit,
}

/// Reaction to a frame that could not be rendered: an invalid surface is
/// reconfigured, running out of memory ends the loop, and a device that did
/// not answer in time is skipped for this frame.
pub fn render_error_action(error: RenderError) -> (r: LoopAction)
    ensures
        r == (match error {
            RenderError::SurfaceInvalid => LoopAction::Reconfigure,
            RenderError::OutOfMemory => LoopAction::Exit,
            RenderError::GraphicsDeviceNotResponding => LoopAction::Continue,
        }),
{
    match error {
        RenderError::SurfaceInvalid => LoopAction::Reconfigure,
        RenderError::OutOfMemory => LoopAction::Exit,
        RenderError::GraphicsDeviceNotResponding => LoopAction::Continue,
    }
}

/// Whether the surface is resized to `width` by `height`: a size with an
/// empty side (a minimised window) is ignored.
pub fn accepts_size(width: u32, height: u32) -> (r: bool)
    ensures
        r == (width > 0 && height > 0),
{
    width > 0 && height > 0
}

} // verus!
