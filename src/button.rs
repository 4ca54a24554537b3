//! Rectangular widget that reacts to the pointer.

use crate::animation::{AnimationView, Animated};
use crate::color::Decimal;
use crate::dirty::DirtyFlag;
use crate::event::{ElementState, MouseButton, PointerEvent};
use crate::geometry::{Point2, Vector2};
use crate::shader::MeshUniform;
use crate::time::{Duration, NANOS_PER_MILLI};
use crate::vertex::{Plain, QUAD_INDEX_COUNT};
use vstd::prelude::*;

verus! {

/// Change of the overlay alpha target on hover and on press, in thousandths.
pub const ALPHA_STEP: i64 = 100;

/// Duration of position and size animations, in milliseconds.
pub const SHAPE_ANIMATION_MILLIS: u64 = 200;

/// Duration of overlay animations, in milliseconds.
pub const OVERLAY_ANIMATION_MILLIS: u64 = 100;

/// Corners of a quad of the given size with its origin at `(0, 0)`.
pub open spec fn quad_corners(size: Vector2) -> Seq<Plain> {
    seq![
        Plain { x: 0, y: 0 },
        Plain { x: 0, y: size.y },
        Plain { x: size.x, y: size.y },
        Plain { x: size.x, y: 0 },
    ]
}

/// Whether `(x, y)` lies on the rectangle at `pos` of extent `size`, edges
/// included.
pub open spec fn covers(pos: Point2, size: Vector2, x: int, y: int) -> bool {
    &&& pos.x <= x <= pos.x + size.x
    &&& pos.y <= y <= pos.y + size.y
}

/// Abstract state of a button.
pub struct ButtonView {
    pub position: AnimationView<Point2>,
    pub size: AnimationView<Vector2>,
    pub overlay_alpha: AnimationView<i64>,
    pub z_index: i64,
    pub hovered: bool,
    pub pressed: bool,
    pub back_colour: Decimal,
    pub vertices: Seq<Plain>,
    pub mesh_uniform: MeshUniform,
    pub vertex_dirty: bool,
    pub uniform_dirty: bool,
    /// Vertex data last written to the GPU.
    pub gpu_vertices: Seq<Plain>,
    /// Uniform data last written to the GPU.
    pub gpu_uniform: MeshUniform,
}

/// Overlay alpha target that a button in the given pointer state aims at.
pub open spec fn alpha_for(hovered: bool, pressed: bool) -> int {
    ALPHA_STEP * ((if hovered { 1int } else { 0int }) + (if pressed { 1int } else { 0int }))
}

impl ButtonView {
    pub open spec fn wf(self) -> bool {
        &&& self.position.wf()
        &&& self.size.wf()
        &&& self.overlay_alpha.wf()
        &&& self.overlay_alpha.target == alpha_for(self.hovered, self.pressed)
        &&& self.vertices == quad_corners(self.size.current)
        &&& self.mesh_uniform == (MeshUniform {
            position: self.position.current,
            z: self.z_index,
            overlay_alpha: self.overlay_alpha.current,
            back_colour: self.back_colour,
        })
        &&& !self.vertex_dirty ==> self.gpu_vertices == self.vertices
        &&& !self.uniform_dirty ==> self.gpu_uniform == self.mesh_uniform
    }

    /// State after a draw: every snapshot whose flag was set has been
    /// written, whole, and the flags are clear.
    pub open spec fn drawn(self) -> ButtonView {
        ButtonView {
            vertex_dirty: false,
            uniform_dirty: false,
            gpu_vertices: self.vertices,
            gpu_uniform: self.mesh_uniform,
            ..self
        }
    }

    /// The overlay animation retargeted by `delta`.
    pub open spec fn with_alpha_shift(self, hovered: bool, pressed: bool, delta: int) -> ButtonView {
        ButtonView {
            hovered,
            pressed,
            overlay_alpha: self.overlay_alpha.retargeted((self.overlay_alpha.target + delta) as i64),
            ..self
        }
    }

    /// State after `event`, and whether the button consumed it.
    pub open spec fn after_event(self, event: PointerEvent) -> (ButtonView, bool) {
        match event {
            PointerEvent::CursorMoved { x, y } => {
                if covers(self.position.current, self.size.current, x as int, y as int) {
                    if !self.hovered {
                        (self.with_alpha_shift(true, self.pressed, ALPHA_STEP as int), true)
                    } else {
                        (self, false)
                    }
                } else if self.hovered {
                    (self.with_alpha_shift(false, self.pressed, -ALPHA_STEP), true)
                } else {
                    (self, false)
                }
            },
            PointerEvent::MouseInput { state, button } => {
                if button != MouseButton::Left {
                    (self, false)
                } else if self.pressed {
                    if state == ElementState::Released {
                        (self.with_alpha_shift(self.hovered, false, -ALPHA_STEP), true)
                    } else {
                        (self, false)
                    }
                } else if self.hovered && state == ElementState::Pressed {
                    (self.with_alpha_shift(self.hovered, true, ALPHA_STEP as int), true)
                } else {
                    (self, false)
                }
            },
            PointerEvent::Other => (self, false),
        }
    }

    /// State after the events `events`, in order.
    pub open spec fn after_events(self, events: Seq<PointerEvent>) -> ButtonView
        decreases events.len(),
    {
        if events.len() == 0 {
            self
        } else {
            self.after_events(events.drop_last()).after_event(events.last()).0
        }
    }

    /// State after `dt` nanoseconds: each running animation advances, its
    /// value is copied into the snapshot it feeds, and that snapshot is
    /// marked for upload. Settled animations are left alone.
    pub open spec fn updated(self, dt: nat) -> ButtonView {
        let s1 = if self.position.complete() {
            self
        } else {
            let p = self.position.advanced(dt);
            ButtonView {
                position: p,
                mesh_uniform: MeshUniform { position: p.current, ..self.mesh_uniform },
                uniform_dirty: true,
                ..self
            }
        };
        let s2 = if s1.size.complete() {
            s1
        } else {
            let sz = s1.size.advanced(dt);
            ButtonView { size: sz, vertices: quad_corners(sz.current), vertex_dirty: true, ..s1 }
        };
        if s2.overlay_alpha.complete() {
            s2
        } else {
            let a = s2.overlay_alpha.advanced(dt);
            ButtonView {
                overlay_alpha: a,
                mesh_uniform: MeshUniform { overlay_alpha: a.current, ..s2.mesh_uniform },
                uniform_dirty: true,
                ..s2
            }
        }
    }
}

/// What a draw of a button hands to the graphics backend: the snapshots to
/// upload, whole, and the number of indices of the indexed draw that follows.
#[derive(Clone, Copy, Debug, PartialEq, Eq)]
pub struct ButtonDraw {
    pub vertices: Option<[Plain; 4]>,
    pub mesh_uniform: Option<MeshUniform>,
    pub index_count: u32,
}

/// Rectangular object that can be interacted with.
pub struct Button {
    /// Position in screen coordinates.
    position: Animated<Point2>,
    /// Size of the button.
    size: Animated<Vector2>,
    /// Depth; lower values are drawn on top.
    z_index: i64,
    /// The cursor is over the button.
    hovered: bool,
    /// The left mouse button went down over the button and is still down.
    pressed: bool,
    /// Background colour.
    back_colour: Decimal,
    /// Alpha of the white overlay, in thousandths.
    overlay_alpha: Animated<i64>,
    /// Vertex data in the local frame of the button.
    vertices: [Plain; 4],
    /// Uniform data of the button.
    mesh_uniform: MeshUniform,
    /// The vertex buffer must be rewritten.
    vertex_dirty: DirtyFlag,
    /// The uniform buffer must be rewritten.
    uniform_dirty: DirtyFlag,
    /// Vertex data last written to the GPU.
    gpu_vertices: Ghost<Seq<Plain>>,
    /// Uniform data last written to the GPU.
    gpu_uniform: Ghost<MeshUniform>,
}

impl View for Button {
    type V = ButtonView;

    closed spec fn view(&self) -> ButtonView {
        ButtonView {
            position: self.position@,
            size: self.size@,
            overlay_alpha: self.overlay_alpha@,
            z_index: self.z_index,
            hovered: self.hovered,
            pressed: self.pressed,
            back_colour: self.back_colour,
            vertices: self.vertices@,
            mesh_uniform: self.mesh_uniform,
            vertex_dirty: self.vertex_dirty@,
            uniform_dirty: self.uniform_dirty@,
            gpu_vertices: self.gpu_vertices@,
            gpu_uniform: self.gpu_uniform@,
        }
    }
}

impl Button {
    /// Vertex data of a button of the given size.
    pub fn compute_vertices(size: &Vector2) -> (r: [Plain; 4])
        ensures
            r@ == quad_corners(*size),
    {
        let r = [
            Plain { x: 0, y: 0 },
            Plain { x: 0, y: size.y },
            Plain { x: size.x, y: size.y },
            Plain { x: size.x, y: 0 },
        ];
        assert(r@ =~= quad_corners(*size));
        r
    }

    /// A button at rest, not hovered, with nothing to upload: its buffers
    /// are created holding its initial snapshots.
    pub fn new(position: Point2, size: Vector2, z_index: i64, back_colour: Decimal) -> (r: Button)
        ensures
            r@.wf(),
            r@.position == (AnimationView {
                current: position,
                target: position,
                duration: (SHAPE_ANIMATION_MILLIS * NANOS_PER_MILLI) as nat,
                elapsed: 0,
            }),
            r@.size == (AnimationView {
                current: size,
                target: size,
                duration: (SHAPE_ANIMATION_MILLIS * NANOS_PER_MILLI) as nat,
                elapsed: 0,
            }),
            r@.overlay_alpha == (AnimationView {
                current: 0i64,
                target: 0i64,
                duration: (OVERLAY_ANIMATION_MILLIS * NANOS_PER_MILLI) as nat,
                elapsed: 0,
            }),
            r@.z_index == z_index,
            !r@.hovered,
            !r@.pressed,
            r@.back_colour == back_colour,
            r@.vertices == quad_corners(size),
            r@.mesh_uniform == (MeshUniform { position, z: z_index, overlay_alpha: 0, back_colour }),
            !r@.vertex_dirty,
            !r@.uniform_dirty,
            r@.gpu_vertices == r@.vertices,
            r@.gpu_uniform == r@.mesh_uniform,
    {
        let vertices = Button::compute_vertices(&size);
        let mesh_uniform = MeshUniform::new(position, z_index, 0, back_colour);
        Button {
            position: Animated::new(position, Duration::from_millis(SHAPE_ANIMATION_MILLIS)),
            size: Animated::new(size, Duration::from_millis(SHAPE_ANIMATION_MILLIS)),
            z_index,
            hovered: false,
            pressed: false,
            back_colour,
            overlay_alpha: Animated::new(0, Duration::from_millis(OVERLAY_ANIMATION_MILLIS)),
            vertices,
            mesh_uniform,
            vertex_dirty: DirtyFlag::new(),
            uniform_dirty: DirtyFlag::new(),
            gpu_vertices: Ghost(vertices@),
            gpu_uniform: Ghost(mesh_uniform),
        }
    }

    /// Current position.
    pub fn position(&self) -> (r: Point2)
        ensures
            r == self@.position.current,
    {
        *self.position.current()
    }

    /// Current size.
    pub fn size(&self) -> (r: Vector2)
        ensures
            r == self@.size.current,
    {
        *self.size.current()
    }

    /// Current overlay alpha, in thousandths.
    pub fn overlay_alpha(&self) -> (r: i64)
        ensures
            r == self@.overlay_alpha.current,
    {
        *self.overlay_alpha.current()
    }

    /// Overlay alpha the button is animating toward, in thousandths.
    pub fn overlay_alpha_target(&self) -> (r: i64)
        ensures
            r == self@.overlay_alpha.target,
    {
        *self.overlay_alpha.target()
    }

    /// Whether the cursor is over the button.
    pub fn is_hovered(&self) -> (r: bool)
        ensures
            r == self@.hovered,
    {
        self.hovered
    }

    /// Whether the button is held down.
    pub fn is_pressed(&self) -> (r: bool)
        ensures
            r == self@.pressed,
    {
        self.pressed
    }

    /// Whether every animation of the button has settled.
    pub fn is_settled(&self) -> (r: bool)
        ensures
            r == (self@.position.complete() && self@.size.complete()
                && self@.overlay_alpha.complete()),
    {
        self.position.complete() && self.size.complete() && self.overlay_alpha.complete()
    }

    /// Animate the button toward a new position.
    pub fn set_position(&mut self, position: Point2)
        requires
            old(self)@.wf(),
        ensures
            final(self)@ == (ButtonView {
                position: old(self)@.position.retargeted(position),
                ..old(self)@
            }),
            final(self)@.wf(),
    {
        self.position.set_target(position);
    }

    /// Animate the button toward a new size.
    pub fn set_size(&mut self, size: Vector2)
        requires
            old(self)@.wf(),
        ensures
            final(self)@ == (ButtonView { size: old(self)@.size.retargeted(size), ..old(self)@ }),
            final(self)@.wf(),
    {
        self.size.set_target(size);
    }

    /// Shift the overlay target by one step up or down.
    fn shift_alpha(&mut self, up: bool)
        requires
            old(self)@.wf(),
            up ==> old(self)@.overlay_alpha.target <= ALPHA_STEP,
            !up ==> old(self)@.overlay_alpha.target >= ALPHA_STEP,
        ensures
            final(self)@ == (ButtonView {
                overlay_alpha: old(self)@.overlay_alpha.retargeted(
                    (old(self)@.overlay_alpha.target + if up {
                        ALPHA_STEP as int
                    } else {
                        -ALPHA_STEP
                    }) as i64,
                ),
                ..old(self)@
            }),
    {
        let t = *self.overlay_alpha.target();
        let next = if up {
            t + ALPHA_STEP
        } else {
            t - ALPHA_STEP
        };
        self.overlay_alpha.set_target(next);
    }

    /// React to an event. Returns whether the event was aimed at this button
    /// and consumed by it.
    pub fn consume_event(&mut self, event: &PointerEvent) -> (consumed: bool)
        requires
            old(self)@.wf(),
        ensures
            (final(self)@, consumed) == old(self)@.after_event(*event),
            final(self)@.wf(),
    {
        match event {
            PointerEvent::CursorMoved { x, y } => {
                let pos = *self.position.current();
                let size = *self.size.current();
                let right = pos.x as i128 + size.x as i128;
                let down = pos.y as i128 + size.y as i128;
                let px = *x as i128;
                let py = *y as i128;
                if pos.x as i128 <= px && px <= right && pos.y as i128 <= py && py <= down {
                    if !self.hovered {
                        self.shift_alpha(true);
                        self.hovered = true;
                        return true;
                    }
                } else {
                    if self.hovered {
                        self.shift_alpha(false);
                        self.hovered = false;
                        return true;
                    }
                }
                false
            },
            PointerEvent::MouseInput { state, button } => {
                if *button == MouseButton::Left {
                    if self.pressed {
                        if *state == ElementState::Released {
                            self.shift_alpha(false);
                            self.pressed = false;
                            return true;
                        }
                    } else {
                        if self.hovered && *state == ElementState::Pressed {
                            self.shift_alpha(true);
                            self.pressed = true;
                            return true;
                        }
                    }
                }
                false
            },
            PointerEvent::Other => false,
        }
    }

    /// Advance the running animations by `elapsed` and mark the snapshots
    /// they feed for upload; settled animations are skipped.
    pub fn update(&mut self, elapsed: &Duration)
        requires
            old(self)@.wf(),
        ensures
            final(self)@ == old(self)@.updated(elapsed@),
            final(self)@.wf(),
    {
        if !self.position.complete() {
            self.position.update(elapsed);
            self.mesh_uniform.position = *self.position.current();
            self.uniform_dirty.mark();
        }
        if !self.size.complete() {
            self.size.update(elapsed);
            self.vertices = Button::compute_vertices(self.size.current());
            self.vertex_dirty.mark();
        }
        if !self.overlay_alpha.complete() {
            self.overlay_alpha.update(elapsed);
            self.mesh_uniform.overlay_alpha = *self.overlay_alpha.current();
            self.uniform_dirty.mark();
        }
    }

    /// Clear the dirty flags and return the snapshots that must be uploaded
    /// before the button's indexed draw: each one whose flag was set, whole.
    pub fn draw(&mut self) -> (r: ButtonDraw)
        requires
            old(self)@.wf(),
        ensures
            final(self)@ == old(self)@.drawn(),
            final(self)@.wf(),
            r.vertices is Some <==> old(self)@.vertex_dirty,
            r.vertices is Some ==> r.vertices->0@ == old(self)@.vertices,
            r.mesh_uniform == (if old(self)@.uniform_dirty {
                Some(old(self)@.mesh_uniform)
            } else {
                None
            }),
            r.index_count == QUAD_INDEX_COUNT,
    {
        let vertices = if self.vertex_dirty.check_and_clear() {
            Some(self.vertices)
        } else {
            None
        };
        let mesh_uniform = if self.uniform_dirty.check_and_clear() {
            Some(self.mesh_uniform)
        } else {
            None
        };
        proof {
            self.gpu_vertices = Ghost(self.vertices@);
            self.gpu_uniform = Ghost(self.mesh_uniform);
        }
        ButtonDraw { vertices, mesh_uniform, index_count: QUAD_INDEX_COUNT }
    }
}

/// Updating a button whose animations have all settled changes nothing and
/// marks nothing for upload.
pub proof fn lemma_settled_update_is_noop(b: ButtonView, dt: nat)
    requires
        b.position.complete(),
        b.size.complete(),
        b.overlay_alpha.complete(),
    ensures
        b.updated(dt) == b,
{
}

/// A draw leaves the GPU copies equal to the snapshots, and a second draw
/// right after it uploads nothing.
pub proof fn lemma_draw_synchronizes(b: ButtonView)
    requires
        b.wf(),
    ensures
        b.drawn().wf(),
        b.drawn().gpu_vertices == b.vertices,
        b.drawn().gpu_uniform == b.mesh_uniform,
        !b.drawn().vertex_dirty,
        !b.drawn().uniform_dirty,
        b.drawn().drawn() == b.drawn(),
{
}

/// Every sequence of events keeps the overlay target tied to the pointer
/// state, so events that undo each other (a leave after an enter, a release
/// after a press) bring the target back to where it was: no alpha drift.
pub proof fn lemma_overlay_target_reversible(b: ButtonView, events: Seq<PointerEvent>)
    requires
        b.wf(),
    ensures
        b.after_events(events).wf(),
        b.after_events(events).overlay_alpha.target == alpha_for(
            b.after_events(events).hovered,
            b.after_events(events).pressed,
        ),
        b.after_events(events).hovered == b.hovered && b.after_events(events).pressed == b.pressed
            ==> b.after_events(events).overlay_alpha.target == b.overlay_alpha.target,
    decreases events.len(),
{
    if events.len() > 0 {
        lemma_overlay_target_reversible(b, events.drop_last());
    }
}

} // verus!
