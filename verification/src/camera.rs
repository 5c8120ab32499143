//! The interaction state of the orbit camera and the controller that turns
//! window events into camera operations.
//!
//! Pointer positions and scroll amounts are carried through as values of a
//! scalar type `S` that this module never inspects. What it decides is when
//! the camera rotates or zooms, between which pointer positions, and which
//! viewport and aspect ratio are in force. The geometry itself is the
//! caller's.

use vstd::prelude::*;

verus! {

#[derive(Debug, Clone, Copy, PartialEq, Eq, Structural)]
pub enum MouseButton {
    Left,
    Right,
    Middle,
    Other,
}

#[derive(Debug, Clone, Copy, PartialEq, Eq, Structural)]
pub enum ScrollAxis {
    Vertical,
    Horizontal,
}

#[derive(Debug, Clone, Copy, PartialEq, Eq, Structural)]
pub enum ScrollUnit {
    Lines,
    Pixels,
}

#[derive(Debug, Clone, Copy, PartialEq, Eq, Structural)]
pub enum Key {
    Space,
    Escape,
    Other,
}

/// What the window reports.
#[derive(Debug, PartialEq)]
pub enum WindowEvent<S> {
    CursorMoved { x: S, y: S },
    MouseInput { button: MouseButton, pressed: bool },
    MouseWheel { axis: ScrollAxis, amount: S, unit: ScrollUnit },
    Resized { width: u32, height: u32 },
    ScaleFactorChanged { width: u32, height: u32 },
    KeyboardInput { key: Key, pressed: bool },
    CloseRequested,
    Other,
}

/// One step of a drag: the pointer went from `from` to `to` over a viewport
/// of `width` by `height` pixels, neither of which is zero.
#[derive(Debug, PartialEq)]
pub struct DragStep<S> {
    pub from: (S, S),
    pub to: (S, S),
    pub width: u32,
    pub height: u32,
}

/// A geometric operation that the caller is to apply to the camera.
#[derive(Debug, PartialEq)]
pub enum CameraCommand<S> {
    /// Rotate the eye around the target by the angles of this drag step.
    Rotate(DragStep<S>),
    /// Reduce the radius by `amount` times `sensitivity`.
    ZoomLines { amount: S, sensitivity: S },
    /// Reduce the radius by `amount` times the fixed factor for pixel scrolling.
    ZoomPixels { amount: S },
}

/// What became of an event.
#[derive(Debug, PartialEq)]
pub struct Handled<S> {
    /// Whether the event was of a kind that the controller handles.
    pub consumed: bool,
    pub command: Option<CameraCommand<S>>,
}

/// Whether a viewport or an aspect ratio can be taken from these dimensions.
pub open spec fn valid_size(width: u32, height: u32) -> bool {
    width > 0 && height > 0
}

/// The part of the orbit camera that input handling reads and writes.
pub struct Camera<S> {
    last_mouse_pos: Option<(S, S)>,
    view_port: Option<(u32, u32)>,
    aspect: (u32, u32),
}

/// The mathematical value of a [`Camera`].
pub struct CameraView<S> {
    /// The anchor of the drag session: the last pointer position recorded.
    pub anchor: Option<(S, S)>,
    /// The viewport in pixels, once one is known.
    pub view_port: Option<(u32, u32)>,
    /// The aspect ratio, as width to height.
    pub aspect: (u32, u32),
}

impl<S> View for Camera<S> {
    type V = CameraView<S>;

    closed spec fn view(&self) -> CameraView<S> {
        CameraView { anchor: self.last_mouse_pos, view_port: self.view_port, aspect: self.aspect }
    }
}

impl<S> CameraView<S> {
    /// No zero dimension is ever in force.
    pub open spec fn wf(self) -> bool {
        &&& valid_size(self.aspect.0, self.aspect.1)
        &&& self.view_port matches Some(size) ==> valid_size(size.0, size.1)
    }

    /// The viewport that scales a drag: one pixel by one pixel until a
    /// viewport is known.
    pub open spec fn drag_view_port(self) -> (u32, u32) {
        match self.view_port {
            Some(size) => size,
            None => (1u32, 1u32),
        }
    }

    /// The drag step that a pointer position gives: none without an anchor,
    /// else the step from the anchor over the viewport in force.
    pub open spec fn drag_step(self, pos: (S, S)) -> Option<DragStep<S>> {
        match self.anchor {
            Some(from) => Some(
                DragStep {
                    from,
                    to: pos,
                    width: self.drag_view_port().0,
                    height: self.drag_view_port().1,
                },
            ),
            None => None,
        }
    }

    /// The camera with the viewport `size`; a size with a zero dimension is
    /// ignored.
    pub open spec fn with_view_port(self, size: Option<(u32, u32)>) -> Self {
        match size {
            Some(s) => if valid_size(s.0, s.1) {
                CameraView { view_port: size, ..self }
            } else {
                self
            },
            None => CameraView { view_port: None, ..self },
        }
    }

    /// The camera with the aspect ratio of a surface; a size with a zero
    /// dimension is ignored.
    pub open spec fn with_aspect(self, width: u32, height: u32) -> Self {
        if valid_size(width, height) {
            CameraView { aspect: (width, height), ..self }
        } else {
            self
        }
    }

    /// The camera once the event is handled: every pointer move records an
    /// anchor, and a resize sets viewport and aspect ratio.
    pub open spec fn after(self, event: WindowEvent<S>) -> Self {
        match event {
            WindowEvent::CursorMoved { x, y } => CameraView { anchor: Some((x, y)), ..self },
            WindowEvent::Resized { width, height } => self.with_view_port(Some((width, height))).with_aspect(
                width,
                height,
            ),
            _ => self,
        }
    }
}

impl<S: Copy> Camera<S> {
    /// The invariant of the camera: no zero dimension is ever in force.
    pub open spec fn wf(&self) -> bool {
        self@.wf()
    }

    /// A camera for a surface of `width` by `height` pixels, with no viewport
    /// and no anchor. Its aspect ratio is that of the surface; a surface with
    /// a zero dimension gives the square ratio, as a missing viewport counts
    /// as one pixel by one pixel.
    pub fn new(width: u32, height: u32) -> (camera: Self)
        ensures
            camera.wf(),
            camera@ == (CameraView::<S> {
                anchor: None,
                view_port: None,
                aspect: if valid_size(width, height) {
                    (width, height)
                } else {
                    (1u32, 1u32)
                },
            }),
    {
        let aspect = if width > 0 && height > 0 {
            (width, height)
        } else {
            (1, 1)
        };
        Camera { last_mouse_pos: None, view_port: None, aspect }
    }

    pub fn last_mouse_pos(&self) -> (pos: Option<(S, S)>)
        ensures
            pos == self@.anchor,
    {
        self.last_mouse_pos
    }

    pub fn view_port(&self) -> (size: Option<(u32, u32)>)
        ensures
            size == self@.view_port,
    {
        self.view_port
    }

    pub fn aspect(&self) -> (ratio: (u32, u32))
        ensures
            ratio == self@.aspect,
    {
        self.aspect
    }

    /// Sets or clears the viewport. A size with a zero dimension is ignored.
    pub fn set_view_port(&mut self, size: Option<(u32, u32)>)
        requires
            old(self).wf(),
        ensures
            final(self).wf(),
            final(self)@ == old(self)@.with_view_port(size),
    {
        match size {
            Some(s) => {
                if s.0 > 0 && s.1 > 0 {
                    self.view_port = size;
                }
            },
            None => {
                self.view_port = None;
            },
        }
    }

    /// Takes the aspect ratio from a surface size; one with a zero dimension
    /// leaves the ratio as it was. Returns whether the ratio was taken.
    pub fn set_aspect(&mut self, width: u32, height: u32) -> (taken: bool)
        requires
            old(self).wf(),
        ensures
            final(self).wf(),
            taken == valid_size(width, height),
            final(self)@ == old(self)@.with_aspect(width, height),
    {
        if width > 0 && height > 0 {
            self.aspect = (width, height);
            true
        } else {
            false
        }
    }

    /// Sets or clears the anchor, so that the next drag step starts from it.
    pub fn set_last_mouse_position(&mut self, last_mouse_pos: Option<(S, S)>)
        ensures
            final(self)@ == (CameraView { anchor: last_mouse_pos, ..old(self)@ }),
    {
        self.last_mouse_pos = last_mouse_pos;
    }

    /// Records a pointer position during a drag. Where an anchor exists, the
    /// step from the anchor to the new position is returned for the caller to
    /// rotate by; the first move of a session only sets the anchor.
    pub fn update_mouse_position(&mut self, new_mouse_pos: (S, S)) -> (step: Option<DragStep<S>>)
        requires
            old(self).wf(),
        ensures
            final(self).wf(),
            final(self)@ == (CameraView { anchor: Some(new_mouse_pos), ..old(self)@ }),
            step == old(self)@.drag_step(new_mouse_pos),
            step matches Some(s) ==> valid_size(s.width, s.height),
    {
        let step = match self.last_mouse_pos {
            Some(from) => {
                let (width, height) = match self.view_port {
                    Some(size) => size,
                    None => (1, 1),
                };
                Some(DragStep { from, to: new_mouse_pos, width, height })
            },
            None => None,
        };
        self.last_mouse_pos = Some(new_mouse_pos);
        step
    }
}

/// Turns window events into operations of the camera.
pub struct CameraController<S> {
    pub sensitivity: S,
    pub is_left_mouse_pressed: bool,
}

/// Whether the controller handles events of this kind.
pub open spec fn consumes<S>(event: WindowEvent<S>) -> bool {
    event is CursorMoved || event is Resized || event is MouseWheel || event is MouseInput
}

/// The camera operation that an event asks for, given whether a drag is in
/// progress and the camera as the event finds it.
pub open spec fn command_for<S>(
    event: WindowEvent<S>,
    dragging: bool,
    sensitivity: S,
    camera: CameraView<S>,
) -> Option<CameraCommand<S>> {
    match event {
        WindowEvent::CursorMoved { x, y } => if dragging {
            match camera.drag_step((x, y)) {
                Some(step) => Some(CameraCommand::Rotate(step)),
                None => None,
            }
        } else {
            None
        },
        WindowEvent::MouseWheel { axis: ScrollAxis::Vertical, amount, unit: ScrollUnit::Lines } => Some(
            CameraCommand::ZoomLines { amount, sensitivity },
        ),
        WindowEvent::MouseWheel { axis: ScrollAxis::Vertical, amount, unit: ScrollUnit::Pixels } => Some(
            CameraCommand::ZoomPixels { amount },
        ),
        _ => None,
    }
}

/// Whether a drag is in progress once the event is handled: the left button
/// starts and ends it.
pub open spec fn dragging_after<S>(event: WindowEvent<S>, dragging: bool) -> bool {
    match event {
        WindowEvent::MouseInput { button: MouseButton::Left, pressed } => pressed,
        _ => dragging,
    }
}

/// A resize to a size with a zero dimension leaves the aspect ratio and the
/// viewport as they were, and no event but a resize changes either.
pub proof fn lemma_aspect_survives<S>(event: WindowEvent<S>, camera: CameraView<S>)
    requires
        event matches WindowEvent::Resized { width, height } ==> !valid_size(width, height),
    ensures
        camera.after(event).aspect == camera.aspect,
        camera.after(event).view_port == camera.view_port,
{
}

/// Whatever the events, no zero dimension comes into force.
pub proof fn lemma_events_keep_camera_valid<S>(event: WindowEvent<S>, camera: CameraView<S>)
    requires
        camera.wf(),
    ensures
        camera.after(event).wf(),
{
}

/// The eye rotates only on a pointer move during a drag that has an anchor:
/// the first move of a session only sets the anchor.
pub proof fn lemma_rotation_needs_anchor<S>(
    event: WindowEvent<S>,
    dragging: bool,
    sensitivity: S,
    camera: CameraView<S>,
)
    ensures
        command_for(event, dragging, sensitivity, camera) matches Some(CameraCommand::Rotate(step)) ==> {
            &&& dragging
            &&& event matches WindowEvent::CursorMoved { x, y }
            &&& camera.anchor == Some(step.from)
            &&& step.to == (x, y)
        },
        camera.anchor is None ==> !(command_for(event, dragging, sensitivity, camera) matches Some(
            CameraCommand::Rotate(_),
        )),
{
}

/// An event of a kind that the controller does not handle has no effect: it
/// asks for no operation and changes neither the drag nor the camera.
pub proof fn lemma_unhandled_event_has_no_effect<S>(
    event: WindowEvent<S>,
    dragging: bool,
    sensitivity: S,
    camera: CameraView<S>,
)
    requires
        !consumes(event),
    ensures
        command_for(event, dragging, sensitivity, camera) is None,
        dragging_after(event, dragging) == dragging,
        camera.after(event) == camera,
{
}

impl<S: Copy> CameraController<S> {
    pub fn new(sensitivity: S) -> (controller: Self)
        ensures
            controller.sensitivity == sensitivity,
            !controller.is_left_mouse_pressed,
    {
        CameraController { sensitivity, is_left_mouse_pressed: false }
    }

    /// Handles one window event: updates the drag state and the camera's
    /// interaction state, and says which geometric operation, if any, the
    /// caller is to apply.
    pub fn process_events(&mut self, event: &WindowEvent<S>, camera: &mut Camera<S>) -> (handled:
        Handled<S>)
        requires
            old(camera).wf(),
        ensures
            final(camera).wf(),
            handled.consumed == consumes(*event),
            handled.command == command_for(
                *event,
                old(self).is_left_mouse_pressed,
                old(self).sensitivity,
                old(camera)@,
            ),
            final(self).sensitivity == old(self).sensitivity,
            final(self).is_left_mouse_pressed == dragging_after(
                *event,
                old(self).is_left_mouse_pressed,
            ),
            final(camera)@ == old(camera)@.after(*event),
    {
        match *event {
            WindowEvent::CursorMoved { x, y } => {
                let mut command = None;
                if self.is_left_mouse_pressed {
                    if let Some(step) = camera.update_mouse_position((x, y)) {
                        command = Some(CameraCommand::Rotate(step));
                    }
                }
                camera.set_last_mouse_position(Some((x, y)));
                Handled { consumed: true, command }
            },
            WindowEvent::Resized { width, height } => {
                camera.set_view_port(Some((width, height)));
                camera.set_aspect(width, height);
                Handled { consumed: true, command: None }
            },
            WindowEvent::MouseWheel { axis, amount, unit } => {
                let command = match axis {
                    ScrollAxis::Vertical => match unit {
                        ScrollUnit::Lines => Some(
                            CameraCommand::ZoomLines { amount, sensitivity: self.sensitivity },
                        ),
                        ScrollUnit::Pixels => Some(CameraCommand::ZoomPixels { amount }),
                    },
                    ScrollAxis::Horizontal => None,
                };
                Handled { consumed: true, command }
            },
            WindowEvent::MouseInput { button, pressed } => {
                match button {
                    MouseButton::Left => {
                        self.is_left_mouse_pressed = pressed;
                    },
                    _ => {},
                }
                Handled { consumed: true, command: None }
            },
            _ => Handled { consumed: false, command: None },
        }
    }
}

} // verus!
