//! The decisions of the event loop: what an event from the window leads to,
//! and how the loop goes on after a frame.

use crate::camera::{command_for, dragging_after, valid_size};
use crate::camera::{CameraCommand, Key, WindowEvent};
use crate::state::State;
use crate::surface::{Recovery, SurfaceError};
use vstd::prelude::*;

verus! {

/// Whether the event loop keeps running.
#[derive(Debug, Clone, Copy, PartialEq, Eq, Structural)]
pub enum Flow {
    Continue,
    Exit,
}

/// What the event loop is to do about a window event.
#[derive(Debug, PartialEq)]
pub struct Response<S> {
    /// The geometric operation to apply to the camera, if any.
    pub command: Option<CameraCommand<S>>,
    /// The size to configure the surface for, where it changed.
    pub reconfigure: Option<(u32, u32)>,
    pub flow: Flow,
}

/// How the event loop goes on after a frame.
#[derive(Debug, Clone, Copy, PartialEq, Eq, Structural)]
pub enum AfterFrame {
    /// Nothing to do before the next frame.
    Continue,
    /// Configure the surface again, for this size.
    Reconfigure { width: u32, height: u32 },
    /// Report that acquiring the image timed out.
    ReportTimeout,
    /// Leave the loop.
    Exit,
}

/// What the event loop receives.
#[derive(Debug, PartialEq)]
pub enum LoopEvent<S> {
    /// An event of a window; `own` says whether it is the viewer's window.
    Window { own: bool, event: WindowEvent<S> },
    /// A window is to be drawn again; `own` says whether it is the viewer's.
    RedrawRequested { own: bool },
    /// All pending redraws are done.
    RedrawEventsCleared,
    Other,
}

/// What the event loop is to do about what it received.
#[derive(Debug, PartialEq)]
pub enum LoopStep<S> {
    /// A window event was handled, with this response.
    Respond(Response<S>),
    /// Update the camera and render one frame.
    RenderFrame,
    /// Ask the window for the next redraw.
    RequestRedraw,
    /// Nothing to do.
    Idle,
}

/// Whether an event is settled by the state and never reaches the loop.
pub open spec fn settled<S>(event: WindowEvent<S>) -> bool {
    event matches WindowEvent::KeyboardInput { key: Key::Space, .. }
}

/// Whether an event ends the loop: a request to close the window, or the
/// escape key going down.
pub open spec fn closes<S>(event: WindowEvent<S>) -> bool {
    event is CloseRequested || event matches WindowEvent::KeyboardInput {
        key: Key::Escape,
        pressed: true,
    }
}

/// The surface size that an event announces, if it announces one.
pub open spec fn announced_size<S>(event: WindowEvent<S>) -> Option<(u32, u32)> {
    match event {
        WindowEvent::Resized { width, height } => Some((width, height)),
        WindowEvent::ScaleFactorChanged { width, height } => Some((width, height)),
        _ => None,
    }
}

/// The surface size that an event brings about: the size that it announces,
/// unless that has a zero dimension.
pub open spec fn new_size<S>(event: WindowEvent<S>) -> Option<(u32, u32)> {
    match announced_size(event) {
        Some(size) => if valid_size(size.0, size.1) {
            Some(size)
        } else {
            None
        },
        None => None,
    }
}

/// How the loop goes on after a frame that ended with `outcome`, on a surface
/// of `size`.
pub open spec fn follow_up(size: (u32, u32), outcome: Result<(), SurfaceError>) -> AfterFrame {
    match outcome {
        Ok(_) => AfterFrame::Continue,
        Err(e) => match e.spec_recovery() {
            Recovery::Reconfigure => if valid_size(size.0, size.1) {
                AfterFrame::Reconfigure { width: size.0, height: size.1 }
            } else {
                AfterFrame::Continue
            },
            Recovery::SkipFrame => AfterFrame::ReportTimeout,
            Recovery::Terminate => AfterFrame::Exit,
        },
    }
}

/// Whether `response` and the state `after` are what handling `event` in the
/// state `before` gives.
pub open spec fn responds<S: Copy, H>(
    before: State<S, H>,
    after: State<S, H>,
    event: WindowEvent<S>,
    response: Response<S>,
) -> bool {
    &&& response.command == command_for(
        event,
        before.camera_controller.is_left_mouse_pressed,
        before.camera_controller.sensitivity,
        before.camera@,
    )
    &&& response.flow == (if closes(event) {
        Flow::Exit
    } else {
        Flow::Continue
    })
    &&& response.reconfigure == new_size(event)
    &&& after.size == (match new_size(event) {
        Some(size) => size,
        None => before.size,
    })
    &&& after.camera_controller.sensitivity == before.camera_controller.sensitivity
    &&& after.camera_controller.is_left_mouse_pressed == dragging_after(
        event,
        before.camera_controller.is_left_mouse_pressed,
    )
    &&& after.camera@ == before.camera@.after(event)
    &&& after.pipelines == before.pipelines
    &&& after.model == before.model
    &&& after.ids == before.ids
    &&& after.instance_count == before.instance_count
    &&& after.surface_format == before.surface_format
}

/// Handles one window event: the camera controller sees it first, and unless
/// the state settles it, the loop closes or resizes on it.
pub fn on_window_event<S: Copy, H>(state: &mut State<S, H>, event: &WindowEvent<S>) -> (response:
    Response<S>)
    requires
        old(state).wf(),
    ensures
        final(state).wf(),
        responds(*old(state), *final(state), *event, response),
{
    let input = state.input(event);
    let mut reconfigure = None;
    let mut flow = Flow::Continue;
    if !input.handled {
        match *event {
            WindowEvent::CloseRequested => {
                flow = Flow::Exit;
            },
            WindowEvent::KeyboardInput { key: Key::Escape, pressed: true } => {
                flow = Flow::Exit;
            },
            WindowEvent::Resized { width, height } => {
                if state.resize((width, height)) {
                    reconfigure = Some((width, height));
                }
            },
            WindowEvent::ScaleFactorChanged { width, height } => {
                if state.resize((width, height)) {
                    reconfigure = Some((width, height));
                }
            },
            _ => {},
        }
    }
    Response { command: input.command, reconfigure, flow }
}

/// Dispatches what the event loop received. Events of the viewer's own
/// window are handled, a redraw of it renders a frame, and once the pending
/// redraws are done the next one is requested. Nothing else changes the state.
pub fn on_event<S: Copy, H>(state: &mut State<S, H>, event: &LoopEvent<S>) -> (step: LoopStep<S>)
    requires
        old(state).wf(),
    ensures
        final(state).wf(),
        match *event {
            LoopEvent::Window { own: true, event: window_event } => {
                &&& step matches LoopStep::Respond(response)
                &&& responds(*old(state), *final(state), window_event, response)
            },
            LoopEvent::RedrawRequested { own: true } => step == LoopStep::<S>::RenderFrame
                && *final(state) == *old(state),
            LoopEvent::RedrawEventsCleared => step == LoopStep::<S>::RequestRedraw && *final(state)
                == *old(state),
            _ => step == LoopStep::<S>::Idle && *final(state) == *old(state),
        },
{
    match event {
        LoopEvent::Window { own: true, event: window_event } => LoopStep::Respond(
            on_window_event(state, window_event),
        ),
        LoopEvent::RedrawRequested { own: true } => LoopStep::RenderFrame,
        LoopEvent::RedrawEventsCleared => LoopStep::RequestRedraw,
        _ => LoopStep::Idle,
    }
}

/// Decides how the loop goes on after a frame: a lost or outdated surface is
/// configured again, a timeout is reported, and only running out of memory
/// ends the loop.
pub fn after_render(size: (u32, u32), outcome: Result<(), SurfaceError>) -> (next: AfterFrame)
    ensures
        next == follow_up(size, outcome),
        next == AfterFrame::Exit <==> outcome == Err::<(), SurfaceError>(SurfaceError::OutOfMemory),
{
    match outcome {
        Ok(_) => AfterFrame::Continue,
        Err(e) => match e.recovery() {
            Recovery::Reconfigure => {
                if size.0 > 0 && size.1 > 0 {
                    AfterFrame::Reconfigure { width: size.0, height: size.1 }
                } else {
                    AfterFrame::Continue
                }
            },
            Recovery::SkipFrame => AfterFrame::ReportTimeout,
            Recovery::Terminate => AfterFrame::Exit,
        },
    }
}

} // verus!
