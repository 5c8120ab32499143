use engine::camera::{Camera, CameraCommand, CameraController, Key, MouseButton, ScrollAxis, ScrollUnit, WindowEvent};
use engine::model::Model;
use engine::frame::PipelineIds;
use engine::state::State;
use engine::surface::SurfaceError;
use engine::window::{after_render, on_event, on_window_event, AfterFrame, Flow, LoopEvent, LoopStep, Response};

fn state() -> State<f32, u8> {
    let camera = Camera::new(800, 600);
    let model = match Model::new(vec![], vec![]) {
        Ok(model) => model,
        Err(e) => panic!("refused: {:?}", e),
    };
    let ids = PipelineIds { shader_id: 1, vertex_layout_id: 2, camera_layout_id: 3 };
    State::new((800, 600), camera, CameraController::new(0.5), model, ids, 1, 0)
}

fn idle() -> Response<f32> {
    Response { command: None, reconfigure: None, flow: Flow::Continue }
}

#[test]
fn lost_acquire_continues_the_loop_and_out_of_memory_ends_it() {
    assert_eq!(after_render((800, 600), Err(SurfaceError::Lost)), AfterFrame::Reconfigure { width: 800, height: 600 });
    assert_eq!(after_render((800, 600), Err(SurfaceError::Outdated)), AfterFrame::Reconfigure { width: 800, height: 600 });
    assert_eq!(after_render((800, 600), Err(SurfaceError::OutOfMemory)), AfterFrame::Exit);
    assert_eq!(after_render((800, 600), Err(SurfaceError::Timeout)), AfterFrame::ReportTimeout);
    assert_eq!(after_render((800, 600), Ok(())), AfterFrame::Continue);
}

#[test]
fn lost_surface_of_zero_size_is_not_reconfigured() {
    assert_eq!(after_render((0, 600), Err(SurfaceError::Lost)), AfterFrame::Continue);
    assert_eq!(after_render((800, 0), Err(SurfaceError::Outdated)), AfterFrame::Continue);
    assert_eq!(after_render((0, 0), Err(SurfaceError::OutOfMemory)), AfterFrame::Exit);
}

#[test]
fn close_request_and_escape_press_end_the_loop() {
    let mut state = state();
    let exit = Response { command: None, reconfigure: None, flow: Flow::Exit };
    assert_eq!(on_window_event(&mut state, &WindowEvent::CloseRequested), exit);
    assert_eq!(on_window_event(&mut state, &WindowEvent::KeyboardInput { key: Key::Escape, pressed: true }), exit);
    assert_eq!(on_window_event(&mut state, &WindowEvent::KeyboardInput { key: Key::Escape, pressed: false }), idle());
    assert_eq!(on_window_event(&mut state, &WindowEvent::KeyboardInput { key: Key::Space, pressed: true }), idle());
    assert_eq!(on_window_event(&mut state, &WindowEvent::KeyboardInput { key: Key::Other, pressed: true }), idle());
    assert_eq!(on_window_event(&mut state, &WindowEvent::Other), idle());
}

#[test]
fn resize_reconfigures_the_surface_and_updates_the_camera() {
    let mut state = state();
    let response = on_window_event(&mut state, &WindowEvent::Resized { width: 1024, height: 768 });
    assert_eq!(response, Response { command: None, reconfigure: Some((1024, 768)), flow: Flow::Continue });
    assert_eq!(state.size(), (1024, 768));
    assert_eq!(state.camera.aspect(), (1024, 768));
    assert_eq!(state.camera.view_port(), Some((1024, 768)));
}

#[test]
fn resize_to_zero_width_changes_nothing() {
    let mut state = state();
    let response = on_window_event(&mut state, &WindowEvent::Resized { width: 0, height: 600 });
    assert_eq!(response, idle());
    assert_eq!(state.size(), (800, 600));
    assert_eq!(state.camera.aspect(), (800, 600));
    assert_eq!(state.camera.view_port(), None);
}

#[test]
fn scale_factor_change_resizes_the_surface_only() {
    let mut state = state();
    let response = on_window_event(&mut state, &WindowEvent::ScaleFactorChanged { width: 1600, height: 1200 });
    assert_eq!(response, Response { command: None, reconfigure: Some((1600, 1200)), flow: Flow::Continue });
    assert_eq!(state.size(), (1600, 1200));
    assert_eq!(state.camera.aspect(), (800, 600));
    assert_eq!(state.camera.view_port(), None);
    let ignored = on_window_event(&mut state, &WindowEvent::ScaleFactorChanged { width: 1600, height: 0 });
    assert_eq!(ignored, idle());
    assert_eq!(state.size(), (1600, 1200));
}

#[test]
fn scroll_reaches_the_camera_through_the_loop() {
    let mut state = state();
    let event = WindowEvent::MouseWheel { axis: ScrollAxis::Vertical, amount: 2.0, unit: ScrollUnit::Lines };
    let response = on_window_event(&mut state, &event);
    let command = CameraCommand::ZoomLines { amount: 2.0, sensitivity: 0.5 };
    assert_eq!(response, Response { command: Some(command), reconfigure: None, flow: Flow::Continue });
}

#[test]
fn events_of_other_windows_are_ignored() {
    let mut state = state();
    let foreign = LoopEvent::Window { own: false, event: WindowEvent::CloseRequested };
    assert_eq!(on_event(&mut state, &foreign), LoopStep::Idle);
    let press = LoopEvent::Window { own: false, event: WindowEvent::MouseInput { button: MouseButton::Left, pressed: true } };
    assert_eq!(on_event(&mut state, &press), LoopStep::Idle);
    assert!(!state.camera_controller.is_left_mouse_pressed);
    assert_eq!(on_event(&mut state, &LoopEvent::RedrawRequested { own: false }), LoopStep::Idle);
    assert_eq!(on_event(&mut state, &LoopEvent::Other), LoopStep::Idle);
}

#[test]
fn own_events_are_dispatched() {
    let mut state = state();
    let close = LoopEvent::Window { own: true, event: WindowEvent::CloseRequested };
    let exit = Response { command: None, reconfigure: None, flow: Flow::Exit };
    assert_eq!(on_event(&mut state, &close), LoopStep::Respond(exit));
    assert_eq!(on_event(&mut state, &LoopEvent::RedrawRequested { own: true }), LoopStep::RenderFrame);
    assert_eq!(on_event(&mut state, &LoopEvent::RedrawEventsCleared), LoopStep::RequestRedraw);
    let press = LoopEvent::Window { own: true, event: WindowEvent::MouseInput { button: MouseButton::Left, pressed: true } };
    assert_eq!(on_event(&mut state, &press), LoopStep::Respond(idle()));
    assert!(state.camera_controller.is_left_mouse_pressed);
}
