use engine::camera::{
    Camera, CameraCommand, CameraController, DragStep, Handled, Key, MouseButton, ScrollAxis,
    ScrollUnit, WindowEvent,
};

fn camera() -> Camera<f32> {
    Camera::new(800, 600)
}

fn press(controller: &mut CameraController<f32>, camera: &mut Camera<f32>) {
    let event = WindowEvent::MouseInput { button: MouseButton::Left, pressed: true };
    controller.process_events(&event, camera);
}

#[test]
fn camera_for_a_surface_without_area_has_the_square_aspect() {
    assert_eq!(Camera::<f32>::new(0, 600).aspect(), (1, 1));
    assert_eq!(Camera::<f32>::new(800, 0).aspect(), (1, 1));
    assert_eq!(Camera::<f32>::new(0, 0).aspect(), (1, 1));
    assert_eq!(Camera::<f32>::new(1, 1).aspect(), (1, 1));
    let camera = camera();
    assert_eq!(camera.aspect(), (800, 600));
    assert_eq!(camera.view_port(), None);
    assert_eq!(camera.last_mouse_pos(), None);
}

#[test]
fn resize_to_zero_width_leaves_aspect_and_viewport() {
    let mut camera = camera();
    let mut controller = CameraController::new(0.2f32);
    let first = controller.process_events(&WindowEvent::Resized { width: 1024, height: 768 }, &mut camera);
    assert_eq!(first, Handled { consumed: true, command: None });
    assert_eq!(camera.aspect(), (1024, 768));
    assert_eq!(camera.view_port(), Some((1024, 768)));
    let second = controller.process_events(&WindowEvent::Resized { width: 0, height: 600 }, &mut camera);
    assert_eq!(second, Handled { consumed: true, command: None });
    assert_eq!(camera.aspect(), (1024, 768));
    assert_eq!(camera.view_port(), Some((1024, 768)));
}

#[test]
fn resize_to_zero_height_leaves_aspect_and_viewport() {
    let mut camera = camera();
    let mut controller = CameraController::new(0.2f32);
    controller.process_events(&WindowEvent::Resized { width: 640, height: 0 }, &mut camera);
    assert_eq!(camera.aspect(), (800, 600));
    assert_eq!(camera.view_port(), None);
}

#[test]
fn first_move_of_a_drag_only_sets_the_anchor() {
    let mut camera = camera();
    let mut controller = CameraController::new(0.2f32);
    press(&mut controller, &mut camera);
    let handled = controller.process_events(&WindowEvent::CursorMoved { x: 10.0, y: 20.0 }, &mut camera);
    assert_eq!(handled, Handled { consumed: true, command: None });
    assert_eq!(camera.last_mouse_pos(), Some((10.0, 20.0)));
}

#[test]
fn drag_rotates_from_the_anchor_over_the_unit_viewport_when_none_is_set() {
    let mut camera = camera();
    let mut controller = CameraController::new(0.2f32);
    press(&mut controller, &mut camera);
    controller.process_events(&WindowEvent::CursorMoved { x: 10.0, y: 20.0 }, &mut camera);
    let handled = controller.process_events(&WindowEvent::CursorMoved { x: 13.0, y: 18.5 }, &mut camera);
    let step = DragStep { from: (10.0, 20.0), to: (13.0, 18.5), width: 1, height: 1 };
    assert_eq!(handled, Handled { consumed: true, command: Some(CameraCommand::Rotate(step)) });
    assert_eq!(camera.last_mouse_pos(), Some((13.0, 18.5)));
}

#[test]
fn drag_is_scaled_by_the_viewport_in_force() {
    let mut camera = camera();
    let mut controller = CameraController::new(0.2f32);
    controller.process_events(&WindowEvent::Resized { width: 1280, height: 720 }, &mut camera);
    controller.process_events(&WindowEvent::CursorMoved { x: 1.0, y: 2.0 }, &mut camera);
    press(&mut controller, &mut camera);
    let handled = controller.process_events(&WindowEvent::CursorMoved { x: 5.0, y: 2.0 }, &mut camera);
    let step = DragStep { from: (1.0, 2.0), to: (5.0, 2.0), width: 1280, height: 720 };
    assert_eq!(handled.command, Some(CameraCommand::Rotate(step)));
}

#[test]
fn move_without_drag_records_the_position_and_rotates_nothing() {
    let mut camera = camera();
    let mut controller = CameraController::new(0.2f32);
    controller.process_events(&WindowEvent::CursorMoved { x: 1.0, y: 1.0 }, &mut camera);
    let handled = controller.process_events(&WindowEvent::CursorMoved { x: 4.0, y: 5.0 }, &mut camera);
    assert_eq!(handled, Handled { consumed: true, command: None });
    assert_eq!(camera.last_mouse_pos(), Some((4.0, 5.0)));
}

#[test]
fn releasing_the_button_ends_the_drag() {
    let mut camera = camera();
    let mut controller = CameraController::new(0.2f32);
    press(&mut controller, &mut camera);
    assert!(controller.is_left_mouse_pressed);
    controller.process_events(&WindowEvent::CursorMoved { x: 1.0, y: 1.0 }, &mut camera);
    let release = WindowEvent::MouseInput { button: MouseButton::Left, pressed: false };
    assert_eq!(controller.process_events(&release, &mut camera), Handled { consumed: true, command: None });
    assert!(!controller.is_left_mouse_pressed);
    let handled = controller.process_events(&WindowEvent::CursorMoved { x: 9.0, y: 9.0 }, &mut camera);
    assert_eq!(handled.command, None);
}

#[test]
fn other_buttons_are_consumed_without_starting_a_drag() {
    let mut camera = camera();
    let mut controller = CameraController::new(0.2f32);
    for button in [MouseButton::Right, MouseButton::Middle, MouseButton::Other] {
        let event = WindowEvent::MouseInput { button, pressed: true };
        assert_eq!(controller.process_events(&event, &mut camera), Handled { consumed: true, command: None });
        assert!(!controller.is_left_mouse_pressed);
    }
}

#[test]
fn line_scroll_zooms_by_the_sensitivity() {
    let mut camera = camera();
    let mut controller = CameraController::new(0.2f32);
    let event = WindowEvent::MouseWheel { axis: ScrollAxis::Vertical, amount: -3.0, unit: ScrollUnit::Lines };
    let handled = controller.process_events(&event, &mut camera);
    let command = CameraCommand::ZoomLines { amount: -3.0, sensitivity: 0.2 };
    assert_eq!(handled, Handled { consumed: true, command: Some(command) });
}

#[test]
fn pixel_scroll_zooms_by_the_fixed_factor() {
    let mut camera = camera();
    let mut controller = CameraController::new(0.2f32);
    let event = WindowEvent::MouseWheel { axis: ScrollAxis::Vertical, amount: 120.0, unit: ScrollUnit::Pixels };
    let handled = controller.process_events(&event, &mut camera);
    assert_eq!(handled, Handled { consumed: true, command: Some(CameraCommand::ZoomPixels { amount: 120.0 }) });
}

#[test]
fn horizontal_scroll_is_consumed_without_zoom() {
    let mut camera = camera();
    let mut controller = CameraController::new(0.2f32);
    for unit in [ScrollUnit::Lines, ScrollUnit::Pixels] {
        let event = WindowEvent::MouseWheel { axis: ScrollAxis::Horizontal, amount: 2.0, unit };
        assert_eq!(controller.process_events(&event, &mut camera), Handled { consumed: true, command: None });
    }
}

#[test]
fn unrecognized_events_are_not_consumed() {
    let mut camera = camera();
    let mut controller = CameraController::new(0.2f32);
    let events = [
        WindowEvent::CloseRequested,
        WindowEvent::Other,
        WindowEvent::KeyboardInput { key: Key::Space, pressed: true },
        WindowEvent::KeyboardInput { key: Key::Escape, pressed: true },
        WindowEvent::ScaleFactorChanged { width: 10, height: 10 },
    ];
    for event in events.iter() {
        assert_eq!(controller.process_events(event, &mut camera), Handled { consumed: false, command: None });
    }
    assert_eq!(camera.aspect(), (800, 600));
    assert_eq!(camera.view_port(), None);
    assert_eq!(camera.last_mouse_pos(), None);
    assert!(!controller.is_left_mouse_pressed);
}

#[test]
fn clearing_the_anchor_starts_a_fresh_baseline() {
    let mut camera = camera();
    assert_eq!(camera.update_mouse_position((1.0, 1.0)), None);
    camera.set_last_mouse_position(None);
    assert_eq!(camera.update_mouse_position((50.0, 50.0)), None);
    let step = camera.update_mouse_position((51.0, 50.0));
    assert_eq!(step, Some(DragStep { from: (50.0, 50.0), to: (51.0, 50.0), width: 1, height: 1 }));
}

#[test]
fn viewport_can_be_set_and_cleared_but_not_to_a_zero_dimension() {
    let mut camera = camera();
    camera.set_view_port(Some((300, 200)));
    assert_eq!(camera.view_port(), Some((300, 200)));
    camera.set_view_port(Some((0, 200)));
    assert_eq!(camera.view_port(), Some((300, 200)));
    camera.set_view_port(Some((300, 0)));
    assert_eq!(camera.view_port(), Some((300, 200)));
    camera.set_view_port(None);
    assert_eq!(camera.view_port(), None);
    assert!(camera.set_aspect(4, 3));
    assert_eq!(camera.aspect(), (4, 3));
    assert!(!camera.set_aspect(0, 3));
    assert!(!camera.set_aspect(4, 0));
    assert_eq!(camera.aspect(), (4, 3));
}
