use pluey::events::{
    user_event_action, window_event_action, ElementState, MouseButton, PhysicalKey, UserAction, UserEvent,
    WindowAction, WindowInput,
};
use pluey::image_data::{ImageLoadError, LoadedImageData};

#[test]
fn close_request_exits() {
    assert_eq!(window_event_action(WindowInput::CloseRequested), WindowAction::Exit);
}

#[test]
fn q_press_exits_but_not_repeat_or_release() {
    let press = WindowInput::KeyboardInput { key: PhysicalKey::KeyQ, state: ElementState::Pressed, repeat: false };
    assert_eq!(window_event_action(press), WindowAction::Exit);
    let held = WindowInput::KeyboardInput { key: PhysicalKey::KeyQ, state: ElementState::Pressed, repeat: true };
    assert_eq!(window_event_action(held), WindowAction::Ignore);
    let release = WindowInput::KeyboardInput { key: PhysicalKey::KeyQ, state: ElementState::Released, repeat: false };
    assert_eq!(window_event_action(release), WindowAction::Ignore);
    let other = WindowInput::KeyboardInput { key: PhysicalKey::Other, state: ElementState::Pressed, repeat: false };
    assert_eq!(window_event_action(other), WindowAction::Ignore);
}

#[test]
fn resize_redraw_and_cursor_events() {
    assert_eq!(
        window_event_action(WindowInput::Resized { width: 3, height: 4 }),
        WindowAction::ResizeAndRedraw { width: 3, height: 4 }
    );
    assert_eq!(window_event_action(WindowInput::RedrawRequested), WindowAction::Render);
    assert_eq!(window_event_action(WindowInput::CursorMoved), WindowAction::TrackCursor);
    assert_eq!(window_event_action(WindowInput::MouseWheel), WindowAction::ZoomAndRedraw);
    assert_eq!(window_event_action(WindowInput::PinchGesture), WindowAction::ZoomAndRedraw);
    assert_eq!(window_event_action(WindowInput::DroppedFile), WindowAction::LoadDroppedFile);
    assert_eq!(window_event_action(WindowInput::Other), WindowAction::Ignore);
}

#[test]
fn left_and_middle_buttons_drag() {
    for button in [MouseButton::Left, MouseButton::Middle] {
        let down = WindowInput::MouseInput { state: ElementState::Pressed, button };
        let up = WindowInput::MouseInput { state: ElementState::Released, button };
        assert_eq!(window_event_action(down), WindowAction::StartDrag);
        assert_eq!(window_event_action(up), WindowAction::EndDrag);
    }
    for button in [MouseButton::Right, MouseButton::Back, MouseButton::Forward, MouseButton::Other] {
        let down = WindowInput::MouseInput { state: ElementState::Pressed, button };
        assert_eq!(window_event_action(down), WindowAction::Ignore);
    }
}

#[test]
fn loaded_image_is_dropped_before_renderer_exists() {
    let data = LoadedImageData { rgba: vec![0; 4], width: 1, height: 1 };
    let action = user_event_action(false, UserEvent::ImageLoaded(Ok(data)));
    assert!(matches!(action, UserAction::Ignore));
}

#[test]
fn loaded_image_is_shown_or_reported() {
    let data = LoadedImageData { rgba: vec![7; 4], width: 1, height: 1 };
    match user_event_action(true, UserEvent::ImageLoaded(Ok(data))) {
        UserAction::ShowImage(d) => assert_eq!((d.rgba, d.width, d.height), (vec![7; 4], 1, 1)),
        _ => panic!("expected the image to be shown"),
    }
    let err = ImageLoadError { message: "broken".to_string() };
    match user_event_action(true, UserEvent::ImageLoaded(Err(err))) {
        UserAction::ReportError(e) => assert_eq!(e.message, "broken"),
        _ => panic!("expected the error to be reported"),
    }
}
