use vstd::prelude::*;
use crate::image_data::{ImageLoadError, LoadedImageData};

verus! {

/// Whether a key or a button went down or came up.
#[derive(Clone, Copy, PartialEq, Eq, Structural, Debug)]
pub enum ElementState {
    Pressed,
    Released,
}

/// The physical key of a keyboard event, as far as the viewer tells keys
/// apart.
#[derive(Clone, Copy, PartialEq, Eq, Structural, Debug)]
pub enum PhysicalKey {
    KeyQ,
    Other,
}

/// A mouse button.
#[derive(Clone, Copy, PartialEq, Eq, Structural, Debug)]
pub enum MouseButton {
    Left,
    Right,
    Middle,
    Back,
    Forward,
    Other,
}

/// A window event, with the values the viewer decides on. Positions and
/// scroll amounts stay with the caller.
#[derive(Clone, Copy, PartialEq, Eq, Structural, Debug)]
pub enum WindowInput {
    CloseRequested,
    KeyboardInput { key: PhysicalKey, state: ElementState, repeat: bool },
    Resized { width: u32, height: u32 },
    RedrawRequested,
    CursorMoved,
    MouseInput { state: ElementState, button: MouseButton },
    MouseWheel,
    PinchGesture,
    DroppedFile,
    Other,
}

/// What the viewer does about a window event.
#[derive(Clone, Copy, PartialEq, Eq, Structural, Debug)]
pub enum WindowAction {
    /// Leave the event loop.
    Exit,
    /// Resize the renderer to `width` by `height`, then ask for a redraw.
    ResizeAndRedraw { width: u32, height: u32 },
    /// Render a frame (reporting an error, if any).
    Render,
    /// Record the cursor's position and tell the renderer; redraw if it asks.
    TrackCursor,
    /// Start a drag at the recorded cursor position.
    StartDrag,
    /// End the drag.
    EndDrag,
    /// Zoom about the recorded cursor position, then ask for a redraw.
    ZoomAndRedraw,
    /// Load the dropped file in the background.
    LoadDroppedFile,
    /// Nothing.
    Ignore,
}

/// The buttons that drag the image.
pub open spec fn is_drag_button(button: MouseButton) -> bool {
    button == MouseButton::Left || button == MouseButton::Middle
}

/// The action for each window event.
pub open spec fn window_action(event: WindowInput) -> WindowAction {
    match event {
        WindowInput::CloseRequested => WindowAction::Exit,
        WindowInput::KeyboardInput { key, state, repeat } =>
            if key == PhysicalKey::KeyQ && state == ElementState::Pressed && !repeat {
                WindowAction::Exit
            } else {
                WindowAction::Ignore
            },
        WindowInput::Resized { width, height } => WindowAction::ResizeAndRedraw { width, height },
        WindowInput::RedrawRequested => WindowAction::Render,
        WindowInput::CursorMoved => WindowAction::TrackCursor,
        WindowInput::MouseInput { state, button } =>
            if !is_drag_button(button) {
                WindowAction::Ignore
            } else if state == ElementState::Pressed {
                WindowAction::StartDrag
            } else {
                WindowAction::EndDrag
            },
        WindowInput::MouseWheel => WindowAction::ZoomAndRedraw,
        WindowInput::PinchGesture => WindowAction::ZoomAndRedraw,
        WindowInput::DroppedFile => WindowAction::LoadDroppedFile,
        WindowInput::Other => WindowAction::Ignore,
    }
}

/// Decides what the viewer does about a window event: it leaves on a close
/// request or a fresh press of Q, resizes and redraws, renders, follows the
/// cursor, drags with the left or middle button, zooms on the wheel or a
/// pinch, and loads dropped files.
pub fn window_event_action(event: WindowInput) -> (r: WindowAction)
    ensures
        r == window_action(event),
{
    match event {
        WindowInput::CloseRequested => WindowAction::Exit,
        WindowInput::KeyboardInput { key, state, repeat } => {
            let is_q = match key {
                PhysicalKey::KeyQ => true,
                PhysicalKey::Other => false,
            };
            let pressed = match state {
                ElementState::Pressed => true,
                ElementState::Released => false,
            };
            if is_q && pressed && !repeat {
                WindowAction::Exit
            } else {
                WindowAction::Ignore
            }
        },
        WindowInput::Resized { width, height } => WindowAction::ResizeAndRedraw { width, height },
        WindowInput::RedrawRequested => WindowAction::Render,
        WindowInput::CursorMoved => WindowAction::TrackCursor,
        WindowInput::MouseInput { state, button } => {
            let drags = match button {
                MouseButton::Left => true,
                MouseButton::Middle => true,
                _ => false,
            };
            if !drags {
                WindowAction::Ignore
            } else {
                match state {
                    ElementState::Pressed => WindowAction::StartDrag,
                    ElementState::Released => WindowAction::EndDrag,
                }
            }
        },
        WindowInput::MouseWheel => WindowAction::ZoomAndRedraw,
        WindowInput::PinchGesture => WindowAction::ZoomAndRedraw,
        WindowInput::DroppedFile => WindowAction::LoadDroppedFile,
        WindowInput::Other => WindowAction::Ignore,
    }
}

/// The viewer leaves exactly on a close request or on Q going down, not on
/// a key held so long that it repeats.
pub proof fn lemma_exit_only_on_close_or_q(event: WindowInput)
    ensures
        window_action(event) == WindowAction::Exit <==> (event == WindowInput::CloseRequested || event
            == (WindowInput::KeyboardInput { key: PhysicalKey::KeyQ, state: ElementState::Pressed, repeat: false })),
{
}

/// Only the left and the middle button drag: pressing one starts a drag,
/// releasing one ends it, and other buttons do nothing.
pub proof fn lemma_drag_buttons(state: ElementState, button: MouseButton)
    ensures
        window_action(WindowInput::MouseInput { state, button }) == (if !is_drag_button(button) {
            WindowAction::Ignore
        } else if state == ElementState::Pressed {
            WindowAction::StartDrag
        } else {
            WindowAction::EndDrag
        }),
        window_action(WindowInput::MouseInput { state, button }) == WindowAction::StartDrag
            ==> state == ElementState::Pressed,
{
}

/// A keyboard event does nothing but, on a fresh press of Q, exit.
pub proof fn lemma_keyboard_only_exits(key: PhysicalKey, state: ElementState, repeat: bool)
    ensures
        window_action(WindowInput::KeyboardInput { key, state, repeat }) == WindowAction::Exit
            || window_action(WindowInput::KeyboardInput { key, state, repeat }) == WindowAction::Ignore,
        window_action(WindowInput::KeyboardInput { key, state, repeat }) == WindowAction::Exit
            <==> (key == PhysicalKey::KeyQ && state == ElementState::Pressed && !repeat),
{
}

/// Every action comes from its own kind of event: drags only from a drag
/// button, a resize only from a resize to the same size, a frame only from a
/// redraw request, cursor tracking only from a cursor move, zooming only
/// from the wheel or a pinch, and loading only from a dropped file.
pub proof fn lemma_action_origin(event: WindowInput)
    ensures
        window_action(event) == WindowAction::StartDrag ==> (exists|b: MouseButton|
            is_drag_button(b) && event == (WindowInput::MouseInput { state: ElementState::Pressed, button: b })),
        window_action(event) == WindowAction::EndDrag ==> (exists|b: MouseButton|
            is_drag_button(b) && event == (WindowInput::MouseInput { state: ElementState::Released, button: b })),
        window_action(event) matches WindowAction::ResizeAndRedraw { width, height }
            ==> event == (WindowInput::Resized { width, height }),
        window_action(event) == WindowAction::Render <==> event == WindowInput::RedrawRequested,
        window_action(event) == WindowAction::TrackCursor <==> event == WindowInput::CursorMoved,
        window_action(event) == WindowAction::ZoomAndRedraw
            <==> (event == WindowInput::MouseWheel || event == WindowInput::PinchGesture),
        window_action(event) == WindowAction::LoadDroppedFile <==> event == WindowInput::DroppedFile,
        event matches WindowInput::Resized { width, height }
            ==> window_action(event) == (WindowAction::ResizeAndRedraw { width, height }),
{
    if let WindowInput::MouseInput { state, button } = event {
        assert(event == (WindowInput::MouseInput { state, button }));
    }
}

/// An event sent to the window's event loop from elsewhere.
pub enum UserEvent {
    /// A background load of an image finished.
    ImageLoaded(Result<LoadedImageData, ImageLoadError>),
}

/// What the viewer does about a user event.
pub enum UserAction {
    /// No renderer exists yet: drop the event.
    Ignore,
    /// Show the image and ask for a redraw.
    ShowImage(LoadedImageData),
    /// Report that the image could not be decoded.
    ReportError(ImageLoadError),
}

/// Decides what the viewer does when a background load finishes: nothing
/// before the renderer exists, otherwise show the image or report the error.
pub fn user_event_action(renderer_ready: bool, event: UserEvent) -> (r: UserAction)
    ensures
        !renderer_ready ==> r is Ignore,
        renderer_ready ==> match event {
            UserEvent::ImageLoaded(Ok(data)) => r == UserAction::ShowImage(data),
            UserEvent::ImageLoaded(Err(e)) => r == UserAction::ReportError(e),
        },
{
    if !renderer_ready {
        return UserAction::Ignore;
    }
    match event {
        UserEvent::ImageLoaded(Ok(data)) => UserAction::ShowImage(data),
        UserEvent::ImageLoaded(Err(e)) => UserAction::ReportError(e),
    }
}

} // verus!
