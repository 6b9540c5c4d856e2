use vstd::prelude::*;
use crate::components::scriptingcallback::VirtualKeyCode;

verus! {

/// Whether a key went down or up.
#[derive(Debug, Clone, Copy, PartialEq, Eq, Structural)]
pub enum ElementState {
    Pressed,
    Released,
}

/// A window event, as far as the engine decides on it. Sizes are physical pixels.
#[derive(Debug, Clone, Copy, PartialEq, Eq, Structural)]
pub enum WindowInput {
    MouseInput,
    CloseRequested,
    KeyboardInput { state: ElementState, virtual_keycode: Option<VirtualKeyCode> },
    Resized { width: u32, height: u32 },
    ScaleFactorChanged { width: u32, height: u32 },
    ModifiersChanged,
    Other,
}

/// Where the scale factor of a resize comes from.
#[derive(Debug, Clone, Copy, PartialEq, Eq, Structural)]
pub enum ScaleSource {
    /// The window's current scale factor.
    Window,
    /// The scale factor carried by the event.
    Event,
}

/// A new surface size for the renderer, in physical pixels.
#[derive(Debug, Clone, Copy, PartialEq, Eq, Structural)]
pub struct ResizeRequest {
    pub width: u32,
    pub height: u32,
    pub scale: ScaleSource,
}

/// What the engine does in answer to a window event.
#[derive(Debug, Clone, Copy, PartialEq, Eq, Structural)]
pub struct WindowEventResponse {
    /// Leave the event loop.
    pub exit: bool,
    /// Store the mouse button event for the systems to read.
    pub record_mouse_input: bool,
    /// Store the keyboard event for the systems to read.
    pub record_keyboard_input: bool,
    /// The cursor grab state after the event.
    pub cursor_grabbed: bool,
    /// Whether the window's cursor grab and visibility must be set anew.
    pub update_cursor: bool,
    /// A resize to hand to the renderer.
    pub resize: Option<ResizeRequest>,
}

/// The response that leaves everything as it is.
pub open spec fn no_response(cursor_grabbed: bool) -> WindowEventResponse {
    WindowEventResponse {
        exit: false,
        record_mouse_input: false,
        record_keyboard_input: false,
        cursor_grabbed,
        update_cursor: false,
        resize: None,
    }
}

/// How the engine answers each window event: a close request, or Return pressed,
/// leaves the loop; M pressed toggles the cursor grab; mouse and keyboard events are
/// stored for the systems; size changes go to the renderer.
pub open spec fn window_event_response(event: WindowInput, cursor_grabbed: bool) -> WindowEventResponse {
    match event {
        WindowInput::MouseInput => WindowEventResponse {
            record_mouse_input: true,
            ..no_response(cursor_grabbed)
        },
        WindowInput::CloseRequested => WindowEventResponse {
            exit: true,
            ..no_response(cursor_grabbed)
        },
        WindowInput::KeyboardInput { state, virtual_keycode } => {
            let pressed = state == ElementState::Pressed;
            let exit = pressed && virtual_keycode == Some(VirtualKeyCode::Return);
            let toggle = pressed && virtual_keycode == Some(VirtualKeyCode::M);
            WindowEventResponse {
                exit,
                record_keyboard_input: true,
                cursor_grabbed: if toggle {
                    !cursor_grabbed
                } else {
                    cursor_grabbed
                },
                update_cursor: toggle,
                ..no_response(cursor_grabbed)
            }
        },
        WindowInput::Resized { width, height } => WindowEventResponse {
            resize: Some(ResizeRequest { width, height, scale: ScaleSource::Window }),
            ..no_response(cursor_grabbed)
        },
        WindowInput::ScaleFactorChanged { width, height } => WindowEventResponse {
            resize: Some(ResizeRequest { width, height, scale: ScaleSource::Event }),
            ..no_response(cursor_grabbed)
        },
        WindowInput::ModifiersChanged => no_response(cursor_grabbed),
        WindowInput::Other => no_response(cursor_grabbed),
    }
}

/// Decides the engine's answer to a window event, given whether the cursor is grabbed.
pub fn handle_window_event(event: &WindowInput, cursor_grabbed: bool) -> (response: WindowEventResponse)
    ensures
        response == window_event_response(*event, cursor_grabbed),
{
    let none = WindowEventResponse {
        exit: false,
        record_mouse_input: false,
        record_keyboard_input: false,
        cursor_grabbed,
        update_cursor: false,
        resize: None,
    };
    match event {
        WindowInput::MouseInput => WindowEventResponse { record_mouse_input: true, ..none },
        WindowInput::CloseRequested => WindowEventResponse { exit: true, ..none },
        WindowInput::KeyboardInput { state, virtual_keycode } => {
            let pressed = match state {
                ElementState::Pressed => true,
                ElementState::Released => false,
            };
            let (exit, toggle) = match virtual_keycode {
                Some(VirtualKeyCode::Return) => (pressed, false),
                Some(VirtualKeyCode::M) => (false, pressed),
                _ => (false, false),
            };
            WindowEventResponse {
                exit,
                record_keyboard_input: true,
                cursor_grabbed: if toggle {
                    !cursor_grabbed
                } else {
                    cursor_grabbed
                },
                update_cursor: toggle,
                ..none
            }
        },
        WindowInput::Resized { width, height } => WindowEventResponse {
            resize: Some(ResizeRequest { width: *width, height: *height, scale: ScaleSource::Window }),
            ..none
        },
        WindowInput::ScaleFactorChanged { width, height } => WindowEventResponse {
            resize: Some(ResizeRequest { width: *width, height: *height, scale: ScaleSource::Event }),
            ..none
        },
        WindowInput::ModifiersChanged => none,
        WindowInput::Other => none,
    }
}

/// The ways presenting a frame can fail.
#[derive(Debug, Clone, Copy, PartialEq, Eq, Structural)]
pub enum SurfaceError {
    Timeout,
    Outdated,
    Lost,
    OutOfMemory,
}

/// What the engine does after drawing a frame.
#[derive(Debug, Clone, Copy, PartialEq, Eq, Structural)]
pub enum RedrawResponse {
    /// Go on with the next frame.
    Continue,
    /// The surface was lost: reconfigure it at the window's current size.
    Resize,
    /// Out of memory: leave the event loop.
    Exit,
}

pub open spec fn redraw_response(result: Option<SurfaceError>) -> RedrawResponse {
    match result {
        Some(SurfaceError::Lost) => RedrawResponse::Resize,
        Some(SurfaceError::OutOfMemory) => RedrawResponse::Exit,
        _ => RedrawResponse::Continue,
    }
}

/// Decides what follows a frame from the error its presentation reported, if any.
pub fn handle_redraw_request(result: Option<SurfaceError>) -> (response: RedrawResponse)
    ensures
        response == redraw_response(result),
{
    match result {
        Some(SurfaceError::Lost) => RedrawResponse::Resize,
        Some(SurfaceError::OutOfMemory) => RedrawResponse::Exit,
        _ => RedrawResponse::Continue,
    }
}

/// Pressing M twice gives the cursor back its grab state, and every other event leaves
/// the grab state alone.
pub proof fn cursor_toggle_involutive(cursor_grabbed: bool)
    ensures
        ({
            let press_m = WindowInput::KeyboardInput {
                state: ElementState::Pressed,
                virtual_keycode: Some(VirtualKeyCode::M),
            };
            let once = window_event_response(press_m, cursor_grabbed).cursor_grabbed;
            &&& once == !cursor_grabbed
            &&& window_event_response(press_m, once).cursor_grabbed == cursor_grabbed
        }),
{
}

/// Only a pressed M changes the cursor grab state.
pub proof fn cursor_changes_only_on_m(event: WindowInput, cursor_grabbed: bool)
    ensures
        window_event_response(event, cursor_grabbed).cursor_grabbed != cursor_grabbed
            <==> event == (WindowInput::KeyboardInput {
            state: ElementState::Pressed,
            virtual_keycode: Some(VirtualKeyCode::M),
        }),
        window_event_response(event, cursor_grabbed).update_cursor
            <==> window_event_response(event, cursor_grabbed).cursor_grabbed != cursor_grabbed,
{
}

/// The loop is left exactly on a close request or a pressed Return.
pub proof fn exit_events(event: WindowInput, cursor_grabbed: bool)
    ensures
        window_event_response(event, cursor_grabbed).exit <==> (event == WindowInput::CloseRequested
            || event == (WindowInput::KeyboardInput {
            state: ElementState::Pressed,
            virtual_keycode: Some(VirtualKeyCode::Return),
        })),
{
}

/// Mouse input is recorded exactly on mouse events and keyboard input exactly on
/// keyboard events; a resize is requested exactly on a resize or a scale change, with
/// the new size, scaled by the window on a resize and by the event on a scale change.
pub proof fn recording_and_resizing(event: WindowInput, cursor_grabbed: bool)
    ensures
        window_event_response(event, cursor_grabbed).record_mouse_input <==> event
            == WindowInput::MouseInput,
        window_event_response(event, cursor_grabbed).record_keyboard_input <==> event
            is KeyboardInput,
        event matches WindowInput::Resized { width, height } ==> window_event_response(
            event,
            cursor_grabbed,
        ).resize == Some(ResizeRequest { width, height, scale: ScaleSource::Window }),
        event matches WindowInput::ScaleFactorChanged { width, height } ==> window_event_response(
            event,
            cursor_grabbed,
        ).resize == Some(ResizeRequest { width, height, scale: ScaleSource::Event }),
        !(event is Resized) && !(event is ScaleFactorChanged) ==> window_event_response(
            event,
            cursor_grabbed,
        ).resize is None,
{
}

/// After a frame the engine resizes exactly when the surface was lost, leaves exactly
/// when it ran out of memory, and otherwise goes on.
pub proof fn redraw_outcomes(result: Option<SurfaceError>)
    ensures
        redraw_response(result) == RedrawResponse::Resize <==> result == Some(SurfaceError::Lost),
        redraw_response(result) == RedrawResponse::Exit <==> result == Some(
            SurfaceError::OutOfMemory,
        ),
        redraw_response(result) == RedrawResponse::Continue <==> (result is None || result == Some(
            SurfaceError::Timeout,
        ) || result == Some(SurfaceError::Outdated)),
{
}

} // verus!
