//! Pointer event classification.
//!
//! The host delivers platform input as values of [`WindowEvent`], a plain
//! model of the raw event stream that carries exactly the data the trackball
//! core reads. [`classify`] maps every raw event to exactly one semantic
//! [`ControlEvent`]; events the core does not care about classify as
//! `Ignored`, so no event is ever dropped.

use vstd::prelude::*;

use crate::math::coord_in_range;

verus! {

/// A 2D cursor position in window coordinates.
#[derive(Clone, Copy, PartialEq, Eq, Structural, Debug)]
pub struct Point2 {
    pub x: i64,
    pub y: i64,
}

/// A cursor position the controller accepts: both coordinates bounded so that
/// deltas and squared distances cannot overflow.
pub open spec fn point_in_range(p: Point2) -> bool {
    coord_in_range(p.x) && coord_in_range(p.y)
}

/// Mouse buttons as reported by the platform.
#[derive(Clone, Copy, PartialEq, Eq, Structural, Debug)]
pub enum MouseButton {
    Left,
    Right,
    Middle,
    Other,
}

/// Whether a button or key went down or up.
#[derive(Clone, Copy, PartialEq, Eq, Structural, Debug)]
pub enum ElementState {
    Pressed,
    Released,
}

/// Keys the core distinguishes; everything but escape is `Other`.
#[derive(Clone, Copy, PartialEq, Eq, Structural, Debug)]
pub enum KeyCode {
    Escape,
    Other,
}

/// The model of a raw platform window event: the fields the trackball core
/// reads, and nothing more. The host converts each platform event into one of
/// these before handing it to [`classify`].
#[derive(Clone, Copy, PartialEq, Eq, Structural, Debug)]
pub enum WindowEvent {
    MouseInput { state: ElementState, button: MouseButton },
    CursorMoved { position: Point2 },
    KeyboardInput { state: ElementState, key: KeyCode },
    CloseRequested,
    Other,
}

/// The closed set of semantic events the drag controller consumes.
#[derive(Clone, Copy, PartialEq, Eq, Structural, Debug)]
pub enum ControlEvent {
    LeftButtonPressed,
    LeftButtonReleased,
    CursorMoved(Point2),
    CloseRequested,
    EscapePressed,
    Ignored,
}

/// The classified form of a raw event: left-button transitions, cursor
/// motion, close and escape requests; everything else is `Ignored`.
pub open spec fn classify_spec(e: WindowEvent) -> ControlEvent {
    match e {
        WindowEvent::MouseInput { state, button } => match (button, state) {
            (MouseButton::Left, ElementState::Pressed) => ControlEvent::LeftButtonPressed,
            (MouseButton::Left, ElementState::Released) => ControlEvent::LeftButtonReleased,
            _ => ControlEvent::Ignored,
        },
        WindowEvent::CursorMoved { position } => ControlEvent::CursorMoved(position),
        WindowEvent::KeyboardInput { state, key } => match (key, state) {
            (KeyCode::Escape, ElementState::Pressed) => ControlEvent::EscapePressed,
            _ => ControlEvent::Ignored,
        },
        WindowEvent::CloseRequested => ControlEvent::CloseRequested,
        WindowEvent::Other => ControlEvent::Ignored,
    }
}

/// The state change of the left mouse button carried by `e`, if any.
pub fn left_mouse_state_change(e: &WindowEvent) -> (r: Option<ElementState>)
    ensures
        r == match *e {
            WindowEvent::MouseInput { state, button: MouseButton::Left } => Some(state),
            _ => None::<ElementState>,
        },
{
    match *e {
        WindowEvent::MouseInput { state, button: MouseButton::Left } => Some(state),
        _ => None,
    }
}

/// The cursor position carried by `e`, if it is a cursor-motion event.
pub fn get_new_cursor_position(e: &WindowEvent) -> (r: Option<Point2>)
    ensures
        r == match *e {
            WindowEvent::CursorMoved { position } => Some(position),
            _ => None::<Point2>,
        },
{
    match *e {
        WindowEvent::CursorMoved { position } => Some(position),
        _ => None,
    }
}

/// Maps one raw platform event to exactly one semantic event. Total: every
/// raw event classifies, possibly as `Ignored`.
pub fn classify(e: &WindowEvent) -> (r: ControlEvent)
    ensures
        r == classify_spec(*e),
{
    match left_mouse_state_change(e) {
        Some(ElementState::Pressed) => ControlEvent::LeftButtonPressed,
        Some(ElementState::Released) => ControlEvent::LeftButtonReleased,
        None => match get_new_cursor_position(e) {
            Some(position) => ControlEvent::CursorMoved(position),
            None => match *e {
                WindowEvent::CloseRequested => ControlEvent::CloseRequested,
                WindowEvent::KeyboardInput { state: ElementState::Pressed, key: KeyCode::Escape }
                    => ControlEvent::EscapePressed,
                _ => ControlEvent::Ignored,
            },
        },
    }
}

} // verus!
