//! Input events in the shape the toolkit works with, independent of any
//! windowing system.

use vstd::prelude::*;

verus! {

/// A button of the pointing device.
#[derive(Clone, Copy, Debug, PartialEq, Eq, Structural)]
pub enum MouseButton {
    Left,
    Right,
    Middle,
    Other(u8),
}

/// Whether a button went down or came up.
#[derive(Clone, Copy, Debug, PartialEq, Eq, Structural)]
pub enum ButtonState {
    Pressed,
    Released,
}

/// An input event as widgets receive it. Positions are in window pixels, the
/// origin at the top left and `y` growing downwards.
#[derive(Clone, Copy, Debug, PartialEq, Eq)]
pub enum ApplicationEvent {
    MouseMotion { position: (i32, i32), relative_change: (i32, i32) },
    MouseButton { state: ButtonState, button: MouseButton, position: (i32, i32) },
    /// Nothing happened.
    Idle,
}

impl ApplicationEvent {
    /// Whether this is the event that stands for "nothing happened".
    pub fn is_none(&self) -> (none: bool)
        ensures
            none == (*self is Idle),
    {
        match self {
            ApplicationEvent::Idle => true,
            _ => false,
        }
    }

    /// The position of a left-button press, if the event is one.
    pub open spec fn left_press(self) -> Option<(i32, i32)> {
        match self {
            ApplicationEvent::MouseButton {
                state: ButtonState::Pressed,
                button: MouseButton::Left,
                position,
            } => Some(position),
            _ => None,
        }
    }

    /// The position of a left-button release, if the event is one.
    pub open spec fn left_release(self) -> Option<(i32, i32)> {
        match self {
            ApplicationEvent::MouseButton {
                state: ButtonState::Released,
                button: MouseButton::Left,
                position,
            } => Some(position),
            _ => None,
        }
    }

    /// The movement of the pointer since the event before, if the event is a motion.
    pub open spec fn motion(self) -> Option<(i32, i32)> {
        match self {
            ApplicationEvent::MouseMotion { relative_change, .. } => Some(relative_change),
            _ => None,
        }
    }
}

} // verus!
