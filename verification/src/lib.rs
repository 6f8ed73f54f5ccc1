//! A retained-mode widget toolkit: view trees of stacks and widgets, their
//! layout, and the dispatch of input events and application messages.

use vstd::prelude::*;

pub mod animation;
pub mod bounding_rect;
pub mod driver;
pub mod event;
pub mod handler;
pub mod message;
pub mod rectangle;
pub mod render;
pub mod state;
pub mod style;
pub mod timing;
pub mod view;
pub mod widget;

pub use message::{EmptyMessage, MessageQueue};
pub use view::{IntoViewElement, ViewElement};

verus! {

/// What a widget answers to an input event.
#[derive(Clone, Copy, Debug, PartialEq, Eq, Structural)]
pub enum EventResponse {
    /// The event is used up: the widgets after this one at the same level do
    /// not see it.
    Consume,
    /// The view should be drawn again. The event goes on to the next widget.
    Redraw,
    /// Nothing to report. The event goes on to the next widget.
    Pass,
}

/// How the elements of a view are aligned.
#[derive(Clone, Copy, Debug, PartialEq, Eq, Structural)]
pub enum Alignment {
    Left,
    Right,
    Center,
}

impl Alignment {
    pub fn is_left_aligned(&self) -> (left: bool)
        ensures
            left == (*self is Left),
    {
        match self {
            Alignment::Left => true,
            _ => false,
        }
    }

    pub fn is_right_aligned(&self) -> (right: bool)
        ensures
            right == (*self is Right),
    {
        match self {
            Alignment::Right => true,
            _ => false,
        }
    }

    pub fn is_centered(&self) -> (centered: bool)
        ensures
            centered == (*self is Center),
    {
        match self {
            Alignment::Center => true,
            _ => false,
        }
    }
}

/// The axis along which a view lines up its elements.
#[derive(Clone, Copy, Debug, PartialEq, Eq, Structural)]
pub enum Orientation {
    Vertical,
    Horizontal,
}

impl Orientation {
    pub fn is_vertical(&self) -> (vertical: bool)
        ensures
            vertical == (*self is Vertical),
    {
        match self {
            Orientation::Vertical => true,
            _ => false,
        }
    }

    pub fn is_horizontal(&self) -> (horizontal: bool)
        ensures
            horizontal == (*self is Horizontal),
    {
        match self {
            Orientation::Horizontal => true,
            _ => false,
        }
    }
}

} // verus!
