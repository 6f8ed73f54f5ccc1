//! Turning widgets and views into elements of a view.

use vstd::prelude::*;
use crate::view::stack::{Stack, ViewElement};
use crate::widget::{Button, CircleButton, Image, ScrollBar, Text, Widget};

verus! {

/// What can be an element of a view.
pub trait IntoViewElement<C, S, H>: Sized {
    /// The value as an element of a view.
    spec fn element(self) -> ViewElement<C, S, H>;

    /// Wraps the value up as an element of a view.
    fn into_element(self) -> (element: ViewElement<C, S, H>)
        ensures
            element == self.element(),
    ;
}

impl<C, S, H> IntoViewElement<C, S, H> for Widget<C, S, H> {
    open spec fn element(self) -> ViewElement<C, S, H> {
        ViewElement::Widget(self)
    }

    fn into_element(self) -> (element: ViewElement<C, S, H>) {
        ViewElement::Widget(self)
    }
}

impl<C, S, H> IntoViewElement<C, S, H> for Button<C, H> {
    open spec fn element(self) -> ViewElement<C, S, H> {
        ViewElement::Widget(Widget::Button(self))
    }

    fn into_element(self) -> (element: ViewElement<C, S, H>) {
        ViewElement::Widget(Widget::Button(self))
    }
}

impl<C, S, H> IntoViewElement<C, S, H> for CircleButton<C, H> {
    open spec fn element(self) -> ViewElement<C, S, H> {
        ViewElement::Widget(Widget::CircleButton(self))
    }

    fn into_element(self) -> (element: ViewElement<C, S, H>) {
        ViewElement::Widget(Widget::CircleButton(self))
    }
}

impl<C, S, H> IntoViewElement<C, S, H> for Text<H> {
    open spec fn element(self) -> ViewElement<C, S, H> {
        ViewElement::Widget(Widget::Text(self))
    }

    fn into_element(self) -> (element: ViewElement<C, S, H>) {
        ViewElement::Widget(Widget::Text(self))
    }
}

impl<C, S, H> IntoViewElement<C, S, H> for Image {
    open spec fn element(self) -> ViewElement<C, S, H> {
        ViewElement::Widget(Widget::Image(self))
    }

    fn into_element(self) -> (element: ViewElement<C, S, H>) {
        ViewElement::Widget(Widget::Image(self))
    }
}

impl<C, S, H> IntoViewElement<C, S, H> for ScrollBar<S> {
    open spec fn element(self) -> ViewElement<C, S, H> {
        ViewElement::Widget(Widget::ScrollBar(self))
    }

    fn into_element(self) -> (element: ViewElement<C, S, H>) {
        ViewElement::Widget(Widget::ScrollBar(self))
    }
}

impl<C, S, H> IntoViewElement<C, S, H> for Stack<C, S, H> {
    open spec fn element(self) -> ViewElement<C, S, H> {
        ViewElement::View(self)
    }

    fn into_element(self) -> (element: ViewElement<C, S, H>) {
        ViewElement::View(self)
    }
}

} // verus!
