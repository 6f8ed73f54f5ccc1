//! Themes: the values that widgets and views fall back to where the
//! application set none.

use vstd::prelude::*;
use crate::Alignment;

verus! {

/// A colour. Each channel is in thousandths: 0 is none of it, 1000 all of it.
#[derive(Clone, Copy, Debug, PartialEq, Eq, Structural)]
pub struct Color {
    pub r: u16,
    pub g: u16,
    pub b: u16,
    pub a: u16,
}

impl Color {
    pub fn aubergine() -> (color: Self)
        ensures
            color == (Color { r: 30, g: 0, b: 20, a: 1000 }),
    {
        Color { r: 30, g: 0, b: 20, a: 1000 }
    }

    pub fn almost_white() -> (color: Self)
        ensures
            color == (Color { r: 900, g: 900, b: 900, a: 1000 }),
    {
        Color { r: 900, g: 900, b: 900, a: 1000 }
    }

    pub fn black() -> (color: Self)
        ensures
            color == (Color { r: 0, g: 0, b: 0, a: 1000 }),
    {
        Color { r: 0, g: 0, b: 0, a: 1000 }
    }

    pub fn clear() -> (color: Self)
        ensures
            color == (Color { r: 0, g: 0, b: 0, a: 0 }),
    {
        Color { r: 0, g: 0, b: 0, a: 0 }
    }

    pub fn dark_gray() -> (color: Self)
        ensures
            color == (Color { r: 10, g: 10, b: 10, a: 1000 }),
    {
        Color { r: 10, g: 10, b: 10, a: 1000 }
    }

    pub fn light_gray() -> (color: Self)
        ensures
            color == (Color { r: 300, g: 300, b: 300, a: 1000 }),
    {
        Color { r: 300, g: 300, b: 300, a: 1000 }
    }

    pub fn white() -> (color: Self)
        ensures
            color == (Color { r: 1000, g: 1000, b: 1000, a: 1000 }),
    {
        Color { r: 1000, g: 1000, b: 1000, a: 1000 }
    }

    pub fn new(r: u16, g: u16, b: u16, a: u16) -> (color: Self)
        ensures
            color == (Color { r, g, b, a }),
    {
        Color { r, g, b, a }
    }

    /// The four channels in the order red, green, blue, alpha.
    pub fn as_array(&self) -> (channels: [u16; 4])
        ensures
            channels@ == seq![self.r, self.g, self.b, self.a],
    {
        [self.r, self.g, self.b, self.a]
    }
}

/// Space left free, in pixels, above and below and to the left and right.
#[derive(Clone, Copy, Debug, PartialEq, Eq, Structural)]
pub struct Padding {
    pub vertical: u32,
    pub horizontal: u32,
}

/// The colours of a theme.
#[derive(Clone, Copy, Debug, PartialEq, Eq, Structural)]
pub struct Colors {
    pub primary: Color,
    pub secondary: Color,
    pub background: Color,
    pub text: Color,
}

/// How text is drawn where a text widget says nothing else.
#[derive(Clone, Copy, Debug, PartialEq, Eq, Structural)]
pub struct Text {
    /// The height of the type in pixels.
    pub scale: u32,
}

/// How buttons are drawn where a button says nothing else.
#[derive(Clone, Copy, Debug, PartialEq, Eq, Structural)]
pub struct Buttons {
    /// How round the corners are, in percent of the most they can be.
    pub roundness: u32,
    pub circle_button_radius: u32,
}

/// The defaults of the widgets.
#[derive(Clone, Copy, Debug, PartialEq, Eq, Structural)]
pub struct Widgets {
    pub buttons: Buttons,
    /// The space kept free between the edge of a widget and what it holds.
    pub internal_padding: Padding,
}

/// The shape of a drawn primitive.
#[derive(Clone, Copy, Debug, PartialEq, Eq, Structural)]
pub enum PrimitiveStyle {
    Circle,
    Rectangle,
    RoundedRectangle { roundness: u32 },
}

/// Everything a view tree reads from its surroundings when it is initialized,
/// laid out and drawn.
#[derive(Clone, Copy, Debug, PartialEq, Eq, Structural)]
pub struct Theme {
    /// The space between the window and the root view.
    pub view_padding: Padding,
    pub default_alignment: Alignment,
    /// The space between two neighbouring elements of a view.
    pub widget_padding: Padding,
    pub colors: Colors,
    pub text: Text,
    pub widget_styles: Widgets,
}

/// The theme of an application that brings none of its own.
pub open spec fn default_theme_spec() -> Theme {
    Theme {
        view_padding: Padding { vertical: 10, horizontal: 20 },
        default_alignment: Alignment::Center,
        widget_padding: Padding { vertical: 10, horizontal: 20 },
        colors: Colors {
            primary: Color { r: 900, g: 900, b: 900, a: 1000 },
            secondary: Color { r: 10, g: 10, b: 10, a: 1000 },
            background: Color { r: 30, g: 0, b: 20, a: 1000 },
            text: Color { r: 900, g: 900, b: 900, a: 1000 },
        },
        text: Text { scale: 40 },
        widget_styles: Widgets {
            buttons: Buttons { roundness: 50, circle_button_radius: 50 },
            internal_padding: Padding { vertical: 0, horizontal: 0 },
        },
    }
}

/// The theme of an application that brings none of its own.
#[verifier::when_used_as_spec(default_theme_spec)]
pub fn default_theme() -> (theme: Theme)
    ensures
        theme == default_theme_spec(),
{
    Theme {
        view_padding: Padding { vertical: 10, horizontal: 20 },
        default_alignment: Alignment::Center,
        widget_padding: Padding { vertical: 10, horizontal: 20 },
        colors: Colors {
            primary: Color { r: 900, g: 900, b: 900, a: 1000 },
            secondary: Color { r: 10, g: 10, b: 10, a: 1000 },
            background: Color { r: 30, g: 0, b: 20, a: 1000 },
            text: Color { r: 900, g: 900, b: 900, a: 1000 },
        },
        text: Text { scale: 40 },
        widget_styles: Widgets {
            buttons: Buttons { roundness: 50, circle_button_radius: 50 },
            internal_padding: Padding { vertical: 0, horizontal: 0 },
        },
    }
}

} // verus!
