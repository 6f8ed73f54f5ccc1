//! What a view tree hands to a renderer: the things to draw, and the things
//! to measure before they can be laid out.

use vstd::prelude::*;
use crate::style::Color;

verus! {

/// A piece of text that is ready to be drawn.
#[derive(Debug, PartialEq, Eq)]
pub struct Section {
    pub text: String,
    /// The alias of the font; empty for the default font.
    pub font: String,
    /// The height of the type in pixels.
    pub scale: u32,
    pub color: Color,
    /// The top-left corner of the text in the window.
    pub screen_position: (i32, i32),
}

impl Clone for Section {
    fn clone(&self) -> (copy: Self)
        ensures
            copy == *self,
    {
        Section {
            text: self.text.clone(),
            font: self.font.clone(),
            scale: self.scale,
            color: self.color,
            screen_position: self.screen_position,
        }
    }
}

/// One thing to draw. All positions and sizes are in window pixels, the
/// origin at the top left and `y` growing downwards.
#[derive(Debug, PartialEq, Eq)]
pub enum DrawCommand {
    /// A laid-out piece of text.
    Text(Section),
    /// A filled circle.
    Circle { center: (i32, i32), radius: u32, color: Color },
    /// A filled rectangle.
    Rect { top_left: (i32, i32), width: u32, height: u32, color: Color },
    /// A filled rectangle with rounded corners. The roundness is in percent.
    RoundedRect { top_left: (i32, i32), width: u32, height: u32, roundness_percent: u32, color: Color },
    /// An image resource, scaled to the given size.
    Image { alias: String, top_left: (i32, i32), width: u32, height: u32 },
}

/// One thing to measure: the renderer answers with its width and height in
/// pixels.
#[derive(Debug, PartialEq, Eq)]
pub enum Metric {
    /// The bounds of a piece of text set in a font at a scale.
    Text { text: String, font: String, scale: u32 },
    /// The pixel dimensions of an image resource.
    Image { alias: String },
}

/// Whether `measure` can be asked for any metric.
pub open spec fn measures_all<M: Fn(&Metric) -> (u32, u32)>(measure: &M) -> bool {
    forall|metric: &Metric| call_requires(*measure, (metric,))
}

} // verus!
