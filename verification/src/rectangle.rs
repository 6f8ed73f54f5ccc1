//! A plain rectangle.

use vstd::prelude::*;

verus! {

/// A rectangle given by its top-left corner and its extent.
pub struct Rectangle {
    /// Top-left x coordinate.
    x: i32,
    /// Top-left y coordinate.
    y: i32,
    width: u32,
    height: u32,
}

impl Rectangle {
    /// The corner and the extent as `(x, y, width, height)`.
    pub closed spec fn view(&self) -> (i32, i32, u32, u32) {
        (self.x, self.y, self.width, self.height)
    }

    /// A rectangle at the origin with no extent.
    pub fn new() -> (rect: Self)
        ensures
            rect@ == (0i32, 0i32, 0u32, 0u32),
    {
        Rectangle { x: 0, y: 0, width: 0, height: 0 }
    }
}

} // verus!
