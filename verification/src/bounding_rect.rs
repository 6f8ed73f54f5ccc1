//! Axis-aligned layout bounds.

use vstd::prelude::*;

verus! {

/// The layout bounds of a view element: a top-left corner and an extent that
/// grows to the right and downwards.
#[derive(Clone, Copy, Debug, PartialEq, Eq, Structural)]
pub struct BoundingRect {
    /// Top-left x coordinate.
    pub x: i32,
    /// Top-left y coordinate.
    pub y: i32,
    pub width: u32,
    pub height: u32,
}

impl BoundingRect {
    /// Whether the point `(x, y)` lies in the rectangle, its four edges included.
    pub open spec fn holds(self, x: int, y: int) -> bool {
        &&& self.x <= x <= self.x + self.width
        &&& self.y <= y <= self.y + self.height
    }

    /// The midpoint of the rectangle, rounded towards the top-left corner.
    pub open spec fn midpoint(self) -> (int, int) {
        (self.x + self.width / 2, self.y + self.height / 2)
    }

    /// The same extent with its corner moved by `(dx, dy)`.
    pub open spec fn moved(self, dx: int, dy: int) -> BoundingRect {
        BoundingRect { x: (self.x + dx) as i32, y: (self.y + dy) as i32, ..self }
    }

    /// Whether the corner can move by `(dx, dy)` and stay representable.
    pub open spec fn can_move(self, dx: int, dy: int) -> bool {
        &&& i32::MIN <= self.x + dx <= i32::MAX
        &&& i32::MIN <= self.y + dy <= i32::MAX
    }

    /// The same extent with its corner at `(x, y)`.
    pub open spec fn at(self, x: i32, y: i32) -> BoundingRect {
        BoundingRect { x, y, ..self }
    }

    /// A rectangle at the origin with no extent.
    pub fn new() -> (rect: Self)
        ensures
            rect == (BoundingRect { x: 0, y: 0, width: 0, height: 0 }),
    {
        BoundingRect { x: 0, y: 0, width: 0, height: 0 }
    }

    /// The midpoint of the rectangle.
    pub fn center(&self) -> (c: (i32, i32))
        requires
            self.midpoint().0 <= i32::MAX,
            self.midpoint().1 <= i32::MAX,
        ensures
            c.0 == self.midpoint().0,
            c.1 == self.midpoint().1,
    {
        let half_width: i64 = (self.width / 2) as i64;
        let half_height: i64 = (self.height / 2) as i64;
        ((self.x as i64 + half_width) as i32, (self.y as i64 + half_height) as i32)
    }

    /// Whether a point is within the rectangle; every edge counts as inside.
    pub fn contains(&self, x: i32, y: i32) -> (inside: bool)
        ensures
            inside == self.holds(x as int, y as int),
    {
        let right: i64 = self.x as i64 + self.width as i64;
        let bottom: i64 = self.y as i64 + self.height as i64;
        x >= self.x && x as i64 <= right && y >= self.y && y as i64 <= bottom
    }

    /// Whether the corner can move by `(dx, dy)` and stay representable.
    pub fn check_move(&self, dx: i32, dy: i32) -> (ok: bool)
        ensures
            ok == self.can_move(dx as int, dy as int),
    {
        let x: i64 = self.x as i64 + dx as i64;
        let y: i64 = self.y as i64 + dy as i64;
        i32::MIN as i64 <= x && x <= i32::MAX as i64 && i32::MIN as i64 <= y && y <= i32::MAX as i64
    }

    /// The top-left corner.
    pub fn top_left(&self) -> (corner: (i32, i32))
        ensures
            corner == (self.x, self.y),
    {
        (self.x, self.y)
    }

    /// The extent as `(width, height)`.
    pub fn dimensions(&self) -> (size: (u32, u32))
        ensures
            size == (self.width, self.height),
    {
        (self.width, self.height)
    }
}

/// How far something of the extent `inner` is moved from the leading edge of
/// something of the extent `outer` so that the middles of the two meet.
pub open spec fn centering(outer: u32, inner: u32) -> int {
    outer / 2 - inner / 2
}

/// How far to move the inner of two extents so that their middles meet: see
/// [`centering`].
pub fn center_offset(outer: u32, inner: u32) -> (offset: i32)
    ensures
        offset == centering(outer, inner),
{
    (outer / 2) as i32 - (inner / 2) as i32
}

/// Both corners of a rectangle are inside it, and the point just left of the
/// top-left corner is not.
pub proof fn containment_is_inclusive(rect: BoundingRect)
    ensures
        rect.holds(rect.x as int, rect.y as int),
        rect.holds(rect.x + rect.width, rect.y + rect.height),
        !rect.holds(rect.x - 1, rect.y as int),
{
}

} // verus!
