//! Whole-number points and rectangles, and the hit test on them.

use vstd::prelude::*;

verus! {

/// The largest coordinate and the largest extent that layout hands out.
/// Every whole number up to it is exact in single precision, so the caller
/// can pass positions on to a renderer that works in floating point.
pub const COORD_LIMIT: u32 = 16_777_216;

/// A position on the surface, in whole pixels. The origin is the top-left
/// corner; `x` grows to the right and `y` grows downwards.
#[derive(Clone, Copy, Debug, PartialEq, Eq, Structural)]
pub struct Point {
    pub x: i32,
    pub y: i32,
}

/// An axis-aligned rectangle: its top-left corner and its extent.
#[derive(Clone, Copy, Debug, PartialEq, Eq, Structural)]
pub struct Rect {
    pub x: i32,
    pub y: i32,
    pub width: u32,
    pub height: u32,
}

/// A width and a height, in whole pixels.
#[derive(Clone, Copy, Debug, PartialEq, Eq, Structural)]
pub struct Size {
    pub width: u32,
    pub height: u32,
}

impl Rect {
    /// Whether `p` lies inside the rectangle. The left and top edges belong
    /// to it, the right and bottom edges do not, so a rectangle without
    /// extent contains no point.
    pub open spec fn covers(self, p: Point) -> bool {
        &&& self.x <= p.x < self.x + self.width
        &&& self.y <= p.y < self.y + self.height
    }

    /// The hit test: whether `p` lies inside the rectangle.
    pub fn contains(&self, p: Point) -> (inside: bool)
        ensures
            inside == self.covers(p),
    {
        let right: i64 = self.x as i64 + self.width as i64;
        let bottom: i64 = self.y as i64 + self.height as i64;
        let px: i64 = p.x as i64;
        let py: i64 = p.y as i64;
        self.x as i64 <= px && px < right && self.y as i64 <= py && py < bottom
    }
}

} // verus!
