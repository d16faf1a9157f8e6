//! Plain geometry: points, sizes and rectangles in display coordinates.
//!
//! These hold, as plain integers, what the layout logic reads of embedded-graphics' `Point`,
//! `Size` and `Rectangle`; the application converts them to and from the embedded-graphics types
//! when it draws.

use vstd::prelude::*;

verus! {

/// Largest width, height or style metric that the layout logic works with.
pub const MAX_EXTENT: u32 = 1048576;

/// `v` as an `i32` display coordinate, truncated as an `as` cast does.
pub(crate) fn coord(v: i64) -> (c: i32)
    ensures
        c == v as i32,
{
    #[verifier::truncate]
    (v as i32)
}

/// A point in display coordinates (x to the right, y downwards).
#[derive(Clone, Copy, Debug, PartialEq, Eq, Structural, PartialOrd, Ord, Hash, Default)]
pub struct Point {
    pub x: i32,
    pub y: i32,
}

/// A width and a height in pixels.
#[derive(Clone, Copy, Debug, PartialEq, Eq, Structural, PartialOrd, Ord, Hash, Default)]
pub struct Size {
    pub width: u32,
    pub height: u32,
}

/// An axis-aligned rectangle given by its top left corner and its size.
#[derive(Clone, Copy, Debug, PartialEq, Eq, Structural, PartialOrd, Ord, Hash, Default)]
pub struct Rectangle {
    pub top_left: Point,
    pub size: Size,
}

impl Point {
    pub fn new(x: i32, y: i32) -> (p: Point)
        ensures
            p.x == x,
            p.y == y,
    {
        Point { x, y }
    }

    pub fn zero() -> (p: Point)
        ensures
            p.x == 0,
            p.y == 0,
    {
        Point { x: 0, y: 0 }
    }
}

impl Size {
    pub fn new(width: u32, height: u32) -> (s: Size)
        ensures
            s.width == width,
            s.height == height,
    {
        Size { width, height }
    }

    pub fn zero() -> (s: Size)
        ensures
            s.width == 0,
            s.height == 0,
    {
        Size { width: 0, height: 0 }
    }

    /// Both dimensions are at most [`MAX_EXTENT`].
    pub open spec fn bounded(self) -> bool {
        self.width <= MAX_EXTENT && self.height <= MAX_EXTENT
    }

    /// Subtraction per dimension that stops at zero.
    pub fn saturating_sub(self, other: Size) -> (s: Size)
        ensures
            s.width == (if self.width >= other.width { self.width - other.width } else { 0 }),
            s.height == (if self.height >= other.height { self.height - other.height } else { 0 }),
    {
        Size {
            width: if self.width >= other.width { self.width - other.width } else { 0 },
            height: if self.height >= other.height { self.height - other.height } else { 0 },
        }
    }

    /// Addition per dimension that stops at `u32::MAX`.
    pub fn saturating_add(self, other: Size) -> (s: Size)
        ensures
            s.width == (if self.width + other.width <= u32::MAX { self.width + other.width } else { u32::MAX as int }),
            s.height == (if self.height + other.height <= u32::MAX { self.height + other.height } else { u32::MAX as int }),
    {
        Size {
            width: if other.width <= u32::MAX - self.width { self.width + other.width } else { u32::MAX },
            height: if other.height <= u32::MAX - self.height { self.height + other.height } else { u32::MAX },
        }
    }
}

/// Whether `p` lies inside the rectangle with top left `tl` and size `s`: a rectangle with a
/// zero dimension contains no point.
pub open spec fn spec_contains(r: Rectangle, p: Point) -> bool {
    &&& r.size.width > 0
    &&& r.size.height > 0
    &&& r.top_left.x <= p.x < r.top_left.x + r.size.width
    &&& r.top_left.y <= p.y < r.top_left.y + r.size.height
}

impl Rectangle {
    pub fn new(top_left: Point, size: Size) -> (r: Rectangle)
        ensures
            r.top_left == top_left,
            r.size == size,
    {
        Rectangle { top_left, size }
    }

    /// Return whether the rectangle contains a given point.
    pub fn contains(&self, point: Point) -> (b: bool)
        ensures
            b == spec_contains(*self, point),
    {
        if self.size.width == 0 || self.size.height == 0 {
            return false;
        }
        let px: i64 = point.x as i64;
        let py: i64 = point.y as i64;
        let x0: i64 = self.top_left.x as i64;
        let y0: i64 = self.top_left.y as i64;
        x0 <= px && px < x0 + self.size.width as i64 && y0 <= py && py < y0 + self.size.height as i64
    }
}

} // verus!
