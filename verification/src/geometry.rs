//! Points, sizes, rectangles and pixels, in the coordinates of the drawing
//! layer: `x` grows to the right, `y` grows downwards, and `(0, 0)` is the
//! top-left pixel of the drawable part of the screen.

use crate::color::Rgb888;
use vstd::prelude::*;

verus! {

/// A position, which may lie outside the display.
#[derive(Clone, Copy, Debug, PartialEq, Eq, Structural)]
pub struct Point {
    pub x: i32,
    pub y: i32,
}

/// A width and a height, in pixels.
#[derive(Clone, Copy, Debug, PartialEq, Eq, Structural)]
pub struct Size {
    pub width: u32,
    pub height: u32,
}

/// A rectangle, given by its top-left corner and its size. One with zero
/// width or zero height covers no pixel.
#[derive(Clone, Copy, Debug, PartialEq, Eq, Structural)]
pub struct Rectangle {
    pub top_left: Point,
    pub size: Size,
}

/// One pixel to draw: where, and in which colour.
#[derive(Clone, Copy, Debug, PartialEq, Eq, Structural)]
pub struct Pixel(pub Point, pub Rgb888);

/// `Rectangle::bottom_right` of embedded-graphics-core, on the rectangle with
/// top-left corner `(x, y)` and the given size.
///
/// Trusted: the result is taken to be `None` for a rectangle without pixels,
/// and otherwise the corner `(x + width - 1, y + height - 1)`. The crate adds
/// the size to the top-left corner and takes one off each coordinate, in
/// `i32`; the precondition keeps both the casts of the size and that sum
/// inside `i32`, where the crate's debug assertions and additions hold.
#[verifier::external_body]
fn bottom_right_of(x: i32, y: i32, width: u32, height: u32) -> (corner: Option<(i32, i32)>)
    requires
        width > 0 && height > 0 ==> width <= i32::MAX && height <= i32::MAX,
        width > 0 && height > 0 ==> x + width <= i32::MAX && y + height <= i32::MAX,
    ensures
        width > 0 && height > 0 ==> corner == Some(((x + width - 1) as i32, (y + height - 1) as i32)),
        width == 0 || height == 0 ==> corner is None,
{
    let area = embedded_graphics_core::primitives::Rectangle::new(
        embedded_graphics_core::geometry::Point::new(x, y),
        embedded_graphics_core::geometry::Size::new(width, height),
    );
    match area.bottom_right() {
        Some(corner) => Some((corner.x, corner.y)),
        None => None,
    }
}

impl Point {
    /// The point `(x, y)`.
    pub fn new(x: i32, y: i32) -> (point: Self)
        ensures
            point == (Point { x, y }),
    {
        Point { x, y }
    }
}

impl Size {
    /// The size `width` by `height`.
    pub fn new(width: u32, height: u32) -> (size: Self)
        ensures
            size == (Size { width, height }),
    {
        Size { width, height }
    }

    /// How many pixels a rectangle of this size covers.
    pub open spec fn area(self) -> nat {
        (self.width as nat) * (self.height as nat)
    }
}

impl Rectangle {
    /// The rectangle with the given top-left corner and size.
    pub fn new(top_left: Point, size: Size) -> (area: Self)
        ensures
            area == (Rectangle { top_left, size }),
    {
        Rectangle { top_left, size }
    }

    /// Whether the rectangle covers no pixel.
    pub open spec fn is_empty(self) -> bool {
        self.size.width == 0 || self.size.height == 0
    }

    /// How many pixels the rectangle covers.
    pub open spec fn pixel_count(self) -> nat {
        self.size.area()
    }

    /// Whether `(x, y)` is one of the rectangle's pixels.
    pub open spec fn covers(self, x: int, y: int) -> bool {
        &&& self.top_left.x <= x < self.top_left.x + self.size.width
        &&& self.top_left.y <= y < self.top_left.y + self.size.height
    }

    /// Whether the rectangle's corners can be written in `i32`: an empty
    /// rectangle always, another one when each side is at most `i32::MAX`
    /// long and the top-left corner moved by the size is still a point.
    pub open spec fn bounded(self) -> bool {
        self.is_empty() || {
            &&& self.size.width <= i32::MAX
            &&& self.size.height <= i32::MAX
            &&& self.top_left.x + self.size.width <= i32::MAX
            &&& self.top_left.y + self.size.height <= i32::MAX
        }
    }

    /// The last pixel of the last row, if the rectangle has pixels.
    pub open spec fn far_corner(self) -> Option<Point> {
        if self.is_empty() {
            None
        } else {
            Some(
                Point {
                    x: (self.top_left.x + self.size.width - 1) as i32,
                    y: (self.top_left.y + self.size.height - 1) as i32,
                },
            )
        }
    }

    /// Tells whether the rectangle's corners can be written in `i32`.
    pub fn is_bounded(&self) -> (ok: bool)
        ensures
            ok == self.bounded(),
    {
        if self.size.width == 0 || self.size.height == 0 {
            return true;
        }
        let limit: i64 = i32::MAX as i64;
        let right: i64 = self.top_left.x as i64 + self.size.width as i64;
        let bottom: i64 = self.top_left.y as i64 + self.size.height as i64;
        self.size.width as i64 <= limit && self.size.height as i64 <= limit && right <= limit
            && bottom <= limit
    }

    /// The bottom-right corner: the last pixel of the last row, or `None`
    /// where the rectangle has zero width or zero height.
    pub fn bottom_right(&self) -> (corner: Option<Point>)
        requires
            self.bounded(),
        ensures
            corner == self.far_corner(),
            corner is None <==> self.is_empty(),
    {
        match bottom_right_of(
            self.top_left.x,
            self.top_left.y,
            self.size.width,
            self.size.height,
        ) {
            Some((x, y)) => Some(Point { x, y }),
            None => None,
        }
    }
}

} // verus!
