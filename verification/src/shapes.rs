//! The shapes a surface is made of, in whole pixels.

use vstd::prelude::*;

verus! {

/// A position on the surface.
#[derive(Clone, Copy, Debug, PartialEq, Eq, Structural)]
pub struct Pixel {
    pub x: i32,
    pub y: i32,
}

/// The unbounded line through two clicked positions.
///
/// `a` is the click that completed the line and `b` the click before it. The
/// two may coincide, in which case no single line is meant.
#[derive(Clone, Copy, Debug, PartialEq, Eq, Structural)]
pub struct PixelLine {
    pub a: Pixel,
    pub b: Pixel,
}

/// A circle given by its center and one position on its boundary.
#[derive(Clone, Copy, Debug, PartialEq, Eq, Structural)]
pub struct PixelCircle {
    pub center: Pixel,
    pub sidepoint: Pixel,
}

/// An axis-parallel rectangle as it is painted: from `origin`, `width` to the
/// right and `height` down. Both extents are signed.
#[derive(Clone, Copy, Debug, PartialEq, Eq, Structural)]
pub struct PixelRect {
    pub origin: Pixel,
    pub width: i32,
    pub height: i32,
}

/// How an unbounded line is painted.
#[derive(Clone, Copy, Debug, PartialEq, Eq, Structural)]
pub enum Trace {
    /// Straight down the column `x`.
    Vertical { x: i32 },
    /// Straight along the row `y`.
    Horizontal { y: i32 },
    /// Neither: the painter has to follow the slope of the line.
    Slanted { line: PixelLine },
}

/// `v` moved to the nearest value an `i32` can hold.
pub open spec fn clip(v: int) -> int {
    if v < i32::MIN {
        i32::MIN as int
    } else if v > i32::MAX {
        i32::MAX as int
    } else {
        v
    }
}

/// The difference `a - b`, held at the ends of the `i32` range.
pub fn clipped_difference(a: i32, b: i32) -> (d: i32)
    ensures
        d == clip(a - b),
{
    let wide: i64 = a as i64 - b as i64;
    if wide < i32::MIN as i64 {
        i32::MIN
    } else if wide > i32::MAX as i64 {
        i32::MAX
    } else {
        wide as i32
    }
}

impl Pixel {
    pub fn new(x: i32, y: i32) -> (p: Pixel)
        ensures
            p == (Pixel { x, y }),
    {
        Pixel { x, y }
    }
}

impl PixelLine {
    /// The line through `a` and `b`.
    pub fn new(a: Pixel, b: Pixel) -> (l: PixelLine)
        ensures
            l == (PixelLine { a, b }),
    {
        PixelLine { a, b }
    }

    /// A line whose two positions share a column is vertical, also when they
    /// coincide. Otherwise one whose positions share a row is horizontal.
    pub open spec fn trace_spec(self) -> Trace {
        if self.a.x == self.b.x {
            Trace::Vertical { x: self.a.x }
        } else if self.a.y == self.b.y {
            Trace::Horizontal { y: self.a.y }
        } else {
            Trace::Slanted { line: self }
        }
    }

    /// How this line is painted.
    pub fn trace(&self) -> (t: Trace)
        ensures
            t == self.trace_spec(),
    {
        if self.a.x == self.b.x {
            Trace::Vertical { x: self.a.x }
        } else if self.a.y == self.b.y {
            Trace::Horizontal { y: self.a.y }
        } else {
            Trace::Slanted { line: *self }
        }
    }
}

impl PixelCircle {
    /// The circle around `center` through `sidepoint`.
    pub fn new(center: Pixel, sidepoint: Pixel) -> (c: PixelCircle)
        ensures
            c == (PixelCircle { center, sidepoint }),
    {
        PixelCircle { center, sidepoint }
    }
}

impl PixelRect {
    /// The rectangle spanned by `corner` and `anchor`, anchored at `anchor`.
    pub open spec fn spanned(corner: Pixel, anchor: Pixel) -> PixelRect {
        PixelRect {
            origin: anchor,
            width: clip(corner.x - anchor.x) as i32,
            height: clip(corner.y - anchor.y) as i32,
        }
    }

    /// The rectangle with the opposite corners `corner` and `anchor`. It is
    /// anchored at `anchor`; its extents are `corner - anchor` by coordinate,
    /// so their signs follow the order of the corners, and each is held at
    /// the ends of the `i32` range.
    pub fn new(corner: Pixel, anchor: Pixel) -> (r: PixelRect)
        ensures
            r == Self::spanned(corner, anchor),
    {
        PixelRect {
            origin: anchor,
            width: clipped_difference(corner.x, anchor.x),
            height: clipped_difference(corner.y, anchor.y),
        }
    }
}

} // verus!
