//! Boxes of pixels.

use crate::fixed::{Fixed, ONE};
use crate::vector::Vec2;
use core::ops::RangeInclusive;
use vstd::prelude::*;

verus! {

/// A pixel: a column and a row.
#[derive(Clone, Copy, Debug, PartialEq, Eq, Structural)]
pub struct Point {
    pub x: usize,
    pub y: usize,
}

/// The pixels from `min` to `max`, both included, in both directions. A box
/// whose `min` lies beyond its `max` in a direction holds no pixel.
#[derive(Clone, Copy, Debug)]
pub struct BoundingBox {
    min: Point,
    max: Point,
}

/// The pixel column (or row) in which a screen coordinate lies.
pub open spec fn pixel_of(t: Fixed) -> int {
    (t as int) / (ONE as int)
}

/// The least of three numbers.
pub open spec fn min3(a: int, b: int, c: int) -> int {
    if a <= b && a <= c {
        a
    } else if b <= c {
        b
    } else {
        c
    }
}

/// The greatest of three numbers.
pub open spec fn max3(a: int, b: int, c: int) -> int {
    if a >= b && a >= c {
        a
    } else if b >= c {
        b
    } else {
        c
    }
}

/// `v` held between `lo` and `hi`, and at `lo` where that cannot be.
pub open spec fn clamp_low(v: int, lo: int, hi: int) -> int {
    let capped = if v < hi {
        v
    } else {
        hi
    };
    if capped < lo {
        lo
    } else {
        capped
    }
}

/// `v` held between `lo` and `hi`, and at `hi` where that cannot be.
pub open spec fn clamp_high(v: int, lo: int, hi: int) -> int {
    let raised = if v > lo {
        v
    } else {
        lo
    };
    if raised > hi {
        hi
    } else {
        raised
    }
}

/// Computes `clamp_low` of the pixel of the least coordinate.
fn low_end(a: Fixed, b: Fixed, c: Fixed, lo: usize, hi: usize) -> (r: usize)
    ensures
        r == clamp_low(min3(pixel_of(a), pixel_of(b), pixel_of(c)), lo as int, hi as int),
{
    let least = if a <= b && a <= c {
        a
    } else if b <= c {
        b
    } else {
        c
    };
    let pixel = floor_pixel(least);
    let capped = if pixel < 0 || (pixel as usize) < hi {
        pixel
    } else {
        // `hi` lies below the pixel, which is at most 32767
        hi as i32
    };
    if capped < 0 || (capped as usize) < lo {
        lo
    } else {
        capped as usize
    }
}

/// Computes `clamp_high` of the pixel of the greatest coordinate.
fn high_end(a: Fixed, b: Fixed, c: Fixed, lo: usize, hi: usize) -> (r: usize)
    ensures
        r == clamp_high(max3(pixel_of(a), pixel_of(b), pixel_of(c)), lo as int, hi as int),
{
    let greatest = if a >= b && a >= c {
        a
    } else if b >= c {
        b
    } else {
        c
    };
    let pixel = floor_pixel(greatest);
    let raised = if pixel >= 0 && pixel as usize > lo {
        pixel as usize
    } else {
        lo
    };
    if raised > hi {
        hi
    } else {
        raised
    }
}

/// Computes `pixel_of`.
fn floor_pixel(t: Fixed) -> (p: i32)
    ensures
        p == pixel_of(t),
        -32768 <= p <= 32767,
{
    match t.checked_div_euclid(65536) {
        Some(p) => p,
        None => 0,
    }
}

impl BoundingBox {
    /// The first column and row of the box.
    pub closed spec fn lower(&self) -> Point {
        self.min
    }

    /// The last column and row of the box.
    pub closed spec fn upper(&self) -> Point {
        self.max
    }

    /// Whether the pixel in column `x` of row `y` lies in the box.
    pub open spec fn contains(&self, x: int, y: int) -> bool {
        self.lower().x <= x <= self.upper().x && self.lower().y <= y <= self.upper().y
    }

    /// The box of the pixels in which the three points lie, cut down to
    /// `tile`: each of its ends is held within `tile`. The box lies within
    /// the tile; where the triangle lies to one side of the tile, the box is
    /// the row or column at that edge of the tile.
    pub open spec fn from_triangle_spec(points: Seq<Vec2>, tile: BoundingBox) -> (Point, Point) {
        (
            Point {
                x: clamp_low(
                    min3(pixel_of(points[0].x), pixel_of(points[1].x), pixel_of(points[2].x)),
                    tile.lower().x as int,
                    tile.upper().x as int,
                ) as usize,
                y: clamp_low(
                    min3(pixel_of(points[0].y), pixel_of(points[1].y), pixel_of(points[2].y)),
                    tile.lower().y as int,
                    tile.upper().y as int,
                ) as usize,
            },
            Point {
                x: clamp_high(
                    max3(pixel_of(points[0].x), pixel_of(points[1].x), pixel_of(points[2].x)),
                    tile.lower().x as int,
                    tile.upper().x as int,
                ) as usize,
                y: clamp_high(
                    max3(pixel_of(points[0].y), pixel_of(points[1].y), pixel_of(points[2].y)),
                    tile.lower().y as int,
                    tile.upper().y as int,
                ) as usize,
            },
        )
    }

    /// The box from `min` to `max`.
    pub fn new(min: Point, max: Point) -> (b: BoundingBox)
        ensures
            b.lower() == min,
            b.upper() == max,
    {
        Self { min, max }
    }

    /// The box of a triangle with the given corners on the screen, cut down
    /// to the tile `bounding_box`.
    pub fn from_triangle(vertex_positions: [Vec2; 3], bounding_box: BoundingBox) -> (b: BoundingBox)
        ensures
            (b.lower(), b.upper()) == BoundingBox::from_triangle_spec(
                vertex_positions@,
                bounding_box,
            ),
    {
        let a = vertex_positions[0];
        let b = vertex_positions[1];
        let c = vertex_positions[2];
        let lo = bounding_box.min;
        let hi = bounding_box.max;
        Self {
            min: Point { x: low_end(a.x, b.x, c.x, lo.x, hi.x), y: low_end(a.y, b.y, c.y, lo.y, hi.y) },
            max: Point {
                x: high_end(a.x, b.x, c.x, lo.x, hi.x),
                y: high_end(a.y, b.y, c.y, lo.y, hi.y),
            },
        }
    }

    /// The columns of the box.
    pub fn x_iter(&self) -> (columns: RangeInclusive<usize>)
        ensures
            columns@.start == self.lower().x,
            columns@.end == self.upper().x,
            !columns@.exhausted,
    {
        RangeInclusive::new(self.min.x, self.max.x)
    }

    /// The rows of the box.
    pub fn y_iter(&self) -> (rows: RangeInclusive<usize>)
        ensures
            rows@.start == self.lower().y,
            rows@.end == self.upper().y,
            !rows@.exhausted,
    {
        RangeInclusive::new(self.min.y, self.max.y)
    }

    /// The first column and row of the box.
    pub fn min(&self) -> (p: Point)
        ensures
            p == self.lower(),
    {
        self.min
    }

    /// The last column and row of the box.
    pub fn max(&self) -> (p: Point)
        ensures
            p == self.upper(),
    {
        self.max
    }
}

/// A triangle's box lies within the tile, and holds every pixel of the tile
/// that lies between the triangle's least and greatest corner.
pub proof fn lemma_from_triangle(points: Seq<Vec2>, tile: BoundingBox, x: int, y: int)
    ensures
        ({
            let (lower, upper) = BoundingBox::from_triangle_spec(points, tile);
            let inside = lower.x <= x <= upper.x && lower.y <= y <= upper.y;
            let spanned = min3(pixel_of(points[0].x), pixel_of(points[1].x), pixel_of(points[2].x))
                <= x <= max3(pixel_of(points[0].x), pixel_of(points[1].x), pixel_of(points[2].x))
                && min3(pixel_of(points[0].y), pixel_of(points[1].y), pixel_of(points[2].y)) <= y
                <= max3(pixel_of(points[0].y), pixel_of(points[1].y), pixel_of(points[2].y));
            &&& inside ==> tile.contains(x, y)
            &&& tile.contains(x, y) && spanned ==> inside
        }),
{
}

} // verus!
