//! Points and rectangles in pixel coordinates.
//!
//! Coordinates and sizes are kept inside a range that is half as wide as the
//! range of `i32`, so that the far edge of a rectangle (its position plus its
//! size) can always be computed without overflow. Every constructor clamps
//! what it is given into that range. The range is the one that the points and
//! rectangles of the `sdl2` crate keep, so a valid value passes into them
//! unchanged.

use vstd::prelude::*;

verus! {

/// Largest coordinate that a clamped point or rectangle holds.
pub const MAX_COORDINATE: i32 = 1073741823;

/// Smallest coordinate that a clamped point or rectangle holds.
pub const MIN_COORDINATE: i32 = -1073741824;

/// Largest width or height that a rectangle holds.
pub const MAX_SIZE: u32 = 1073741823;

/// The coordinate nearest to `v` that lies in the admitted range.
pub open spec fn clamp_position(v: int) -> int {
    if v > MAX_COORDINATE {
        MAX_COORDINATE as int
    } else if v < MIN_COORDINATE {
        MIN_COORDINATE as int
    } else {
        v
    }
}

/// The size nearest to `v` that a rectangle may have: never less than 1, so
/// that no rectangle is empty, and never more than `MAX_SIZE`.
pub open spec fn clamp_size(v: int) -> int {
    if v < 1 {
        1
    } else if v > MAX_SIZE {
        MAX_SIZE as int
    } else {
        v
    }
}

/// Brings a coordinate into the admitted range.
fn clamped_position(v: i32) -> (r: i32)
    ensures
        r == clamp_position(v as int),
{
    if v > MAX_COORDINATE {
        MAX_COORDINATE
    } else if v < MIN_COORDINATE {
        MIN_COORDINATE
    } else {
        v
    }
}

/// Brings a width or height into the admitted range.
fn clamped_size(v: u32) -> (r: u32)
    ensures
        r == clamp_size(v as int),
{
    if v == 0 {
        1
    } else if v > MAX_SIZE {
        MAX_SIZE
    } else {
        v
    }
}

/// Adds `delta` to `v` and brings the sum into the admitted range, also where
/// the sum itself would not fit in an `i32`.
fn clamped_sum(v: i32, delta: i32) -> (r: i32)
    ensures
        r == clamp_position(v + delta),
{
    match v.checked_add(delta) {
        Some(sum) => clamped_position(sum),
        None => {
            if delta < 0 {
                MIN_COORDINATE
            } else {
                MAX_COORDINATE
            }
        },
    }
}

/// A position in pixels.
#[derive(Debug, Clone, Copy, PartialEq, Eq, Structural)]
pub struct Point {
    pub x: i32,
    pub y: i32,
}

impl Point {
    /// Both coordinates lie in the admitted range.
    pub open spec fn wf(self) -> bool {
        &&& MIN_COORDINATE <= self.x <= MAX_COORDINATE
        &&& MIN_COORDINATE <= self.y <= MAX_COORDINATE
    }

    /// The point whose coordinates are `x` and `y`, each clamped.
    pub open spec fn clamped(x: int, y: int) -> Point {
        Point { x: clamp_position(x) as i32, y: clamp_position(y) as i32 }
    }

    /// Makes the point at (`x`, `y`), with each coordinate clamped.
    pub fn new(x: i32, y: i32) -> (p: Point)
        ensures
            p == Point::clamped(x as int, y as int),
            p.wf(),
    {
        Point { x: clamped_position(x), y: clamped_position(y) }
    }

    /// The point that lies `dx` to the right of and `dy` below this one, with
    /// each coordinate clamped. The sums are taken over the integers, so a
    /// shift that leaves the range of `i32` ends at the edge of the admitted
    /// range, on the side it left by.
    pub fn offset(self, dx: i32, dy: i32) -> (p: Point)
        ensures
            p == Point::clamped(self.x + dx, self.y + dy),
            p.wf(),
    {
        Point { x: clamped_sum(self.x, dx), y: clamped_sum(self.y, dy) }
    }
}

/// A rectangle in pixels, given by its upper left corner and its size.
#[derive(Debug, Clone, Copy, PartialEq, Eq, Structural)]
pub struct Rect {
    pub x: i32,
    pub y: i32,
    pub width: u32,
    pub height: u32,
}

impl Rect {
    /// The corner lies in the admitted range, and neither side is 0 or longer
    /// than `MAX_SIZE`.
    pub open spec fn wf(self) -> bool {
        &&& MIN_COORDINATE <= self.x <= MAX_COORDINATE
        &&& MIN_COORDINATE <= self.y <= MAX_COORDINATE
        &&& 1 <= self.width <= MAX_SIZE
        &&& 1 <= self.height <= MAX_SIZE
    }

    /// The rectangle with its corner at (`x`, `y`) and the given size, each of
    /// the four clamped.
    pub open spec fn clamped(x: int, y: int, width: int, height: int) -> Rect {
        Rect {
            x: clamp_position(x) as i32,
            y: clamp_position(y) as i32,
            width: clamp_size(width) as u32,
            height: clamp_size(height) as u32,
        }
    }

    /// The rectangle of the given size, clamped, whose middle is `center`. The
    /// corner lies half the clamped size, rounded down, to the left of and
    /// above the clamped center, and is clamped in turn.
    pub open spec fn centered(center: Point, width: int, height: int) -> Rect {
        Rect::clamped(
            clamp_position(center.x as int) - clamp_size(width) / 2,
            clamp_position(center.y as int) - clamp_size(height) / 2,
            width,
            height,
        )
    }

    /// Tells whether the rectangle is valid.
    pub fn is_valid(&self) -> (valid: bool)
        ensures
            valid == self.wf(),
    {
        MIN_COORDINATE <= self.x && self.x <= MAX_COORDINATE && MIN_COORDINATE <= self.y && self.y
            <= MAX_COORDINATE && 1 <= self.width && self.width <= MAX_SIZE && 1 <= self.height
            && self.height <= MAX_SIZE
    }

    /// Makes the rectangle with its upper left corner at (`x`, `y`). A side of
    /// length 0 becomes 1; everything else is clamped into its range.
    pub fn new(x: i32, y: i32, width: u32, height: u32) -> (r: Rect)
        ensures
            r == Rect::clamped(x as int, y as int, width as int, height as int),
            r.wf(),
    {
        Rect {
            x: clamped_position(x),
            y: clamped_position(y),
            width: clamped_size(width),
            height: clamped_size(height),
        }
    }

    /// Makes the rectangle of the given size that is centered on `center`.
    pub fn from_center(center: Point, width: u32, height: u32) -> (r: Rect)
        ensures
            r == Rect::centered(center, width as int, height as int),
            r.wf(),
    {
        let w: u32 = clamped_size(width);
        let h: u32 = clamped_size(height);
        let half_w: i32 = (w / 2) as i32;
        let half_h: i32 = (h / 2) as i32;
        Rect {
            x: clamped_position(clamped_position(center.x) - half_w),
            y: clamped_position(clamped_position(center.y) - half_h),
            width: w,
            height: h,
        }
    }
}

} // verus!
