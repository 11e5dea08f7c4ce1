//! Window-local geometry: points and sizes in logical coordinates, and the
//! saturating clamp applied to pointer positions before they are handed to
//! the display subsystem for conversion into backing (device-pixel) space.
//!
//! Coordinates are fixed-point: one unit is a thousandth of a logical
//! point, so a cursor position of 12.5 points is stored as 12500. The
//! display scale factor is owned by the display subsystem, which the host
//! integration asks to convert a clamped point into backing space; this
//! crate only guarantees that what it hands over lies inside the content
//! bounds.

use vstd::prelude::*;

verus! {

/// A window-local point in logical coordinates, in thousandths of a point.
#[derive(Clone, Copy, PartialEq, Eq, Structural, Debug)]
pub struct Point {
    pub x: i64,
    pub y: i64,
}

/// The extent of a window's drawable content area, in thousandths of a
/// logical point per axis. A size is never negative.
#[derive(Clone, Copy, PartialEq, Eq, Structural, Debug)]
pub struct Size {
    pub width: i64,
    pub height: i64,
}

impl Size {
    /// A size is well formed when neither extent is negative.
    pub open spec fn wf(self) -> bool {
        self.width >= 0 && self.height >= 0
    }
}

/// The saturating clamp of `v` into `[0, hi]`.
pub open spec fn clamped(v: int, hi: int) -> int {
    if v < 0 {
        0
    } else if v > hi {
        hi
    } else {
        v
    }
}

/// Clamps one coordinate into `[0, hi]`, pinning out-of-range values to
/// the nearer edge rather than rejecting them.
pub fn clamp_coord(v: i64, hi: i64) -> (r: i64)
    requires
        hi >= 0,
    ensures
        r == clamped(v as int, hi as int),
        0 <= r <= hi,
{
    if v < 0 {
        0
    } else if v > hi {
        hi
    } else {
        v
    }
}

/// Clamps a raw window-local pointer position into the content bounds,
/// axis by axis: `x` into `[0, bounds.width]` and `y` into
/// `[0, bounds.height]`. Out-of-bounds cursor positions near window edges
/// are pinned to the edge. The result always lies inside the bounds and is
/// what the host integration passes on to the display subsystem's
/// backing-space conversion.
pub fn clamp_to_bounds(raw: Point, bounds: Size) -> (r: Point)
    requires
        bounds.wf(),
    ensures
        r.x == clamped(raw.x as int, bounds.width as int),
        r.y == clamped(raw.y as int, bounds.height as int),
        0 <= r.x <= bounds.width,
        0 <= r.y <= bounds.height,
{
    Point { x: clamp_coord(raw.x, bounds.width), y: clamp_coord(raw.y, bounds.height) }
}

} // verus!
