//! Screen-coordinate rectangles.
//!
//! The controller never computes with coordinates: it captures a window's
//! content rectangle before the fullscreen transition and restores the very
//! same value afterwards.  Coordinates are therefore carried as plain
//! integers; a caller that works in another unit (for instance IEEE-754 bit
//! patterns of floating-point screen coordinates) converts at the boundary,
//! and the round trip through the controller is exact either way.

use vstd::prelude::*;

verus! {

/// A rectangle in screen coordinates: an origin and a size.
#[derive(Clone, Copy, PartialEq, Eq, Structural, Debug)]
pub struct Rect {
    pub x: i64,
    pub y: i64,
    pub width: i64,
    pub height: i64,
}

impl Rect {
    /// Builds the rectangle with the given origin and size.
    pub fn new(x: i64, y: i64, width: i64, height: i64) -> (r: Rect)
        ensures
            r == (Rect { x, y, width, height }),
    {
        Rect { x, y, width, height }
    }
}

} // verus!
