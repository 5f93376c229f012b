//! Geometric value types: coordinates, sizes and rectangles.
//!
//! The toolkit reports geometry in double-precision screen coordinates with
//! the origin at the top left corner.  Each component is held as a
//! [`Scalar`], so storing and returning geometry is exact.  Floating-point
//! arithmetic on these values (scaling, vector addition) is not part of this
//! crate.

use vstd::prelude::*;
use crate::scalar::Scalar;

verus! {

/// A position on a view, in screen coordinates with an upper-left origin.
#[derive(Copy, Clone, Debug, PartialEq, Eq, Structural)]
pub struct Coord {
    /// The x coordinate.
    pub x: Scalar,
    /// The y coordinate.
    pub y: Scalar,
}

impl Default for Coord {
    /// The origin.
    fn default() -> (r: Coord)
        ensures
            r.x.bits == 0,
            r.y.bits == 0,
    {
        Coord { x: Scalar { bits: 0 }, y: Scalar { bits: 0 } }
    }
}

/// The size of a rectangle.
///
/// Once a size has been assigned through configuration both components are
/// at least zero; the native system may transiently report negative resize
/// deltas, which callers must clamp before use.
#[derive(Copy, Clone, Debug, PartialEq, Eq, Structural)]
pub struct Size {
    /// The width.
    pub w: Scalar,
    /// The height.
    pub h: Scalar,
}

impl Default for Size {
    /// The empty size.
    fn default() -> (r: Size)
        ensures
            r.w.bits == 0,
            r.h.bits == 0,
    {
        Size { w: Scalar { bits: 0 }, h: Scalar { bits: 0 } }
    }
}

/// A rectangle, used to describe view position and size.
#[derive(Copy, Clone, Debug, PartialEq, Eq, Structural)]
pub struct Rect {
    /// The position of the upper left corner.
    pub pos: Coord,
    /// The size of the rectangle.
    pub size: Size,
}

impl Default for Rect {
    /// The empty rectangle at the origin.
    fn default() -> (r: Rect)
        ensures
            r.pos.x.bits == 0,
            r.pos.y.bits == 0,
            r.size.w.bits == 0,
            r.size.h.bits == 0,
    {
        Rect {
            pos: Coord { x: Scalar { bits: 0 }, y: Scalar { bits: 0 } },
            size: Size { w: Scalar { bits: 0 }, h: Scalar { bits: 0 } },
        }
    }
}

} // verus!
