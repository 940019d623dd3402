//! Axis-aligned rectangles in screen coordinates.

use vstd::prelude::*;

verus! {

/// Rectangular region in screen coordinates.
///
/// The region is half-open: it covers the points with
/// `x <= px < x + width` and `y <= py < y + height`.
#[derive(Debug, Clone, Copy, PartialEq, Eq, Structural)]
pub struct Rect {
    pub x: i32,
    pub y: i32,
    pub width: i32,
    pub height: i32,
}

/// What `Rect::intersects` decides, over mathematical integers:
/// the two half-open regions share at least one point.
pub open spec fn spec_intersects(a: Rect, b: Rect) -> bool {
    &&& a.x < b.x + b.width
    &&& a.x + a.width > b.x
    &&& a.y < b.y + b.height
    &&& a.y + a.height > b.y
}

/// What `Rect::from_points` builds: the corner-wise minimum as the origin
/// and the absolute deltas as the size.
pub open spec fn spec_from_points(x1: i32, y1: i32, x2: i32, y2: i32) -> Rect {
    Rect {
        x: if x1 <= x2 { x1 } else { x2 },
        y: if y1 <= y2 { y1 } else { y2 },
        width: (if x1 >= x2 { x1 - x2 } else { x2 - x1 }) as i32,
        height: (if y1 >= y2 { y1 - y2 } else { y2 - y1 }) as i32,
    }
}

impl Rect {
    /// Creates a new rectangle.
    pub fn new(x: i32, y: i32, width: i32, height: i32) -> (r: Rect)
        ensures
            r == (Rect { x, y, width, height }),
    {
        Rect { x, y, width, height }
    }

    /// Check if this rectangle intersects with another rectangle.
    ///
    /// Rectangles that only touch along an edge do not count as
    /// intersecting.
    pub fn intersects(&self, other: &Rect) -> (r: bool)
        ensures
            r == spec_intersects(*self, *other),
    {
        (self.x as i64) < (other.x as i64) + (other.width as i64)
            && (self.x as i64) + (self.width as i64) > (other.x as i64)
            && (self.y as i64) < (other.y as i64) + (other.height as i64)
            && (self.y as i64) + (self.height as i64) > (other.y as i64)
    }

    /// Creates a rectangle from two corner points.
    ///
    /// Automatically normalizes so the top-left is at (min x, min y).
    pub fn from_points(x1: i32, y1: i32, x2: i32, y2: i32) -> (r: Rect)
        requires
            x1 - x2 <= i32::MAX,
            x2 - x1 <= i32::MAX,
            y1 - y2 <= i32::MAX,
            y2 - y1 <= i32::MAX,
        ensures
            r == spec_from_points(x1, y1, x2, y2),
    {
        let x = if x1 < x2 { x1 } else { x2 };
        let y = if y1 < y2 { y1 } else { y2 };
        let width = if x1 >= x2 { x1 - x2 } else { x2 - x1 };
        let height = if y1 >= y2 { y1 - y2 } else { y2 - y1 };
        Rect { x, y, width, height }
    }

    /// Checks if this rectangle has non-zero area.
    pub fn is_valid(&self) -> (r: bool)
        ensures
            r == self.spec_is_valid(),
    {
        self.width > 0 && self.height > 0
    }

    /// A rectangle is valid when both sides are strictly positive.
    pub open spec fn spec_is_valid(self) -> bool {
        self.width > 0 && self.height > 0
    }
}

/// The corner points handed to `from_points` can come in either order:
/// both orders name the same rectangle.
pub proof fn lemma_from_points_order_independent(x1: i32, y1: i32, x2: i32, y2: i32)
    ensures
        spec_from_points(x1, y1, x2, y2) == spec_from_points(x2, y2, x1, y1),
{
}

/// Intersection is symmetric: `a` meets `b` exactly when `b` meets `a`.
pub proof fn lemma_intersects_symmetric(a: Rect, b: Rect)
    ensures
        spec_intersects(a, b) == spec_intersects(b, a),
{
}

/// Rectangles that touch along an edge, without overlapping interiors
/// past it, do not intersect: the shared boundary belongs to only one of
/// the two half-open regions.
pub proof fn lemma_touching_edges_do_not_intersect(a: Rect, b: Rect)
    requires
        a.x + a.width == b.x || b.x + b.width == a.x || a.y + a.height == b.y || b.y + b.height
            == a.y,
    ensures
        !spec_intersects(a, b),
{
}

} // verus!
