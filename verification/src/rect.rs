use vstd::prelude::*;
use crate::point::Point;

verus! {

/// An axis-aligned rectangle given by four totally ordered scalar bounds.
/// No relation between the bounds is enforced: a malformed rectangle
/// (left >= right or top >= bottom) simply contains no point.
#[derive(Clone, Copy, Debug)]
pub struct Rect {
    pub left: i64,
    pub top: i64,
    pub right: i64,
    pub bottom: i64,
}

/// Strict interior membership: boundary points are excluded.
pub open spec fn rect_contains(r: Rect, p: Point) -> bool {
    p.x > r.left && p.y > r.top && p.x < r.right && p.y < r.bottom
}

impl Rect {
    /// Tests whether `point` lies strictly inside the rectangle.
    #[inline]
    pub fn contains_point(&self, point: Point) -> (r: bool)
        ensures
            r == rect_contains(*self, point),
    {
        point.x > self.left && point.y > self.top && point.x < self.right
            && point.y < self.bottom
    }
}

/// A malformed rectangle (left >= right or top >= bottom) contains no point:
/// the strict interior test degrades to always-false rather than being rejected.
pub proof fn lemma_degenerate_rect_empty(r: Rect, p: Point)
    requires
        r.left >= r.right || r.top >= r.bottom,
    ensures
        !rect_contains(r, p),
{
}

} // verus!
