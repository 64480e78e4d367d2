//! Axis-aligned rectangles, hit tests and a clipped-rectangle pairing used by
//! every widget invocation.
//!
//! Coordinates are whole pixels. `contains` is inclusive on all four edges;
//! `intersects` is the centre-distance versus half-extent-sum overlap test, so
//! rectangles whose edges merely touch do not intersect.

use vstd::prelude::*;

verus! {

/// An axis-aligned rectangle: origin `(x, y)`, width `w`, height `h`.
#[derive(Clone, Copy, Debug, PartialEq, Eq, Structural)]
pub struct Rectangle {
    pub x: i32,
    pub y: i32,
    pub w: i32,
    pub h: i32,
}

/// A widget's bounds together with the clip rectangle it must stay inside.
/// The clip rectangle is supplied by the caller and never mutated here.
#[derive(Clone, Copy, Debug, PartialEq, Eq, Structural)]
pub struct ClippedRectangle {
    pub bounds: Rectangle,
    pub clipping_box: Rectangle,
}

/// `(x, y)` lies in `r`, inclusively on all four edges.
pub open spec fn spec_rect_contains(r: Rectangle, x: int, y: int) -> bool {
    &&& r.x <= x <= r.x + r.w
    &&& r.y <= y <= r.y + r.h
}

/// Approximate AABB overlap: the centre distance, doubled, is strictly below
/// the sum of the extents on both axes.
pub open spec fn spec_rect_intersects(a: Rectangle, b: Rectangle) -> bool {
    &&& 2 * vstd::math::abs(a.x - b.x) < a.w + b.w
    &&& 2 * vstd::math::abs(a.y - b.y) < a.h + b.h
}

/// `(x, y)` lies in both the bounds and the clip rectangle.
pub open spec fn spec_clip_contains(c: ClippedRectangle, x: int, y: int) -> bool {
    spec_rect_contains(c.bounds, x, y) && spec_rect_contains(c.clipping_box, x, y)
}

impl Rectangle {
    /// Inclusive containment test against all four edges.
    pub fn contains(&self, pos: (i32, i32)) -> (b: bool)
        ensures
            b == spec_rect_contains(*self, pos.0 as int, pos.1 as int),
    {
        let (x, y) = pos;
        if x < self.x || y < self.y {
            return false;
        }
        if (x as i64) > (self.x as i64) + (self.w as i64)
            || (y as i64) > (self.y as i64) + (self.h as i64) {
            return false;
        }
        true
    }

    /// Overlap test; touching edges count as non-intersecting.
    pub fn intersects(&self, other: &Rectangle) -> (b: bool)
        ensures
            b == spec_rect_intersects(*self, *other),
    {
        let dx: i64 = (self.x as i64) - (other.x as i64);
        let adx: i64 = if dx < 0 { -dx } else { dx };
        let dy: i64 = (self.y as i64) - (other.y as i64);
        let ady: i64 = if dy < 0 { -dy } else { dy };
        2 * adx < (self.w as i64) + (other.w as i64)
            && 2 * ady < (self.h as i64) + (other.h as i64)
    }
}

impl ClippedRectangle {
    /// A point interacts with a widget only when it is inside the bounds and
    /// not clipped away.
    pub fn contains(&self, pos: (i32, i32)) -> (b: bool)
        ensures
            b == spec_clip_contains(*self, pos.0 as int, pos.1 as int),
    {
        self.bounds.contains(pos) && self.clipping_box.contains(pos)
    }

    /// Whether any part of the bounds survives clipping; draw routines skip
    /// widgets that are clipped away entirely.
    pub fn is_part_visible(&self) -> (b: bool)
        ensures
            b == spec_rect_intersects(self.bounds, self.clipping_box),
    {
        self.bounds.intersects(&self.clipping_box)
    }
}

/// An unclipped rectangle: the clip rectangle coincides with the bounds.
pub fn raw_rect(x: i32, y: i32, w: i32, h: i32) -> (c: ClippedRectangle)
    ensures
        c.bounds == (Rectangle { x, y, w, h }),
        c.clipping_box == (Rectangle { x, y, w, h }),
{
    ClippedRectangle {
        bounds: Rectangle { x, y, w, h },
        clipping_box: Rectangle { x, y, w, h },
    }
}

/// Containment is inclusive at both boundary edges: with non-negative
/// extents, points on the low edges and on the high edges `x + w` and
/// `y + h` are all contained.
pub proof fn lemma_contains_inclusive_boundary(r: Rectangle, x: int, y: int)
    requires
        r.w >= 0,
        r.h >= 0,
        r.x <= x <= r.x + r.w,
        r.y <= y <= r.y + r.h,
    ensures
        spec_rect_contains(r, x, y),
        spec_rect_contains(r, r.x as int, y),
        spec_rect_contains(r, r.x + r.w, y),
        spec_rect_contains(r, x, r.y as int),
        spec_rect_contains(r, x, r.y + r.h),
{
}

/// Intersection is symmetric in its two rectangles.
pub proof fn lemma_intersects_symmetric(a: Rectangle, b: Rectangle)
    ensures
        spec_rect_intersects(a, b) == spec_rect_intersects(b, a),
{
}

} // verus!
