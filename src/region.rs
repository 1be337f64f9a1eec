//! Screen geometry: points and the rectangle that counts as the hot corner.

use vstd::prelude::*;

verus! {

/// A position on the screen, in pixels.
#[derive(Clone, Copy, Debug, PartialEq, Eq, Structural)]
pub struct Point {
    pub x: i32,
    pub y: i32,
}

/// An axis-aligned rectangle in screen coordinates.
///
/// Containment is inclusive on the left and top edges and exclusive on the
/// right and bottom edges.
#[derive(Clone, Copy, Debug, PartialEq, Eq, Structural)]
pub struct HotRegion {
    pub left: i32,
    pub top: i32,
    pub right: i32,
    pub bottom: i32,
}

/// Left edge of the hot corner. It reaches past the screen so that a pointer
/// that the system clamps at the true corner still lands well inside.
pub const HOT_CORNER_LEFT: i32 = -200;
/// Top edge of the hot corner.
pub const HOT_CORNER_TOP: i32 = -200;
/// Right edge of the hot corner (exclusive).
pub const HOT_CORNER_RIGHT: i32 = 20;
/// Bottom edge of the hot corner (exclusive).
pub const HOT_CORNER_BOTTOM: i32 = 20;

impl HotRegion {
    /// The rectangle is non-empty in both directions.
    pub open spec fn wf(self) -> bool {
        self.left < self.right && self.top < self.bottom
    }

    /// Whether `p` lies in the rectangle.
    pub open spec fn spec_contains(self, p: Point) -> bool {
        &&& self.left <= p.x < self.right
        &&& self.top <= p.y < self.bottom
    }

    /// Builds a region from its edges; `None` unless `left < right` and
    /// `top < bottom`.
    pub fn new(left: i32, top: i32, right: i32, bottom: i32) -> (r: Option<HotRegion>)
        ensures
            r is Some <==> (left < right && top < bottom),
            r matches Some(g) ==> g.wf() && g.left == left && g.top == top && g.right == right
                && g.bottom == bottom,
    {
        if left < right && top < bottom {
            Some(HotRegion { left, top, right, bottom })
        } else {
            None
        }
    }

    /// The top-left hot corner of the primary screen.
    pub fn hot_corner() -> (r: HotRegion)
        ensures
            r.wf(),
            r.left == HOT_CORNER_LEFT,
            r.top == HOT_CORNER_TOP,
            r.right == HOT_CORNER_RIGHT,
            r.bottom == HOT_CORNER_BOTTOM,
    {
        HotRegion {
            left: HOT_CORNER_LEFT,
            top: HOT_CORNER_TOP,
            right: HOT_CORNER_RIGHT,
            bottom: HOT_CORNER_BOTTOM,
        }
    }

    /// Whether `p` lies in the rectangle: `left <= x < right` and
    /// `top <= y < bottom`.
    pub fn contains(&self, p: Point) -> (r: bool)
        ensures
            r == self.spec_contains(p),
    {
        self.left <= p.x && p.x < self.right && self.top <= p.y && p.y < self.bottom
    }
}

/// Of the four corner points of a well-formed region, only the top-left one
/// is inside: the left and top edges belong to the region, the right and
/// bottom edges do not. A point beyond any edge is outside.
pub proof fn lemma_edge_convention(g: HotRegion, p: Point)
    requires
        g.wf(),
    ensures
        g.spec_contains(Point { x: g.left, y: g.top }),
        !g.spec_contains(Point { x: g.right, y: g.top }),
        !g.spec_contains(Point { x: g.left, y: g.bottom }),
        !g.spec_contains(Point { x: g.right, y: g.bottom }),
        g.spec_contains(Point { x: (g.right - 1) as i32, y: (g.bottom - 1) as i32 }),
        (p.x < g.left || p.x >= g.right || p.y < g.top || p.y >= g.bottom)
            ==> !g.spec_contains(p),
{
}

} // verus!
