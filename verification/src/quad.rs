//! Axis-aligned rectangles ("quads") with center position and size, and the
//! open intersection test the collision step uses.

use vstd::prelude::*;
use crate::vec2::Vec2;
use crate::vec2::iabs;

verus! {

/// Largest coordinate magnitude `interects` accepts; keeps its sums inside
/// `i64`.
pub const QUAD_COORD_MAX: i64 = 1_000_000_000;

/// An axis-aligned rectangle: `pos` is its center, `size` its full width and
/// height, all in fixed-point steps.
#[derive(Clone, Copy, PartialEq, Eq, Structural, Debug)]
pub struct Quad {
    pub pos: Vec2,
    pub size: Vec2,
}

/// Open intersection of two axis-aligned boxes given by center and size:
/// the centers are strictly closer than the sum of the half-extents on both
/// axes, so boxes that merely touch do not intersect.
pub open spec fn intersect_int(
    ax: int, ay: int, aw: int, ah: int,
    bx: int, by: int, bw: int, bh: int,
) -> bool {
    &&& iabs(ax - bx) < aw / 2 + bw / 2
    &&& iabs(ay - by) < ah / 2 + bh / 2
}

/// Open intersection of two quads.
pub open spec fn quads_intersect(a: Quad, b: Quad) -> bool {
    intersect_int(
        a.pos.x as int, a.pos.y as int, a.size.x as int, a.size.y as int,
        b.pos.x as int, b.pos.y as int, b.size.x as int, b.size.y as int,
    )
}

impl Quad {
    /// The quad with the given center and size.
    pub fn new(pos: Vec2, size: Vec2) -> (q: Quad)
        ensures
            q.pos == pos,
            q.size == size,
    {
        Quad { pos, size }
    }

    /// Whether this quad and `b` overlap on both axes (open comparison:
    /// touching edges do not count).
    pub fn interects(&self, b: &Quad) -> (r: bool)
        requires
            iabs(self.pos.x as int) <= QUAD_COORD_MAX as int,
            iabs(self.pos.y as int) <= QUAD_COORD_MAX as int,
            iabs(b.pos.x as int) <= QUAD_COORD_MAX as int,
            iabs(b.pos.y as int) <= QUAD_COORD_MAX as int,
            0 <= self.size.x as int <= QUAD_COORD_MAX as int,
            0 <= self.size.y as int <= QUAD_COORD_MAX as int,
            0 <= b.size.x as int <= QUAD_COORD_MAX as int,
            0 <= b.size.y as int <= QUAD_COORD_MAX as int,
        ensures
            r == quads_intersect(*self, *b),
    {
        let ddx: i64 = self.pos.x - b.pos.x;
        let ddy: i64 = self.pos.y - b.pos.y;
        let dx: i64 = if ddx < 0 { -ddx } else { ddx };
        let dy: i64 = if ddy < 0 { -ddy } else { ddy };

        let half_width: i64 = self.size.x / 2 + b.size.x / 2;
        let half_height: i64 = self.size.y / 2 + b.size.y / 2;

        dx < half_width && dy < half_height
    }
}

/// Boundary of the intersection test: two quads whose center distance on x
/// equals the sum of their half-widths do not intersect, while centers
/// strictly inside both half-extent sums do.
pub proof fn lemma_intersection_boundary(a: Quad, b: Quad)
    ensures
        iabs(a.pos.x as int - b.pos.x as int) == a.size.x as int / 2 + b.size.x as int / 2
            ==> !quads_intersect(a, b),
        (iabs(a.pos.x as int - b.pos.x as int) < a.size.x as int / 2 + b.size.x as int / 2
            && iabs(a.pos.y as int - b.pos.y as int) < a.size.y as int / 2 + b.size.y as int / 2)
            ==> quads_intersect(a, b),
{
}

} // verus!
