//! An axis-aligned rectangle whose two corners may come in any order.

use vstd::prelude::*;

verus! {

/// A rectangular screen region, given by two diagonal corners. The corners
/// carry no ordering invariant: `(x1, y1)` and `(x2, y2)` are any two
/// opposite corners, and containment normalizes each axis on its own.
#[derive(Clone, Copy, PartialEq, Eq, Debug)]
pub struct Rect {
    pub x1: i32,
    pub y1: i32,
    pub x2: i32,
    pub y2: i32,
}

impl Rect {
    /// The lesser x bound after normalization.
    pub open spec fn low_x(self) -> int {
        if self.x1 <= self.x2 { self.x1 as int } else { self.x2 as int }
    }

    /// The greater x bound after normalization.
    pub open spec fn high_x(self) -> int {
        if self.x1 <= self.x2 { self.x2 as int } else { self.x1 as int }
    }

    /// The lesser y bound after normalization.
    pub open spec fn low_y(self) -> int {
        if self.y1 <= self.y2 { self.y1 as int } else { self.y2 as int }
    }

    /// The greater y bound after normalization.
    pub open spec fn high_y(self) -> int {
        if self.y1 <= self.y2 { self.y2 as int } else { self.y1 as int }
    }

    /// A point lies in the region iff it lies within the closed normalized
    /// bounds on both axes.
    pub open spec fn spec_contains(self, p: (i32, i32)) -> bool {
        self.low_x() <= p.0 <= self.high_x() && self.low_y() <= p.1 <= self.high_y()
    }

    /// Order-independent containment test: treats the two stored corners as
    /// arbitrary diagonal corners and checks the closed rectangle they span.
    pub fn contains(&self, p: (i32, i32)) -> (r: bool)
        ensures
            r == self.spec_contains(p),
    {
        let (x, y) = p;
        let (min_x, max_x) = if self.x1 < self.x2 { (self.x1, self.x2) } else { (self.x2, self.x1) };
        let (min_y, max_y) = if self.y1 < self.y2 { (self.y1, self.y2) } else { (self.y2, self.y1) };
        x >= min_x && x <= max_x && y >= min_y && y <= max_y
    }
}

/// Containment never depends on the order in which the two corners are
/// stored: swapping the x corners, the y corners, or both leaves every
/// containment answer unchanged.
pub proof fn lemma_contains_corner_order(r: Rect, p: (i32, i32))
    ensures
        (Rect { x1: r.x2, y1: r.y1, x2: r.x1, y2: r.y2 }).spec_contains(p) == r.spec_contains(p),
        (Rect { x1: r.x1, y1: r.y2, x2: r.x2, y2: r.y1 }).spec_contains(p) == r.spec_contains(p),
        (Rect { x1: r.x2, y1: r.y2, x2: r.x1, y2: r.y1 }).spec_contains(p) == r.spec_contains(p),
{
}

/// Containment is exactly the closed-interval test against the normalized
/// bounds: points with every coordinate within the bounds (boundary included)
/// are contained, and a point with any coordinate strictly outside is not.
pub proof fn lemma_contains_bounds(r: Rect, p: (i32, i32))
    ensures
        r.spec_contains(p) <==> (r.low_x() <= p.0 <= r.high_x() && r.low_y() <= p.1 <= r.high_y()),
        (r.low_x() < p.0 < r.high_x() && r.low_y() < p.1 < r.high_y()) ==> r.spec_contains(p),
        (p.0 < r.low_x() || p.0 > r.high_x() || p.1 < r.low_y() || p.1 > r.high_y())
            ==> !r.spec_contains(p),
{
}

} // verus!
