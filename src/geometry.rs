//! Integer rectangles and the inclusive overlap test used for snap zones.
use vstd::prelude::*;

verus! {

/// Rectangle in physical pixels: origin `(x, y)` and extent `w` by `h`.
#[derive(Clone, Copy, Debug, PartialEq, Eq, Structural)]
pub struct RectI {
    pub x: i32,
    pub y: i32,
    pub w: i32,
    pub h: i32,
}

impl RectI {
    pub open spec fn right_spec(self) -> int {
        self.x + self.w
    }

    pub open spec fn bottom_spec(self) -> int {
        self.y + self.h
    }

    /// Right edge, `x + w`.
    pub fn right(&self) -> (r: i64)
        ensures
            r == self.right_spec(),
    {
        self.x as i64 + self.w as i64
    }

    /// Bottom edge, `y + h`.
    pub fn bottom(&self) -> (r: i64)
        ensures
            r == self.bottom_spec(),
    {
        self.y as i64 + self.h as i64
    }
}

/// Axis-aligned bounding-box test with inclusive edges: rectangles that
/// only touch along an edge or at a corner count as overlapping.
pub open spec fn overlap_spec(a: RectI, b: RectI) -> bool {
    &&& a.right_spec() >= b.x
    &&& a.x <= b.right_spec()
    &&& a.bottom_spec() >= b.y
    &&& a.y <= b.bottom_spec()
}

/// Whether `a` lies in (or touches) the zone covered by `b`.
pub fn overlaps(a: &RectI, b: &RectI) -> (r: bool)
    ensures
        r == overlap_spec(*a, *b),
{
    a.right() >= b.x as i64 && a.x as i64 <= b.right() && a.bottom() >= b.y as i64 && a.y as i64
        <= b.bottom()
}

/// Two rectangles of non-negative extent that share a vertical edge
/// (`a.right == b.left`) along some stretch overlap: the test is inclusive.
pub proof fn lemma_touching_edge_overlaps(a: RectI, b: RectI)
    requires
        a.w >= 0,
        b.w >= 0,
        a.right_spec() == b.x,
        a.y <= b.bottom_spec(),
        b.y <= a.bottom_spec(),
    ensures
        overlap_spec(a, b),
        overlap_spec(b, a),
{
}

/// Edges of a rectangle, as reported to the front end.
#[derive(Clone, Copy, Debug, PartialEq, Eq, Structural)]
pub struct Edges {
    pub left: i64,
    pub right: i64,
    pub top: i64,
    pub bottom: i64,
}

pub open spec fn edges_spec(r: RectI) -> Edges {
    Edges {
        left: r.x as i64,
        right: r.right_spec() as i64,
        top: r.y as i64,
        bottom: r.bottom_spec() as i64,
    }
}

/// The four edges of `r`.
pub fn edges_of(r: &RectI) -> (e: Edges)
    ensures
        e == edges_spec(*r),
        e.left == r.x,
        e.right == r.right_spec(),
        e.top == r.y,
        e.bottom == r.bottom_spec(),
{
    Edges { left: r.x as i64, right: r.right(), top: r.y as i64, bottom: r.bottom() }
}

/// Division by two rounding toward zero, as integer division does.
pub open spec fn half_toward_zero(d: int) -> int {
    if d >= 0 {
        d / 2
    } else {
        -((-d) / 2)
    }
}

pub fn half(d: i64) -> (r: i64)
    ensures
        r == half_toward_zero(d as int),
{
    d / 2
}

} // verus!
