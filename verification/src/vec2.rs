//! Two-dimensional vectors over bounded integer coordinates, together with
//! the exact spec-level arithmetic the intersection algorithm is stated in.

use vstd::prelude::*;

verus! {

/// Bound on the coordinates of input polygon vertices (2^28).
///
/// Every quantity the algorithm computes is derived from at most two
/// subtractions and one sign flip, so with vertices in this range every
/// intermediate dot product stays well inside `i64`.
pub const COORD_LIMIT: i64 = 268435456;

/// Bound on the coordinates of support points: differences of two vertices
/// (2 * `COORD_LIMIT`).
pub const SUPPORT_LIMIT: i64 = 536870912;

/// Bound on the coordinates of search directions: edge normals of two
/// support points (4 * `COORD_LIMIT`).  Dot products of two vectors in this
/// range fit in `i64`.
pub const DIRECTION_LIMIT: i64 = 1073741824;

/// A point or direction in the plane, with exact integer coordinates.
#[derive(Clone, Copy, PartialEq, Eq, Structural, Debug)]
pub struct Vec2 {
    pub x: i64,
    pub y: i64,
}

/// Both coordinates of `v` lie in `[-b, b]`.
pub open spec fn bounded(v: Vec2, b: int) -> bool {
    &&& -b <= v.x as int <= b
    &&& -b <= v.y as int <= b
}

/// Every vector of `s` is bounded by `b`.
pub open spec fn all_bounded(s: Seq<Vec2>, b: int) -> bool {
    forall|i: int| 0 <= i < s.len() ==> bounded(#[trigger] s[i], b)
}

/// Mathematical dot product.
pub open spec fn spec_dot(a: Vec2, b: Vec2) -> int {
    a.x * b.x + a.y * b.y
}

/// Mathematical vector difference.
pub open spec fn spec_sub(a: Vec2, b: Vec2) -> Vec2 {
    Vec2 { x: (a.x - b.x) as i64, y: (a.y - b.y) as i64 }
}

/// Mathematical negation.
pub open spec fn spec_neg(a: Vec2) -> Vec2 {
    Vec2 { x: (-(a.x as int)) as i64, y: (-(a.y as int)) as i64 }
}

/// The sign factor used to orient normals: `-1` for negative quantities and
/// `+1` otherwise (zero counts as positive, matching the tie-break the
/// reduction rules are stated with).
pub open spec fn spec_sign(x: int) -> int {
    if x < 0 { -1int } else { 1int }
}

/// Scaling by a sign factor (`s` is `1` or `-1`).
pub open spec fn spec_scale_sign(v: Vec2, s: int) -> Vec2 {
    if s < 0 { spec_neg(v) } else { v }
}

/// The perpendicular of the segment from `v2` to `v1`: rotating `v1 - v2` by
/// a quarter turn.
pub open spec fn spec_normal(v1: Vec2, v2: Vec2) -> Vec2 {
    Vec2 { x: (v1.y - v2.y) as i64, y: (v2.x - v1.x) as i64 }
}

/// The perpendicular of the segment from `v2` to `v1`, oriented so that its
/// dot product with `v1` is not positive: it faces the side of the line that
/// contains the origin.
pub open spec fn spec_origin_normal(v1: Vec2, v2: Vec2) -> Vec2 {
    spec_scale_sign(spec_normal(v1, v2), -spec_sign(spec_dot(spec_normal(v1, v2), v1)))
}

impl Vec2 {
    /// Builds the vector with the given coordinates.
    pub fn new(x: i64, y: i64) -> (r: Vec2)
        ensures
            r == (Vec2 { x, y }),
    {
        Vec2 { x, y }
    }

    /// Exact dot product of two bounded vectors.
    pub fn dot(self, other: Vec2) -> (r: i64)
        requires
            bounded(self, DIRECTION_LIMIT as int),
            bounded(other, DIRECTION_LIMIT as int),
        ensures
            r as int == spec_dot(self, other),
    {
        proof {
            lemma_mul_bound(self.x as int, other.x as int, DIRECTION_LIMIT as int);
            lemma_mul_bound(self.y as int, other.y as int, DIRECTION_LIMIT as int);
        }
        self.x * other.x + self.y * other.y
    }

    /// Exact difference of two bounded vectors.
    pub fn sub(self, other: Vec2) -> (r: Vec2)
        requires
            bounded(self, SUPPORT_LIMIT as int),
            bounded(other, SUPPORT_LIMIT as int),
        ensures
            r == spec_sub(self, other),
            bounded(r, 2 * SUPPORT_LIMIT as int),
    {
        Vec2 { x: self.x - other.x, y: self.y - other.y }
    }

    /// Exact negation of a bounded vector.
    pub fn neg(self) -> (r: Vec2)
        requires
            bounded(self, DIRECTION_LIMIT as int),
        ensures
            r == spec_neg(self),
            bounded(r, DIRECTION_LIMIT as int),
    {
        Vec2 { x: -self.x, y: -self.y }
    }
}

/// `|x * y| <= b * b` whenever `|x| <= b` and `|y| <= b`.
proof fn lemma_mul_bound(x: int, y: int, b: int)
    requires
        0 <= b,
        -b <= x <= b,
        -b <= y <= b,
    ensures
        -(b * b) <= x * y <= b * b,
{
    assert(-(b * b) <= x * y <= b * b) by (nonlinear_arith)
        requires
            0 <= b,
            -b <= x <= b,
            -b <= y <= b,
    ;
}

/// Scales `v` by the sign of the quantity `d` (zero counts as positive).
pub fn scale_by_sign(v: Vec2, d: i64) -> (r: Vec2)
    requires
        bounded(v, DIRECTION_LIMIT as int),
    ensures
        r == spec_scale_sign(v, spec_sign(d as int)),
        bounded(r, DIRECTION_LIMIT as int),
{
    if d < 0 {
        v.neg()
    } else {
        v
    }
}

/// The perpendicular of the segment from `v2` to `v1`.
pub fn normal_2d(v1: Vec2, v2: Vec2) -> (r: Vec2)
    requires
        bounded(v1, SUPPORT_LIMIT as int),
        bounded(v2, SUPPORT_LIMIT as int),
    ensures
        r == spec_normal(v1, v2),
        bounded(r, DIRECTION_LIMIT as int),
{
    Vec2 { x: v1.y - v2.y, y: v2.x - v1.x }
}

/// The perpendicular of the segment from `v2` to `v1`, oriented toward the
/// side of the line that contains the origin.
pub fn origin_normal_2d(v1: Vec2, v2: Vec2) -> (r: Vec2)
    requires
        bounded(v1, SUPPORT_LIMIT as int),
        bounded(v2, SUPPORT_LIMIT as int),
    ensures
        r == spec_origin_normal(v1, v2),
        bounded(r, DIRECTION_LIMIT as int),
{
    let normal = normal_2d(v1, v2);
    let d: i64 = normal.dot(v1);
    if d < 0 {
        normal
    } else {
        normal.neg()
    }
}

} // verus!
