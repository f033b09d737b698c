//! Convex shapes as ordered vertex collections, and the support query that
//! the intersection algorithm is built on.

use vstd::prelude::*;
use crate::vec2::Vec2;
use crate::vec2::COORD_LIMIT;
use crate::vec2::DIRECTION_LIMIT;
use crate::vec2::all_bounded;
use crate::vec2::bounded;
use crate::vec2::spec_dot;

verus! {

/// The vertex of `vs` furthest along `d`: the first vertex, in iteration
/// order, whose dot product with `d` attains the maximum.  Later vertices
/// replace the running maximum only on a strictly greater dot product.
pub open spec fn spec_furthest(vs: Seq<Vec2>, d: Vec2) -> Vec2
    decreases vs.len(),
{
    if vs.len() <= 1 {
        vs[0]
    } else {
        let prev = spec_furthest(vs.drop_last(), d);
        if spec_dot(vs.last(), d) > spec_dot(prev, d) {
            vs.last()
        } else {
            prev
        }
    }
}

/// A convex polygon, exposed to the intersection test as a "furthest point
/// in a direction" capability over an ordered, non-empty vertex collection.
/// Convexity is the implementer's responsibility; the algorithm only relies
/// on the stated support-query contract.
pub trait ConvexShape2D {
    /// The vertices of the shape, in iteration order.
    spec fn vertices(&self) -> Seq<Vec2>;

    /// How many vertices the shape has.
    fn vertex_count(&self) -> (n: usize)
        ensures
            n == self.vertices().len(),
    ;

    /// The vertex maximising the dot product with `direction`.  On ties the
    /// first such vertex in iteration order is returned; this tie-break is a
    /// deliberate, observable policy.
    fn furthest_point(&self, direction: Vec2) -> (r: Vec2)
        requires
            self.vertices().len() > 0,
            all_bounded(self.vertices(), COORD_LIMIT as int),
            bounded(direction, DIRECTION_LIMIT as int),
        ensures
            r == spec_furthest(self.vertices(), direction),
    ;
}

/// `i` is the index of the first vertex of `vs` attaining the maximal dot
/// product with `d`: no vertex beats it, and every earlier vertex falls
/// strictly short.
pub open spec fn is_first_max(vs: Seq<Vec2>, d: Vec2, i: int) -> bool {
    &&& 0 <= i < vs.len()
    &&& forall|j: int| 0 <= j < vs.len() ==> spec_dot(#[trigger] vs[j], d) <= spec_dot(vs[i], d)
    &&& forall|j: int| 0 <= j < i ==> spec_dot(#[trigger] vs[j], d) < spec_dot(vs[i], d)
}

/// The support query is deterministic under ties: `spec_furthest` returns
/// the first vertex, in iteration order, attaining the maximal dot product
/// with the direction.
pub proof fn lemma_furthest_is_first_max(vs: Seq<Vec2>, d: Vec2)
    requires
        vs.len() > 0,
    ensures
        exists|i: int| is_first_max(vs, d, i) && vs[i] == spec_furthest(vs, d),
    decreases vs.len(),
{
    if vs.len() == 1 {
        assert(is_first_max(vs, d, 0) && vs[0] == spec_furthest(vs, d));
    } else {
        let head = vs.drop_last();
        lemma_furthest_is_first_max(head, d);
        let i = choose|i: int| is_first_max(head, d, i) && head[i] == spec_furthest(head, d);
        assert(forall|j: int| 0 <= j < head.len() ==> vs[j] == head[j]);
        let prev = spec_furthest(head, d);
        if spec_dot(vs.last(), d) > spec_dot(prev, d) {
            assert(is_first_max(vs, d, vs.len() - 1) && vs[vs.len() - 1] == spec_furthest(vs, d));
        } else {
            assert(is_first_max(vs, d, i) && vs[i] == spec_furthest(vs, d));
        }
    }
}

/// The support query returns one of the vertices, so it inherits any bound
/// that holds of all of them.
pub proof fn lemma_furthest_bounded(vs: Seq<Vec2>, d: Vec2, b: int)
    requires
        vs.len() > 0,
        all_bounded(vs, b),
    ensures
        bounded(spec_furthest(vs, d), b),
{
    lemma_furthest_is_first_max(vs, d);
    let i = choose|i: int| is_first_max(vs, d, i) && vs[i] == spec_furthest(vs, d);
    assert(bounded(vs[i], b));
}

impl ConvexShape2D for Vec<Vec2> {
    open spec fn vertices(&self) -> Seq<Vec2> {
        self@
    }

    fn vertex_count(&self) -> (n: usize) {
        self.len()
    }

    fn furthest_point(&self, direction: Vec2) -> (r: Vec2) {
        let mut max = self[0];
        let mut max_dot: i64 = max.dot(direction);

        for i in 1..self.len()
            invariant
                self@.len() > 0,
                all_bounded(self@, COORD_LIMIT as int),
                bounded(direction, DIRECTION_LIMIT as int),
                1 <= i <= self@.len(),
                max == spec_furthest(self@.take(i as int), direction),
                max_dot as int == spec_dot(max, direction),
        {
            proof {
                assert(self@.take(i + 1).drop_last() =~= self@.take(i as int));
                assert(self@.take(i + 1).last() == self@[i as int]);
            }
            let dot: i64 = self[i].dot(direction);
            if dot > max_dot {
                max = self[i];
                max_dot = dot;
            }
        }
        proof {
            assert(self@.take(self@.len() as int) =~= self@);
        }
        max
    }
}

/// The four corners of an axis-aligned square with lower corner `pos` and
/// the given side length, in counter-clockwise iteration order.
pub open spec fn spec_square(pos: Vec2, side: int) -> Seq<Vec2> {
    seq![
        pos,
        Vec2 { x: (pos.x + side) as i64, y: pos.y },
        Vec2 { x: (pos.x + side) as i64, y: (pos.y + side) as i64 },
        Vec2 { x: pos.x, y: (pos.y + side) as i64 },
    ]
}

/// Replaces the contents of `vec` with the corners of an axis-aligned
/// square at `pos`.
pub fn make_square(vec: &mut Vec<Vec2>, pos: Vec2, side: i64)
    requires
        0 <= side,
        -(COORD_LIMIT as int) <= pos.x as int,
        pos.x as int + side as int <= COORD_LIMIT as int,
        -(COORD_LIMIT as int) <= pos.y as int,
        pos.y as int + side as int <= COORD_LIMIT as int,
    ensures
        final(vec)@ =~= spec_square(pos, side as int),
        all_bounded(final(vec)@, COORD_LIMIT as int),
{
    vec.clear();
    vec.push(pos);
    vec.push(Vec2 { x: pos.x + side, y: pos.y });
    vec.push(Vec2 { x: pos.x + side, y: pos.y + side });
    vec.push(Vec2 { x: pos.x, y: pos.y + side });
}

} // verus!
