//! The GJK driver: a bounded fixed-point iteration that decides whether the
//! origin lies in the Minkowski difference of two convex shapes, and with it
//! whether the shapes overlap.
//!
//! The whole iteration is mirrored by spec-level functions over vertex
//! sequences (`spec_gjk`), and the executable driver is proved to return
//! exactly that mathematical outcome.

use vstd::prelude::*;
use crate::vec2::Vec2;
use crate::vec2::COORD_LIMIT;
use crate::vec2::DIRECTION_LIMIT;
use crate::vec2::SUPPORT_LIMIT;
use crate::vec2::all_bounded;
use crate::vec2::bounded;
use crate::vec2::normal_2d;
use crate::vec2::origin_normal_2d;
use crate::vec2::scale_by_sign;
use crate::vec2::spec_dot;
use crate::vec2::spec_neg;
use crate::vec2::spec_normal;
use crate::vec2::spec_origin_normal;
use crate::vec2::spec_scale_sign;
use crate::vec2::spec_sign;
use crate::vec2::spec_sub;
use crate::shape::ConvexShape2D;
use crate::shape::lemma_furthest_bounded;
use crate::shape::spec_furthest;
use crate::simplex::Simplex;

verus! {

/// Default cap on the number of loop iterations: a safety valve, not a
/// semantic part of the algorithm.
pub const GJK_MAX_ITERATIONS: u32 = 100;

/// The default initial search direction: the fixed diagonal.  Only the
/// orientation of a direction ever matters, so no unit scaling is needed.
pub open spec fn default_initial_direction() -> Vec2 {
    Vec2 { x: 1, y: 1 }
}

/// How a run of the bounded iteration ended.
pub enum GjkOutcome {
    /// The origin was enclosed by a simplex: the shapes overlap.
    Intersecting,
    /// A support point fell short of the origin: the shapes are disjoint.
    Separated,
    /// The iteration cap was reached without a decision.
    BoundExhausted,
}

/// Why an intersection test could not run.
#[derive(Clone, Copy, PartialEq, Eq, Structural, Debug)]
pub enum GjkError {
    /// A shape with no vertices was supplied.
    InvalidShape,
    /// The supplied initial search direction was the zero vector.
    DegenerateDirection,
}

/// The support point of the Minkowski difference of the shapes with vertex
/// sequences `va` and `vb`, in direction `d`.
pub open spec fn spec_support(va: Seq<Vec2>, vb: Seq<Vec2>, d: Vec2) -> Vec2 {
    spec_sub(spec_furthest(va, d), spec_furthest(vb, spec_neg(d)))
}

/// The edge normal of the segment from `b` to `a`, oriented away from the
/// third triangle point `c` (a zero orientation test counts as positive).
pub open spec fn spec_away_normal(a: Vec2, b: Vec2, c: Vec2) -> Vec2 {
    spec_scale_sign(
        spec_normal(a, b),
        spec_sign(spec_dot(spec_normal(a, b), spec_sub(a, c))),
    )
}

/// One run of the driver loop: `simplex` holds the points gathered so far
/// (oldest first), `dir` is the current search direction, and `fuel` is the
/// number of iterations still allowed.
pub open spec fn spec_gjk_loop(
    va: Seq<Vec2>,
    vb: Seq<Vec2>,
    simplex: Seq<Vec2>,
    dir: Vec2,
    fuel: nat,
) -> GjkOutcome
    decreases fuel,
{
    if fuel == 0 {
        GjkOutcome::BoundExhausted
    } else {
        let p = spec_support(va, vb, dir);
        if spec_dot(p, dir) < 0 {
            GjkOutcome::Separated
        } else {
            let s = simplex.push(p);
            if s.len() == 2 {
                spec_gjk_loop(va, vb, s, spec_origin_normal(s[1], s[0]), (fuel - 1) as nat)
            } else {
                let aa = s[2];
                let bb = s[1];
                let cc = s[0];
                let dir_ab = spec_away_normal(aa, bb, cc);
                let dir_ac = spec_away_normal(aa, cc, bb);
                if spec_dot(dir_ab, aa) < 0 {
                    spec_gjk_loop(va, vb, seq![bb, aa], dir_ab, (fuel - 1) as nat)
                } else if spec_dot(dir_ac, aa) < 0 {
                    spec_gjk_loop(va, vb, seq![cc, aa], dir_ac, (fuel - 1) as nat)
                } else {
                    GjkOutcome::Intersecting
                }
            }
        }
    }
}

/// The outcome of the whole algorithm on vertex sequences `va` and `vb`,
/// with the given iteration cap and initial search direction.  A first
/// support point equal to the origin means the origin lies on the boundary
/// of the Minkowski difference, so the shapes touch: that degenerate case is
/// resolved as an intersection rather than by searching along an undefined
/// direction.
pub open spec fn spec_gjk(va: Seq<Vec2>, vb: Seq<Vec2>, max_iterations: nat, d0: Vec2) -> GjkOutcome {
    let s0 = spec_support(va, vb, d0);
    if s0 == (Vec2 { x: 0, y: 0 }) {
        GjkOutcome::Intersecting
    } else {
        spec_gjk_loop(va, vb, seq![s0], spec_neg(s0), max_iterations)
    }
}

/// Whether the algorithm reports the shapes as overlapping.  A run that
/// exhausts its iteration cap counts as disjoint: a conservative fallback,
/// not a proof of separation.
pub open spec fn spec_intersects(va: Seq<Vec2>, vb: Seq<Vec2>, max_iterations: nat, d0: Vec2) -> bool {
    spec_gjk(va, vb, max_iterations, d0) == GjkOutcome::Intersecting
}

/// A read-only per-iteration hook, e.g. for visualisation.  It observes the
/// simplex and search direction but cannot influence the run: the driver's
/// contract pins the result to `spec_intersects` with or without it.
pub trait GjkObserver {
    /// Called once before the loop (iteration 0, with the initial support
    /// point as the whole simplex) and once per loop iteration.
    fn on_iteration(&mut self, iteration: u32, simplex: &Simplex, direction: Vec2)
        requires
            simplex.wf(),
    ;
}

/// An observer that ignores every notification.
pub struct NoopObserver {}

impl GjkObserver for NoopObserver {
    fn on_iteration(&mut self, _iteration: u32, _simplex: &Simplex, _direction: Vec2) {
    }
}

/// The support point of the Minkowski difference of `s1` and `s2` in the
/// given direction.
pub fn minowski_support_2d<S: ConvexShape2D, T: ConvexShape2D>(
    s1: &S,
    s2: &T,
    direction: Vec2,
) -> (r: Vec2)
    requires
        s1.vertices().len() > 0,
        s2.vertices().len() > 0,
        all_bounded(s1.vertices(), COORD_LIMIT as int),
        all_bounded(s2.vertices(), COORD_LIMIT as int),
        bounded(direction, DIRECTION_LIMIT as int),
    ensures
        r == spec_support(s1.vertices(), s2.vertices(), direction),
        bounded(r, SUPPORT_LIMIT as int),
{
    proof {
        lemma_furthest_bounded(s1.vertices(), direction, COORD_LIMIT as int);
        lemma_furthest_bounded(s2.vertices(), spec_neg(direction), COORD_LIMIT as int);
    }
    let fp1 = s1.furthest_point(direction);
    let fp2 = s2.furthest_point(direction.neg());
    fp1.sub(fp2)
}

/// Reduces a two-point simplex: aims the search at the side of the segment
/// that contains the origin.  A segment can never enclose the origin in the
/// plane, so this step never decides the test.
fn handle_simplex_1d(simplex: &Simplex, direction: &mut Vec2) -> (r: bool)
    requires
        simplex.wf(),
        simplex@.len() == 2,
        all_bounded(simplex@, SUPPORT_LIMIT as int),
    ensures
        r == false,
        *final(direction) == spec_origin_normal(simplex@[1], simplex@[0]),
        bounded(*final(direction), DIRECTION_LIMIT as int),
{
    let a = simplex.get(1);
    let b = simplex.get(0);
    *direction = origin_normal_2d(a, b);
    false
}

/// Reduces a three-point simplex `[C, B, A]` (oldest first).  Edge `AB` is
/// tested before edge `AC`; the order is part of the algorithm's observable
/// behaviour in degenerate cases.  If the origin is outside neither edge it
/// lies inside the triangle and the test is decided.
fn handle_simplex_2d(simplex: &mut Simplex, direction: &mut Vec2) -> (r: bool)
    requires
        old(simplex).wf(),
        old(simplex)@.len() == 3,
        all_bounded(old(simplex)@, SUPPORT_LIMIT as int),
    ensures
        final(simplex).wf(),
        all_bounded(final(simplex)@, SUPPORT_LIMIT as int),
        ({
            let aa = old(simplex)@[2];
            let bb = old(simplex)@[1];
            let cc = old(simplex)@[0];
            let dir_ab = spec_away_normal(aa, bb, cc);
            let dir_ac = spec_away_normal(aa, cc, bb);
            if spec_dot(dir_ab, aa) < 0 {
                &&& r == false
                &&& final(simplex)@ =~= seq![bb, aa]
                &&& *final(direction) == dir_ab
                &&& bounded(*final(direction), DIRECTION_LIMIT as int)
            } else if spec_dot(dir_ac, aa) < 0 {
                &&& r == false
                &&& final(simplex)@ =~= seq![cc, aa]
                &&& *final(direction) == dir_ac
                &&& bounded(*final(direction), DIRECTION_LIMIT as int)
            } else {
                &&& r == true
                &&& final(simplex)@ == old(simplex)@
                &&& *final(direction) == *old(direction)
            }
        }),
{
    let a = simplex.get(2);
    let b = simplex.get(1);
    let c = simplex.get(0);

    let norm_ab = normal_2d(a, b);
    let norm_ac = normal_2d(a, c);
    let dir_ab = scale_by_sign(norm_ab, norm_ab.dot(a.sub(c)));
    let dir_ac = scale_by_sign(norm_ac, norm_ac.dot(a.sub(b)));

    if dir_ab.dot(a) < 0 {
        simplex.remove_oldest();
        *direction = dir_ab;
        false
    } else if dir_ac.dot(a) < 0 {
        simplex.remove_middle();
        *direction = dir_ac;
        false
    } else {
        true
    }
}

/// Intersection test with an explicit iteration cap, initial search
/// direction, and per-iteration observer.  The observer cannot change the
/// result: it is the same `spec_intersects` value the plain test returns.
pub fn intersects_2d_traced<S: ConvexShape2D, T: ConvexShape2D, O: GjkObserver>(
    shape1: &S,
    shape2: &T,
    max_iterations: u32,
    initial_direction: Vec2,
    observer: &mut O,
) -> (r: Result<bool, GjkError>)
    requires
        all_bounded(shape1.vertices(), COORD_LIMIT as int),
        all_bounded(shape2.vertices(), COORD_LIMIT as int),
        bounded(initial_direction, DIRECTION_LIMIT as int),
    ensures
        (match r {
            Ok(b) => shape1.vertices().len() > 0 && shape2.vertices().len() > 0
                && initial_direction != (Vec2 { x: 0, y: 0 })
                && b == spec_intersects(
                    shape1.vertices(),
                    shape2.vertices(),
                    max_iterations as nat,
                    initial_direction,
                ),
            Err(e) => if shape1.vertices().len() == 0 || shape2.vertices().len() == 0 {
                e == GjkError::InvalidShape
            } else {
                initial_direction == (Vec2 { x: 0, y: 0 }) && e == GjkError::DegenerateDirection
            },
        }),
{
    let ghost va = shape1.vertices();
    let ghost vb = shape2.vertices();

    if shape1.vertex_count() == 0 || shape2.vertex_count() == 0 {
        return Err(GjkError::InvalidShape);
    }
    if initial_direction.x == 0 && initial_direction.y == 0 {
        return Err(GjkError::DegenerateDirection);
    }

    let mut direction = initial_direction;
    let s0 = minowski_support_2d(shape1, shape2, direction);
    let mut simplex = Simplex::new(s0);
    observer.on_iteration(0, &simplex, direction);

    if s0.x == 0 && s0.y == 0 {
        proof {
            assert(s0 == (Vec2 { x: 0, y: 0 }));
        }
        return Ok(true);
    }
    direction = s0.neg();

    let ghost target = spec_gjk_loop(va, vb, seq![s0], spec_neg(s0), max_iterations as nat);
    proof {
        assert(spec_gjk(va, vb, max_iterations as nat, initial_direction) == target);
    }

    let mut i: u32 = 0;
    while i < max_iterations
        invariant
            i <= max_iterations,
            simplex.wf(),
            1 <= simplex@.len() <= 2,
            all_bounded(simplex@, SUPPORT_LIMIT as int),
            bounded(direction, DIRECTION_LIMIT as int),
            va == shape1.vertices(),
            vb == shape2.vertices(),
            va.len() > 0,
            vb.len() > 0,
            initial_direction != (Vec2 { x: 0, y: 0 }),
            all_bounded(va, COORD_LIMIT as int),
            all_bounded(vb, COORD_LIMIT as int),
            spec_gjk(va, vb, max_iterations as nat, initial_direction) == target,
            spec_gjk_loop(va, vb, simplex@, direction, (max_iterations - i) as nat) == target,
        decreases max_iterations - i,
    {
        let ghost fuel = (max_iterations - i) as nat;
        let point = minowski_support_2d(shape1, shape2, direction);
        observer.on_iteration(i + 1, &simplex, direction);
        if point.dot(direction) < 0 {
            proof {
                assert(spec_gjk_loop(va, vb, simplex@, direction, fuel) == GjkOutcome::Separated);
            }
            return Ok(false);
        }
        let ghost pre_push = simplex@;
        simplex.push(point);
        let decided = if simplex.len() == 2 {
            handle_simplex_1d(&simplex, &mut direction)
        } else {
            proof {
                assert(pre_push.push(point) =~= simplex@);
            }
            handle_simplex_2d(&mut simplex, &mut direction)
        };
        if decided {
            proof {
                assert(spec_gjk_loop(va, vb, pre_push, direction, fuel) == GjkOutcome::Intersecting);
            }
            return Ok(true);
        }
        i = i + 1;
    }
    proof {
        assert(spec_gjk_loop(va, vb, simplex@, direction, 0nat) == GjkOutcome::BoundExhausted);
    }
    Ok(false)
}

/// Intersection test with an explicit iteration cap and initial search
/// direction.
pub fn intersects_2d_with<S: ConvexShape2D, T: ConvexShape2D>(
    shape1: &S,
    shape2: &T,
    max_iterations: u32,
    initial_direction: Vec2,
) -> (r: Result<bool, GjkError>)
    requires
        all_bounded(shape1.vertices(), COORD_LIMIT as int),
        all_bounded(shape2.vertices(), COORD_LIMIT as int),
        bounded(initial_direction, DIRECTION_LIMIT as int),
    ensures
        (match r {
            Ok(b) => shape1.vertices().len() > 0 && shape2.vertices().len() > 0
                && initial_direction != (Vec2 { x: 0, y: 0 })
                && b == spec_intersects(
                    shape1.vertices(),
                    shape2.vertices(),
                    max_iterations as nat,
                    initial_direction,
                ),
            Err(e) => if shape1.vertices().len() == 0 || shape2.vertices().len() == 0 {
                e == GjkError::InvalidShape
            } else {
                initial_direction == (Vec2 { x: 0, y: 0 }) && e == GjkError::DegenerateDirection
            },
        }),
{
    let mut observer = NoopObserver {};
    intersects_2d_traced(shape1, shape2, max_iterations, initial_direction, &mut observer)
}

/// Whether the two convex shapes overlap (boundaries included), with the
/// default iteration cap and initial direction.  `Err(InvalidShape)` is
/// returned exactly when one of the shapes has no vertices.
pub fn intersects_2d<S: ConvexShape2D, T: ConvexShape2D>(
    shape1: &S,
    shape2: &T,
) -> (r: Result<bool, GjkError>)
    requires
        all_bounded(shape1.vertices(), COORD_LIMIT as int),
        all_bounded(shape2.vertices(), COORD_LIMIT as int),
    ensures
        (match r {
            Ok(b) => shape1.vertices().len() > 0 && shape2.vertices().len() > 0
                && b == spec_intersects(
                    shape1.vertices(),
                    shape2.vertices(),
                    GJK_MAX_ITERATIONS as nat,
                    default_initial_direction(),
                ),
            Err(e) => (shape1.vertices().len() == 0 || shape2.vertices().len() == 0)
                && e == GjkError::InvalidShape,
        }),
{
    intersects_2d_with(shape1, shape2, GJK_MAX_ITERATIONS, Vec2::new(1, 1))
}

} // verus!
