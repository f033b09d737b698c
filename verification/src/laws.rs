//! Algorithm-level laws of the intersection test, proved once and for all
//! over the spec-level model `spec_gjk`.

use vstd::prelude::*;
use crate::vec2::Vec2;
use crate::vec2::COORD_LIMIT;
use crate::vec2::DIRECTION_LIMIT;
use crate::vec2::SUPPORT_LIMIT;
use crate::vec2::all_bounded;
use crate::vec2::bounded;
use crate::vec2::spec_dot;
use crate::vec2::spec_neg;
use crate::vec2::spec_normal;
use crate::vec2::spec_origin_normal;
use crate::vec2::spec_scale_sign;
use crate::vec2::spec_sign;
use crate::vec2::spec_sub;
use crate::shape::is_first_max;
use crate::shape::lemma_furthest_bounded;
use crate::shape::lemma_furthest_is_first_max;
use crate::shape::spec_furthest;
use crate::gjk::GjkOutcome;
use crate::gjk::spec_away_normal;
use crate::gjk::spec_gjk;
use crate::gjk::spec_gjk_loop;
use crate::gjk::spec_intersects;
use crate::gjk::spec_support;

verus! {

// ---------------------------------------------------------------------------
// Dot-product algebra
// ---------------------------------------------------------------------------

/// The dot product distributes over vector differences of support points.
proof fn lemma_dot_sub_distributes(a: Vec2, b: Vec2, d: Vec2)
    requires
        bounded(a, SUPPORT_LIMIT as int),
        bounded(b, SUPPORT_LIMIT as int),
    ensures
        spec_dot(spec_sub(a, b), d) == spec_dot(a, d) - spec_dot(b, d),
{
    assert(spec_sub(a, b).x as int == a.x - b.x);
    assert(spec_sub(a, b).y as int == a.y - b.y);
    assert((a.x - b.x) * d.x + (a.y - b.y) * d.y == (a.x * d.x + a.y * d.y) - (b.x * d.x + b.y
        * d.y)) by (nonlinear_arith);
}

/// Negating both arguments leaves a dot product unchanged.
proof fn lemma_dot_neg_neg(a: Vec2, b: Vec2)
    requires
        bounded(a, DIRECTION_LIMIT as int),
        bounded(b, DIRECTION_LIMIT as int),
    ensures
        spec_dot(spec_neg(a), spec_neg(b)) == spec_dot(a, b),
{
    assert(spec_neg(a).x as int == -(a.x as int));
    assert(spec_neg(a).y as int == -(a.y as int));
    assert(spec_neg(b).x as int == -(b.x as int));
    assert(spec_neg(b).y as int == -(b.y as int));
    assert((-(a.x as int)) * (-(b.x as int)) + (-(a.y as int)) * (-(b.y as int)) == a.x * b.x
        + a.y * b.y) by (nonlinear_arith);
}

/// A support point of the Minkowski difference of coordinate-bounded shapes
/// is itself bounded.
proof fn lemma_support_bounded(va: Seq<Vec2>, vb: Seq<Vec2>, d: Vec2)
    requires
        va.len() > 0,
        vb.len() > 0,
        all_bounded(va, COORD_LIMIT as int),
        all_bounded(vb, COORD_LIMIT as int),
    ensures
        bounded(spec_support(va, vb, d), SUPPORT_LIMIT as int),
{
    lemma_furthest_bounded(va, d, COORD_LIMIT as int);
    lemma_furthest_bounded(vb, spec_neg(d), COORD_LIMIT as int);
}

// ---------------------------------------------------------------------------
// Self-intersection
// ---------------------------------------------------------------------------

/// Against itself, a shape's Minkowski-difference support point along any
/// direction never falls strictly short of the origin.
proof fn lemma_self_support_not_short(va: Seq<Vec2>, d: Vec2)
    requires
        va.len() > 0,
        all_bounded(va, COORD_LIMIT as int),
    ensures
        spec_dot(spec_support(va, va, d), d) >= 0,
{
    let f1 = spec_furthest(va, d);
    let f2 = spec_furthest(va, spec_neg(d));
    lemma_furthest_bounded(va, d, COORD_LIMIT as int);
    lemma_furthest_bounded(va, spec_neg(d), COORD_LIMIT as int);
    lemma_dot_sub_distributes(f1, f2, d);
    lemma_furthest_is_first_max(va, d);
    lemma_furthest_is_first_max(va, spec_neg(d));
    let i = choose|i: int| is_first_max(va, d, i) && va[i] == f1;
    let j = choose|j: int| is_first_max(va, spec_neg(d), j) && va[j] == f2;
    assert(spec_dot(va[j], d) <= spec_dot(va[i], d));
}

/// No amount of fuel lets the loop take the separating-axis exit when both
/// shapes are the same.
proof fn lemma_self_loop_never_separated(va: Seq<Vec2>, s: Seq<Vec2>, d: Vec2, fuel: nat)
    requires
        va.len() > 0,
        all_bounded(va, COORD_LIMIT as int),
    ensures
        spec_gjk_loop(va, va, s, d, fuel) != GjkOutcome::Separated,
    decreases fuel,
{
    if fuel > 0 {
        let p = spec_support(va, va, d);
        lemma_self_support_not_short(va, d);
        let s2 = s.push(p);
        if s2.len() == 2 {
            lemma_self_loop_never_separated(
                va,
                s2,
                spec_origin_normal(s2[1], s2[0]),
                (fuel - 1) as nat,
            );
        } else {
            let aa = s2[2];
            let bb = s2[1];
            let cc = s2[0];
            lemma_self_loop_never_separated(
                va,
                seq![bb, aa],
                spec_away_normal(aa, bb, cc),
                (fuel - 1) as nat,
            );
            lemma_self_loop_never_separated(
                va,
                seq![cc, aa],
                spec_away_normal(aa, cc, bb),
                (fuel - 1) as nat,
            );
        }
    }
}

/// Testing a shape against itself never takes the separating-axis exit: a
/// `false` answer for a self-test can only come from the iteration cap, the
/// conservative fallback, never from a claimed separation.
pub proof fn lemma_self_test_never_separated(va: Seq<Vec2>, max_iterations: nat, d0: Vec2)
    requires
        va.len() > 0,
        all_bounded(va, COORD_LIMIT as int),
    ensures
        spec_gjk(va, va, max_iterations, d0) != GjkOutcome::Separated,
{
    let s0 = spec_support(va, va, d0);
    if s0 != (Vec2 { x: 0, y: 0 }) {
        lemma_self_loop_never_separated(va, seq![s0], spec_neg(s0), max_iterations);
    }
}

// ---------------------------------------------------------------------------
// Translation invariance
// ---------------------------------------------------------------------------

/// The vector `v` shifted by `t`.
pub open spec fn spec_translate(v: Vec2, t: Vec2) -> Vec2 {
    Vec2 { x: (v.x + t.x) as i64, y: (v.y + t.y) as i64 }
}

/// Every vector of `vs` shifted by `t`.
pub open spec fn spec_translate_all(vs: Seq<Vec2>, t: Vec2) -> Seq<Vec2> {
    vs.map_values(|v: Vec2| spec_translate(v, t))
}

/// Shifting `v` by `t` stays within the coordinate type.
pub open spec fn translate_in_range(v: Vec2, t: Vec2) -> bool {
    &&& i64::MIN <= v.x + t.x <= i64::MAX
    &&& i64::MIN <= v.y + t.y <= i64::MAX
}

/// Shifting every vector of `vs` by `t` stays within the coordinate type.
pub open spec fn translate_all_in_range(vs: Seq<Vec2>, t: Vec2) -> bool {
    forall|i: int| 0 <= i < vs.len() ==> translate_in_range(#[trigger] vs[i], t)
}

/// Translating one argument of a dot product adds the translation's own dot
/// product.
proof fn lemma_dot_translate(v: Vec2, t: Vec2, d: Vec2)
    requires
        translate_in_range(v, t),
    ensures
        spec_dot(spec_translate(v, t), d) == spec_dot(v, d) + spec_dot(t, d),
{
    assert(spec_translate(v, t).x as int == v.x + t.x);
    assert(spec_translate(v, t).y as int == v.y + t.y);
    assert((v.x + t.x) * d.x + (v.y + t.y) * d.y == (v.x * d.x + v.y * d.y) + (t.x * d.x + t.y
        * d.y)) by (nonlinear_arith);
}

/// The support query commutes with translation: the furthest point of the
/// shifted shape is the shifted furthest point, tie-break included.
proof fn lemma_furthest_translate(vs: Seq<Vec2>, t: Vec2, d: Vec2)
    requires
        vs.len() > 0,
        translate_all_in_range(vs, t),
    ensures
        spec_furthest(spec_translate_all(vs, t), d) == spec_translate(spec_furthest(vs, d), t),
    decreases vs.len(),
{
    let tvs = spec_translate_all(vs, t);
    assert(tvs.len() == vs.len());
    if vs.len() == 1 {
        assert(tvs[0] == spec_translate(vs[0], t));
    } else {
        let head = vs.drop_last();
        assert(forall|i: int| 0 <= i < head.len() ==> head[i] == vs[i]);
        assert(tvs.drop_last() =~= spec_translate_all(head, t));
        lemma_furthest_translate(head, t, d);
        lemma_furthest_is_first_max(head, d);
        let i = choose|i: int| is_first_max(head, d, i) && head[i] == spec_furthest(head, d);
        lemma_dot_translate(spec_furthest(head, d), t, d);
        lemma_dot_translate(vs.last(), t, d);
        assert(tvs.last() == spec_translate(vs.last(), t));
    }
}

/// Support points of the Minkowski difference do not change when both
/// shapes are shifted by the same vector.
proof fn lemma_support_translate(va: Seq<Vec2>, vb: Seq<Vec2>, t: Vec2, d: Vec2)
    requires
        va.len() > 0,
        vb.len() > 0,
        translate_all_in_range(va, t),
        translate_all_in_range(vb, t),
    ensures
        spec_support(spec_translate_all(va, t), spec_translate_all(vb, t), d) == spec_support(
            va,
            vb,
            d,
        ),
{
    lemma_furthest_translate(va, t, d);
    lemma_furthest_translate(vb, t, spec_neg(d));
    let f1 = spec_furthest(va, d);
    let f2 = spec_furthest(vb, spec_neg(d));
    lemma_furthest_is_first_max(va, d);
    lemma_furthest_is_first_max(vb, spec_neg(d));
    let i = choose|i: int| is_first_max(va, d, i) && va[i] == f1;
    let j = choose|j: int| is_first_max(vb, spec_neg(d), j) && vb[j] == f2;
    assert(translate_in_range(va[i], t));
    assert(translate_in_range(vb[j], t));
    assert(spec_translate(f1, t).x as int == f1.x + t.x);
    assert(spec_translate(f1, t).y as int == f1.y + t.y);
    assert(spec_translate(f2, t).x as int == f2.x + t.x);
    assert(spec_translate(f2, t).y as int == f2.y + t.y);
    assert(spec_sub(spec_translate(f1, t), spec_translate(f2, t)) == spec_sub(f1, f2));
}

/// Each loop step is unchanged under a common translation of both shapes.
proof fn lemma_gjk_loop_translate(
    va: Seq<Vec2>,
    vb: Seq<Vec2>,
    t: Vec2,
    s: Seq<Vec2>,
    d: Vec2,
    fuel: nat,
)
    requires
        va.len() > 0,
        vb.len() > 0,
        translate_all_in_range(va, t),
        translate_all_in_range(vb, t),
    ensures
        spec_gjk_loop(spec_translate_all(va, t), spec_translate_all(vb, t), s, d, fuel)
            == spec_gjk_loop(va, vb, s, d, fuel),
    decreases fuel,
{
    if fuel > 0 {
        lemma_support_translate(va, vb, t, d);
        let p = spec_support(va, vb, d);
        if !(spec_dot(p, d) < 0) {
            let s2 = s.push(p);
            if s2.len() == 2 {
                lemma_gjk_loop_translate(
                    va,
                    vb,
                    t,
                    s2,
                    spec_origin_normal(s2[1], s2[0]),
                    (fuel - 1) as nat,
                );
            } else {
                let aa = s2[2];
                let bb = s2[1];
                let cc = s2[0];
                lemma_gjk_loop_translate(
                    va,
                    vb,
                    t,
                    seq![bb, aa],
                    spec_away_normal(aa, bb, cc),
                    (fuel - 1) as nat,
                );
                lemma_gjk_loop_translate(
                    va,
                    vb,
                    t,
                    seq![cc, aa],
                    spec_away_normal(aa, cc, bb),
                    (fuel - 1) as nat,
                );
            }
        }
    }
}

/// Translation invariance: shifting both shapes by the same vector changes
/// neither the run of the algorithm nor its answer.
pub proof fn lemma_translation_invariance(
    va: Seq<Vec2>,
    vb: Seq<Vec2>,
    t: Vec2,
    max_iterations: nat,
    d0: Vec2,
)
    requires
        va.len() > 0,
        vb.len() > 0,
        translate_all_in_range(va, t),
        translate_all_in_range(vb, t),
    ensures
        spec_gjk(spec_translate_all(va, t), spec_translate_all(vb, t), max_iterations, d0)
            == spec_gjk(va, vb, max_iterations, d0),
        spec_intersects(spec_translate_all(va, t), spec_translate_all(vb, t), max_iterations, d0)
            == spec_intersects(va, vb, max_iterations, d0),
{
    lemma_support_translate(va, vb, t, d0);
    let s0 = spec_support(va, vb, d0);
    if s0 != (Vec2 { x: 0, y: 0 }) {
        lemma_gjk_loop_translate(va, vb, t, seq![s0], spec_neg(s0), max_iterations);
    }
}

// ---------------------------------------------------------------------------
// Swapping the shapes
// ---------------------------------------------------------------------------

/// Every vector of `vs` negated.
pub open spec fn spec_neg_all(vs: Seq<Vec2>) -> Seq<Vec2> {
    vs.map_values(|v: Vec2| spec_neg(v))
}

/// Negation is an involution on bounded vectors.
proof fn lemma_neg_involution(v: Vec2)
    requires
        bounded(v, DIRECTION_LIMIT as int),
    ensures
        spec_neg(spec_neg(v)) == v,
{
}

/// Differences mirror through the origin with their operands.
proof fn lemma_sub_neg(a: Vec2, b: Vec2)
    requires
        bounded(a, SUPPORT_LIMIT as int),
        bounded(b, SUPPORT_LIMIT as int),
    ensures
        spec_sub(spec_neg(a), spec_neg(b)) == spec_neg(spec_sub(a, b)),
{
}

/// Edge normals mirror through the origin with their endpoints.
proof fn lemma_normal_neg(a: Vec2, b: Vec2)
    requires
        bounded(a, SUPPORT_LIMIT as int),
        bounded(b, SUPPORT_LIMIT as int),
    ensures
        spec_normal(spec_neg(a), spec_neg(b)) == spec_neg(spec_normal(a, b)),
{
}

/// Sign scaling commutes with negation.
proof fn lemma_scale_sign_neg(v: Vec2, s: int)
    requires
        bounded(v, DIRECTION_LIMIT as int),
    ensures
        spec_scale_sign(spec_neg(v), s) == spec_neg(spec_scale_sign(v, s)),
{
}

/// The origin-facing segment normal mirrors through the origin with the
/// segment.
proof fn lemma_origin_normal_neg(a: Vec2, b: Vec2)
    requires
        bounded(a, SUPPORT_LIMIT as int),
        bounded(b, SUPPORT_LIMIT as int),
    ensures
        spec_origin_normal(spec_neg(a), spec_neg(b)) == spec_neg(spec_origin_normal(a, b)),
{
    lemma_normal_neg(a, b);
    lemma_dot_neg_neg(spec_normal(a, b), a);
    lemma_scale_sign_neg(spec_normal(a, b), -spec_sign(spec_dot(spec_normal(a, b), a)));
}

/// The away-facing triangle edge normal mirrors through the origin with the
/// triangle.
proof fn lemma_away_normal_neg(a: Vec2, b: Vec2, c: Vec2)
    requires
        bounded(a, SUPPORT_LIMIT as int),
        bounded(b, SUPPORT_LIMIT as int),
        bounded(c, SUPPORT_LIMIT as int),
    ensures
        spec_away_normal(spec_neg(a), spec_neg(b), spec_neg(c)) == spec_neg(
            spec_away_normal(a, b, c),
        ),
{
    lemma_normal_neg(a, b);
    lemma_sub_neg(a, c);
    lemma_dot_neg_neg(spec_normal(a, b), spec_sub(a, c));
    lemma_scale_sign_neg(
        spec_normal(a, b),
        spec_sign(spec_dot(spec_normal(a, b), spec_sub(a, c))),
    );
}

/// Swapping the shapes and mirroring the direction mirrors the support
/// point of the Minkowski difference through the origin.
proof fn lemma_support_swap_neg(va: Seq<Vec2>, vb: Seq<Vec2>, d: Vec2)
    requires
        va.len() > 0,
        vb.len() > 0,
        all_bounded(va, COORD_LIMIT as int),
        all_bounded(vb, COORD_LIMIT as int),
        bounded(d, DIRECTION_LIMIT as int),
    ensures
        spec_support(vb, va, spec_neg(d)) == spec_neg(spec_support(va, vb, d)),
{
    lemma_neg_involution(d);
    lemma_furthest_bounded(va, d, COORD_LIMIT as int);
    lemma_furthest_bounded(vb, spec_neg(d), COORD_LIMIT as int);
    lemma_sub_neg(spec_furthest(va, d), spec_furthest(vb, spec_neg(d)));
    assert(spec_sub(spec_furthest(vb, spec_neg(d)), spec_furthest(va, d)) == spec_neg(
        spec_sub(spec_furthest(va, d), spec_furthest(vb, spec_neg(d))),
    ));
}

/// Swapping the shapes mirrors every iterate of the loop through the
/// origin, so the outcome is unchanged.
proof fn lemma_gjk_loop_swap_neg(va: Seq<Vec2>, vb: Seq<Vec2>, s: Seq<Vec2>, d: Vec2, fuel: nat)
    requires
        va.len() > 0,
        vb.len() > 0,
        all_bounded(va, COORD_LIMIT as int),
        all_bounded(vb, COORD_LIMIT as int),
        all_bounded(s, SUPPORT_LIMIT as int),
        bounded(d, DIRECTION_LIMIT as int),
        1 <= s.len() <= 2,
    ensures
        spec_gjk_loop(vb, va, spec_neg_all(s), spec_neg(d), fuel) == spec_gjk_loop(
            va,
            vb,
            s,
            d,
            fuel,
        ),
    decreases fuel,
{
    if fuel > 0 {
        let p = spec_support(va, vb, d);
        lemma_support_swap_neg(va, vb, d);
        lemma_support_bounded(va, vb, d);
        lemma_dot_neg_neg(p, d);
        if !(spec_dot(p, d) < 0) {
            let s2 = s.push(p);
            assert(all_bounded(s2, SUPPORT_LIMIT as int));
            assert(spec_neg_all(s).push(spec_neg(p)) =~= spec_neg_all(s2));
            if s2.len() == 2 {
                let d2 = spec_origin_normal(s2[1], s2[0]);
                lemma_origin_normal_neg(s2[1], s2[0]);
                assert(spec_neg_all(s2)[1] == spec_neg(s2[1]));
                assert(spec_neg_all(s2)[0] == spec_neg(s2[0]));
                lemma_gjk_loop_swap_neg(va, vb, s2, d2, (fuel - 1) as nat);
            } else if s2.len() == 3 {
                let aa = s2[2];
                let bb = s2[1];
                let cc = s2[0];
                assert(spec_neg_all(s2)[2] == spec_neg(aa));
                assert(spec_neg_all(s2)[1] == spec_neg(bb));
                assert(spec_neg_all(s2)[0] == spec_neg(cc));
                let dir_ab = spec_away_normal(aa, bb, cc);
                let dir_ac = spec_away_normal(aa, cc, bb);
                lemma_away_normal_neg(aa, bb, cc);
                lemma_away_normal_neg(aa, cc, bb);
                lemma_dot_neg_neg(dir_ab, aa);
                lemma_dot_neg_neg(dir_ac, aa);
                if spec_dot(dir_ab, aa) < 0 {
                    assert(spec_neg_all(seq![bb, aa]) =~= seq![spec_neg(bb), spec_neg(aa)]);
                    lemma_gjk_loop_swap_neg(va, vb, seq![bb, aa], dir_ab, (fuel - 1) as nat);
                } else if spec_dot(dir_ac, aa) < 0 {
                    assert(spec_neg_all(seq![cc, aa]) =~= seq![spec_neg(cc), spec_neg(aa)]);
                    lemma_gjk_loop_swap_neg(va, vb, seq![cc, aa], dir_ac, (fuel - 1) as nat);
                }
            }
        }
    }
}

/// Symmetry up to the initial direction: swapping the two shapes mirrors
/// the Minkowski difference through the origin, so running the test on the
/// swapped shapes with the mirrored initial direction gives exactly the
/// same outcome.  (With one fixed initial direction for both orders the
/// runs explore different iterates, so plain symmetry is not an identity of
/// the bounded algorithm.)
pub proof fn lemma_swap_mirror(va: Seq<Vec2>, vb: Seq<Vec2>, max_iterations: nat, d0: Vec2)
    requires
        va.len() > 0,
        vb.len() > 0,
        all_bounded(va, COORD_LIMIT as int),
        all_bounded(vb, COORD_LIMIT as int),
        bounded(d0, DIRECTION_LIMIT as int),
    ensures
        spec_gjk(vb, va, max_iterations, spec_neg(d0)) == spec_gjk(va, vb, max_iterations, d0),
        spec_intersects(vb, va, max_iterations, spec_neg(d0)) == spec_intersects(
            va,
            vb,
            max_iterations,
            d0,
        ),
{
    let s0 = spec_support(va, vb, d0);
    lemma_support_swap_neg(va, vb, d0);
    lemma_support_bounded(va, vb, d0);
    if s0 == (Vec2 { x: 0, y: 0 }) {
        assert(spec_neg(s0) == (Vec2 { x: 0, y: 0 }));
    } else {
        assert(spec_neg(s0) != (Vec2 { x: 0, y: 0 }));
        lemma_neg_involution(s0);
        assert(spec_neg_all(seq![s0]) =~= seq![spec_neg(s0)]);
        lemma_gjk_loop_swap_neg(va, vb, seq![s0], spec_neg(s0), max_iterations);
    }
}

} // verus!
