use gjk_showcase::gjk::intersects_2d;
use gjk_showcase::gjk::intersects_2d_traced;
use gjk_showcase::gjk::intersects_2d_with;
use gjk_showcase::gjk::GjkError;
use gjk_showcase::gjk::GjkObserver;
use gjk_showcase::gjk::GJK_MAX_ITERATIONS;
use gjk_showcase::shape::make_square;
use gjk_showcase::shape::ConvexShape2D;
use gjk_showcase::simplex::Simplex;
use gjk_showcase::vec2::Vec2;

// Coordinates are integers; the scenarios below use half-unit grid steps,
// so every shape is scaled by two (a unit square has side 2).

fn square(x: i64, y: i64, side: i64) -> Vec<Vec2> {
    let mut v = Vec::new();
    make_square(&mut v, Vec2::new(x, y), side);
    v
}

#[test]
fn separation_distant_unit_squares() {
    let a = square(0, 0, 2);
    let b = square(20, 20, 2);
    assert_eq!(intersects_2d(&a, &b), Ok(false));
}

#[test]
fn overlap_half_shifted_unit_squares() {
    let a = square(0, 0, 2);
    let b = square(1, 1, 2);
    assert_eq!(intersects_2d(&a, &b), Ok(true));
}

#[test]
fn edge_touch_counts_as_intersecting() {
    let a = square(0, 0, 2);
    let b = square(2, 0, 2);
    assert_eq!(intersects_2d(&a, &b), Ok(true));
}

#[test]
fn self_intersection_square() {
    let a = square(0, 0, 2);
    assert_eq!(intersects_2d(&a, &a), Ok(true));
}

#[test]
fn self_intersection_triangle() {
    let a = vec![Vec2::new(-3, 0), Vec2::new(3, 0), Vec2::new(0, 5)];
    assert_eq!(intersects_2d(&a, &a), Ok(true));
}

#[test]
fn symmetry_on_samples() {
    let a = square(0, 0, 2);
    let b = square(20, 20, 2);
    assert_eq!(intersects_2d(&a, &b), intersects_2d(&b, &a));
    let c = square(1, 1, 2);
    assert_eq!(intersects_2d(&a, &c), intersects_2d(&c, &a));
}

#[test]
fn swap_with_mirrored_direction_agrees() {
    // Swapping the shapes mirrors the Minkowski difference through the
    // origin, so the run with the mirrored initial direction matches
    // exactly, even where plain symmetry breaks down: with no iterations
    // allowed, these two shapes give different answers for the two orders
    // under one fixed initial direction.
    let a = vec![Vec2::new(0, 0)];
    let b = vec![Vec2::new(0, 0), Vec2::new(5, 5)];
    let d = Vec2::new(1, 1);
    let mirrored = Vec2::new(-1, -1);
    assert_eq!(intersects_2d_with(&a, &b, 0, d), Ok(true));
    assert_eq!(intersects_2d_with(&b, &a, 0, d), Ok(false));
    assert_eq!(
        intersects_2d_with(&b, &a, 0, mirrored),
        intersects_2d_with(&a, &b, 0, d)
    );
    let c = square(1, 1, 2);
    let e = square(0, 0, 2);
    assert_eq!(
        intersects_2d_with(&c, &e, GJK_MAX_ITERATIONS, mirrored),
        intersects_2d_with(&e, &c, GJK_MAX_ITERATIONS, d)
    );
}

#[test]
fn translation_invariance_on_samples() {
    let a = square(0, 0, 2);
    let b = square(3, 0, 2);
    let at = square(0 + 5, 0 - 7, 2);
    let bt = square(3 + 5, 0 - 7, 2);
    assert_eq!(intersects_2d(&a, &b), intersects_2d(&at, &bt));

    let c = square(20, 20, 2);
    let ct = square(20 + 5, 20 - 7, 2);
    assert_eq!(intersects_2d(&a, &c), intersects_2d(&at, &ct));
}

#[test]
fn tie_break_takes_first_vertex() {
    // Two vertices share the maximal dot product along (0, 1); the first in
    // iteration order must win.
    let shape = vec![Vec2::new(0, 3), Vec2::new(1, 3), Vec2::new(2, 0)];
    assert_eq!(shape.furthest_point(Vec2::new(0, 1)), Vec2::new(0, 3));
}

#[test]
fn tie_break_on_collinear_shape() {
    // Degenerate, fully collinear shape: every vertex ties along (1, -1).
    let shape = vec![Vec2::new(0, 0), Vec2::new(1, 1), Vec2::new(2, 2)];
    assert_eq!(shape.furthest_point(Vec2::new(1, -1)), Vec2::new(0, 0));
}

#[test]
fn collinear_overlapping_segments_intersect() {
    // Degenerate input: both shapes are segments on the x axis.
    let a = vec![Vec2::new(0, 0), Vec2::new(4, 0)];
    let b = vec![Vec2::new(1, 0), Vec2::new(3, 0)];
    assert_eq!(intersects_2d(&a, &b), Ok(true));
}

#[test]
fn bound_exhaustion_is_conservative_false() {
    // With no iterations allowed, even overlapping squares fall back to the
    // conservative answer; the run still terminates within the bound.
    let a = square(0, 0, 2);
    let b = square(1, 1, 2);
    assert_eq!(intersects_2d_with(&a, &b, 0, Vec2::new(1, 1)), Ok(false));
    assert_eq!(
        intersects_2d_with(&a, &b, GJK_MAX_ITERATIONS, Vec2::new(1, 1)),
        Ok(true)
    );
}

#[test]
fn first_support_at_origin_is_intersecting() {
    // The first support point lands exactly on the origin: the shapes touch
    // there, and the documented fallback reports an intersection.
    let a = vec![Vec2::new(0, 0)];
    let b = vec![Vec2::new(0, 0), Vec2::new(5, 5)];
    assert_eq!(intersects_2d(&a, &b), Ok(true));
}

#[test]
fn empty_shape_is_invalid() {
    let a: Vec<Vec2> = Vec::new();
    let b = square(0, 0, 2);
    assert_eq!(intersects_2d(&a, &b), Err(GjkError::InvalidShape));
    assert_eq!(intersects_2d(&b, &a), Err(GjkError::InvalidShape));
}

#[test]
fn zero_initial_direction_is_degenerate() {
    let a = square(0, 0, 2);
    let b = square(1, 1, 2);
    assert_eq!(
        intersects_2d_with(&a, &b, GJK_MAX_ITERATIONS, Vec2::new(0, 0)),
        Err(GjkError::DegenerateDirection)
    );
}

struct CountingObserver {
    calls: u32,
    max_simplex_len: usize,
}

impl GjkObserver for CountingObserver {
    fn on_iteration(&mut self, _iteration: u32, simplex: &Simplex, _direction: Vec2) {
        self.calls += 1;
        let n = simplex.len();
        if n > self.max_simplex_len {
            self.max_simplex_len = n;
        }
    }
}

#[test]
fn observer_sees_iterations_and_does_not_change_result() {
    let a = square(0, 0, 2);
    let b = square(1, 1, 2);
    let mut obs = CountingObserver {
        calls: 0,
        max_simplex_len: 0,
    };
    let traced = intersects_2d_traced(&a, &b, GJK_MAX_ITERATIONS, Vec2::new(1, 1), &mut obs);
    assert_eq!(traced, intersects_2d(&a, &b));
    // One call before the loop plus one per loop iteration.
    assert!(obs.calls >= 2);
    assert!(obs.calls <= GJK_MAX_ITERATIONS + 1);
    assert!(obs.max_simplex_len >= 1);
    assert!(obs.max_simplex_len <= 3);
}
