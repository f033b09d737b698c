use gjk_showcase::shape::make_square;
use gjk_showcase::simplex::Simplex;
use gjk_showcase::vec2::normal_2d;
use gjk_showcase::vec2::origin_normal_2d;
use gjk_showcase::vec2::Vec2;

#[test]
fn make_square_lists_corners_counter_clockwise() {
    let mut v = Vec::new();
    make_square(&mut v, Vec2::new(2, -3), 5);
    assert_eq!(
        v,
        vec![
            Vec2::new(2, -3),
            Vec2::new(7, -3),
            Vec2::new(7, 2),
            Vec2::new(2, 2),
        ]
    );
}

#[test]
fn make_square_replaces_previous_contents() {
    let mut v = vec![Vec2::new(9, 9)];
    make_square(&mut v, Vec2::new(0, 0), 1);
    assert_eq!(v.len(), 4);
    assert_eq!(v[0], Vec2::new(0, 0));
}

#[test]
fn vec2_arithmetic() {
    let a = Vec2::new(3, -4);
    let b = Vec2::new(-2, 5);
    assert_eq!(a.dot(b), -26);
    assert_eq!(a.sub(b), Vec2::new(5, -9));
    assert_eq!(a.neg(), Vec2::new(-3, 4));
}

#[test]
fn normal_is_quarter_turn_of_difference() {
    // normal of (v1, v2) is (v1 - v2) rotated by a quarter turn.
    let n = normal_2d(Vec2::new(3, 1), Vec2::new(1, 0));
    assert_eq!(n, Vec2::new(1, -2));
    assert_eq!(n.dot(Vec2::new(2, 1)), 0);
}

#[test]
fn origin_normal_faces_the_origin() {
    // Segment well away from the origin: the oriented normal must point
    // back toward it (non-positive dot with a segment endpoint).
    let a = Vec2::new(5, 1);
    let b = Vec2::new(5, -1);
    let n = origin_normal_2d(a, b);
    assert!(n.dot(a) <= 0);
    assert_eq!(n, Vec2::new(-2, 0));
}

#[test]
fn origin_normal_zero_dot_counts_as_positive() {
    // The origin lies on the segment's line: the tie resolves as if the dot
    // product were positive, so the normal is flipped.
    let a = Vec2::new(1, 0);
    let b = Vec2::new(-1, 0);
    let n = origin_normal_2d(a, b);
    assert_eq!(n, Vec2::new(0, 2));
}

#[test]
fn simplex_grows_newest_last() {
    let mut s = Simplex::new(Vec2::new(1, 1));
    assert_eq!(s.len(), 1);
    s.push(Vec2::new(2, 2));
    s.push(Vec2::new(3, 3));
    assert_eq!(s.len(), 3);
    assert_eq!(s.get(0), Vec2::new(1, 1));
    assert_eq!(s.get(1), Vec2::new(2, 2));
    assert_eq!(s.get(2), Vec2::new(3, 3));
}

#[test]
fn simplex_remove_oldest_keeps_two_newest() {
    let mut s = Simplex::new(Vec2::new(1, 1));
    s.push(Vec2::new(2, 2));
    s.push(Vec2::new(3, 3));
    s.remove_oldest();
    assert_eq!(s.len(), 2);
    assert_eq!(s.get(0), Vec2::new(2, 2));
    assert_eq!(s.get(1), Vec2::new(3, 3));
}

#[test]
fn simplex_remove_middle_keeps_oldest_and_newest() {
    let mut s = Simplex::new(Vec2::new(1, 1));
    s.push(Vec2::new(2, 2));
    s.push(Vec2::new(3, 3));
    s.remove_middle();
    assert_eq!(s.len(), 2);
    assert_eq!(s.get(0), Vec2::new(1, 1));
    assert_eq!(s.get(1), Vec2::new(3, 3));
}
