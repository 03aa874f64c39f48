use tg::{IndexType, Point, Rect, Segment};

#[test]
fn point_new_and_builders() {
    let p = Point::new(1.5f64, -2.0);
    assert_eq!(p.x, 1.5);
    assert_eq!(p.y, -2.0);
    let q = p.with_x(7.0);
    assert_eq!((q.x, q.y), (7.0, -2.0));
    let r = p.with_y(3.25);
    assert_eq!((r.x, r.y), (1.5, 3.25));
    // the original is left as it was
    assert_eq!((p.x, p.y), (1.5, -2.0));
}

#[test]
fn point_default_is_origin() {
    let p: Point<f64> = Point::default();
    assert_eq!((p.x, p.y), (0.0, 0.0));
}

#[test]
fn rect_corners() {
    let min = Point::new(0.0f64, 1.0);
    let max = Point::new(14.0f64, 22.5);
    let mut r = Rect::new(min, max);
    assert_eq!(r.min(), min);
    assert_eq!(r.max(), max);

    r.set_min(Point::new(-1.0, -1.0));
    assert_eq!(r.min(), Point::new(-1.0, -1.0));
    assert_eq!(r.max(), max);
    r.set_max(Point::new(2.0, 3.0));
    assert_eq!(r.min(), Point::new(-1.0, -1.0));
    assert_eq!(r.max(), Point::new(2.0, 3.0));

    let s = Rect::new(min, max).with_min(Point::new(5.0, 5.0));
    assert_eq!(s.min(), Point::new(5.0, 5.0));
    assert_eq!(s.max(), max);
    let t = Rect::new(min, max).with_max(Point::new(9.0, 8.0));
    assert_eq!(t.min(), min);
    assert_eq!(t.max(), Point::new(9.0, 8.0));
}

#[test]
fn rect_with_both_corners_equals_new() {
    let r = Rect::new(Point::new(1.0f64, 1.0), Point::new(2.0, 2.0));
    let m = Point::new(-3.0, 4.0);
    let n = Point::new(6.0, 7.0);
    assert_eq!(r.with_min(m).with_max(n), Rect::new(m, n));
    assert_eq!(r.with_max(n).with_min(m), Rect::new(m, n));
}

#[test]
fn rect_default_is_degenerate_at_origin() {
    let r: Rect<f64> = Rect::default();
    assert_eq!(r.min(), Point::new(0.0, 0.0));
    assert_eq!(r.max(), Point::new(0.0, 0.0));
}

#[test]
fn segment_vertices() {
    let a = Point::new(-1.0f64, -1.0);
    let b = Point::new(2.0f64, -1.0);
    let mut s = Segment::new(a, b);
    assert_eq!(s.a(), a);
    assert_eq!(s.b(), b);

    s.set_a(Point::new(0.0, 0.0));
    assert_eq!(s.a(), Point::new(0.0, 0.0));
    assert_eq!(s.b(), b);
    s.set_b(Point::new(1.0, 0.0));
    assert_eq!(s.a(), Point::new(0.0, 0.0));
    assert_eq!(s.b(), Point::new(1.0, 0.0));

    let t = Segment::new(a, b).with_a(Point::new(5.0, 6.0));
    assert_eq!((t.a(), t.b()), (Point::new(5.0, 6.0), b));
    let u = Segment::new(a, b).with_b(Point::new(5.0, 6.0));
    assert_eq!((u.a(), u.b()), (a, Point::new(5.0, 6.0)));
}

#[test]
fn segment_reversed_is_not_equal() {
    let a = Point::new(0.0f64, 0.0);
    let b = Point::new(1.0f64, 1.0);
    assert_ne!(Segment::new(a, b), Segment::new(b, a));
    assert_eq!(Segment::new(a, b), Segment::new(a, b));
}

#[test]
fn index_type_default() {
    assert_eq!(IndexType::default(), IndexType::Default);
    assert_ne!(IndexType::default(), IndexType::NoIndex);
    assert_ne!(IndexType::Natural, IndexType::YStripes);
}
