use buoyant::primitives::geometry::{NoShape, PathDrawProvider, PathEl, Shape, ShapePathIter};
use buoyant::primitives::{CoordinateSpaceTransform, LinearTransform, Point, Rectangle, Size};

#[test]
fn path_iter_yields_elements_in_order() {
    let a = PathEl::MoveTo(Point::new(1, 2));
    let b = PathEl::LineTo(Point::new(3, 4));
    let c = PathEl::ClosePath;
    let mut iter = ShapePathIter::new([a, b, c]);
    assert_eq!(iter.next(), Some(a));
    assert_eq!(iter.next(), Some(b));
    assert_eq!(iter.next(), Some(c));
    assert_eq!(iter.next(), None);
    assert_eq!(iter.next(), None);
}

#[test]
fn empty_path_iter_yields_nothing() {
    let mut iter = ShapePathIter::<0>::new([]);
    assert_eq!(iter.next(), None);
}

#[test]
fn no_shape_is_empty() {
    let shape = NoShape;
    assert!(shape.path_elements(1).is_empty());
    assert_eq!(
        shape.bounding_box(),
        Rectangle::new(Point::new(0, 0), Size::new(0, 0))
    );
    assert_eq!(shape.as_rect(), None);
    let transform = LinearTransform { offset: Point::new(5, 5) };
    assert_eq!(shape.applying(&transform), NoShape);
    assert_eq!(shape.applying_inverse(&transform), NoShape);
}

#[test]
fn no_shape_draws_no_lines() {
    let transform = LinearTransform { offset: Point::new(5, -5) };
    assert_eq!(PathDrawProvider::line_segments(&NoShape, &transform), Some(vec![]));
}

#[test]
fn lines_follow_the_path_at_the_offset() {
    let path = vec![
        PathEl::MoveTo(Point::new(0, 0)),
        PathEl::LineTo(Point::new(10, 0)),
        PathEl::QuadTo(Point::new(99, 99), Point::new(10, 10)),
        PathEl::CurveTo(Point::new(50, 50), Point::new(60, 60), Point::new(0, 10)),
        PathEl::ClosePath,
    ];
    let lines = PathDrawProvider::path_lines(&path, Point::new(1, 2));
    assert_eq!(
        lines,
        vec![
            (Point::new(1, 2), Point::new(11, 2)),
            (Point::new(11, 2), Point::new(11, 12)),
            (Point::new(11, 12), Point::new(1, 12)),
            (Point::new(1, 12), Point::new(1, 2)),
        ]
    );
}

#[test]
fn nothing_is_drawn_before_the_first_move() {
    let path = vec![
        PathEl::LineTo(Point::new(10, 0)),
        PathEl::ClosePath,
        PathEl::CurveTo(Point::new(1, 1), Point::new(2, 2), Point::new(3, 3)),
    ];
    assert!(PathDrawProvider::path_lines(&path, Point::zero()).is_empty());
}

#[test]
fn move_starts_a_new_subpath() {
    let path = vec![
        PathEl::MoveTo(Point::new(0, 0)),
        PathEl::LineTo(Point::new(5, 0)),
        PathEl::MoveTo(Point::new(20, 20)),
        PathEl::LineTo(Point::new(20, 25)),
    ];
    let lines = PathDrawProvider::path_lines(&path, Point::zero());
    assert_eq!(
        lines,
        vec![
            (Point::new(0, 0), Point::new(5, 0)),
            (Point::new(20, 20), Point::new(20, 25)),
        ]
    );
}

#[test]
fn negative_offsets_move_lines_back() {
    let path = vec![PathEl::MoveTo(Point::new(3, 3)), PathEl::LineTo(Point::new(4, 5))];
    let lines = PathDrawProvider::path_lines(&path, Point::new(-3, -3));
    assert_eq!(lines, vec![(Point::new(0, 0), Point::new(1, 2))]);
}

#[test]
fn offsets_out_of_range_are_reported() {
    let path = vec![PathEl::MoveTo(Point::new(i32::MAX, 0)), PathEl::LineTo(Point::new(0, 0))];
    assert!(!PathDrawProvider::path_fits(&path, Point::new(1, 0)));
    assert!(PathDrawProvider::path_fits(&path, Point::new(0, 0)));
    // A point that is never drawn is never moved.
    let undrawn = vec![PathEl::LineTo(Point::new(i32::MAX, 0))];
    assert!(PathDrawProvider::path_fits(&undrawn, Point::new(1, 0)));
}

#[test]
fn close_path_returns_to_the_subpath_start() {
    let a = Point::new(0, 0);
    let b = Point::new(4, 0);
    let c = Point::new(4, 3);
    let path = vec![PathEl::MoveTo(a), PathEl::LineTo(b), PathEl::LineTo(c), PathEl::ClosePath];
    let lines = PathDrawProvider::path_lines(&path, Point::zero());
    assert_eq!(lines, vec![(a, b), (b, c), (c, a)]);
}

#[test]
fn drawing_after_close_starts_at_the_subpath_start() {
    let path = vec![
        PathEl::MoveTo(Point::new(1, 1)),
        PathEl::LineTo(Point::new(5, 1)),
        PathEl::ClosePath,
        PathEl::LineTo(Point::new(1, 9)),
    ];
    let lines = PathDrawProvider::path_lines(&path, Point::zero());
    assert_eq!(lines[2], (Point::new(1, 1), Point::new(1, 9)));
}
