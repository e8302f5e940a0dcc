use diagrammer::geometry::{Point, Rect};

#[test]
fn rect_from_size_reports_its_arguments() {
    let r = Rect::from_size(3, -7, 20, 5);
    assert_eq!(r.left(), 3);
    assert_eq!(r.top(), -7);
    assert_eq!(r.width(), 20);
    assert_eq!(r.height(), 5);
    assert_eq!(r.right(), 23);
    assert_eq!(r.bottom(), -2);
}

#[test]
fn rect_from_size_negative_extent() {
    let r = Rect::from_size(10, 10, -4, -6);
    assert_eq!(r.bottom_right, Point::new(6, 4));
    assert_eq!(r.width(), -4);
    assert_eq!(r.height(), -6);
}

#[test]
fn rect_new_keeps_corners() {
    let r = Rect::new(Point::new(1, 2), Point::new(5, 9));
    assert_eq!(r.top_left, Point { x: 1, y: 2 });
    assert_eq!(r.width(), 4);
    assert_eq!(r.height(), 7);
    assert_eq!(Rect::default(), Rect::new(Point::default(), Point::new(0, 0)));
}
