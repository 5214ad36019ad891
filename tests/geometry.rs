use pnte::{Point, Rect, Size, Vector};

#[test]
fn point_new_and_as_vector() {
    let p = Point::new(3u32, 4u32);
    assert_eq!(p, Point { x: 3, y: 4 });
    assert_eq!(p.as_vector(), Vector { x: 3, y: 4 });
}

#[test]
fn vector_as_point_round_trip() {
    let v = Vector::new(-2i32, 9i32);
    assert_eq!(v.as_point(), Point::new(-2, 9));
    assert_eq!(v.as_point().as_vector(), v);
}

#[test]
fn tuples_convert_into_value_types() {
    let p: Point<f32> = (1.5, 2.5).into();
    assert_eq!(p, Point::new(1.5, 2.5));
    let s: Size<u32> = (640, 480).into();
    assert_eq!(s, Size::new(640, 480));
    let v: Vector<i32> = (7, -7).into();
    assert_eq!(v, Vector::new(7, -7));
    let r: Rect<u32> = (1, 2, 3, 4).into();
    assert_eq!(r, Rect::new(1, 2, 3, 4));
}

#[test]
fn rect_from_points_and_corners() {
    let r = Rect::from_points(Point::new(10u32, 20u32), Point::new(30u32, 50u32));
    assert_eq!(r, Rect { left: 10, top: 20, right: 30, bottom: 50 });
    assert_eq!(r.left_top(), Point::new(10, 20));
    assert_eq!(r.right_bottom(), Point::new(30, 50));
}

#[test]
fn rect_from_point_size_adds_extent() {
    let r = Rect::from_point_size(Point::new(10u32, 20u32), Size::new(5u32, 7u32));
    assert_eq!(r, Rect::new(10, 20, 15, 27));
    let f = Rect::from_point_size(Point::new(50.0f32, 50.0), Size::new(100.0, 100.0));
    assert_eq!(f, Rect::new(50.0, 50.0, 150.0, 150.0));
}

#[test]
fn rect_size_is_edge_difference() {
    assert_eq!(Rect::new(1u32, 2u32, 11u32, 22u32).size(), Size::new(10, 20));
    assert_eq!(Rect::new(-5i32, -5, 5, 0).size(), Size::new(10, 5));
    assert_eq!(Rect::new(4u32, 4, 4, 4).size(), Size::new(0, 0));
}

#[test]
fn rect_size_undoes_from_point_size() {
    let size = Size::new(u32::MAX - 3, 9);
    let r = Rect::from_point_size(Point::new(3u32, 0u32), size);
    assert_eq!(r.right, u32::MAX);
    assert_eq!(r.size(), size);
    assert_eq!(r.left_top(), Point::new(3, 0));
}
