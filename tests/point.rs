use chat_websockets::point::Point;

#[test]
fn point_new_and_getters() {
    let p = Point::new(1, 2);
    assert_eq!(*p.x(), 1);
    assert_eq!(*p.y(), 2);
}

#[test]
fn point_pairs() {
    let p = Point::from_pair((-3, 7));
    assert_eq!(p.into_pair(), (-3, 7));
}

#[test]
fn point_move_and_mutate() {
    let mut p = Point::new(1, 2);
    p.move_to(2, 3);
    assert_eq!((*p.x(), *p.y()), (2, 3));
    *p.x_mut() = 5;
    assert_eq!((*p.x(), *p.y()), (5, 3));
    *p.y_mut() = -1;
    assert_eq!(p.into_pair(), (5, -1));
}
