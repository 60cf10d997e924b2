use snake_core::geometry::{Direction, Point};

#[test]
fn transform_up_decreases_y() {
    assert_eq!(Point::new(5, 5).transform(Direction::Up, 1), Point::new(5, 4));
}

#[test]
fn transform_each_direction() {
    let p = Point::new(5, 5);
    assert_eq!(p.transform(Direction::Right, 1), Point::new(6, 5));
    assert_eq!(p.transform(Direction::Down, 1), Point::new(5, 6));
    assert_eq!(p.transform(Direction::Left, 1), Point::new(4, 5));
    assert_eq!(p.transform(Direction::Left, 5), Point::new(0, 5));
    assert_eq!(p.transform(Direction::Down, 3), Point::new(5, 8));
}

#[test]
fn transform_past_zero_is_a_fault() {
    assert_eq!(Point::new(5, 0).checked_transform(Direction::Up, 1), None);
    assert_eq!(Point::new(0, 3).checked_transform(Direction::Left, 1), None);
    assert_eq!(Point::new(5, 5).checked_transform(Direction::Up, 1), Some(Point::new(5, 4)));
    assert_eq!(Point::new(u16::MAX, 0).checked_transform(Direction::Right, 1), None);
}

#[test]
fn transform_value_applies_signed_offsets() {
    assert_eq!(Point::transform_value(7, -7), 0);
    assert_eq!(Point::transform_value(7, 3), 10);
}

#[test]
fn opposite_pairs() {
    assert_eq!(Direction::Right.opposite(), Direction::Left);
    assert_eq!(Direction::Up.opposite(), Direction::Down);
    for d in [Direction::Up, Direction::Right, Direction::Down, Direction::Left] {
        assert_eq!(d.opposite().opposite(), d);
        assert_ne!(d.opposite(), d);
    }
}
