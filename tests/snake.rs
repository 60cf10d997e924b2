use snake_core::geometry::{Direction, Point};
use snake_core::snake::Snake;

#[test]
fn new_snake_lies_behind_its_head() {
    let snake = Snake::new(Point::new(5, 5), 3, Direction::Right);
    assert_eq!(
        snake.get_body_points().clone(),
        vec![Point::new(5, 5), Point::new(4, 5), Point::new(3, 5)]
    );
    assert_eq!(snake.get_direction(), Direction::Right);
    assert!(!snake.is_growing());
}

#[test]
fn slither_keeps_length() {
    let mut snake = Snake::new(Point::new(5, 5), 3, Direction::Up);
    snake.slither();
    assert_eq!(
        snake.get_body_points().clone(),
        vec![Point::new(5, 4), Point::new(5, 5), Point::new(5, 6)]
    );
}

#[test]
fn grow_then_slither_extends_by_one() {
    let mut snake = Snake::new(Point::new(5, 5), 3, Direction::Down);
    snake.grow();
    assert!(snake.is_growing());
    snake.slither();
    assert_eq!(snake.len(), 4);
    assert!(!snake.is_growing());
    assert_eq!(snake.get_head_point(), Point::new(5, 6));
    assert_eq!(snake.get_body_points()[3], Point::new(5, 3));
    snake.slither();
    assert_eq!(snake.len(), 4);
}

#[test]
fn set_direction_steers_the_next_move() {
    let mut snake = Snake::new(Point::new(5, 5), 3, Direction::Right);
    snake.set_direction(Direction::Down);
    snake.slither();
    assert_eq!(snake.get_head_point(), Point::new(5, 6));
}

#[test]
fn contains_point_scans_the_body() {
    let snake = Snake::new(Point::new(5, 5), 3, Direction::Left);
    assert!(snake.contains_point(&Point::new(7, 5)));
    assert!(snake.contains_point(&Point::new(5, 5)));
    assert!(!snake.contains_point(&Point::new(8, 5)));
    assert!(!snake.contains_point(&Point::new(5, 6)));
}
