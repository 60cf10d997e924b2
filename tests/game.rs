use snake_core::game::{interval_for_speed, speed_after, Game, StepOutcome, MAX_SPEED};
use snake_core::geometry::{Command, Direction, Point};

const DIRECTIONS: [Direction; 4] = [Direction::Up, Direction::Right, Direction::Down, Direction::Left];

#[test]
fn interval_bounds() {
    assert_eq!(interval_for_speed(0), 700);
    assert_eq!(interval_for_speed(20), 200);
    assert_eq!(interval_for_speed(10), 450);
}

#[test]
fn interval_decreases_with_speed() {
    for s in 0..MAX_SPEED {
        assert!(interval_for_speed(s) > interval_for_speed(s + 1));
    }
}

#[test]
fn new_game_interval_is_slowest() {
    let game = Game::new(10, 10);
    assert_eq!(game.calculate_interval(), 700);
}

#[test]
fn speed_rises_every_five_points_on_ten_by_ten() {
    let mut speed: u16 = 0;
    for score in 1..=25u16 {
        speed = speed_after(speed, score, 10, 10);
        assert_eq!(speed, score / 5);
    }
    assert_eq!(speed_after(0, 4, 10, 10), 0);
    assert_eq!(speed_after(3, 20, 10, 10), 4);
}

#[test]
fn speed_stops_at_the_top() {
    assert_eq!(speed_after(MAX_SPEED, 5, 10, 10), MAX_SPEED);
    assert_eq!(speed_after(19, 1, 5, 5), 20);
}

#[test]
fn new_game_starts_straight_and_still() {
    let game = Game::new(10, 10);
    let body = game.snake().get_body_points().clone();
    assert_eq!(body.len(), 3);
    assert_eq!(body[0], Point::new(5, 5));
    let back = game.snake().get_direction().opposite();
    assert_eq!(body[1], body[0].transform(back, 1));
    assert_eq!(body[2], body[0].transform(back, 2));
    assert_eq!(game.speed(), 0);
    assert_eq!(game.score(), 0);
    assert_eq!(game.food(), None);
    assert_eq!((game.width(), game.height()), (10, 10));
}

#[test]
fn head_on_right_edge_moving_right_hits_the_wall() {
    let mut game = Game::with_direction(10, 10, Direction::Right);
    for _ in 0..4 {
        assert!(!game.has_collided_with_wall());
        assert_eq!(game.advance(), StepOutcome::Moved);
    }
    assert_eq!(game.snake().get_head_point(), Point::new(9, 5));
    assert!(game.has_collided_with_wall());
    assert_eq!(game.advance(), StepOutcome::Collided);
    assert_eq!(game.snake().get_head_point(), Point::new(9, 5));
}

#[test]
fn interior_head_has_no_wall_ahead() {
    for d in DIRECTIONS {
        let game = Game::with_direction(10, 10, d);
        assert!(!game.has_collided_with_wall());
    }
}

#[test]
fn straight_snake_moving_ahead_does_not_bite() {
    for d in DIRECTIONS {
        let game = Game::with_direction(10, 10, d);
        assert!(!game.has_bitten_itself());
    }
}

#[test]
fn first_free_cell_is_row_major() {
    let game = Game::with_direction(10, 10, Direction::Down);
    assert_eq!(game.first_free_cell(), Some(Point::new(0, 0)));
}

#[test]
fn placed_food_is_never_on_the_snake() {
    for _ in 0..50 {
        let mut game = Game::new(5, 5);
        game.place_food();
        let food = game.food().unwrap();
        assert!(food.x < 5 && food.y < 5);
        assert!(!game.snake().contains_point(&food));
    }
}

#[test]
fn set_food_refuses_taken_or_outside_cells() {
    let mut game = Game::with_direction(10, 10, Direction::Right);
    assert!(!game.set_food(Point::new(4, 5)));
    assert!(!game.set_food(Point::new(10, 0)));
    assert_eq!(game.food(), None);
    assert!(game.set_food(Point::new(0, 0)));
    assert_eq!(game.food(), Some(Point::new(0, 0)));
}

#[test]
fn reversing_turn_is_refused() {
    let mut game = Game::with_direction(10, 10, Direction::Right);
    assert!(!game.handle_command(Direction::Right, Command::Turn(Direction::Left)));
    assert_eq!(game.snake().get_direction(), Direction::Right);
    assert!(!game.handle_command(Direction::Right, Command::Turn(Direction::Right)));
    assert_eq!(game.snake().get_direction(), Direction::Right);
    assert_eq!(game.advance(), StepOutcome::Moved);
    assert_eq!(game.snake().get_head_point(), Point::new(6, 5));
}

#[test]
fn sideways_turn_is_taken() {
    let mut game = Game::with_direction(10, 10, Direction::Right);
    assert!(!game.handle_command(Direction::Right, Command::Turn(Direction::Up)));
    assert_eq!(game.snake().get_direction(), Direction::Up);
    assert!(game.handle_command(Direction::Up, Command::Quit));
    assert_eq!(game.snake().get_direction(), Direction::Up);
}

#[test]
fn eating_scores_and_grows() {
    let mut game = Game::with_direction(10, 10, Direction::Right);
    assert!(game.set_food(Point::new(6, 5)));
    assert_eq!(game.advance(), StepOutcome::Ate);
    assert_eq!(game.score(), 1);
    assert_eq!(game.speed(), 0);
    assert_eq!(game.snake().len(), 3);
    assert!(game.snake().is_growing());
    let food = game.food().unwrap();
    assert!(!game.snake().contains_point(&food));
    if food != Point::new(7, 5) {
        assert_eq!(game.advance(), StepOutcome::Moved);
        assert_eq!(game.snake().len(), 4);
        assert_eq!(game.score(), 1);
        let food = game.food().unwrap();
        assert!(!game.snake().contains_point(&food));
    }
}

#[test]
fn eating_five_raises_the_speed() {
    let mut game = Game::with_direction(10, 10, Direction::Left);
    for i in 0..5u16 {
        assert!(game.set_food(Point::new(4 - i, 5)));
        assert_eq!(game.advance(), StepOutcome::Ate);
    }
    assert_eq!(game.score(), 5);
    assert_eq!(game.speed(), 1);
    assert_eq!(game.calculate_interval(), 675);
    assert_eq!(game.snake().len(), 7);
}

#[test]
fn turning_back_onto_the_body_bites() {
    let mut game = Game::with_direction(10, 10, Direction::Right);
    for x in 6..8u16 {
        assert!(game.set_food(Point::new(x, 5)));
        assert_eq!(game.advance(), StepOutcome::Ate);
    }
    assert!(game.set_food(Point::new(0, 0)));
    for (step, turn) in [(Direction::Right, Direction::Up), (Direction::Up, Direction::Left)] {
        assert!(!game.handle_command(step, Command::Turn(turn)));
        assert_eq!(game.advance(), StepOutcome::Moved);
    }
    assert_eq!(game.snake().len(), 5);
    assert_eq!(game.snake().get_head_point(), Point::new(6, 4));
    assert!(!game.handle_command(Direction::Left, Command::Turn(Direction::Down)));
    assert!(!game.has_collided_with_wall());
    assert!(game.has_bitten_itself());
    assert_eq!(game.advance(), StepOutcome::Collided);
    assert_eq!(game.snake().get_head_point(), Point::new(6, 4));
}
