use snake::game::{first_free_cell, occupies, SnakeGame, SnakeGameTickOutcome};
use snake::term::{Event, Key};
use snake::vector::Vector;

fn game_with(snake: Vec<Vector>, direction: Vector, food: Option<Vector>) -> SnakeGame {
    let mut g = SnakeGame::new(Vector::new(20, 10));
    g.snake = snake;
    g.snake_direction = direction;
    g.food_pos = food;
    g
}

#[test]
fn new_game_starts_at_origin() {
    let g = SnakeGame::new(Vector::new(20, 10));
    assert_eq!(g.snake, vec![Vector::new(0, 0)]);
    assert_eq!(g.score, 0);
    assert_eq!(g.food_pos, None);
    assert_eq!(g.size, Vector::new(20, 10));
    assert_eq!(g.snake_direction, Vector::new(0, 1));
}

#[test]
fn turn_accepted_on_free_axis() {
    let mut g = game_with(vec![Vector::new(5, 5)], Vector::new(1, 0), Some(Vector::new(0, 0)));
    let r = g.run_game_tick(&vec![Event::Key(Key::Up)]);
    assert_eq!(r, SnakeGameTickOutcome::Nothing);
    assert_eq!(g.snake_direction, Vector::new(0, -1));
    assert_eq!(g.snake, vec![Vector::new(5, 4)]);
}

#[test]
fn turn_rejected_on_busy_axis() {
    let mut g = game_with(vec![Vector::new(5, 5)], Vector::new(1, 0), Some(Vector::new(0, 0)));
    let r = g.run_game_tick(&vec![Event::Key(Key::Left)]);
    assert_eq!(r, SnakeGameTickOutcome::Nothing);
    assert_eq!(g.snake_direction, Vector::new(1, 0));
    assert_eq!(g.snake, vec![Vector::new(6, 5)]);
}

#[test]
fn turn_priority_up_before_right() {
    let mut g = game_with(vec![Vector::new(5, 5)], Vector::new(1, 0), Some(Vector::new(0, 0)));
    g.run_game_tick(&vec![Event::Key(Key::Down), Event::Key(Key::Up)]);
    assert_eq!(g.snake_direction, Vector::new(0, -1));
    let mut h = game_with(vec![Vector::new(5, 5)], Vector::new(0, 1), Some(Vector::new(0, 0)));
    h.run_game_tick(&vec![Event::Key(Key::Right), Event::Key(Key::Left)]);
    assert_eq!(h.snake_direction, Vector::new(-1, 0));
}

#[test]
fn leaving_board_is_game_over() {
    let mut g = game_with(vec![Vector::new(19, 5)], Vector::new(1, 0), Some(Vector::new(0, 0)));
    assert_eq!(g.run_game_tick(&vec![]), SnakeGameTickOutcome::GameOver);
    assert_eq!(g.snake, vec![Vector::new(19, 5)]);
    let mut top = game_with(vec![Vector::new(4, 0)], Vector::new(0, -1), Some(Vector::new(9, 9)));
    assert_eq!(top.move_snake(), SnakeGameTickOutcome::GameOver);
}

#[test]
fn biting_second_segment_is_game_over() {
    let snake = vec![Vector::new(5, 5), Vector::new(6, 5), Vector::new(6, 6), Vector::new(5, 6)];
    let mut g = game_with(snake.clone(), Vector::new(1, 0), Some(Vector::new(0, 0)));
    assert_eq!(g.move_snake(), SnakeGameTickOutcome::GameOver);
    assert_eq!(g.snake, snake);
    assert_eq!(g.score, 0);
}

#[test]
fn eating_grows_and_scores() {
    let mut g = game_with(vec![Vector::new(3, 5), Vector::new(2, 5)], Vector::new(1, 0), Some(Vector::new(4, 5)));
    assert_eq!(g.run_game_tick(&vec![]), SnakeGameTickOutcome::Nothing);
    assert_eq!(g.snake, vec![Vector::new(4, 5), Vector::new(3, 5), Vector::new(2, 5)]);
    assert_eq!(g.score, 1);
    assert_eq!(g.food_pos, None);
}

#[test]
fn moving_without_food_keeps_length() {
    let mut g = game_with(vec![Vector::new(3, 5), Vector::new(2, 5)], Vector::new(1, 0), Some(Vector::new(9, 9)));
    assert_eq!(g.move_snake(), SnakeGameTickOutcome::Nothing);
    assert_eq!(g.snake, vec![Vector::new(4, 5), Vector::new(3, 5)]);
    assert_eq!(g.score, 0);
    assert_eq!(g.food_pos, Some(Vector::new(9, 9)));
}

#[test]
fn food_never_on_snake() {
    let snake: Vec<Vector> = (0..20).map(|x| Vector::new(x, 0)).collect();
    for _ in 0..200 {
        let mut g = game_with(snake.clone(), Vector::new(0, 1), None);
        let f = g.get_food_pos().unwrap();
        assert!(!snake.contains(&f));
        assert!(0 <= f.x && f.x < 20 && 0 <= f.y && f.y < 10);
        assert_eq!(g.food_pos, Some(f));
        assert_eq!(g.get_food_pos(), Some(f));
    }
}

#[test]
fn food_on_nearly_full_board_takes_last_cell() {
    let mut g = SnakeGame::new(Vector::new(2, 2));
    g.snake = vec![Vector::new(0, 0), Vector::new(1, 0), Vector::new(1, 1)];
    assert_eq!(g.calculate_food_position(), Some(Vector::new(0, 1)));
}

#[test]
fn food_on_full_board_is_none() {
    let mut g = SnakeGame::new(Vector::new(2, 1));
    g.snake = vec![Vector::new(0, 0), Vector::new(1, 0)];
    assert_eq!(g.calculate_food_position(), None);
    assert_eq!(g.get_food_pos(), None);
    assert_eq!(g.run_game_tick(&vec![]), SnakeGameTickOutcome::GameOver);
}

#[test]
fn first_free_cell_scans_rows() {
    let snake = vec![Vector::new(0, 0), Vector::new(1, 0), Vector::new(2, 0), Vector::new(0, 1)];
    assert_eq!(first_free_cell(&snake, Vector::new(3, 3)), Some(Vector::new(1, 1)));
    assert_eq!(first_free_cell(&snake, Vector::new(0, 3)), None);
}

#[test]
fn occupies_checks_every_segment() {
    let snake = vec![Vector::new(1, 1), Vector::new(1, 2)];
    assert!(occupies(&snake, Vector::new(1, 2)));
    assert!(!occupies(&snake, Vector::new(2, 1)));
}
