use snake_core::apple::Apple;
use snake_core::board::Board;
use snake_core::engine::{
    check_self_collision, occupied_by_snake, random_apple_position, step, TickOutcome,
};
use snake_core::position::Position;
use snake_core::snake::{Direction, Snake};

fn pos(x: i8, y: i8) -> Position {
    Position::new(x, y)
}

fn snake_with(board: &Board, body: Vec<Position>, len: u8, direction: Direction) -> Snake {
    Snake {
        body,
        len,
        direction,
        stage: *board,
        stomach: Vec::new(),
    }
}

#[test]
fn board_bounds_are_closed_open() {
    let board = Board::new(80, 20);
    assert!(board.contains(pos(0, 0)));
    assert!(board.contains(pos(79, 19)));
    assert!(!board.contains(pos(-1, 0)));
    assert!(!board.contains(pos(0, -1)));
    assert!(!board.contains(pos(80, 0)));
    assert!(!board.contains(pos(0, 20)));
}

#[test]
fn only_alive_segments_are_occupied() {
    let board = Board::new(80, 20);
    let snake = snake_with(
        &board,
        vec![pos(1, 1), pos(2, 2), pos(3, 3)],
        2,
        Direction::Up,
    );
    assert!(!occupied_by_snake(&snake, pos(1, 1)));
    assert!(occupied_by_snake(&snake, pos(2, 2)));
    assert!(occupied_by_snake(&snake, pos(3, 3)));
    assert!(!occupied_by_snake(&snake, pos(4, 4)));
}

#[test]
fn self_collision_exactly_when_head_meets_another_alive_segment() {
    let board = Board::new(80, 20);
    let collided = snake_with(
        &board,
        vec![pos(0, 0), pos(0, 1), pos(0, 0)],
        3,
        Direction::Up,
    );
    assert!(check_self_collision(&collided));
    // The same history with a shorter alive window: the duplicate is
    // dead, so no collision.
    let safe = snake_with(
        &board,
        vec![pos(0, 0), pos(0, 1), pos(0, 0)],
        2,
        Direction::Up,
    );
    assert!(!check_self_collision(&safe));
    let fresh = Snake::new(&board);
    assert!(!check_self_collision(&fresh));
}

#[test]
fn single_free_cell_is_the_spawn_position() {
    let board = Board::new(1, 2);
    let snake = snake_with(&board, vec![pos(0, 0)], 1, Direction::Up);
    assert_eq!(random_apple_position(&snake, &board), Some(pos(0, 1)));
}

#[test]
fn full_board_yields_no_spawn_position() {
    let board = Board::new(1, 1);
    let snake = snake_with(&board, vec![pos(0, 0)], 1, Direction::Up);
    assert_eq!(random_apple_position(&snake, &board), None);
}

#[test]
fn spawned_apple_avoids_alive_segments() {
    let board = Board::new(4, 4);
    let snake = snake_with(
        &board,
        vec![pos(0, 0), pos(0, 1), pos(0, 2), pos(0, 3)],
        3,
        Direction::Up,
    );
    for _ in 0..50 {
        let p = random_apple_position(&snake, &board).unwrap();
        assert!(board.contains(p));
        assert!(!occupied_by_snake(&snake, p));
    }
}

#[test]
fn tick_without_input_advances_and_continues() {
    let board = Board::new(80, 20);
    let mut snake = Snake::new(&board);
    let mut apple = Apple::new(pos(0, 0));
    let r = step(&board, &mut snake, &mut apple, None);
    assert_eq!(r, TickOutcome::Continue);
    assert_eq!(snake.head(), pos(5, 6));
    assert_eq!(snake.body.len(), 4);
    assert_eq!(snake.len, 3);
    assert_eq!(apple.position, pos(0, 0));
}

#[test]
fn quit_key_ends_the_game_untouched() {
    let board = Board::new(80, 20);
    let mut snake = Snake::new(&board);
    let mut apple = Apple::new(pos(0, 0));
    let r = step(&board, &mut snake, &mut apple, Some('q'));
    assert_eq!(r, TickOutcome::UserQuit);
    assert_eq!(snake.body, vec![pos(5, 3), pos(5, 4), pos(5, 5)]);
    assert_eq!(snake.len, 3);
    assert_eq!(apple.position, pos(0, 0));
}

#[test]
fn eating_an_apple_queues_growth_and_respawns() {
    let board = Board::new(80, 20);
    let mut snake = Snake::new(&board);
    let mut apple = Apple::new(pos(5, 6));
    let r = step(&board, &mut snake, &mut apple, None);
    assert_eq!(r, TickOutcome::Continue);
    assert_eq!(snake.head(), pos(5, 6));
    assert_eq!(snake.stomach, vec![pos(5, 6)]);
    assert_eq!(snake.len, 3);
    assert!(board.contains(apple.position));
    assert!(!occupied_by_snake(&snake, apple.position));
}

#[test]
fn direction_key_turns_the_snake_within_a_tick() {
    let board = Board::new(80, 20);
    let mut snake = Snake::new(&board);
    let mut apple = Apple::new(pos(0, 0));
    let r = step(&board, &mut snake, &mut apple, Some('d'));
    assert_eq!(r, TickOutcome::Continue);
    assert_eq!(snake.direction, Direction::Right);
    assert_eq!(snake.head(), pos(6, 5));
}

#[test]
fn head_into_own_body_is_a_self_collision() {
    let board = Board::new(1, 1);
    let mut snake = snake_with(
        &board,
        vec![pos(0, 0), pos(0, 1), pos(0, 0)],
        3,
        Direction::Up,
    );
    let mut apple = Apple::new(pos(0, 0));
    let r = step(&board, &mut snake, &mut apple, None);
    assert_eq!(r, TickOutcome::SelfCollision);
}

#[test]
fn head_leaving_the_board_is_out_of_bounds() {
    let board = Board::new(80, 20);
    let mut snake = snake_with(&board, vec![pos(5, 19)], 1, Direction::Up);
    let mut apple = Apple::new(pos(0, 0));
    let r = step(&board, &mut snake, &mut apple, None);
    assert_eq!(r, TickOutcome::OutOfBounds);
    assert_eq!(snake.head(), pos(5, 20));
}

#[test]
fn negative_coordinate_is_out_of_bounds() {
    let board = Board::new(80, 20);
    let mut snake = snake_with(&board, vec![pos(0, 5)], 1, Direction::Left);
    let mut apple = Apple::new(pos(3, 3));
    let r = step(&board, &mut snake, &mut apple, None);
    assert_eq!(r, TickOutcome::OutOfBounds);
    assert_eq!(snake.head(), pos(-1, 5));
}

#[test]
fn eating_the_last_free_cell_fills_the_board() {
    let board = Board::new(1, 1);
    let mut snake = snake_with(&board, vec![pos(0, -1)], 1, Direction::Up);
    let mut apple = Apple::new(pos(0, 0));
    let r = step(&board, &mut snake, &mut apple, None);
    assert_eq!(r, TickOutcome::BoardFull);
    assert_eq!(snake.head(), pos(0, 0));
    assert_eq!(apple.position, pos(0, 0));
}

#[test]
fn collision_takes_precedence_over_bounds() {
    // The new head is both outside the board and on an alive segment;
    // self-collision is reported, as it is checked first.
    let board = Board::new(1, 1);
    let mut snake = snake_with(
        &board,
        vec![pos(9, 9), pos(0, 1), pos(0, 0)],
        3,
        Direction::Up,
    );
    let mut apple = Apple::new(pos(0, 0));
    let r = step(&board, &mut snake, &mut apple, None);
    assert_eq!(r, TickOutcome::SelfCollision);
}
