use std::collections::VecDeque;

use snake_game::direction::Direction;
use snake_game::food::Food;
use snake_game::game::Game;
use snake_game::grid::{Cell, GRID_SIZE};
use snake_game::snake::Snake;

#[test]
fn fresh_game_is_consistent() {
    let game = Game::new();

    assert_eq!(
        game.snake.body,
        VecDeque::from(vec![Cell { x: 1, y: 0 }, Cell { x: 0, y: 0 }])
    );
    assert_eq!(game.snake.direction, Direction::Right);
    assert!(!game.snake.growing);
    assert!(game.food.x >= 0 && game.food.x < GRID_SIZE);
    assert!(game.food.y >= 0 && game.food.y < GRID_SIZE);
    assert!(!game.snake.body.contains(&Cell { x: game.food.x, y: game.food.y }));
}

#[test]
fn update_tick_moves_snake_one_cell_right() {
    // Fresh snake, no food underfoot: after one tick the head has moved one
    // cell right, the length is unchanged and no growth is pending.
    let mut game = Game {
        snake: Snake::new(),
        food: Food { x: 10, y: 10 },
    };

    game.update();

    assert_eq!(*game.snake.body.front().unwrap(), Cell { x: 2, y: 0 });
    assert_eq!(game.snake.body.len(), 2);
    assert_eq!(game.snake.direction, Direction::Right);
    assert!(!game.snake.growing);
    assert_eq!(game.food.x, 10);
    assert_eq!(game.food.y, 10);
}

#[test]
fn eating_food_grows_snake_and_replaces_food() {
    let mut game = Game {
        snake: Snake::new(),
        food: Food { x: 1, y: 0 },
    };
    let pre_body = game.snake.body.clone();

    game.update();

    assert_eq!(game.snake.body.len(), 3);
    assert_eq!(*game.snake.body.front().unwrap(), Cell { x: 2, y: 0 });
    assert!(!game.snake.growing);
    let food_cell = Cell { x: game.food.x, y: game.food.y };
    assert!(game.food.x >= 0 && game.food.x < GRID_SIZE);
    assert!(game.food.y >= 0 && game.food.y < GRID_SIZE);
    assert!(!pre_body.contains(&food_cell));
}

#[test]
fn death_resets_snake_and_food() {
    let mut game = Game {
        snake: Snake {
            body: VecDeque::from(vec![
                Cell { x: 0, y: 1 },
                Cell { x: 1, y: 1 },
                Cell { x: 1, y: 0 },
                Cell { x: 0, y: 0 },
            ]),
            direction: Direction::Up,
            growing: false,
        },
        food: Food { x: 10, y: 10 },
    };

    game.update();

    assert_eq!(
        game.snake.body,
        VecDeque::from(vec![Cell { x: 1, y: 0 }, Cell { x: 0, y: 0 }])
    );
    assert_eq!(game.snake.direction, Direction::Right);
    assert!(!game.snake.growing);
    assert!(!game.snake.body.contains(&Cell { x: game.food.x, y: game.food.y }));
}

#[test]
fn pressed_ignores_opposite_direction() {
    let mut game = Game {
        snake: Snake::new(),
        food: Food { x: 10, y: 10 },
    };
    assert_eq!(game.snake.direction, Direction::Right);

    game.pressed(Direction::Left);
    assert_eq!(game.snake.direction, Direction::Right);

    game.pressed(Direction::Up);
    assert_eq!(game.snake.direction, Direction::Up);

    game.pressed(Direction::Down);
    assert_eq!(game.snake.direction, Direction::Up);
}
