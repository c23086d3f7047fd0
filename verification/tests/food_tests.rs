use std::collections::VecDeque;

use snake_game::food::Food;
use snake_game::grid::{Cell, GRID_SIZE};

#[test]
fn food_coordinates_in_bounds() {
    let food = Food::new_random(&VecDeque::new());

    assert!(food.x >= 0 && food.x < GRID_SIZE);
    assert!(food.y >= 0 && food.y < GRID_SIZE);
}

#[test]
fn food_avoids_occupied_cells() {
    // Occupy every cell of the field but one: the food must land there.
    let mut occupied: VecDeque<Cell> = VecDeque::new();
    for y in 0..GRID_SIZE {
        for x in 0..GRID_SIZE {
            if !(x == 7 && y == 3) {
                occupied.push_back(Cell { x, y });
            }
        }
    }

    let food = Food::new_random(&occupied);

    assert_eq!(food.x, 7);
    assert_eq!(food.y, 3);
}

#[test]
fn food_never_on_snake_body() {
    let occupied = VecDeque::from(vec![Cell { x: 1, y: 0 }, Cell { x: 0, y: 0 }]);
    for _ in 0..50 {
        let food = Food::new_random(&occupied);
        assert!(food.x >= 0 && food.x < GRID_SIZE);
        assert!(food.y >= 0 && food.y < GRID_SIZE);
        assert!(!occupied.contains(&Cell { x: food.x, y: food.y }));
    }
}
