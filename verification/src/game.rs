use vstd::prelude::*;

use crate::direction::{next_direction, Direction};
use crate::food::Food;
use crate::grid::{in_grid, Cell};
use crate::snake::Snake;

verus! {

/// The whole game state: one snake and one piece of food.
pub struct Game {
    pub snake: Snake,
    pub food: Food,
}

impl Game {
    /// Well-formed: the snake is well-formed and the food lies on the field.
    pub open spec fn wf(self) -> bool {
        &&& self.snake.wf()
        &&& in_grid(self.food.cell())
    }

    /// Whether the pre-move head sits on the food.
    pub open spec fn eats(self) -> bool {
        self.snake.head() == self.food.cell()
    }

    /// The snake as it steps this tick: growing if food lay under the head.
    pub open spec fn ticked_snake(self) -> Snake {
        Snake {
            body: self.snake.body,
            direction: self.snake.direction,
            growing: self.snake.growing || self.eats(),
        }
    }

    /// A fresh game: the starting snake, and food on a cell off its body.
    pub fn new() -> (g: Game)
        ensures
            g.snake.body@ == Snake::initial_body(),
            g.snake.direction == Direction::Right,
            !g.snake.growing,
            !g.snake.body@.contains(g.food.cell()),
            g.wf(),
    {
        let snake = Snake::new();
        proof {
            let free = Cell { x: 5, y: 5 };
            assert(in_grid(free) && !snake.body@.contains(free));
        }
        let food = Food::new_random(&snake.body);
        Game { snake, food }
    }

    /// One fixed-rate tick. First, food under the pre-move head is eaten:
    /// the snake is marked to grow and the food is replaced over the
    /// not-yet-advanced body. Then the snake steps; on self-collision the
    /// snake and the food are both replaced wholesale, the only recovery.
    pub fn update(&mut self)
        requires
            old(self).wf(),
        ensures
            final(self).wf(),
            !old(self).snake.hits_self() ==> {
                &&& final(self).snake.body@ == old(self).ticked_snake().stepped_body()
                &&& final(self).snake.direction == old(self).snake.direction
                &&& !final(self).snake.growing
            },
            !old(self).snake.hits_self() && !old(self).eats() ==> final(self).food == old(
                self,
            ).food,
            !old(self).snake.hits_self() && old(self).eats() ==> in_grid(final(self).food.cell())
                && ((exists|c: Cell| in_grid(c) && !old(self).snake.body@.contains(c))
                ==> !old(self).snake.body@.contains(final(self).food.cell())),
            old(self).snake.hits_self() ==> {
                &&& final(self).snake.body@ == Snake::initial_body()
                &&& final(self).snake.direction == Direction::Right
                &&& !final(self).snake.growing
                &&& !final(self).snake.body@.contains(final(self).food.cell())
            },
    {
        let head = self.snake.body[0];
        if head.x == self.food.x && head.y == self.food.y {
            self.snake.grow();
            self.food = Food::new_random(&self.snake.body);
        }
        if !self.snake.update() {
            self.snake = Snake::new();
            proof {
                let free = Cell { x: 5, y: 5 };
                assert(in_grid(free) && !self.snake.body@.contains(free));
            }
            self.food = Food::new_random(&self.snake.body);
        }
    }

    /// Apply a directional key press: the request is honoured unless it is
    /// the exact opposite of the current direction, which is ignored.
    pub fn pressed(&mut self, requested: Direction)
        ensures
            final(self).snake.direction == (if requested == old(
                self,
            ).snake.direction.opposite() {
                old(self).snake.direction
            } else {
                requested
            }),
            final(self).snake.body == old(self).snake.body,
            final(self).snake.growing == old(self).snake.growing,
            final(self).food == old(self).food,
    {
        self.snake.direction = next_direction(self.snake.direction, requested);
    }
}

} // verus!
