use vstd::prelude::*;

use std::collections::VecDeque;

use crate::direction::Direction;
use crate::grid::{in_grid, wrap, wrap_cell, Cell, GRID_SIZE};

verus! {

/// The cell one unit away from `c` in direction `d`, before any wrap:
/// Right is x+1, Left is x-1, Up is y-1, Down is y+1.
pub open spec fn offset_cell(c: Cell, d: Direction) -> Cell
    recommends
        in_grid(c),
{
    match d {
        Direction::Right => Cell { x: (c.x + 1) as i32, y: c.y },
        Direction::Left => Cell { x: (c.x - 1) as i32, y: c.y },
        Direction::Up => Cell { x: c.x, y: (c.y - 1) as i32 },
        Direction::Down => Cell { x: c.x, y: (c.y + 1) as i32 },
    }
}

/// Whether `c` equals one of the cells of `body`.
pub fn body_contains(body: &VecDeque<Cell>, c: Cell) -> (r: bool)
    ensures
        r == body@.contains(c),
{
    let mut i: usize = 0;
    while i < body.len()
        invariant
            0 <= i <= body@.len(),
            forall|j: int| 0 <= j < i ==> body@[j] != c,
        decreases body@.len() - i,
    {
        if body[i] == c {
            return true;
        }
        i = i + 1;
    }
    false
}

/// The player-controlled chain of cells. `body` is ordered head first and
/// every cell lies on the playing field; `growing` defers one tail removal
/// to the next step.
pub struct Snake {
    pub body: VecDeque<Cell>,
    pub direction: Direction,
    pub growing: bool,
}

impl Snake {
    /// Well-formed: the body is never empty, lies on the playing field, and
    /// holds no duplicate cells while alive.
    pub open spec fn wf(self) -> bool {
        &&& self.body@.len() >= 1
        &&& forall|i: int| 0 <= i < self.body@.len() ==> in_grid(#[trigger] self.body@[i])
        &&& forall|i: int, j: int|
            0 <= i < j < self.body@.len() ==> self.body@[i] != self.body@[j]
    }

    /// The head: the first cell of the body.
    pub open spec fn head(self) -> Cell {
        self.body@[0]
    }

    /// The candidate next head: one step from the head in the current
    /// direction, before wrap-around.
    pub open spec fn candidate_head(self) -> Cell {
        offset_cell(self.head(), self.direction)
    }

    /// Self-collision: the candidate next head, after wrap-around, equals a
    /// cell already in the body. The body always stores wrapped coordinates,
    /// so the comparison is made in that same space.
    pub open spec fn hits_self(self) -> bool {
        self.body@.contains(wrap_cell(self.candidate_head()))
    }

    /// The body after one successful step: the wrapped candidate head is
    /// pushed in front; the tail is kept when growing, removed otherwise.
    pub open spec fn stepped_body(self) -> Seq<Cell> {
        let pushed = seq![wrap_cell(self.candidate_head())] + self.body@;
        if self.growing {
            pushed
        } else {
            pushed.drop_last()
        }
    }

    /// The fixed starting body: the head and one trailing cell, horizontally
    /// adjacent, at the field's origin corner.
    pub open spec fn initial_body() -> Seq<Cell> {
        seq![Cell { x: 1, y: 0 }, Cell { x: 0, y: 0 }]
    }

    /// A fresh snake: two-cell starting body, facing Right, not growing.
    /// Head and tail are orthogonal neighbours, so the first move cannot
    /// collide.
    pub fn new() -> (s: Snake)
        ensures
            s.body@ == Snake::initial_body(),
            s.direction == Direction::Right,
            !s.growing,
            !s.hits_self(),
            s.wf(),
    {
        let mut body: VecDeque<Cell> = VecDeque::new();
        body.push_back(Cell { x: 1, y: 0 });
        body.push_back(Cell { x: 0, y: 0 });
        proof {
            assert(body@ =~= Snake::initial_body());
        }
        Snake { body, direction: Direction::Right, growing: false }
    }

    /// Mark the snake to grow: the next step keeps the tail. Idempotent.
    pub fn grow(&mut self)
        ensures
            final(self).growing,
            final(self).body == old(self).body,
            final(self).direction == old(self).direction,
    {
        self.growing = true;
    }

    /// One movement step. If the wrapped candidate next head equals a body
    /// cell, nothing changes and `false` comes back: the death signal.
    /// Otherwise the wrapped candidate head is pushed in front, the tail is
    /// removed unless a grow was pending, and `true` comes back.
    pub fn update(&mut self) -> (ok: bool)
        requires
            old(self).wf(),
        ensures
            ok == !old(self).hits_self(),
            !ok ==> *final(self) == *old(self),
            ok ==> final(self).body@ == old(self).stepped_body(),
            ok ==> final(self).direction == old(self).direction,
            ok ==> !final(self).growing,
            final(self).wf(),
    {
        let head = self.body[0];
        let cand = match self.direction {
            Direction::Right => Cell { x: head.x + 1, y: head.y },
            Direction::Left => Cell { x: head.x - 1, y: head.y },
            Direction::Up => Cell { x: head.x, y: head.y - 1 },
            Direction::Down => Cell { x: head.x, y: head.y + 1 },
        };
        let new_head = wrap(cand);
        if body_contains(&self.body, new_head) {
            return false;
        }
        self.body.push_front(new_head);
        if self.growing {
            self.growing = false;
        } else {
            let _tail = self.body.pop_back();
            proof {
                assert(self.body@ =~= old(self).stepped_body());
            }
        }
        true
    }
}

/// Setting a direction and then taking one successful step moves the head by
/// exactly that direction's unit offset, wrapped at the field edge.
pub proof fn lemma_step_follows_direction(s: Snake, d: Direction)
    requires
        s.wf(),
    ensures
        ({
            let turned = Snake { body: s.body, direction: d, growing: s.growing };
            !turned.hits_self() ==> turned.stepped_body().len() >= 1
                && turned.stepped_body()[0] == wrap_cell(offset_cell(s.head(), d))
        }),
{
}

/// One successful step after a pending grow lengthens the body by exactly
/// one; without a pending grow it leaves the length unchanged.
pub proof fn lemma_step_length(s: Snake)
    requires
        s.wf(),
    ensures
        s.growing ==> s.stepped_body().len() == s.body@.len() + 1,
        !s.growing ==> s.stepped_body().len() == s.body@.len(),
{
}

/// Moving off the field edge wraps to the opposite edge on the same axis.
pub proof fn lemma_wrap_around(c: Cell)
    requires
        in_grid(c),
    ensures
        c.y == 0 ==> wrap_cell(offset_cell(c, Direction::Up)) == (Cell {
            x: c.x,
            y: (GRID_SIZE - 1) as i32,
        }),
        c.y == GRID_SIZE - 1 ==> wrap_cell(offset_cell(c, Direction::Down)) == (Cell {
            x: c.x,
            y: 0,
        }),
        c.x == 0 ==> wrap_cell(offset_cell(c, Direction::Left)) == (Cell {
            x: (GRID_SIZE - 1) as i32,
            y: c.y,
        }),
        c.x == GRID_SIZE - 1 ==> wrap_cell(offset_cell(c, Direction::Right)) == (Cell {
            x: 0,
            y: c.y,
        }),
{
}

} // verus!
