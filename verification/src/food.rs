use vstd::prelude::*;

use std::collections::VecDeque;

use rand::Rng;

use crate::grid::{in_grid, Cell, GRID_SIZE};
use crate::snake::body_contains;

verus! {

/// Number of random draws tried before food placement falls back to a scan
/// of the field for a free cell.
pub const FOOD_DRAW_TRIES: u32 = 10000;

/// The single piece of food on the playing field.
pub struct Food {
    pub x: i32,
    pub y: i32,
}

/// Relies on rand::rng and rand::Rng::random_range: a draw over the range
/// `0..n` yields a value of that range, and the range is non-empty, so the
/// call does not panic.
#[verifier::external_body]
fn random_below(n: i32) -> (r: i32)
    requires
        n > 0,
    ensures
        0 <= r < n,
{
    rand::rng().random_range(0..n)
}

impl Food {
    /// The grid cell the food occupies.
    pub open spec fn cell(self) -> Cell {
        Cell { x: self.x, y: self.y }
    }

    /// Place food on a free cell: candidates are drawn uniformly at random
    /// and rejected while they land on `occupied`; should every draw be
    /// rejected, the first free cell in row-major order is taken instead.
    /// Whenever some cell of the field is free, the food lands on a free one.
    pub fn new_random(occupied: &VecDeque<Cell>) -> (f: Food)
        ensures
            in_grid(f.cell()),
            (exists|c: Cell| in_grid(c) && !occupied@.contains(c)) ==> !occupied@.contains(
                f.cell(),
            ),
    {
        let mut tries: u32 = 0;
        while tries < FOOD_DRAW_TRIES
            invariant
                true,
            decreases FOOD_DRAW_TRIES - tries,
        {
            let x = random_below(GRID_SIZE);
            let y = random_below(GRID_SIZE);
            if !body_contains(occupied, Cell { x, y }) {
                return Food { x, y };
            }
            tries = tries + 1;
        }
        Food::first_free(occupied)
    }

    /// The first cell in row-major order that `occupied` does not hold;
    /// when every cell of the field is occupied, the origin cell.
    fn first_free(occupied: &VecDeque<Cell>) -> (f: Food)
        ensures
            in_grid(f.cell()),
            (exists|c: Cell| in_grid(c) && !occupied@.contains(c)) ==> !occupied@.contains(
                f.cell(),
            ),
    {
        let mut y: i32 = 0;
        while y < GRID_SIZE
            invariant
                0 <= y <= GRID_SIZE,
                forall|c: Cell| in_grid(c) && c.y < y ==> occupied@.contains(c),
            decreases GRID_SIZE - y,
        {
            let mut x: i32 = 0;
            while x < GRID_SIZE
                invariant
                    0 <= y < GRID_SIZE,
                    0 <= x <= GRID_SIZE,
                    forall|c: Cell| in_grid(c) && c.y < y ==> occupied@.contains(c),
                    forall|c: Cell| in_grid(c) && c.y == y && c.x < x ==> occupied@.contains(c),
                decreases GRID_SIZE - x,
            {
                if !body_contains(occupied, Cell { x, y }) {
                    return Food { x, y };
                }
                x = x + 1;
            }
            y = y + 1;
        }
        Food { x: 0, y: 0 }
    }
}

} // verus!
