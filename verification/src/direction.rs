use vstd::prelude::*;

verus! {

/// The snake's facing: the axis and sense of its next step.
#[derive(Clone, Copy, PartialEq, Eq, Structural, Debug)]
pub enum Direction {
    Right,
    Left,
    Up,
    Down,
}

impl Direction {
    /// The 180-degree reverse of this direction.
    pub open spec fn opposite(self) -> Direction {
        match self {
            Direction::Right => Direction::Left,
            Direction::Left => Direction::Right,
            Direction::Up => Direction::Down,
            Direction::Down => Direction::Up,
        }
    }
}

/// The direction-change rule: a requested direction is honoured unless it is
/// the exact opposite of the current one, which is ignored so that the snake
/// cannot reverse into its own neck in a single tick.
pub fn next_direction(current: Direction, requested: Direction) -> (r: Direction)
    ensures
        r == (if requested == current.opposite() {
            current
        } else {
            requested
        }),
{
    let opp = match current {
        Direction::Right => Direction::Left,
        Direction::Left => Direction::Right,
        Direction::Up => Direction::Down,
        Direction::Down => Direction::Up,
    };
    if requested == opp {
        current
    } else {
        requested
    }
}

} // verus!
