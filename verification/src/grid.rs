use vstd::prelude::*;

verus! {

/// Width and height of the square playing field, in cells.
pub const GRID_SIZE: i32 = 20;

/// Side of one cell in pixels; used only to scale drawing.
pub const CELL_SIZE: i32 = 20;

/// A single coordinate pair on the playing field.
#[derive(Clone, Copy, PartialEq, Eq, Structural, Debug)]
pub struct Cell {
    pub x: i32,
    pub y: i32,
}

/// The cell lies on the playing field.
pub open spec fn in_grid(c: Cell) -> bool {
    0 <= c.x < GRID_SIZE && 0 <= c.y < GRID_SIZE
}

/// One-step toroidal wrap: a coordinate one unit past an edge re-enters at
/// the opposite edge; coordinates already on the field are unchanged.
pub open spec fn wrap_cell(c: Cell) -> Cell {
    Cell {
        x: if c.x < 0 {
            (GRID_SIZE - 1) as i32
        } else if c.x >= GRID_SIZE {
            0
        } else {
            c.x
        },
        y: if c.y < 0 {
            (GRID_SIZE - 1) as i32
        } else if c.y >= GRID_SIZE {
            0
        } else {
            c.y
        },
    }
}

/// Wrap a candidate cell onto the playing field.
pub fn wrap(c: Cell) -> (r: Cell)
    ensures
        r == wrap_cell(c),
        in_grid(r),
{
    let x = if c.x < 0 {
        GRID_SIZE - 1
    } else if c.x >= GRID_SIZE {
        0
    } else {
        c.x
    };
    let y = if c.y < 0 {
        GRID_SIZE - 1
    } else if c.y >= GRID_SIZE {
        0
    } else {
        c.y
    };
    Cell { x, y }
}

} // verus!
