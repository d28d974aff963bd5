//! The square board and its wraparound geometry.

use vstd::prelude::*;

verus! {

/// Number of cells along each side of the board.
pub const GRID_SIZE: u32 = 20;

/// A cell of the board, by column (`x`, growing rightwards) and row
/// (`y`, growing downwards).
#[derive(Clone, Copy, Debug, PartialEq, Eq, Structural)]
pub struct Cell {
    pub x: u32,
    pub y: u32,
}

/// One of the four directions of movement.
#[derive(Clone, Copy, Debug, PartialEq, Eq, Structural)]
pub enum Direction {
    Up,
    Down,
    Left,
    Right,
}

/// The cell lies on the board.
pub open spec fn in_grid(c: Cell) -> bool {
    c.x < GRID_SIZE && c.y < GRID_SIZE
}

/// The direction that points the other way.
pub open spec fn opposite_of(d: Direction) -> Direction {
    match d {
        Direction::Up => Direction::Down,
        Direction::Down => Direction::Up,
        Direction::Left => Direction::Right,
        Direction::Right => Direction::Left,
    }
}

/// The neighbour of `c` one unit away in direction `d`; each axis wraps
/// around modulo the board size.
pub open spec fn moved(c: Cell, d: Direction) -> Cell {
    let n = GRID_SIZE as int;
    match d {
        Direction::Up => Cell { x: c.x, y: ((c.y as int + n - 1) % n) as u32 },
        Direction::Down => Cell { x: c.x, y: ((c.y as int + 1) % n) as u32 },
        Direction::Left => Cell { x: ((c.x as int + n - 1) % n) as u32, y: c.y },
        Direction::Right => Cell { x: ((c.x as int + 1) % n) as u32, y: c.y },
    }
}

impl Cell {
    /// The cell at column `x` and row `y`.
    pub fn new(x: u32, y: u32) -> (r: Cell)
        ensures
            r.x == x,
            r.y == y,
    {
        Cell { x, y }
    }

    /// The neighbouring cell in direction `d`, wrapping at the edges.
    pub fn step(self, d: Direction) -> (r: Cell)
        requires
            in_grid(self),
        ensures
            r == moved(self, d),
            in_grid(r),
    {
        match d {
            Direction::Up => {
                let y: u32 = if self.y == 0 { GRID_SIZE - 1 } else { self.y - 1 };
                Cell { x: self.x, y }
            },
            Direction::Down => {
                let y: u32 = if self.y + 1 >= GRID_SIZE { 0 } else { self.y + 1 };
                Cell { x: self.x, y }
            },
            Direction::Left => {
                let x: u32 = if self.x == 0 { GRID_SIZE - 1 } else { self.x - 1 };
                Cell { x, y: self.y }
            },
            Direction::Right => {
                let x: u32 = if self.x + 1 >= GRID_SIZE { 0 } else { self.x + 1 };
                Cell { x, y: self.y }
            },
        }
    }
}

impl Direction {
    /// The direction that points the other way.
    pub fn opposite(self) -> (r: Direction)
        ensures
            r == opposite_of(self),
    {
        match self {
            Direction::Up => Direction::Down,
            Direction::Down => Direction::Up,
            Direction::Left => Direction::Right,
            Direction::Right => Direction::Left,
        }
    }
}

} // verus!
