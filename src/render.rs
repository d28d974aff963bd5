//! What a frame shows: one square of pixels per occupied cell.

use vstd::prelude::*;
use crate::game::Game;
use crate::grid::{Cell, GRID_SIZE};

verus! {

/// Side of one cell on screen, in pixels.
pub const TILE_SIZE: i32 = 16;

/// What occupies a drawn cell; the drawing side picks a colour for each.
#[derive(Clone, Copy, Debug, PartialEq, Eq, Structural)]
pub enum TileKind {
    Head,
    Body,
    Food,
}

/// A square to draw: its top-left corner in pixels, its side, and what it
/// shows.
#[derive(Clone, Copy, Debug, PartialEq, Eq, Structural)]
pub struct Tile {
    pub x: i32,
    pub y: i32,
    pub size: i32,
    pub kind: TileKind,
}

/// The square that shows cell `c` as `kind`.
pub open spec fn tile_of(c: Cell, kind: TileKind) -> Tile {
    Tile {
        x: (c.x * TILE_SIZE) as i32,
        y: (c.y * TILE_SIZE) as i32,
        size: TILE_SIZE,
        kind,
    }
}

/// Side of the window in pixels: the board's cells at `TILE_SIZE` each.
pub fn screen_size() -> (r: i32)
    ensures
        r == GRID_SIZE * TILE_SIZE,
{
    (GRID_SIZE as i32) * TILE_SIZE
}

/// The square that shows cell `c` as `kind`.
pub fn tile_at(c: Cell, kind: TileKind) -> (r: Tile)
    requires
        crate::grid::in_grid(c),
    ensures
        r == tile_of(c, kind),
{
    Tile { x: (c.x as i32) * TILE_SIZE, y: (c.y as i32) * TILE_SIZE, size: TILE_SIZE, kind }
}

impl Game {
    /// The squares of the frame in drawing order: the snake head first, then
    /// the rest of its body, then the food.
    pub fn tiles(&self) -> (r: Vec<Tile>)
        requires
            self.wf(),
        ensures
            r@.len() == self.snake.body@.len() + 1,
            r@[0] == tile_of(self.snake.body@[0], TileKind::Head),
            forall|i: int|
                1 <= i < self.snake.body@.len() ==> r@[i] == tile_of(
                    #[trigger] self.snake.body@[i],
                    TileKind::Body,
                ),
            r@.last() == tile_of(self.food.position, TileKind::Food),
    {
        let mut r: Vec<Tile> = Vec::new();
        let mut i: usize = 0;
        while i < self.snake.body.len()
            invariant
                self.wf(),
                i <= self.snake.body@.len(),
                r@.len() == i,
                i > 0 ==> r@[0] == tile_of(self.snake.body@[0], TileKind::Head),
                forall|j: int|
                    1 <= j < i ==> r@[j] == tile_of(#[trigger] self.snake.body@[j], TileKind::Body),
            decreases self.snake.body@.len() - i,
        {
            let kind = if i == 0 { TileKind::Head } else { TileKind::Body };
            assert(crate::grid::in_grid(self.snake.body@[i as int]));
            r.push(tile_at(self.snake.body[i], kind));
            i = i + 1;
        }
        r.push(tile_at(self.food.position, TileKind::Food));
        r
    }
}

} // verus!
