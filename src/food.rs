//! The food: one cell of the board, moved elsewhere whenever it is eaten.

use vstd::prelude::*;
use crate::grid::{in_grid, Cell};

verus! {

/// The food and where it lies.
pub struct Food {
    pub position: Cell,
}

impl Food {
    /// Food on the board.
    pub open spec fn wf(&self) -> bool {
        in_grid(self.position)
    }

    /// Food lying at `position`, a cell drawn at random by the caller.
    pub fn new(position: Cell) -> (r: Food)
        requires
            in_grid(position),
        ensures
            r.wf(),
            r.position == position,
    {
        Food { position }
    }

    /// Moves the food to `position`, a cell drawn at random by the caller.
    /// Nothing keeps it off the snake's body.
    pub fn respawn(&mut self, position: Cell)
        requires
            in_grid(position),
        ensures
            final(self).wf(),
            final(self).position == position,
    {
        self.position = position;
    }
}

} // verus!
