//! Facts about the rules that hold for every board state.

use vstd::prelude::*;
use crate::grid::{in_grid, moved, opposite_of, Cell, Direction, GRID_SIZE};
use crate::snake::{advanced, lengthened, overlaps_itself, steered};

verus! {

/// A tick keeps the snake's length; a tick followed by feeding in the same
/// frame makes it exactly one cell longer.
pub proof fn length_per_frame(body: Seq<Cell>, d: Direction)
    requires
        body.len() >= 1,
    ensures
        advanced(body, d).len() == body.len(),
        lengthened(advanced(body, d)).len() == body.len() + 1,
{
}

/// A doubled tail is what the next tick removes: after growing, a tick keeps
/// every old cell and puts the new head in front of them.
pub proof fn growth_then_tick_keeps_body(body: Seq<Cell>, d: Direction)
    requires
        body.len() >= 1,
    ensures
        advanced(lengthened(body), d) == seq![moved(body[0], d)] + body,
{
    assert(lengthened(body).drop_last() =~= body);
    assert(advanced(lengthened(body), d) =~= seq![moved(body[0], d)] + body);
}

/// Leaving the board at one edge enters it at the opposite edge, in the same
/// row or column.
pub proof fn wraparound(c: Cell)
    requires
        in_grid(c),
    ensures
        c.x == GRID_SIZE - 1 ==> moved(c, Direction::Right) == (Cell { x: 0, y: c.y }),
        c.x == 0 ==> moved(c, Direction::Left) == (Cell { x: (GRID_SIZE - 1) as u32, y: c.y }),
        c.y == GRID_SIZE - 1 ==> moved(c, Direction::Down) == (Cell { x: c.x, y: 0 }),
        c.y == 0 ==> moved(c, Direction::Up) == (Cell { x: c.x, y: (GRID_SIZE - 1) as u32 }),
{
}

/// A request to reverse is ignored: the snake keeps its direction.
pub proof fn reversal_rejected(d: Direction)
    ensures
        steered(d, opposite_of(d)) == d,
{
}

/// A snake whose cells are all distinct does not collide with itself.
pub proof fn distinct_cells_do_not_collide(body: Seq<Cell>)
    requires
        body.len() >= 1,
        body.no_duplicates(),
    ensures
        !overlaps_itself(body),
{
    assert forall|i: int| 1 <= i < body.len() implies #[trigger] body[i] != body[0] by {
        assert(i != 0);
    }
}

} // verus!
