//! The rule of the game, stated over a board as a sequence of rows.

use crate::board::{in_bounds, with_cell};
use crate::cell::CellState;
use vstd::prelude::*;

verus! {

/// Every row of `cells` is as long as the first.
pub open spec fn rectangular(cells: Seq<Seq<CellState>>) -> bool {
    forall|r: int| 0 <= r < cells.len() ==> (#[trigger] cells[r]).len() == cells[0].len()
}

/// Whether `(row, col)` names a live cell of `cells`. A place off the board,
/// with a negative index or one past an edge, holds no live cell.
pub open spec fn alive_at(cells: Seq<Seq<CellState>>, row: int, col: int) -> bool {
    in_bounds(cells, row, col) && cells[row][col] == CellState::Alive
}

/// One for a live cell at `(row, col)`, zero otherwise.
pub open spec fn live(cells: Seq<Seq<CellState>>, row: int, col: int) -> nat {
    if alive_at(cells, row, col) {
        1
    } else {
        0
    }
}

/// How many of the eight places round `(row, col)` hold a live cell.
pub open spec fn live_neighbours(cells: Seq<Seq<CellState>>, row: int, col: int) -> nat {
    live(cells, row - 1, col - 1) + live(cells, row - 1, col) + live(cells, row - 1, col + 1)
        + live(cells, row, col - 1) + live(cells, row, col + 1)
        + live(cells, row + 1, col - 1) + live(cells, row + 1, col) + live(cells, row + 1, col + 1)
}

/// The state that a cell takes in the next generation, given its state now and
/// the number of its live neighbours: a live cell lives on with two or three of
/// them, a dead cell comes alive with exactly three.
pub open spec fn next_state(current: CellState, neighbours: nat) -> CellState {
    match current {
        CellState::Alive => if neighbours == 2 || neighbours == 3 {
            CellState::Alive
        } else {
            CellState::Dead
        },
        CellState::Dead => if neighbours == 3 {
            CellState::Alive
        } else {
            CellState::Dead
        },
    }
}

/// The state of the cell at `(row, col)` one generation after `cells`.
pub open spec fn next_cell(cells: Seq<Seq<CellState>>, row: int, col: int) -> CellState {
    next_state(cells[row][col], live_neighbours(cells, row, col))
}

/// The generation after `cells`: every cell judged by its neighbours in `cells`.
pub open spec fn next_generation(cells: Seq<Seq<CellState>>) -> Seq<Seq<CellState>> {
    Seq::new(cells.len(), |r: int| Seq::new(cells[r].len(), |c: int| next_cell(cells, r, c)))
}

/// No cell of `cells` is alive.
pub open spec fn all_dead(cells: Seq<Seq<CellState>>) -> bool {
    forall|r: int, c: int| in_bounds(cells, r, c) ==> (#[trigger] cells[r][c]) == CellState::Dead
}

/// `cells` with the cell at `(row, col)` turned over; unchanged where the board
/// has no such cell.
pub open spec fn toggled_at(cells: Seq<Seq<CellState>>, row: int, col: int) -> Seq<Seq<CellState>> {
    if in_bounds(cells, row, col) {
        with_cell(cells, row, col, cells[row][col].toggled())
    } else {
        cells
    }
}

/// Whether `(r, c)` comes before `(row, col)` when the board is read row by row.
pub open spec fn before(r: int, c: int, row: int, col: int) -> bool {
    r < row || (r == row && c < col)
}

/// How many live cells the first `k` places of the block of three by three round
/// `(row, col)` hold, read row by row and leaving out the middle.
pub open spec fn live_among_first(cells: Seq<Seq<CellState>>, row: int, col: int, k: nat) -> nat
    decreases k,
{
    if k == 0 {
        0
    } else {
        let j = k - 1;
        live_among_first(cells, row, col, j as nat) + if j == 4 {
            0
        } else {
            live(cells, row + j / 3 - 1, col + j % 3 - 1)
        }
    }
}

/// Reading all nine places of the block counts exactly the eight neighbours.
pub proof fn lemma_live_among_all(cells: Seq<Seq<CellState>>, row: int, col: int)
    ensures
        live_among_first(cells, row, col, 9) == live_neighbours(cells, row, col),
{
    reveal_with_fuel(live_among_first, 10);
}

} // verus!
