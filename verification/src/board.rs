//! The board's storage: a `grid::Grid` of cell states, reached through a small
//! set of trusted wrappers.

use crate::cell::CellState;
use grid::Grid;
use vstd::prelude::*;

verus! {

#[verifier::external_type_specification]
#[verifier::external_body]
#[verifier::reject_recursive_types(T)]
pub struct ExGrid<T>(grid::Grid<T>);

/// The cells that a grid holds: one inner sequence per row, top row first, each
/// row from left to right.
pub uninterp spec fn grid_cells(g: Grid<CellState>) -> Seq<Seq<CellState>>;

/// Whether `(row, col)` names a cell of `cells`.
pub open spec fn in_bounds(cells: Seq<Seq<CellState>>, row: int, col: int) -> bool {
    0 <= row < cells.len() && 0 <= col < cells[row].len()
}

/// A board of `rows` by `cols` dead cells.
pub open spec fn blank(rows: nat, cols: nat) -> Seq<Seq<CellState>> {
    Seq::new(rows, |r: int| Seq::new(cols, |c: int| CellState::Dead))
}

/// `cells` with the cell at `(row, col)` replaced by `value`.
pub open spec fn with_cell(cells: Seq<Seq<CellState>>, row: int, col: int, value: CellState) -> Seq<
    Seq<CellState>,
> {
    cells.update(row, cells[row].update(col, value))
}

/// `Grid::new`: a grid of `rows` by `cols` cells, each the default state, which
/// is dead; with no row or no column the grid is empty. The number of cells
/// must fit what a vector can hold.
#[verifier::external_body]
pub(crate) fn grid_new(rows: usize, cols: usize) -> (g: Grid<CellState>)
    requires
        rows * cols <= isize::MAX,
    ensures
        grid_cells(g) == if rows == 0 || cols == 0 {
            Seq::<Seq<CellState>>::empty()
        } else {
            blank(rows as nat, cols as nat)
        },
{
    Grid::new(rows, cols)
}

/// `Grid::rows`: the number of rows.
#[verifier::external_body]
pub(crate) fn grid_rows(g: &Grid<CellState>) -> (rows: usize)
    ensures
        rows == grid_cells(*g).len(),
{
    g.rows()
}

/// `Grid::cols`: the number of columns, which is the length of every row.
#[verifier::external_body]
pub(crate) fn grid_cols(g: &Grid<CellState>) -> (cols: usize)
    ensures
        forall|r: int| 0 <= r < grid_cells(*g).len() ==> (#[trigger] grid_cells(*g)[r]).len() == cols,
{
    g.cols()
}

/// `Grid::get`: the cell at `(row, col)`, or nothing where the grid has no such cell.
#[verifier::external_body]
pub(crate) fn grid_get(g: &Grid<CellState>, row: usize, col: usize) -> (cell: Option<CellState>)
    ensures
        cell == if in_bounds(grid_cells(*g), row as int, col as int) {
            Some(grid_cells(*g)[row as int][col as int])
        } else {
            None
        },
{
    g.get(row, col).copied()
}

/// `Grid::get_mut`: a handle on the cell at `(row, col)`, or nothing where the
/// grid has no such cell. What is written through the handle becomes that cell;
/// every other cell stays.
#[verifier::external_body]
pub(crate) fn grid_get_mut(g: &mut Grid<CellState>, row: usize, col: usize) -> (cell: Option<&mut CellState>)
    ensures
        match cell {
            Some(c) => {
                &&& in_bounds(grid_cells(*old(g)), row as int, col as int)
                &&& *c == grid_cells(*old(g))[row as int][col as int]
                &&& grid_cells(*final(g)) == with_cell(grid_cells(*old(g)), row as int, col as int, *final(c))
            },
            None => {
                &&& !in_bounds(grid_cells(*old(g)), row as int, col as int)
                &&& grid_cells(*final(g)) == grid_cells(*old(g))
            },
        },
{
    g.get_mut(row, col)
}

/// `Grid::clone`: a grid of its own with the same cells.
#[verifier::external_body]
pub(crate) fn grid_clone(g: &Grid<CellState>) -> (copy: Grid<CellState>)
    ensures
        grid_cells(copy) == grid_cells(*g),
{
    g.clone()
}

} // verus!
