//! The state of a single cell.

use crate::render::{Color, DrawRect};
use vstd::prelude::*;

verus! {

/// The state of one cell of the board.
#[derive(Clone, Copy, Debug, PartialEq, Eq, Structural)]
pub enum CellState {
    /// The cell is alive.
    Alive,
    /// The cell is dead.
    Dead,
}

impl Default for CellState {
    /// A cell starts out dead.
    fn default() -> (cell: CellState)
        ensures
            cell == CellState::Dead,
    {
        CellState::Dead
    }
}

impl CellState {
    /// The opposite state.
    pub open spec fn toggled(self) -> CellState {
        match self {
            CellState::Alive => CellState::Dead,
            CellState::Dead => CellState::Alive,
        }
    }

    /// Whether the cell is alive.
    pub fn is_alive(&self) -> (alive: bool)
        ensures
            alive == (*self == CellState::Alive),
    {
        *self == CellState::Alive
    }

    /// The colour that fills a cell of this state: a warm yellow for a live cell,
    /// black for a dead one.
    pub open spec fn fill(self) -> Color {
        match self {
            CellState::Alive => (Color { r: 200, g: 200, b: 0 }),
            CellState::Dead => (Color { r: 0, g: 0, b: 0 }),
        }
    }

    /// The colour of the outline of a cell of this state: black round a live
    /// cell, dark grey round a dead one.
    pub open spec fn outline(self) -> Color {
        match self {
            CellState::Alive => (Color { r: 0, g: 0, b: 0 }),
            CellState::Dead => (Color { r: 50, g: 50, b: 50 }),
        }
    }

    /// Paints `rect` in the colours of this state and leaves its place and size alone.
    pub fn set_color(&self, rect: &mut DrawRect)
        ensures
            *final(rect) == (DrawRect { fill: self.fill(), outline: self.outline(), ..*old(rect) }),
    {
        match self {
            CellState::Alive => {
                rect.fill = Color { r: 200, g: 200, b: 0 };
                rect.outline = Color { r: 0, g: 0, b: 0 };
            },
            CellState::Dead => {
                rect.fill = Color { r: 0, g: 0, b: 0 };
                rect.outline = Color { r: 50, g: 50, b: 50 };
            },
        }
    }

    /// Turns a live cell dead and a dead cell alive.
    pub fn toggle(&mut self)
        ensures
            *final(self) == old(self).toggled(),
    {
        *self = match self {
            CellState::Alive => CellState::Dead,
            CellState::Dead => CellState::Alive,
        };
    }
}

} // verus!
