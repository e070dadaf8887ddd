//! The controller as plain values: its settings, the board as a sequence of
//! rows, and what each event and each frame makes of them.

use crate::board::{blank, in_bounds};
use crate::cell::CellState;
use crate::event::{Button, Event, Key};
use crate::render::{CellSize, DrawRect, Ratio};
use crate::rules::{all_dead, next_generation, rectangular, toggled_at};
use vstd::prelude::*;

verus! {

/// Width of the canvas in pixels.
pub const WIDTH: u32 = 800;

/// Height of the canvas in pixels.
pub const HEIGHT: u32 = 800;

/// Rows of the board that a session starts with.
pub const CELL_ROWS: u32 = 32;

/// Columns of the board that a session starts with.
pub const CELL_COLS: u32 = 32;

/// By how many rows and columns the board grows or shrinks at once.
pub const GROWTH_FACTOR: usize = 4;

/// The fewest columns a board can have.
pub const MIN_COLS: usize = 4;

/// The most columns a board can have.
pub const MAX_COLS: usize = 40;

/// By how many microseconds the time between two steps changes at once.
pub const SPEED_FACTOR: i64 = 10_000;

/// The time between two steps, in microseconds, that a session starts with.
pub const TIME_BETWEEN_STEPS: i64 = 200_000;

/// Said when the time between steps is already at its least.
pub const CANNOT_DECREASE: &'static str = "Cannot decrease further";

/// Said when the board is asked to change size while a cell is alive.
pub const RESET_FIRST: &'static str = "Reset the grid first";

/// Said when the board is asked to grow beyond the most columns.
pub const MAX_REACHED: &'static str = "Max grid size reached";

/// Said when the board is asked to shrink below the fewest columns.
pub const MIN_REACHED: &'static str = "Min grid size reached";

/// `a / b` rounded toward zero, as the machine divides whole numbers.
pub open spec fn toward_zero(a: int, b: int) -> int {
    if a >= 0 {
        a / b
    } else {
        -((-a) / b)
    }
}

/// Whether a board may have `rows` rows and `cols` columns.
///
/// The columns are a multiple of the growth step between the least and the
/// most. Growing and shrinking change rows and columns together and stop by the
/// columns alone, so the rows must leave room both ways: shrunk to the fewest
/// columns the board keeps at least one row, and grown to the most columns it
/// has at most one row for each pixel of the canvas.
pub open spec fn valid_dimensions(rows: int, cols: int) -> bool {
    &&& MIN_COLS <= cols <= MAX_COLS
    &&& cols % (GROWTH_FACTOR as int) == 0
    &&& rows - (cols - MIN_COLS) >= 1
    &&& rows + (MAX_COLS - cols) <= WIDTH
}

/// What a controller is, as plain values.
pub struct GameView {
    /// The board, one sequence per row.
    pub cells: Seq<Seq<CellState>>,
    /// The size at which a cell is drawn.
    pub cell_size: CellSize,
    /// Whether the primary mouse button is held, so that moving the cursor paints.
    pub button_pressed: bool,
    /// Microseconds gathered since the last step that the timer fired.
    pub elapsed_time: int,
    /// Whether the timer advances the board.
    pub auto_play: bool,
    /// Microseconds between two steps of the timer.
    pub time_bw_steps: int,
    /// Row and column of the cell that painting touched last.
    pub toggled_cell: (int, int),
}

impl GameView {
    /// The number of rows.
    pub open spec fn rows(self) -> nat {
        self.cells.len()
    }

    /// The number of columns.
    pub open spec fn cols(self) -> nat {
        self.cells[0].len()
    }

    /// The board is a rectangle of valid dimensions, the time between steps is
    /// positive, and the drawing size is a proper fraction.
    pub open spec fn wf(self) -> bool {
        &&& rectangular(self.cells)
        &&& valid_dimensions(self.rows() as int, self.cols() as int)
        &&& self.time_bw_steps > 0
        &&& self.cell_size.width.denom > 0
        &&& self.cell_size.height.denom > 0
    }

    /// The controller that a session starts with on a board of `rows` by `cols`.
    pub open spec fn initial(rows: nat, cols: nat) -> GameView {
        GameView {
            cells: blank(rows, cols),
            cell_size: CellSize {
                width: Ratio { numer: (WIDTH as int / rows as int) as u32, denom: 1 },
                height: Ratio { numer: (HEIGHT as int / cols as int) as u32, denom: 1 },
            },
            button_pressed: false,
            elapsed_time: 0,
            auto_play: false,
            time_bw_steps: TIME_BETWEEN_STEPS as int,
            toggled_cell: (-1, -1),
        }
    }

    /// The same controller one generation on.
    pub open spec fn stepped(self) -> GameView {
        GameView { cells: next_generation(self.cells), ..self }
    }

    /// The same controller with every cell dead.
    pub open spec fn cleared(self) -> GameView {
        GameView { cells: blank(self.rows(), self.cols()), ..self }
    }

    /// How many pixels of the canvas one column takes: the canvas width divided
    /// by the number of rows, rounded down. On a square board that is the
    /// width divided among the columns.
    pub open spec fn cell_width(self) -> int {
        WIDTH as int / self.rows() as int
    }

    /// How many pixels of the canvas one row takes: the canvas height divided by
    /// the number of columns, rounded down. On a square board that is the
    /// height divided among the rows.
    pub open spec fn cell_height(self) -> int {
        HEIGHT as int / self.cols() as int
    }

    /// Row and column of the cell under the pixel `(x, y)`. The cell may lie off
    /// the board.
    pub open spec fn cell_under(self, x: int, y: int) -> (int, int) {
        (toward_zero(y, self.cell_height()), toward_zero(x, self.cell_width()))
    }

    /// The controller after the cursor touched the pixel `(x, y)` while
    /// painting: the cell under it is turned over and remembered, unless it is
    /// the cell touched last.
    pub open spec fn touched(self, x: int, y: int) -> GameView {
        let cell = self.cell_under(x, y);
        if cell == self.toggled_cell {
            self
        } else {
            GameView { cells: toggled_at(self.cells, cell.0, cell.1), toggled_cell: cell, ..self }
        }
    }

    /// The controller on a new blank board of `rows` by `cols`, with the drawing
    /// size set so that the board fills the canvas.
    pub open spec fn resized(self, rows: nat, cols: nat) -> GameView {
        GameView {
            cells: blank(rows, cols),
            cell_size: CellSize {
                width: Ratio { numer: WIDTH, denom: rows as u32 },
                height: Ratio { numer: HEIGHT, denom: cols as u32 },
            },
            ..self
        }
    }

    /// The controller after a key went down.
    pub open spec fn after_key(self, code: Key, shift: bool) -> GameView {
        match code {
            Key::Space => self.stepped(),
            Key::R => self.cleared(),
            Key::P => GameView { auto_play: !self.auto_play, elapsed_time: 0, ..self },
            Key::Add => if shift {
                GameView { time_bw_steps: self.time_bw_steps + SPEED_FACTOR, ..self }
            } else if all_dead(self.cells) && self.cols() != MAX_COLS {
                self.resized(self.rows() + GROWTH_FACTOR as nat, self.cols() + GROWTH_FACTOR as nat)
            } else {
                self
            },
            Key::Subtract => if shift {
                if self.time_bw_steps <= SPEED_FACTOR {
                    self
                } else {
                    GameView { time_bw_steps: self.time_bw_steps - SPEED_FACTOR, ..self }
                }
            } else if all_dead(self.cells) && self.cols() != MIN_COLS {
                self.resized(
                    (self.rows() - GROWTH_FACTOR) as nat,
                    (self.cols() - GROWTH_FACTOR) as nat,
                )
            } else {
                self
            },
            Key::Other => self,
        }
    }

    /// What the controller says after a key went down: the reason where it
    /// refused, the empty text otherwise.
    pub open spec fn key_message(self, code: Key, shift: bool) -> Seq<char> {
        match code {
            Key::Add => if shift {
                Seq::empty()
            } else if !all_dead(self.cells) {
                RESET_FIRST@
            } else if self.cols() == MAX_COLS {
                MAX_REACHED@
            } else {
                Seq::empty()
            },
            Key::Subtract => if shift {
                if self.time_bw_steps <= SPEED_FACTOR {
                    CANNOT_DECREASE@
                } else {
                    Seq::empty()
                }
            } else if !all_dead(self.cells) {
                RESET_FIRST@
            } else if self.cols() == MIN_COLS {
                MIN_REACHED@
            } else {
                Seq::empty()
            },
            _ => Seq::empty(),
        }
    }

    /// The controller after the event `event`.
    pub open spec fn after_event(self, event: Event) -> GameView {
        match event {
            Event::KeyPressed { code, shift } => self.after_key(code, shift),
            Event::MouseButtonPressed { button, x, y } => if button == Button::Left {
                (GameView { button_pressed: true, ..self }).touched(x as int, y as int)
            } else {
                self
            },
            Event::MouseButtonReleased { button, x, y } => if button == Button::Left {
                GameView { button_pressed: false, toggled_cell: (-1, -1), ..self }
            } else {
                self
            },
            Event::MouseMoved { x, y } => if self.button_pressed {
                self.touched(x as int, y as int)
            } else {
                self
            },
            Event::Other => self,
        }
    }

    /// What the controller says after the event `event`: a text after a key or
    /// a press of the primary button, nothing after any other event.
    pub open spec fn message(self, event: Event) -> Option<Seq<char>> {
        match event {
            Event::KeyPressed { code, shift } => Some(self.key_message(code, shift)),
            Event::MouseButtonPressed { button, x, y } => if button == Button::Left {
                Some(Seq::empty())
            } else {
                None
            },
            _ => None,
        }
    }

    /// The controller after a frame that took `dt` microseconds: while the timer
    /// runs, `dt` is added to the time gathered, and once that exceeds the time
    /// between steps the board advances by one generation and the time
    /// gathered is reduced by one interval. What was gathered beyond that
    /// interval is kept for the frames to come, so that the pace does not drift.
    pub open spec fn ticked(self, dt: int) -> GameView {
        if !self.auto_play {
            self
        } else if self.elapsed_time + dt > self.time_bw_steps {
            (GameView { elapsed_time: self.elapsed_time + dt - self.time_bw_steps, ..self }).stepped()
        } else {
            GameView { elapsed_time: self.elapsed_time + dt, ..self }
        }
    }

    /// The rectangle that shows the cell at `(row, col)`.
    pub open spec fn cell_rect(self, row: int, col: int) -> DrawRect {
        DrawRect {
            x: (col * self.cell_width()) as u32,
            y: (row * self.cell_height()) as u32,
            size: self.cell_size,
            fill: self.cells[row][col].fill(),
            outline: self.cells[row][col].outline(),
        }
    }

    /// The rectangles that show the board, row by row from the top, each row
    /// from the left.
    pub open spec fn draw_list(self) -> Seq<DrawRect> {
        Seq::new(
            self.rows() * self.cols(),
            |i: int| self.cell_rect(i / self.cols() as int, i % self.cols() as int),
        )
    }

    /// Painting is at rest: the button is up and no cell is remembered as
    /// touched.
    pub open spec fn at_rest(self) -> bool {
        !self.button_pressed && self.toggled_cell == (-1, -1)
    }

    /// The cell at `(row, col)`, or nothing where the board has no such cell.
    pub open spec fn cell(self, row: int, col: int) -> Option<CellState> {
        if in_bounds(self.cells, row, col) {
            Some(self.cells[row][col])
        } else {
            None
        }
    }
}

} // verus!
