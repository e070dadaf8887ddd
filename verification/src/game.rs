//! The controller: it owns the board and the simulation settings, and turns
//! input events and frame ticks into changes of both.

use crate::board::{grid_cells, grid_clone, grid_cols, grid_get, grid_get_mut, grid_new, grid_rows};
use crate::board::{blank, in_bounds, with_cell};
use crate::cell::CellState;
use crate::event::{Button, Event, Key};
use crate::model::{valid_dimensions, GameView};
use crate::model::{CANNOT_DECREASE, MAX_REACHED, MIN_REACHED, RESET_FIRST};
use crate::model::{GROWTH_FACTOR, HEIGHT, MAX_COLS, MIN_COLS, SPEED_FACTOR, TIME_BETWEEN_STEPS, WIDTH};
use crate::render::{CellSize, Color, DrawRect, Ratio};
use crate::rules::{all_dead, before, live, live_among_first, live_neighbours, next_cell, next_generation};
use crate::rules::{lemma_live_among_all, rectangular};
use grid::Grid;
use vstd::arithmetic::div_mod::lemma_fundamental_div_mod_converse;
use vstd::prelude::*;

verus! {

/// The controller of one session.
pub struct GameState {
    grid: Grid<CellState>,
    cell_size: CellSize,
    button_pressed: bool,
    elapsed_time: i64,
    auto_play: bool,
    time_bw_steps: i64,
    toggled_cell: (i32, i32),
}

impl View for GameState {
    type V = GameView;

    closed spec fn view(&self) -> GameView {
        GameView {
            cells: grid_cells(self.grid),
            cell_size: self.cell_size,
            button_pressed: self.button_pressed,
            elapsed_time: self.elapsed_time as int,
            auto_play: self.auto_play,
            time_bw_steps: self.time_bw_steps as int,
            toggled_cell: (self.toggled_cell.0 as int, self.toggled_cell.1 as int),
        }
    }
}

/// The board while a step is under way: the cells before `(row, col)` already
/// hold the next generation of `cells`, the others still hold `cells`.
spec fn half_stepped(cells: Seq<Seq<CellState>>, row: int, col: int) -> Seq<Seq<CellState>> {
    Seq::new(
        cells.len(),
        |r: int|
            Seq::new(
                cells[r].len(),
                |c: int|
                    if before(r, c, row, col) {
                        next_cell(cells, r, c)
                    } else {
                        cells[r][c]
                    },
            ),
    )
}

/// The board while it is cleared: the cells before `(row, col)` are dead, the
/// others still hold `cells`.
spec fn half_cleared(cells: Seq<Seq<CellState>>, row: int, col: int) -> Seq<Seq<CellState>> {
    Seq::new(
        cells.len(),
        |r: int|
            Seq::new(
                cells[r].len(),
                |c: int|
                    if before(r, c, row, col) {
                        CellState::Dead
                    } else {
                        cells[r][c]
                    },
            ),
    )
}

/// A side of `side` pixels divided among `n` cells leaves each at least one
/// pixel and at most the whole side.
proof fn lemma_cell_extent(side: int, n: int)
    requires
        1 <= n <= side,
    ensures
        1 <= side / n <= side,
{
    assert(1 <= side / n <= side) by (nonlinear_arith)
        requires
            1 <= n <= side,
    ;
}

/// The index next to `i`: one less for `step` 0, `i` itself for 1, one more for
/// 2; nothing where that leaves the range of indices.
fn neighbour_index(i: usize, step: usize) -> (j: Option<usize>)
    requires
        step <= 2,
    ensures
        j == if 0 <= i + step - 1 <= usize::MAX {
            Some((i + step - 1) as usize)
        } else {
            None
        },
{
    if step == 0 {
        i.checked_sub(1)
    } else if step == 1 {
        Some(i)
    } else {
        i.checked_add(1)
    }
}

/// Writes `value` into the cell at `(row, col)` of `g`.
fn put(g: &mut Grid<CellState>, row: usize, col: usize, value: CellState)
    requires
        in_bounds(grid_cells(*old(g)), row as int, col as int),
    ensures
        grid_cells(*final(g)) == with_cell(grid_cells(*old(g)), row as int, col as int, value),
{
    if let Some(cell) = grid_get_mut(g, row, col) {
        *cell = value;
    }
}

/// Whether a board may have `rows` rows and `cols` columns: the test to make
/// before `GameState::new`.
pub fn dimensions_are_valid(rows: u32, cols: u32) -> (valid: bool)
    ensures
        valid == valid_dimensions(rows as int, cols as int),
{
    let rows: u64 = rows as u64;
    let cols: u64 = cols as u64;
    MIN_COLS as u64 <= cols && cols <= MAX_COLS as u64 && cols % (GROWTH_FACTOR as u64) == 0 && rows + MIN_COLS as u64
        >= cols + 1 && rows + (MAX_COLS as u64 - cols) <= WIDTH as u64
}

/// The text for the status bar once an event was handled: the controller's
/// reply where it gave one, so that an empty reply clears the bar; the text
/// shown so far where it gave none.
pub fn latest_message(shown: String, reply: Option<String>) -> (text: String)
    ensures
        text@ == match reply {
            Some(said) => said@,
            None => shown@,
        },
{
    match reply {
        Some(said) => said,
        None => shown,
    }
}

impl GameState {
    /// The controller is well formed: see `GameView::wf`.
    pub open spec fn wf(&self) -> bool {
        self@.wf()
    }

    /// A paused controller on a blank board of `rows` by `cols`, drawn so that
    /// the board fills the canvas.
    pub fn new(rows: u32, cols: u32) -> (state: GameState)
        requires
            valid_dimensions(rows as int, cols as int),
        ensures
            state@ == GameView::initial(rows as nat, cols as nat),
            state.wf(),
    {
        assert(rows * cols <= 800 * 40) by (nonlinear_arith)
            requires
                0 <= rows <= 800,
                0 <= cols <= 40,
        ;
        let state = GameState {
            time_bw_steps: TIME_BETWEEN_STEPS,
            auto_play: false,
            elapsed_time: 0,
            toggled_cell: (-1, -1),
            button_pressed: false,
            grid: grid_new(rows as usize, cols as usize),
            cell_size: CellSize {
                width: Ratio { numer: WIDTH / rows, denom: 1 },
                height: Ratio { numer: HEIGHT / cols, denom: 1 },
            },
        };
        state
    }

    /// Kills every cell; the board keeps its dimensions and nothing else changes.
    pub fn reset(&mut self)
        requires
            old(self).wf(),
        ensures
            final(self)@ == old(self)@.cleared(),
            final(self).wf(),
    {
        let rows: usize = grid_rows(&self.grid);
        let cols: usize = grid_cols(&self.grid);
        let ghost cells = self@.cells;
        assert(grid_cells(self.grid) =~~= half_cleared(cells, 0, 0));
        for row in 0..rows
            invariant
                rows == cells.len(),
                rectangular(cells),
                rows > 0,
                cols == cells[0].len(),
                grid_cells(self.grid) == half_cleared(cells, row as int, 0),
                self@ == (GameView { cells: grid_cells(self.grid), ..old(self)@ }),
        {
            for col in 0..cols
                invariant
                    row < rows,
                    rows == cells.len(),
                    rectangular(cells),
                    cols == cells[0].len(),
                    grid_cells(self.grid) == half_cleared(cells, row as int, col as int),
                    self@ == (GameView { cells: grid_cells(self.grid), ..old(self)@ }),
            {
                put(&mut self.grid, row, col, CellState::Dead);
                assert(grid_cells(self.grid) =~~= half_cleared(cells, row as int, col + 1));
            }
            assert(half_cleared(cells, row as int, cols as int) =~~= half_cleared(cells, row + 1, 0));
        }
        assert(half_cleared(cells, rows as int, 0) =~~= blank(cells.len(), cells[0].len()));
    }

    /// Whether no cell is alive.
    pub fn is_clear(&self) -> (clear: bool)
        requires
            self.wf(),
        ensures
            clear == all_dead(self@.cells),
    {
        let rows: usize = grid_rows(&self.grid);
        let cols: usize = grid_cols(&self.grid);
        let ghost cells = self@.cells;
        for row in 0..rows
            invariant
                cells == grid_cells(self.grid),
                rows == cells.len(),
                rectangular(cells),
                rows > 0,
                cols == cells[0].len(),
                forall|r: int, c: int| 0 <= r < row && 0 <= c < cols ==> (#[trigger] cells[r][c]) == CellState::Dead,
        {
            for col in 0..cols
                invariant
                    cells == grid_cells(self.grid),
                    row < rows,
                    rows == cells.len(),
                    rectangular(cells),
                    cols == cells[0].len(),
                    forall|r: int, c: int| 0 <= r < row && 0 <= c < cols ==> (#[trigger] cells[r][c]) == CellState::Dead,
                    forall|c: int| 0 <= c < col ==> (#[trigger] cells[row as int][c]) == CellState::Dead,
            {
                match grid_get(&self.grid, row, col) {
                    Some(CellState::Alive) => {
                        assert(in_bounds(cells, row as int, col as int));
                        return false;
                    },
                    _ => {},
                }
            }
        }
        true
    }

    /// The number of rows and the number of columns of the board.
    pub fn get_dimensions(&self) -> (dimensions: (usize, usize))
        requires
            self.wf(),
        ensures
            dimensions.0 == self@.rows(),
            dimensions.1 == self@.cols(),
    {
        (grid_rows(&self.grid), grid_cols(&self.grid))
    }

    /// Advances the board by one generation. Every cell is judged by the board
    /// as it stood before the call; nothing else changes.
    pub fn step(&mut self)
        requires
            old(self).wf(),
        ensures
            final(self)@ == old(self)@.stepped(),
            final(self).wf(),
    {
        let mut new_grid = grid_clone(&self.grid);
        let rows: usize = grid_rows(&self.grid);
        let cols: usize = grid_cols(&self.grid);
        let ghost cells = self@.cells;
        assert(grid_cells(new_grid) =~~= half_stepped(cells, 0, 0));
        for row_idx in 0..rows
            invariant
                *self == *old(self),
                self.wf(),
                cells == self@.cells,
                rows == cells.len(),
                cols == cells[0].len(),
                grid_cells(new_grid) == half_stepped(cells, row_idx as int, 0),
        {
            for col_idx in 0..cols
                invariant
                    *self == *old(self),
                    self.wf(),
                    cells == self@.cells,
                    row_idx < rows,
                    rows == cells.len(),
                    cols == cells[0].len(),
                    grid_cells(new_grid) == half_stepped(cells, row_idx as int, col_idx as int),
            {
                let n: usize = self.get_num_alive_neighbours(row_idx, col_idx);
                match grid_get(&self.grid, row_idx, col_idx) {
                    Some(CellState::Alive) => {
                        if n < 2 || n > 3 {
                            put(&mut new_grid, row_idx, col_idx, CellState::Dead);
                        }
                    },
                    Some(CellState::Dead) => {
                        if n == 3 {
                            put(&mut new_grid, row_idx, col_idx, CellState::Alive);
                        }
                    },
                    None => {},
                }
                assert(grid_cells(new_grid) =~~= half_stepped(cells, row_idx as int, col_idx + 1));
            }
            assert(half_stepped(cells, row_idx as int, cols as int) =~~= half_stepped(cells, row_idx + 1, 0));
        }
        assert(half_stepped(cells, rows as int, 0) =~~= next_generation(cells));
        self.grid = new_grid;
    }

    /// Whether the timer advances the board.
    pub fn auto_play(&self) -> (on: bool)
        ensures
            on == self@.auto_play,
    {
        self.auto_play
    }

    /// The time between two steps of the timer, in microseconds.
    pub fn time_bw_steps(&self) -> (micros: i64)
        ensures
            micros == self@.time_bw_steps,
    {
        self.time_bw_steps
    }

    /// The time gathered since the timer last fired, in microseconds.
    pub fn elapsed_time(&self) -> (micros: i64)
        ensures
            micros == self@.elapsed_time,
    {
        self.elapsed_time
    }

    /// Whether the primary mouse button is held.
    pub fn button_pressed(&self) -> (held: bool)
        ensures
            held == self@.button_pressed,
    {
        self.button_pressed
    }

    /// Row and column of the cell that painting touched last; `(-1, -1)` while
    /// painting is at rest.
    pub fn toggled_cell(&self) -> (cell: (i32, i32))
        ensures
            cell.0 == self@.toggled_cell.0,
            cell.1 == self@.toggled_cell.1,
    {
        self.toggled_cell
    }

    /// The size at which a cell is drawn.
    pub fn cell_size(&self) -> (size: CellSize)
        ensures
            size == self@.cell_size,
    {
        self.cell_size
    }

    /// The cell at `(row, col)`, or nothing where the board has no such cell:
    /// for a negative index as for one past the last row or column.
    pub fn get(&self, row: i32, col: i32) -> (cell: Option<CellState>)
        requires
            self.wf(),
        ensures
            cell == self@.cell(row as int, col as int),
            !(0 <= row < self@.rows() && 0 <= col < self@.cols()) ==> cell is None,
    {
        if row < 0 || col < 0 {
            None
        } else {
            grid_get(&self.grid, row as usize, col as usize)
        }
    }

    /// Handles one input event and returns what to show in the status bar: a
    /// text, empty unless the controller refused, after a key or a press of the
    /// primary button; nothing after any other event.
    pub fn handle_event(&mut self, event: &Event) -> (message: Option<String>)
        requires
            old(self).wf(),
            *event == (Event::KeyPressed { code: Key::Add, shift: true }) ==> old(self)@.time_bw_steps
                + SPEED_FACTOR <= i64::MAX,
        ensures
            final(self)@ == old(self)@.after_event(*event),
            final(self).wf(),
            match message {
                Some(text) => old(self)@.message(*event) == Some(text@),
                None => old(self)@.message(*event) is None,
            },
    {
        match *event {
            Event::KeyPressed { code, shift } => {
                match code {
                    Key::Space => self.step(),
                    Key::R => self.reset(),
                    Key::P => {
                        self.auto_play = !self.auto_play;
                        self.elapsed_time = 0;
                    },
                    Key::Add => {
                        if shift {
                            self.time_bw_steps += SPEED_FACTOR;
                        } else {
                            if !self.is_clear() {
                                return Some(RESET_FIRST.to_owned());
                            } else if grid_cols(&self.grid) == MAX_COLS {
                                return Some(MAX_REACHED.to_owned());
                            }
                            let rows: usize = grid_rows(&self.grid) + GROWTH_FACTOR;
                            let cols: usize = grid_cols(&self.grid) + GROWTH_FACTOR;
                            self.resize(rows, cols);
                        }
                    },
                    Key::Subtract => {
                        if shift {
                            if self.time_bw_steps <= SPEED_FACTOR {
                                return Some(CANNOT_DECREASE.to_owned());
                            }
                            self.time_bw_steps -= SPEED_FACTOR;
                        } else {
                            if !self.is_clear() {
                                return Some(RESET_FIRST.to_owned());
                            } else if grid_cols(&self.grid) == MIN_COLS {
                                return Some(MIN_REACHED.to_owned());
                            }
                            let rows: usize = grid_rows(&self.grid) - GROWTH_FACTOR;
                            let cols: usize = grid_cols(&self.grid) - GROWTH_FACTOR;
                            self.resize(rows, cols);
                        }
                    },
                    Key::Other => {},
                }
                return Some(String::new());
            },
            Event::MouseButtonPressed { button, x, y } => {
                if button == Button::Left {
                    self.button_pressed = true;
                    self.toggle_cell(x, y);
                    return Some(String::new());
                }
            },
            Event::MouseButtonReleased { button, x, y } => {
                if button == Button::Left {
                    self.button_pressed = false;
                    self.toggled_cell = (-1, -1);
                }
            },
            Event::MouseMoved { x, y } => {
                if self.button_pressed {
                    self.toggle_cell(x, y);
                }
            },
            Event::Other => {},
        }
        None
    }

    /// Replaces the board by a blank one of `rows` by `cols` and sets the
    /// drawing size to match.
    fn resize(&mut self, rows: usize, cols: usize)
        requires
            old(self).wf(),
            valid_dimensions(rows as int, cols as int),
        ensures
            final(self)@ == old(self)@.resized(rows as nat, cols as nat),
            final(self).wf(),
    {
        assert(rows * cols <= 800 * 40) by (nonlinear_arith)
            requires
                0 <= rows <= 800,
                0 <= cols <= 40,
        ;
        self.grid = grid_new(rows, cols);
        self.cell_size = CellSize {
            width: Ratio { numer: WIDTH, denom: rows as u32 },
            height: Ratio { numer: HEIGHT, denom: cols as u32 },
        };
    }

    /// Paints at the pixel `(x, y)`: turns over the cell under it and remembers
    /// that cell, unless it is the cell touched last. A pixel over no cell of
    /// the board changes no cell.
    pub fn toggle_cell(&mut self, x: i32, y: i32)
        requires
            old(self).wf(),
        ensures
            final(self)@ == old(self)@.touched(x as int, y as int),
            final(self).wf(),
    {
        let rows: usize = grid_rows(&self.grid);
        let cols: usize = grid_cols(&self.grid);
        proof {
            lemma_cell_extent(WIDTH as int, rows as int);
            lemma_cell_extent(HEIGHT as int, cols as int);
        }
        let cell_width: u32 = WIDTH / (rows as u32);
        let cell_height: u32 = HEIGHT / (cols as u32);

        // column of the cell
        let col_idx: i32 = x / (cell_width as i32);

        // row of the cell
        let row_idx: i32 = y / (cell_height as i32);

        if self.toggled_cell.0 != row_idx || self.toggled_cell.1 != col_idx {
            if row_idx >= 0 && col_idx >= 0 {
                if let Some(cell) = grid_get_mut(&mut self.grid, row_idx as usize, col_idx as usize) {
                    cell.toggle();
                }
            }
            self.toggled_cell = (row_idx, col_idx);
        }
    }

    /// Runs the timer for a frame that took `dt` microseconds, then lists the
    /// rectangles that show the board as it stands after that.
    pub fn draw(&mut self, dt: i64) -> (commands: Vec<DrawRect>)
        requires
            old(self).wf(),
            old(self)@.auto_play ==> i64::MIN <= old(self)@.elapsed_time + dt <= i64::MAX,
        ensures
            final(self)@ == old(self)@.ticked(dt as int),
            final(self).wf(),
            commands@ == final(self)@.draw_list(),
    {
        if self.auto_play {
            self.elapsed_time += dt;

            if self.elapsed_time > self.time_bw_steps {
                self.elapsed_time -= self.time_bw_steps;
                self.step();
            }
        }
        let rows: usize = grid_rows(&self.grid);
        let cols: usize = grid_cols(&self.grid);
        proof {
            lemma_cell_extent(WIDTH as int, rows as int);
            lemma_cell_extent(HEIGHT as int, cols as int);
        }
        let cell_width: u32 = WIDTH / (rows as u32);
        let cell_height: u32 = HEIGHT / (cols as u32);
        let ghost view = self@;
        let mut commands: Vec<DrawRect> = Vec::new();
        let mut rect = DrawRect {
            x: 0,
            y: 0,
            size: self.cell_size,
            fill: Color { r: 0, g: 0, b: 0 },
            outline: Color { r: 0, g: 0, b: 0 },
        };

        assert(0 * cols == 0);
        assert(commands@ =~= view.draw_list().take(0));
        for row_idx in 0..rows
            invariant
                self@ == view,
                view.wf(),
                rows == view.rows(),
                cols == view.cols(),
                cell_width == view.cell_width(),
                cell_height == view.cell_height(),
                rect.size == view.cell_size,
                commands@.len() == row_idx * cols,
                commands@.len() <= view.draw_list().len(),
                commands@ == view.draw_list().take(commands@.len() as int),
        {
            for col_idx in 0..cols
                invariant
                    self@ == view,
                    view.wf(),
                    row_idx < rows,
                    rows == view.rows(),
                    cols == view.cols(),
                    cell_width == view.cell_width(),
                    cell_height == view.cell_height(),
                    rect.size == view.cell_size,
                    commands@.len() == row_idx * cols + col_idx,
                    commands@.len() <= view.draw_list().len(),
                    commands@ == view.draw_list().take(commands@.len() as int),
            {
                let cell: CellState = grid_get(&self.grid, row_idx, col_idx).unwrap_or(CellState::Dead);
                cell.set_color(&mut rect);
                proof {
                    lemma_fundamental_div_mod_converse(
                        row_idx * cols + col_idx,
                        cols as int,
                        row_idx as int,
                        col_idx as int,
                    );
                    assert(col_idx * cell_width <= 40 * 800) by (nonlinear_arith)
                        requires
                            0 <= col_idx <= 40,
                            0 <= cell_width <= 800,
                    ;
                    assert(row_idx * cell_height <= 800 * 800) by (nonlinear_arith)
                        requires
                            0 <= row_idx <= 800,
                            0 <= cell_height <= 800,
                    ;
                    assert(row_idx * cols + col_idx < rows * cols) by (nonlinear_arith)
                        requires
                            0 <= row_idx < rows,
                            0 <= col_idx < cols,
                    ;
                }
                rect.x = (col_idx as u32) * cell_width;
                rect.y = (row_idx as u32) * cell_height;
                commands.push(rect);
                assert(commands@ =~= view.draw_list().take(commands@.len() as int));
            }
            assert(row_idx * cols + cols == (row_idx + 1) * cols) by (nonlinear_arith);
        }
        assert(view.draw_list().take(commands@.len() as int) =~= view.draw_list());
        commands
    }

    /// How many of the eight places round `(row, col)` hold a live cell. Places
    /// off the board count as dead.
    pub fn get_num_alive_neighbours(&self, row: usize, col: usize) -> (n: usize)
        requires
            self.wf(),
        ensures
            n == live_neighbours(self@.cells, row as int, col as int),
    {
        let mut n: usize = 0;
        let ghost cells = self@.cells;
        for dr in 0..3usize
            invariant
                cells == grid_cells(self.grid),
                self.wf(),
                n == live_among_first(cells, row as int, col as int, (3 * dr) as nat),
                n <= 3 * dr,
        {
            for dc in 0..3usize
                invariant
                    cells == grid_cells(self.grid),
                    self.wf(),
                    dr < 3,
                    n == live_among_first(cells, row as int, col as int, (3 * dr + dc) as nat),
                    n <= 3 * dr + dc,
            {
                if !(dr == 1 && dc == 1) {
                    let neighbour_row: Option<usize> = neighbour_index(row, dr);
                    let neighbour_col: Option<usize> = neighbour_index(col, dc);
                    let alive: bool = match (neighbour_row, neighbour_col) {
                        (Some(r), Some(c)) => grid_get(&self.grid, r, c).unwrap_or(CellState::Dead).is_alive(),
                        _ => false,
                    };
                    assert(alive == (live(cells, row + dr - 1, col + dc - 1) == 1));
                    if alive {
                        n += 1;
                    }
                }
            }
        }
        proof {
            lemma_live_among_all(cells, row as int, col as int);
        }
        n
    }
}

} // verus!
