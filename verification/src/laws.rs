//! What holds of the rule and of the controller, whatever the board.

use crate::board::in_bounds;
use crate::cell::CellState;
use crate::event::{Button, Event, Key};
use crate::model::{GameView, CANNOT_DECREASE, GROWTH_FACTOR, MAX_COLS, MIN_COLS, RESET_FIRST, SPEED_FACTOR};
use crate::rules::{all_dead, live_neighbours, next_generation, next_state, toggled_at};
use vstd::prelude::*;

verus! {

/// A step keeps the shape of the board, and every cell of the new board is the
/// rule applied to that cell and its neighbours as they stood in the old board.
pub proof fn step_judges_each_cell_by_the_old_board(cells: Seq<Seq<CellState>>, row: int, col: int)
    requires
        in_bounds(cells, row, col),
    ensures
        next_generation(cells).len() == cells.len(),
        next_generation(cells)[row].len() == cells[row].len(),
        next_generation(cells)[row][col] == next_state(cells[row][col], live_neighbours(cells, row, col)),
{
}

/// A step reads the board and nothing else: two controllers that hold the same
/// board hold the same board after a step, whatever else differs between them.
pub proof fn step_reads_only_the_board(a: GameView, b: GameView)
    requires
        a.cells == b.cells,
    ensures
        a.stepped().cells == b.stepped().cells,
        a.stepped().cells == next_generation(a.cells),
{
}

/// A live cell is alive after a step exactly when two or three of its
/// neighbours are alive; with none, one, or four to eight it is dead.
pub proof fn live_cell_survives_with_two_or_three(cells: Seq<Seq<CellState>>, row: int, col: int)
    requires
        in_bounds(cells, row, col),
        cells[row][col] == CellState::Alive,
    ensures
        live_neighbours(cells, row, col) <= 8,
        next_generation(cells)[row][col] == if live_neighbours(cells, row, col) == 2 || live_neighbours(
            cells,
            row,
            col,
        ) == 3 {
            CellState::Alive
        } else {
            CellState::Dead
        },
{
}

/// A dead cell is alive after a step exactly when three of its neighbours are
/// alive; with any other number it stays dead.
pub proof fn dead_cell_is_born_with_three(cells: Seq<Seq<CellState>>, row: int, col: int)
    requires
        in_bounds(cells, row, col),
        cells[row][col] == CellState::Dead,
    ensures
        live_neighbours(cells, row, col) <= 8,
        next_generation(cells)[row][col] == if live_neighbours(cells, row, col) == 3 {
            CellState::Alive
        } else {
            CellState::Dead
        },
{
}

/// Every event leaves a well-formed controller well formed.
pub proof fn events_keep_the_controller_well_formed(s: GameView, event: Event)
    requires
        s.wf(),
    ensures
        s.after_event(event).wf(),
{
    let t = s.after_event(event);
    match event {
        Event::KeyPressed { code, shift } => {
            match code {
                Key::Add => {
                    if !shift && all_dead(s.cells) && s.cols() != MAX_COLS {
                        assert(t.cols() == s.cols() + GROWTH_FACTOR);
                    }
                },
                Key::Subtract => {
                    if !shift && all_dead(s.cells) && s.cols() != MIN_COLS {
                        assert(t.cols() == s.cols() - GROWTH_FACTOR);
                    }
                },
                _ => {},
            }
        },
        _ => {},
    }
}

/// An event changes rows and columns by the same amount: by nothing, or by one
/// growth step up or down.
pub proof fn events_move_both_dimensions_together(s: GameView, event: Event)
    requires
        s.wf(),
    ensures
        ({
            let t = s.after_event(event);
            let change = t.rows() - s.rows();
            &&& t.cols() - s.cols() == change
            &&& change == 0 || change == GROWTH_FACTOR || change == -GROWTH_FACTOR
        }),
{
    let t = s.after_event(event);
    assert(t.cols() - s.cols() == t.rows() - s.rows());
}

/// Every frame leaves a well-formed controller well formed.
pub proof fn frames_keep_the_controller_well_formed(s: GameView, dt: int)
    requires
        s.wf(),
    ensures
        s.ticked(dt).wf(),
{
}

/// When the timer fires, the board advances by exactly one generation and the
/// time gathered is reduced by exactly one interval: it stays positive, and
/// nothing of what was gathered beyond the interval is lost.
pub proof fn a_fired_timer_drops_one_interval(s: GameView, dt: int)
    requires
        s.wf(),
        s.auto_play,
        s.elapsed_time + dt > s.time_bw_steps,
    ensures
        s.ticked(dt).cells == next_generation(s.cells),
        s.ticked(dt).elapsed_time == s.elapsed_time + dt - s.time_bw_steps,
        s.ticked(dt).elapsed_time > 0,
{
}

/// While the timer is stopped, or has not yet gathered more than one interval,
/// a frame changes no cell.
pub proof fn a_quiet_frame_changes_no_cell(s: GameView, dt: int)
    requires
        !s.auto_play || s.elapsed_time + dt <= s.time_bw_steps,
    ensures
        s.ticked(dt).cells == s.cells,
        s.ticked(dt).elapsed_time == if s.auto_play {
            s.elapsed_time + dt
        } else {
            s.elapsed_time
        },
{
}

/// While any cell is alive the board is neither grown nor shrunk: the key
/// changes nothing, and the controller says to reset the board first.
pub proof fn resize_is_refused_while_a_cell_is_alive(s: GameView, code: Key)
    requires
        !all_dead(s.cells),
        code == Key::Add || code == Key::Subtract,
    ensures
        s.after_event(Event::KeyPressed { code, shift: false }) == s,
        s.message(Event::KeyPressed { code, shift: false }) == Some(RESET_FIRST@),
        RESET_FIRST@.len() > 0,
{
    reveal_strlit("Reset the grid first");
}

/// Growing a clear board that is not yet at its largest, then shrinking it,
/// gives back a board of the dimensions it had, and a clear one.
pub proof fn grow_then_shrink_restores_the_dimensions(s: GameView)
    requires
        s.wf(),
        all_dead(s.cells),
        s.cols() != MAX_COLS,
    ensures
        ({
            let grown = s.after_event(Event::KeyPressed { code: Key::Add, shift: false });
            let back = grown.after_event(Event::KeyPressed { code: Key::Subtract, shift: false });
            &&& grown.rows() == s.rows() + GROWTH_FACTOR
            &&& grown.cols() == s.cols() + GROWTH_FACTOR
            &&& back.rows() == s.rows()
            &&& back.cols() == s.cols()
            &&& back.cells == s.cells
        }),
{
    let grown = s.after_event(Event::KeyPressed { code: Key::Add, shift: false });
    let back = grown.after_event(Event::KeyPressed { code: Key::Subtract, shift: false });
    assert(grown.cols() == s.cols() + GROWTH_FACTOR);
    assert(all_dead(grown.cells));
    assert(back.cells =~~= s.cells);
}

/// Releasing the primary button puts painting at rest and changes no cell.
pub proof fn release_puts_painting_at_rest(s: GameView, x: i32, y: i32)
    ensures
        s.after_event(Event::MouseButtonReleased { button: Button::Left, x, y }).at_rest(),
        s.after_event(Event::MouseButtonReleased { button: Button::Left, x, y }).cells == s.cells,
{
}

/// A drag from one cell to another and back turns over the first cell, then the
/// second, then the first again: each cell that the cursor enters is turned
/// over once, also one that it has left before. So the first cell ends as it
/// began and the second ends turned over; the release changes no cell and
/// puts painting at rest.
pub proof fn drag_turns_over_each_cell_it_enters(s: GameView, xa: i32, ya: i32, xb: i32, yb: i32)
    requires
        s.wf(),
        s.at_rest(),
        s.cell_under(xa as int, ya as int) != s.cell_under(xb as int, yb as int),
    ensures
        ({
            let a = s.cell_under(xa as int, ya as int);
            let b = s.cell_under(xb as int, yb as int);
            let pressed = s.after_event(Event::MouseButtonPressed { button: Button::Left, x: xa, y: ya });
            let moved = pressed.after_event(Event::MouseMoved { x: xb, y: yb });
            let returned = moved.after_event(Event::MouseMoved { x: xa, y: ya });
            let released = returned.after_event(Event::MouseButtonReleased { button: Button::Left, x: xa, y: ya });
            &&& pressed.cells == toggled_at(s.cells, a.0, a.1)
            &&& moved.cells == toggled_at(pressed.cells, b.0, b.1)
            &&& returned.cells == toggled_at(moved.cells, a.0, a.1)
            &&& released.cells == returned.cells
            &&& released.cells == toggled_at(s.cells, b.0, b.1)
            &&& released.at_rest()
        }),
{
    let a = s.cell_under(xa as int, ya as int);
    let b = s.cell_under(xb as int, yb as int);
    let pressed = s.after_event(Event::MouseButtonPressed { button: Button::Left, x: xa, y: ya });
    let moved = pressed.after_event(Event::MouseMoved { x: xb, y: yb });
    let returned = moved.after_event(Event::MouseMoved { x: xa, y: ya });
    assert(pressed.cells == toggled_at(s.cells, a.0, a.1));
    assert(pressed.rows() == s.rows() && pressed.cols() == s.cols());
    assert(moved.cells == toggled_at(pressed.cells, b.0, b.1));
    assert(moved.rows() == s.rows() && moved.cols() == s.cols());
    assert(returned.cells == toggled_at(moved.cells, a.0, a.1));
    assert(returned.cells =~~= toggled_at(s.cells, b.0, b.1));
}

/// Once the time between steps is no longer than one speed step, the key that
/// shortens it changes nothing, and the controller says that it cannot.
pub proof fn shortening_is_refused_at_the_least_interval(s: GameView)
    requires
        s.time_bw_steps <= SPEED_FACTOR,
    ensures
        s.after_event(Event::KeyPressed { code: Key::Subtract, shift: true }) == s,
        s.message(Event::KeyPressed { code: Key::Subtract, shift: true }) == Some(CANNOT_DECREASE@),
        CANNOT_DECREASE@.len() > 0,
{
    reveal_strlit("Cannot decrease further");
}

} // verus!
