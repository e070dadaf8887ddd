//! Input events, reduced to what the controller reads of them.

use vstd::prelude::*;

verus! {

/// A key of the keyboard.
#[derive(Clone, Copy, Debug, PartialEq, Eq, Structural)]
pub enum Key {
    /// Advances the board by one generation.
    Space,
    /// Clears the board.
    R,
    /// Starts or stops the timer.
    P,
    /// With shift, lengthens the time between steps; alone, grows the board.
    Add,
    /// With shift, shortens the time between steps; alone, shrinks the board.
    Subtract,
    /// Any other key.
    Other,
}

/// A button of the mouse.
#[derive(Clone, Copy, Debug, PartialEq, Eq, Structural)]
pub enum Button {
    /// The primary button, which paints.
    Left,
    /// Any other button.
    Other,
}

/// An input event. Positions are in pixels from the top-left corner of the
/// canvas and may lie outside it.
#[derive(Clone, Copy, Debug, PartialEq, Eq, Structural)]
pub enum Event {
    /// A key went down, with or without shift held.
    KeyPressed { code: Key, shift: bool },
    /// A mouse button went down at `(x, y)`.
    MouseButtonPressed { button: Button, x: i32, y: i32 },
    /// A mouse button came up at `(x, y)`.
    MouseButtonReleased { button: Button, x: i32, y: i32 },
    /// The cursor moved to `(x, y)`.
    MouseMoved { x: i32, y: i32 },
    /// Anything else, such as a request to close the window.
    Other,
}

} // verus!
