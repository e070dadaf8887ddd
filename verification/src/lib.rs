//! Conway's Game of Life on a bounded board: the cell rule, the board held in a
//! `grid::Grid`, and the controller that turns input events and frame ticks
//! into changes of the board.

pub mod board;
pub mod cell;
pub mod event;
pub mod game;
pub mod laws;
pub mod model;
pub mod render;
pub mod rules;
