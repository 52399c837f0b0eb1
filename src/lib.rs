//! Conway's Game of Life with a small control panel, drawn on a 2D canvas.
//!
//! The library holds the simulation, the widgets and the decisions of the
//! event loops; every drawing is returned as a list of canvas commands that
//! the host executes.
pub mod buttons;
pub mod draw;
pub mod game;
pub mod schedule;
pub mod types;
pub mod ui;
