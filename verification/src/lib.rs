//! Core engine of a grid-based snake game.
//!
//! The library models the snake's body and movement rule, collision and
//! boundary detection, apple placement, scoring, and the running / paused /
//! game-over state machine driven by a fixed-period movement tick.  Drawing
//! and window handling are left to the embedding program, which reads the
//! state through the query methods and feeds key presses and elapsed time in.

pub mod game;
pub mod snake;
