//! Rules of a two-paddle ball game, kept apart from any engine.
//!
//! Lengths are integers in thousandths of a court unit, durations are whole
//! milliseconds and speeds are court units per second, so that a speed times a
//! duration is a length with nothing rounded.

pub mod ball;
pub mod game;
pub mod opponent;
pub mod player;
pub mod scene;
pub mod score;
