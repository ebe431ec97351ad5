//! Simulation core of a grid-based snake game.
//!
//! The library advances a snake's body one cell per fixed tick, filters
//! directional input so the snake can never reverse onto itself, detects
//! head/food overlap, and grows the snake by one segment per food eaten.
//! Rendering, window handling and input polling are left to the caller,
//! which hands the core plain values (key states) and reads plain values
//! back (grid positions).

pub mod food;
pub mod grid;
pub mod movement;
pub mod sim;
