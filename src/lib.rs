//! Conway's Game of Life on a fixed-size grid whose edges wrap around.

pub mod cell;
pub mod universe;
pub mod laws;

pub use cell::Cell;
pub use universe::Universe;
