//! A verified Game of Life simulation on a toroidal grid.
//!
//! The library owns the grid of cells, the wraparound-aware neighbor
//! counting, the generation-transition rule, and the elapsed-time
//! accumulator that gates how often a generation advances. A host loop
//! (rendering, input, wall-clock timing) drives it through plain data:
//! it constructs a [`universe::Universe`], feeds elapsed milliseconds to
//! [`universe::tick`], and reads cells back to draw them.

pub mod cell;
pub mod color;
pub mod ui;
pub mod universe;
