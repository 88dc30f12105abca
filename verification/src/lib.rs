//! A sudoku board: a 9x9 grid model with conflict and completion feedback,
//! and an adaptive character-cell renderer that lays the grid out inside an
//! arbitrarily sized text canvas.
//!
//! The crate is organised leaf-first:
//! - [`model`]: the puzzle grid, cell editing with wraparound, fixed cells,
//!   and the conflict / completion colouring;
//! - [`input`]: the interactive session state and its transition for each
//!   input event;
//! - [`layout`]: the mode classifier, mapping a canvas size to one discrete
//!   density mode, and the grid footprint that mode occupies;
//! - [`frame`]: the allocator that carves the canvas into header, grid and
//!   footer bands;
//! - [`geometry`]: the per-cell rectangles of a mode, defensive clipping,
//!   and the paint order;
//! - [`border`]: the border-glyph compositor resolving corner and stroke
//!   glyphs from side styles and continuation flags;
//! - [`separator`]: the overlay drawing independent 3x3 block separators;
//! - [`paint`]: the primitive paint operations for one cell;
//! - [`render`]: one full render pass over a canvas.

pub mod border;
pub mod frame;
pub mod geometry;
pub mod input;
pub mod layout;
pub mod model;
pub mod paint;
pub mod render;
pub mod separator;
