//! A terminal Sudoku board editor, verified.
//!
//! The crate holds the board interaction engine: the 9x9 puzzle and solution
//! grids, the cursor, the mutation rules, and the render logic that decides
//! which glyph and style every cell is drawn with. Terminal I/O itself stays
//! outside; the library only produces plain draw instructions.

pub mod game;
pub mod generator;
pub mod parse;
pub mod render;
