//! The puzzle generator, an external collaborator.
//!
//! Producing a puzzle and its solution is delegated to the `sudokugen`
//! crate; the library only consumes the textual boards it prints and trusts
//! their shape, stated below once and proved nowhere else.

use vstd::prelude::*;
use crate::parse::is_board_text;

verus! {

/// Generate a fresh puzzle and its solution, as the generator's textual
/// boards: the puzzle's characters first, the solution's second.
///
/// Relies on `sudokugen::Puzzle::generate` with a nine-by-nine board size,
/// on `Puzzle::board` and `Puzzle::solution`, and on `Board`'s `Display`:
/// a board prints as one line per row, each cell as its digit or `.` for an
/// empty cell followed by a space, each line closed by a line break, and a
/// generated nine-by-nine board only holds digits 1..=9. Which boards come
/// back depends on the generator's randomness, so nothing more is stated.
#[verifier::external_body]
pub(crate) fn generate_board_texts() -> (r: (Vec<char>, Vec<char>))
    ensures
        is_board_text(r.0@),
        is_board_text(r.1@),
{
    let generated = sudokugen::Puzzle::generate(sudokugen::BoardSize::NineByNine);
    let board: Vec<char> = generated.board().to_string().chars().collect();
    let solution: Vec<char> = generated.solution().to_string().chars().collect();
    (board, solution)
}

} // verus!
