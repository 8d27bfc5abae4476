//! The board state: grids, cursor, and the mutation rules.

use vstd::prelude::*;
use crate::generator::generate_board_texts;
use crate::parse::parse_grid;

verus! {

/// A well-formed grid is 81 cells in row-major order, each holding a digit
/// 0..=9, where 0 means the cell is empty.
pub open spec fn grid_wf(s: Seq<u8>) -> bool {
    s.len() == 81 && forall|i: int| 0 <= i < s.len() ==> s[i] <= 9
}

/// One step of cursor movement toward index 0, clamped at the edge.
pub open spec fn clamped_dec(v: int) -> int {
    if v > 0 {
        v - 1
    } else {
        v
    }
}

/// One step of cursor movement toward index 8, clamped at the edge.
pub open spec fn clamped_inc(v: int) -> int {
    if v < 8 {
        v + 1
    } else {
        v
    }
}

/// Clamping law: a clamped step from any board index stays inside 0..=8, and
/// a step taken at the boundary leaves the index exactly where it was, so
/// repeating the move there changes nothing.
pub proof fn lemma_clamped_steps(v: int)
    requires
        0 <= v <= 8,
    ensures
        0 <= clamped_dec(v) <= 8,
        0 <= clamped_inc(v) <= 8,
        v == 0 ==> clamped_dec(v) == v,
        v == 8 ==> clamped_inc(v) == v,
{
}

/// Decide grid well-formedness at run time.
pub fn check_grid_wf(v: &Vec<u8>) -> (b: bool)
    ensures
        b == grid_wf(v@),
{
    if v.len() != 81 {
        return false;
    }
    let mut i: usize = 0;
    while i < 81
        invariant
            v@.len() == 81,
            i <= 81,
            forall|j: int| 0 <= j < i ==> v@[j] <= 9,
        decreases 81 - i,
    {
        if v[i] > 9 {
            return false;
        }
        i += 1;
    }
    true
}

/// An all-empty grid, the state before the first puzzle arrives.
fn blank_grid() -> (v: Vec<u8>)
    ensures
        grid_wf(v@),
        forall|i: int| 0 <= i < v@.len() ==> v@[i] == 0,
{
    let mut v: Vec<u8> = Vec::new();
    let mut i: usize = 0;
    while i < 81
        invariant
            i <= 81,
            v@.len() == i,
            forall|j: int| 0 <= j < i ==> v@[j] == 0,
        decreases 81 - i,
    {
        v.push(0);
        i += 1;
    }
    v
}

/// The board interaction state: the editable puzzle grid, the immutable
/// solution grid it is compared against, the cursor, and the flag that turns
/// error highlighting on.
///
/// The cursor is kept as the terminal coordinates of the selected cell, as
/// the renderer and the terminal need them: column `4 * col + 2` and row
/// `2 * row + 1` for a board position `(row, col)` with both indices in 0..9.
pub struct Game {
    /// Terminal column of the cursor.
    pub x: u16,
    /// Terminal row of the cursor.
    pub y: u16,
    /// The 81 cells the user edits, row-major.
    pub puzzle: Vec<u8>,
    /// The 81 cells of the reference solution, row-major.
    pub solution: Vec<u8>,
    /// Whether entries that disagree with the solution are highlighted.
    pub show_wrong: bool,
}

impl Game {
    /// The state invariant: the cursor coordinates address a cell of the
    /// board, and both grids are well-formed.
    pub open spec fn wf(self) -> bool {
        &&& self.x % 4 == 2
        &&& self.x <= 34
        &&& self.y % 2 == 1
        &&& self.y <= 17
        &&& grid_wf(self.puzzle@)
        &&& grid_wf(self.solution@)
    }

    /// The board row the cursor is on, in 0..9.
    pub open spec fn row(self) -> int {
        self.y as int / 2
    }

    /// The board column the cursor is on, in 0..9.
    pub open spec fn col(self) -> int {
        self.x as int / 4
    }

    /// The row-major index of the cell under the cursor.
    pub open spec fn cursor_cell(self) -> int {
        self.row() * 9 + self.col()
    }

    /// A fresh session: the cursor on the top-left cell, error highlighting
    /// off, and the grids filled by the external puzzle generator.
    pub fn new() -> (g: Game)
        ensures
            g.wf(),
            g.x == 2,
            g.y == 1,
            !g.show_wrong,
    {
        let mut g = Game {
            x: 2,
            y: 1,
            puzzle: blank_grid(),
            solution: blank_grid(),
            show_wrong: true,
        };
        g.new_puzzle();
        g.toggle_show_wrong();
        g
    }

    /// Ask the external generator for a new puzzle/solution pair and load
    /// it. Which pair arrives is the generator's choice; everything else is
    /// left unchanged.
    fn new_puzzle(&mut self)
        requires
            old(self).wf(),
        ensures
            final(self).wf(),
            final(self).x == old(self).x,
            final(self).y == old(self).y,
            final(self).show_wrong == old(self).show_wrong,
    {
        let (board_text, solution_text) = generate_board_texts();
        let puzzle = parse_grid(&board_text).unwrap();
        let solution = parse_grid(&solution_text).unwrap();
        self.load_puzzle(puzzle, solution);
    }

    /// Decide the state invariant at run time, for callers outside the
    /// verified world that assemble a state by hand.
    pub fn check_wf(&self) -> (b: bool)
        ensures
            b == self.wf(),
    {
        self.x % 4 == 2 && self.x <= 34 && self.y % 2 == 1 && self.y <= 17 && check_grid_wf(
            &self.puzzle,
        ) && check_grid_wf(&self.solution)
    }

    /// Move the cursor one row up, clamped at the top edge.
    pub fn move_up(&mut self)
        requires
            old(self).wf(),
        ensures
            final(self).wf(),
            final(self).row() == clamped_dec(old(self).row()),
            final(self).col() == old(self).col(),
            final(self).x == old(self).x,
            final(self).puzzle@ == old(self).puzzle@,
            final(self).solution@ == old(self).solution@,
            final(self).show_wrong == old(self).show_wrong,
    {
        if self.y > 1 {
            self.y -= 2;
        }
    }

    /// Move the cursor one row down, clamped at the bottom edge.
    pub fn move_down(&mut self)
        requires
            old(self).wf(),
        ensures
            final(self).wf(),
            final(self).row() == clamped_inc(old(self).row()),
            final(self).col() == old(self).col(),
            final(self).x == old(self).x,
            final(self).puzzle@ == old(self).puzzle@,
            final(self).solution@ == old(self).solution@,
            final(self).show_wrong == old(self).show_wrong,
    {
        if self.y < 16 {
            self.y += 2;
        }
    }

    /// Move the cursor one column left, clamped at the left edge.
    pub fn move_left(&mut self)
        requires
            old(self).wf(),
        ensures
            final(self).wf(),
            final(self).col() == clamped_dec(old(self).col()),
            final(self).row() == old(self).row(),
            final(self).y == old(self).y,
            final(self).puzzle@ == old(self).puzzle@,
            final(self).solution@ == old(self).solution@,
            final(self).show_wrong == old(self).show_wrong,
    {
        if self.x > 4 {
            self.x -= 4;
        }
    }

    /// Move the cursor one column right, clamped at the right edge.
    pub fn move_right(&mut self)
        requires
            old(self).wf(),
        ensures
            final(self).wf(),
            final(self).col() == clamped_inc(old(self).col()),
            final(self).row() == old(self).row(),
            final(self).y == old(self).y,
            final(self).puzzle@ == old(self).puzzle@,
            final(self).solution@ == old(self).solution@,
            final(self).show_wrong == old(self).show_wrong,
    {
        if self.x < 34 {
            self.x += 4;
        }
    }

    /// Write digit `n` into the cell under the cursor; `n == 0` clears the
    /// cell. A value above 9 is not a digit and is ignored. No Sudoku
    /// legality is enforced: correctness is a display concept only.
    pub fn set_number(&mut self, n: u8)
        requires
            old(self).wf(),
        ensures
            final(self).wf(),
            n <= 9 ==> final(self).puzzle@ == old(self).puzzle@.update(old(self).cursor_cell(), n),
            n > 9 ==> final(self).puzzle@ == old(self).puzzle@,
            final(self).x == old(self).x,
            final(self).y == old(self).y,
            final(self).solution@ == old(self).solution@,
            final(self).show_wrong == old(self).show_wrong,
    {
        if n <= 9 {
            let x = self.x as usize / 4;
            let y = self.y as usize / 2;
            self.puzzle.set(y * 9 + x, n);
        }
    }

    /// Flip the error-highlighting flag. Display only: neither grid nor the
    /// cursor changes.
    pub fn toggle_show_wrong(&mut self)
        ensures
            final(self).show_wrong == !old(self).show_wrong,
            final(self).x == old(self).x,
            final(self).y == old(self).y,
            final(self).puzzle@ == old(self).puzzle@,
            final(self).solution@ == old(self).solution@,
            old(self).wf() ==> final(self).wf(),
    {
        self.show_wrong = !self.show_wrong;
    }

    /// Atomically replace both grids with the given pair, as when a new
    /// puzzle arrives from the generator; the cursor and the highlighting
    /// flag are left unchanged. The grids must be well-formed 9x9 boards.
    pub fn load_puzzle(&mut self, puzzle: Vec<u8>, solution: Vec<u8>)
        requires
            old(self).wf(),
            grid_wf(puzzle@),
            grid_wf(solution@),
        ensures
            final(self).wf(),
            final(self).puzzle@ == puzzle@,
            final(self).solution@ == solution@,
            final(self).x == old(self).x,
            final(self).y == old(self).y,
            final(self).show_wrong == old(self).show_wrong,
    {
        self.puzzle = puzzle;
        self.solution = solution;
    }

    /// The "peek" action: set every cell of the puzzle to the solution's
    /// value, then blank the cell under the cursor. The solution itself is
    /// untouched.
    pub fn test_complete(&mut self)
        requires
            old(self).wf(),
        ensures
            final(self).wf(),
            final(self).puzzle@ == old(self).solution@.update(old(self).cursor_cell(), 0u8),
            final(self).x == old(self).x,
            final(self).y == old(self).y,
            final(self).solution@ == old(self).solution@,
            final(self).show_wrong == old(self).show_wrong,
    {
        let cursor = (self.y as usize / 2) * 9 + self.x as usize / 4;
        let mut revealed: Vec<u8> = Vec::new();
        let mut i: usize = 0;
        while i < 81
            invariant
                self.wf(),
                cursor == self.cursor_cell(),
                i <= 81,
                revealed@.len() == i,
                forall|j: int|
                    0 <= j < i ==> revealed@[j] == (if j == cursor {
                        0u8
                    } else {
                        self.solution@[j]
                    }),
            decreases 81 - i,
        {
            if i == cursor {
                revealed.push(0);
            } else {
                revealed.push(self.solution[i]);
            }
            i += 1;
        }
        self.puzzle = revealed;
        proof {
            assert(self.puzzle@ =~= old(self).solution@.update(old(self).cursor_cell(), 0u8));
        }
    }

}

} // verus!
