//! Parsing the textual form of a board into a grid of cell values.
//!
//! The puzzle generator prints a board as nine lines, each cell written as
//! its digit or as `.` for an empty cell, with spaces and line breaks in
//! between. The grid is read from that text: layout characters are dropped,
//! and the 81 remaining characters are the cells in row-major order.

use vstd::prelude::*;
use crate::game::grid_wf;

verus! {

/// A character that carries a cell, as opposed to layout.
pub open spec fn is_payload_char(c: char) -> bool {
    c != ' ' && c != '\n'
}

/// The cell characters of a board text: the text with layout removed.
pub open spec fn board_cells_text(s: Seq<char>) -> Seq<char> {
    s.filter(|c: char| c != ' ' && c != '\n')
}

/// A character that denotes one cell: `.` for empty or a digit 1..=9.
pub open spec fn is_cell_char(c: char) -> bool {
    c == '.' || ('1' as u32 <= c as u32 && c as u32 <= '9' as u32)
}

/// The cell value a cell character denotes.
pub open spec fn cell_char_value(c: char) -> u8 {
    if c == '.' {
        0u8
    } else {
        (c as u32 - '0' as u32) as u8
    }
}

/// A board text is well-formed when exactly 81 cell characters remain after
/// dropping layout, each one a `.` or a digit 1..=9.
pub open spec fn is_board_text(s: Seq<char>) -> bool {
    &&& board_cells_text(s).len() == 81
    &&& forall|i: int| 0 <= i < 81 ==> is_cell_char(#[trigger] board_cells_text(s)[i])
}

/// The grid a well-formed board text denotes, row-major.
pub open spec fn grid_of_text(s: Seq<char>) -> Seq<u8> {
    board_cells_text(s).map_values(|c: char| cell_char_value(c))
}

/// Read a grid from the characters of a board text. Returns the 81 cell
/// values in row-major order exactly when the text is a well-formed board;
/// any other text is rejected.
pub fn parse_grid(text: &Vec<char>) -> (r: Option<Vec<u8>>)
    ensures
        r is Some <==> is_board_text(text@),
        r matches Some(g) ==> g@ == grid_of_text(text@) && grid_wf(g@),
{
    let ghost pred = |c: char| c != ' ' && c != '\n';
    let mut cells: Vec<u8> = Vec::new();
    let mut i: usize = 0;
    while i < text.len()
        invariant
            i <= text@.len(),
            cells@.len() == board_cells_text(text@.subrange(0, i as int)).len(),
            forall|j: int|
                0 <= j < cells@.len() ==> is_cell_char(
                    #[trigger] board_cells_text(text@.subrange(0, i as int))[j],
                ) && cells@[j] == cell_char_value(
                    board_cells_text(text@.subrange(0, i as int))[j],
                ),
            forall|j: int| 0 <= j < cells@.len() ==> #[trigger] cells@[j] <= 9,
        decreases text@.len() - i,
    {
        let c = text[i];
        proof {
            reveal(Seq::filter);
            assert(text@.subrange(0, i + 1).drop_last() =~= text@.subrange(0, i as int));
            assert(text@.subrange(0, i + 1).last() == c);
        }
        if c != ' ' && c != '\n' {
            if c == '.' {
                cells.push(0);
            } else if c as u32 >= '1' as u32 && c as u32 <= '9' as u32 {
                cells.push((c as u32 - '0' as u32) as u8);
            } else {
                // A payload character that is no cell character: the text is
                // not a board, whatever follows.
                proof {
                    let whole = board_cells_text(text@);
                    let pre = board_cells_text(text@.subrange(0, i + 1));
                    assert(text@ =~= text@.subrange(0, i + 1) + text@.subrange(
                        i + 1,
                        text@.len() as int,
                    ));
                    Seq::filter_distributes_over_add(
                        text@.subrange(0, i + 1),
                        text@.subrange(i + 1, text@.len() as int),
                        pred,
                    );
                    let bad = pre.len() - 1;
                    assert(pre[bad] == c);
                    assert(whole[bad] == c);
                    assert(!is_cell_char(whole[bad]));
                }
                return None;
            }
        }
        i += 1;
    }
    proof {
        assert(text@.subrange(0, text@.len() as int) =~= text@);
    }
    if cells.len() != 81 {
        return None;
    }
    proof {
        assert(cells@ =~= grid_of_text(text@));
    }
    Some(cells)
}

} // verus!
