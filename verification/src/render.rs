//! The render engine: what glyph and style each cell is drawn with.
//!
//! Nothing here touches a terminal. Every routine returns plain draw
//! instructions — a position, a character, a style — and the transport
//! around the library paints them. Redrawing an unchanged state therefore
//! yields identical output.

use vstd::prelude::*;
use crate::game::Game;

verus! {

/// The visual style a cell is drawn in.
#[derive(Clone, Copy, Debug, PartialEq, Eq, Structural)]
pub enum Style {
    /// An ordinary entry.
    Normal,
    /// An entry that disagrees with the solution, while highlighting is on.
    Error,
    /// Every cell once the whole puzzle matches the solution.
    Solved,
    /// An empty cell.
    Blank,
}

/// One draw instruction: put `glyph` at the terminal cell `(x, y)`, in
/// `style`.
#[derive(Clone, Copy, Debug, PartialEq, Eq, Structural)]
pub struct DrawCall {
    /// Terminal column.
    pub x: u16,
    /// Terminal row.
    pub y: u16,
    /// The character to draw.
    pub glyph: char,
    /// The style to draw it in.
    pub style: Style,
}

/// Whether the puzzle is completely and correctly filled in: every cell
/// equals the solution's.
pub open spec fn solved(g: Game) -> bool {
    forall|i: int| 0 <= i < 81 ==> g.puzzle@[i] == g.solution@[i]
}

/// The character a digit is drawn as.
pub open spec fn digit_char(v: u8) -> char {
    if v == 0 {
        '0'
    } else if v == 1 {
        '1'
    } else if v == 2 {
        '2'
    } else if v == 3 {
        '3'
    } else if v == 4 {
        '4'
    } else if v == 5 {
        '5'
    } else if v == 6 {
        '6'
    } else if v == 7 {
        '7'
    } else if v == 8 {
        '8'
    } else {
        '9'
    }
}

/// The style of cell `(row, col)`, decided in strict priority order: a
/// solved board beats everything, then emptiness, then a wrong entry while
/// highlighting is on, then the ordinary style.
pub open spec fn cell_style(g: Game, row: int, col: int) -> Style {
    if solved(g) {
        Style::Solved
    } else if g.puzzle@[row * 9 + col] == 0 {
        Style::Blank
    } else if g.show_wrong && g.puzzle@[row * 9 + col] != g.solution@[row * 9 + col] {
        Style::Error
    } else {
        Style::Normal
    }
}

/// The character cell `(row, col)` is drawn as: a space when the cell is
/// empty on an unsolved board, its digit otherwise.
pub open spec fn cell_glyph(g: Game, row: int, col: int) -> char {
    if !solved(g) && g.puzzle@[row * 9 + col] == 0 {
        ' '
    } else {
        digit_char(g.puzzle@[row * 9 + col])
    }
}

/// The draw instruction for cell `(row, col)`: board cell `(row, col)` sits
/// at terminal column `4 * col + 2` and terminal row `2 * row + 1`, leaving
/// room for the grid lines between cells.
pub open spec fn cell_draw(g: Game, row: int, col: int) -> DrawCall {
    DrawCall {
        x: (4 * col + 2) as u16,
        y: (2 * row + 1) as u16,
        glyph: cell_glyph(g, row, col),
        style: cell_style(g, row, col),
    }
}

/// The full render of a board: one instruction per cell, row-major.
pub open spec fn render_spec(g: Game) -> Seq<DrawCall> {
    Seq::new(81, |i: int| cell_draw(g, i / 9, i % 9))
}

/// Solved detection: once every puzzle cell matches the solution, every
/// cell of the full render is drawn in the solved style — whatever the
/// highlighting flag says.
pub proof fn lemma_solved_style(g: Game, row: int, col: int)
    requires
        solved(g),
        0 <= row < 9,
        0 <= col < 9,
    ensures
        cell_style(g, row, col) == Style::Solved,
        forall|b: bool|
            cell_style((Game { show_wrong: b, ..g }), row, col) == Style::Solved,
        forall|i: int| 0 <= i < 81 ==> (#[trigger] render_spec(g)[i]).style == Style::Solved,
{
    assert forall|b: bool|
        cell_style((Game { show_wrong: b, ..g }), row, col) == Style::Solved by {
        let flipped = Game { show_wrong: b, ..g };
        assert(flipped.puzzle@ == g.puzzle@ && flipped.solution@ == g.solution@);
        assert(solved(flipped));
    }
    assert forall|i: int| 0 <= i < 81 implies (#[trigger] render_spec(g)[i]).style
        == Style::Solved by {
        assert(render_spec(g)[i] == cell_draw(g, i / 9, i % 9));
    }
}

/// Error highlighting: a non-empty entry that disagrees with the solution
/// is drawn in the error style exactly when highlighting is on, and in the
/// ordinary style when it is off.
pub proof fn lemma_wrong_entry_style(g: Game, row: int, col: int)
    requires
        0 <= row < 9,
        0 <= col < 9,
        g.puzzle@.len() == 81,
        g.puzzle@[row * 9 + col] != g.solution@[row * 9 + col],
        g.puzzle@[row * 9 + col] != 0,
    ensures
        cell_style(g, row, col) == (if g.show_wrong {
            Style::Error
        } else {
            Style::Normal
        }),
        render_spec(g)[row * 9 + col].style == (if g.show_wrong {
            Style::Error
        } else {
            Style::Normal
        }),
{
    assert(g.puzzle@[row * 9 + col] != g.solution@[row * 9 + col]);
    assert(!solved(g));
    let i = row * 9 + col;
    assert(render_spec(g)[i] == cell_draw(g, i / 9, i % 9));
    assert(i / 9 == row && i % 9 == col) by (nonlinear_arith)
        requires
            0 <= row < 9 && 0 <= col < 9 && i == row * 9 + col,
    ;
}

impl Game {
    /// Whether the puzzle is completely and correctly filled in.
    pub fn is_solved(&self) -> (r: bool)
        requires
            self.wf(),
        ensures
            r == solved(*self),
    {
        let mut i: usize = 0;
        while i < 81
            invariant
                self.wf(),
                i <= 81,
                forall|j: int| 0 <= j < i ==> self.puzzle@[j] == self.solution@[j],
            decreases 81 - i,
        {
            if self.puzzle[i] != self.solution[i] {
                return false;
            }
            i += 1;
        }
        true
    }

    /// The full render of the board: one draw instruction for each of the
    /// 81 cells, row-major, each carrying the glyph and style the cell must
    /// show. The walk re-evaluates every cell, so redrawing an unchanged
    /// board emits exactly the same instructions.
    pub fn draw_numbers(&self) -> (calls: Vec<DrawCall>)
        requires
            self.wf(),
        ensures
            calls@ == render_spec(*self),
    {
        let solved_now = self.is_solved();
        let mut calls: Vec<DrawCall> = Vec::new();
        let mut i: usize = 0;
        while i < 81
            invariant
                self.wf(),
                solved_now == solved(*self),
                i <= 81,
                calls@.len() == i,
                forall|j: int| 0 <= j < i ==> calls@[j] == cell_draw(*self, j / 9, j % 9),
            decreases 81 - i,
        {
            let row = i / 9;
            let col = i % 9;
            let v = self.puzzle[i];
            let glyph = if !solved_now && v == 0 {
                ' '
            } else {
                digit_char_of(v)
            };
            let style = if solved_now {
                Style::Solved
            } else if v == 0 {
                Style::Blank
            } else if self.show_wrong && v != self.solution[i] {
                Style::Error
            } else {
                Style::Normal
            };
            let call = DrawCall {
                x: (4 * col + 2) as u16,
                y: (2 * row + 1) as u16,
                glyph,
                style,
            };
            proof {
                assert(row * 9 + col == i);
                assert(call == cell_draw(*self, i as int / 9, i as int % 9));
            }
            calls.push(call);
            i += 1;
        }
        proof {
            assert(calls@ =~= render_spec(*self));
        }
        calls
    }
}

/// The terminal positions the static grid lines occupy: the board is 37
/// columns by 19 rows, and everything but the cell interiors (odd rows at
/// columns off the multiples of four) is a line character.
pub open spec fn on_grid_lines(x: int, y: int) -> bool {
    0 <= x <= 36 && 0 <= y <= 18 && (x % 4 == 0 || y % 2 == 0)
}

/// The box-drawing character at a grid-line position: heavy strokes on the
/// outer border and between the three-by-three boxes, light strokes between
/// cells, with the fitting corner, tee and crossing characters where they
/// meet.
pub open spec fn grid_glyph(x: int, y: int) -> char {
    if x == 0 && y == 0 {
        '┏'
    } else if x == 36 && y == 0 {
        '┓'
    } else if x == 0 && y == 18 {
        '┗'
    } else if x == 36 && y == 18 {
        '┛'
    } else if y == 0 {
        if x % 4 == 0 {
            if x % 12 == 0 {
                '┳'
            } else {
                '┯'
            }
        } else {
            '━'
        }
    } else if y == 18 {
        if x % 4 == 0 {
            if x % 12 == 0 {
                '┻'
            } else {
                '┷'
            }
        } else {
            '━'
        }
    } else if x == 0 {
        if y % 2 == 0 {
            if y % 3 == 0 {
                '┣'
            } else {
                '┠'
            }
        } else {
            '┃'
        }
    } else if x == 36 {
        if y % 2 == 0 {
            if y % 3 == 0 {
                '┫'
            } else {
                '┨'
            }
        } else {
            '┃'
        }
    } else if x % 4 == 0 {
        if y % 2 == 0 {
            if x % 3 == 0 {
                if y % 3 == 0 {
                    '╋'
                } else {
                    '╂'
                }
            } else {
                if y % 3 == 0 {
                    '┿'
                } else {
                    '┼'
                }
            }
        } else {
            if x % 3 == 0 {
                '┃'
            } else {
                '│'
            }
        }
    } else {
        if y % 3 == 0 {
            '━'
        } else {
            '─'
        }
    }
}

/// A draw instruction of the grid picture that belongs there: it sits on a
/// grid-line position and carries that position's character.
pub open spec fn valid_grid_line(e: (u16, u16, char)) -> bool {
    on_grid_lines(e.0 as int, e.1 as int) && e.2 == grid_glyph(e.0 as int, e.1 as int)
}

/// Whether some instruction in `s` draws position `(x, y)`.
pub open spec fn covers(s: Seq<(u16, u16, char)>, x: int, y: int) -> bool {
    exists|i: int| 0 <= i < s.len() && s[i].0 == x && s[i].1 == y
}

proof fn lemma_covers_push(s: Seq<(u16, u16, char)>, e: (u16, u16, char), x: int, y: int)
    requires
        covers(s, x, y),
    ensures
        covers(s.push(e), x, y),
{
    let i = choose|i: int| 0 <= i < s.len() && s[i].0 == x && s[i].1 == y;
    assert(s.push(e)[i] == s[i]);
}

/// The static grid picture, painted once at startup: every draw instruction
/// puts the right line character on a grid-line position, and every
/// grid-line position is drawn. The cell interiors are left alone.
pub fn draw_grid() -> (lines: Vec<(u16, u16, char)>)
    ensures
        forall|i: int| 0 <= i < lines@.len() ==> valid_grid_line(#[trigger] lines@[i]),
        forall|x: int, y: int| on_grid_lines(x, y) ==> #[trigger] covers(lines@, x, y),
{
    let mut lines: Vec<(u16, u16, char)> = Vec::new();
    let mut y: u16 = 0;
    while y < 19
        invariant
            y <= 19,
            forall|i: int| 0 <= i < lines@.len() ==> valid_grid_line(#[trigger] lines@[i]),
            forall|x2: int, y2: int|
                on_grid_lines(x2, y2) && y2 < y ==> #[trigger] covers(lines@, x2, y2),
        decreases 19 - y,
    {
        let mut x: u16 = 0;
        while x < 37
            invariant
                y < 19,
                x <= 37,
                forall|i: int| 0 <= i < lines@.len() ==> valid_grid_line(#[trigger] lines@[i]),
                forall|x2: int, y2: int|
                    on_grid_lines(x2, y2) && y2 < y ==> #[trigger] covers(lines@, x2, y2),
                forall|x2: int|
                    on_grid_lines(x2, y as int) && x2 < x ==> #[trigger] covers(
                        lines@,
                        x2,
                        y as int,
                    ),
            decreases 37 - x,
        {
            if x % 4 == 0 || y % 2 == 0 {
                let glyph = grid_glyph_of(x, y);
                let ghost pre = lines@;
                lines.push((x, y, glyph));
                proof {
                    assert(lines@[pre.len() as int] == (x, y, glyph));
                    assert(covers(lines@, x as int, y as int));
                    assert forall|x2: int, y2: int| on_grid_lines(x2, y2) && y2 < y implies covers(
                        lines@,
                        x2,
                        y2,
                    ) by {
                        assert(covers(pre, x2, y2));
                        lemma_covers_push(pre, (x, y, glyph), x2, y2);
                    }
                    assert forall|x2: int| on_grid_lines(x2, y as int) && x2 <= x implies covers(
                        lines@,
                        x2,
                        y as int,
                    ) by {
                        if x2 < x {
                            assert(covers(pre, x2, y as int));
                            lemma_covers_push(pre, (x, y, glyph), x2, y as int);
                        }
                    }
                }
            }
            x += 1;
        }
        y += 1;
    }
    lines
}

/// The box-drawing character at a grid-line position.
fn grid_glyph_of(x: u16, y: u16) -> (c: char)
    requires
        on_grid_lines(x as int, y as int),
    ensures
        c == grid_glyph(x as int, y as int),
{
    if x == 0 && y == 0 {
        '┏'
    } else if x == 36 && y == 0 {
        '┓'
    } else if x == 0 && y == 18 {
        '┗'
    } else if x == 36 && y == 18 {
        '┛'
    } else if y == 0 {
        if x % 4 == 0 {
            if x % 12 == 0 {
                '┳'
            } else {
                '┯'
            }
        } else {
            '━'
        }
    } else if y == 18 {
        if x % 4 == 0 {
            if x % 12 == 0 {
                '┻'
            } else {
                '┷'
            }
        } else {
            '━'
        }
    } else if x == 0 {
        if y % 2 == 0 {
            if y % 3 == 0 {
                '┣'
            } else {
                '┠'
            }
        } else {
            '┃'
        }
    } else if x == 36 {
        if y % 2 == 0 {
            if y % 3 == 0 {
                '┫'
            } else {
                '┨'
            }
        } else {
            '┃'
        }
    } else if x % 4 == 0 {
        if y % 2 == 0 {
            if x % 3 == 0 {
                if y % 3 == 0 {
                    '╋'
                } else {
                    '╂'
                }
            } else {
                if y % 3 == 0 {
                    '┿'
                } else {
                    '┼'
                }
            }
        } else {
            if x % 3 == 0 {
                '┃'
            } else {
                '│'
            }
        }
    } else {
        if y % 3 == 0 {
            '━'
        } else {
            '─'
        }
    }
}

/// The character a digit is drawn as.
fn digit_char_of(v: u8) -> (c: char)
    requires
        v <= 9,
    ensures
        c == digit_char(v),
{
    if v == 0 {
        '0'
    } else if v == 1 {
        '1'
    } else if v == 2 {
        '2'
    } else if v == 3 {
        '3'
    } else if v == 4 {
        '4'
    } else if v == 5 {
        '5'
    } else if v == 6 {
        '6'
    } else if v == 7 {
        '7'
    } else if v == 8 {
        '8'
    } else {
        '9'
    }
}

} // verus!
