use sudoku_tui::parse::parse_grid;

fn chars_of(s: &str) -> Vec<char> {
    s.chars().collect()
}

/// A board text as the generator prints one: digit or dot per cell, a space
/// after each, one line per row.
fn board_text(cells: &[u8]) -> String {
    let mut out = String::new();
    for (i, &v) in cells.iter().enumerate() {
        if v == 0 {
            out.push('.');
        } else {
            out.push(char::from(b'0' + v));
        }
        out.push(' ');
        if i % 9 == 8 {
            out.push('\n');
        }
    }
    out
}

#[test]
fn parses_a_printed_board() {
    let mut cells = vec![0u8; 81];
    cells[0] = 5;
    cells[10] = 1;
    cells[42] = 9;
    cells[80] = 7;
    let text = chars_of(&board_text(&cells));
    let grid = parse_grid(&text).expect("a printed board parses");
    assert_eq!(grid, cells);
}

#[test]
fn layout_characters_do_not_matter() {
    // The same 81 cells, once tightly packed and once spread out.
    let packed: String =
        "123456789".repeat(9).chars().collect();
    let spread: String = packed
        .chars()
        .map(|c| format!(" {c} \n"))
        .collect();
    let a = parse_grid(&chars_of(&packed)).expect("packed parses");
    let b = parse_grid(&chars_of(&spread)).expect("spread parses");
    assert_eq!(a, b);
    assert_eq!(a[0], 1);
    assert_eq!(a[8], 9);
}

#[test]
fn rejects_texts_that_are_no_board() {
    // Too few cells.
    assert!(parse_grid(&chars_of(&"1".repeat(80))).is_none());
    // Too many cells.
    assert!(parse_grid(&chars_of(&"1".repeat(82))).is_none());
    // A character that is no cell: '0' is not how an empty cell is written.
    let mut bad = "1".repeat(81);
    bad.replace_range(3..4, "0");
    assert!(parse_grid(&chars_of(&bad)).is_none());
    // A letter in place of a cell.
    let mut bad = "1".repeat(81);
    bad.replace_range(77..78, "x");
    assert!(parse_grid(&chars_of(&bad)).is_none());
    // The empty text.
    assert!(parse_grid(&Vec::new()).is_none());
}
