use sudoku_tui::game::Game;

/// A valid, fully solved grid, row-major.
fn sample_solution() -> Vec<u8> {
    let mut v = Vec::new();
    for r in 0..9usize {
        let start = (r * 3 + r / 3) % 9;
        for c in 0..9usize {
            v.push(((start + c) % 9 + 1) as u8);
        }
    }
    v
}

/// A board state with the cursor at the top-left cell and highlighting off.
fn make_game(puzzle: Vec<u8>, solution: Vec<u8>) -> Game {
    let g = Game { x: 2, y: 1, puzzle, solution, show_wrong: false };
    assert!(g.check_wf());
    g
}

#[test]
fn cursor_clamps_at_edges() {
    let mut g = make_game(vec![0u8; 81], sample_solution());
    assert_eq!((g.x, g.y), (2, 1));

    // Moves at the top-left boundary do nothing, however often repeated.
    g.move_up();
    g.move_up();
    g.move_left();
    assert_eq!((g.x, g.y), (2, 1));

    // Walk to the bottom-right corner: eight steps each way suffice.
    for _ in 0..8 {
        g.move_down();
        g.move_right();
    }
    assert_eq!((g.x, g.y), (34, 17));

    // And the bottom-right boundary clamps too.
    g.move_down();
    g.move_right();
    assert_eq!((g.x, g.y), (34, 17));

    // One step back from the boundary still works.
    g.move_up();
    g.move_left();
    assert_eq!((g.x, g.y), (30, 15));
    assert!(g.check_wf());
}

#[test]
fn set_digit_reads_back() {
    let mut g = make_game(vec![0u8; 81], sample_solution());
    // Cursor on cell (0, 0): every digit written is read back, whatever was
    // there before.
    for n in 0..=9u8 {
        g.set_number(n);
        assert_eq!(g.puzzle[0], n);
    }
    g.set_number(7);
    assert_eq!(g.puzzle[0], 7);

    // A value that is no digit is ignored.
    g.set_number(10);
    assert_eq!(g.puzzle[0], 7);

    // The write lands on the cell under the cursor, nowhere else.
    g.move_down();
    g.move_right();
    g.set_number(4);
    assert_eq!(g.puzzle[10], 4);
    assert_eq!(g.puzzle[0], 7);
    assert_eq!(g.puzzle.iter().filter(|&&v| v != 0).count(), 2);
}

#[test]
fn load_puzzle_replaces_both_grids() {
    let mut g = make_game(vec![0u8; 81], sample_solution());
    g.move_down();
    g.toggle_show_wrong();

    let mut p = vec![0u8; 81];
    p[17] = 3;
    p[80] = 9;
    let s = sample_solution();
    g.load_puzzle(p.clone(), s.clone());

    // Both grids equal the loaded pair exactly; nothing of the old state
    // shines through, and cursor and flag are untouched.
    assert_eq!(g.puzzle, p);
    assert_eq!(g.solution, s);
    assert_eq!((g.x, g.y), (2, 3));
    assert!(g.show_wrong);
}

#[test]
fn reveal_except_cursor_blanks_one_cell() {
    let s = sample_solution();
    let mut g = make_game(vec![0u8; 81], s.clone());
    g.move_down();
    g.move_right();
    g.test_complete();

    // Every cell equals the solution, except the cursor cell, which is 0.
    for i in 0..81 {
        if i == 10 {
            assert_eq!(g.puzzle[i], 0);
        } else {
            assert_eq!(g.puzzle[i], s[i]);
        }
    }
    // The solution itself is unchanged.
    assert_eq!(g.solution, s);
}

#[test]
fn toggle_changes_only_the_flag() {
    let mut p = vec![0u8; 81];
    p[5] = 2;
    let s = sample_solution();
    let mut g = make_game(p.clone(), s.clone());

    g.toggle_show_wrong();
    assert!(g.show_wrong);
    g.toggle_show_wrong();
    assert!(!g.show_wrong);

    // Grid values and cursor never move with the flag.
    assert_eq!(g.puzzle, p);
    assert_eq!(g.solution, s);
    assert_eq!((g.x, g.y), (2, 1));
}

#[test]
fn new_session_is_well_formed() {
    let g = Game::new();
    assert_eq!((g.x, g.y), (2, 1));
    assert!(!g.show_wrong);
    assert!(g.check_wf());
    assert_eq!(g.puzzle.len(), 81);
    assert_eq!(g.solution.len(), 81);
    // The generator's boards parse into digits 0..=9.
    assert!(g.puzzle.iter().all(|&v| v <= 9));
    assert!(g.solution.iter().all(|&v| v <= 9));
}
