use rt::glyph::Glyph;
use rt::term::Term;

fn blank_cell(fg: u32, bg: u32) -> Glyph {
    Glyph { u: 32, mode: 0, fg, bg }
}

#[test]
fn resize_rejects_empty_dimensions() {
    let mut t = Term::tnew(80, 24, 8, 7, 0);
    t.tsetchar('A' as u32, 5, 5);
    assert!(!t.tresize(0, 24));
    assert!(!t.tresize(80, -1));
    assert_eq!(t.col, 80);
    assert_eq!(t.row, 24);
    assert_eq!(t.cell(5, 5).u, 'A' as u32);
}

#[test]
fn resize_is_idempotent() {
    let mut t = Term::tnew(80, 24, 8, 7, 0);
    for y in 0..24 {
        t.tsetchar(('a' as u8 + (y as u8 % 26)) as u32, y % 40, y);
    }
    t.tmoveto(12, 7);
    assert!(t.tresize(40, 30));
    let cells: Vec<Vec<Glyph>> = (0..30)
        .map(|y| (0..40).map(|x| t.cell(x, y)).collect())
        .collect();
    let cursor = (t.c.x, t.c.y);
    let tabs = t.tabs.clone();
    assert!(t.tresize(40, 30));
    for y in 0..30 {
        for x in 0..40 {
            assert_eq!(t.cell(x, y), cells[y as usize][x as usize], "cell {},{}", x, y);
        }
    }
    assert_eq!((t.c.x, t.c.y), cursor);
    assert_eq!(t.tabs, tabs);
}

#[test]
fn shrinking_rows_keeps_cursor_row() {
    let mut t = Term::tnew(80, 24, 8, 7, 0);
    t.tmoveto(0, 20);
    for x in 0..10 {
        t.tsetchar(('0' as u8 + x as u8) as u32, x, 20);
    }
    // Ten rows: the cursor's row (20) slides to the new bottom row.
    assert!(t.tresize(80, 10));
    assert_eq!(t.c.y, 9);
    for x in 0..10 {
        assert_eq!(t.cell(x, 9).u, ('0' as u8 + x as u8) as u32, "column {}", x);
    }
}

#[test]
fn shrinking_without_cursor_pressure_drops_bottom_rows() {
    let mut t = Term::tnew(80, 24, 8, 7, 0);
    t.tsetchar('T' as u32, 0, 0);
    t.tsetchar('B' as u32, 0, 23);
    t.tmoveto(0, 0);
    assert!(t.tresize(80, 10));
    // The cursor was on row 0, so nothing slides: the top rows survive.
    assert_eq!(t.cell(0, 0).u, 'T' as u32);
    assert_eq!(t.c.y, 0);
}

#[test]
fn shrink_then_rewiden_blanks_expanded_columns() {
    // 80x24 to 40x24 and back: columns 40..=79 of every kept row hold the
    // default blank cell afterwards; the engine clears, it does not
    // restore.
    let mut t = Term::tnew(80, 24, 8, 7, 0);
    for y in 0..24 {
        for x in 0..80 {
            t.tsetchar('X' as u32, x, y);
        }
    }
    assert!(t.tresize(40, 24));
    assert!(t.tresize(80, 24));
    for y in 0..24 {
        for x in 0..40 {
            assert_eq!(t.cell(x, y).u, 'X' as u32);
        }
        for x in 40..80 {
            assert_eq!(t.cell(x, y), blank_cell(7, 0), "cell {},{}", x, y);
        }
    }
}

#[test]
fn widening_extends_tab_stops_in_new_range_only() {
    let mut t = Term::tnew(10, 5, 8, 7, 0);
    assert!(t.tresize(30, 5));
    // Stops kept at their old columns (only column 8 below 10), and added
    // at multiples of the tab width in the new range.
    for i in 0..30usize {
        assert_eq!(t.tabs[i], i != 0 && i % 8 == 0, "tab stop at {}", i);
    }
    assert_eq!(t.tabs.len(), 30);
}

#[test]
fn narrowing_truncates_tab_stops() {
    let mut t = Term::tnew(30, 5, 8, 7, 0);
    assert!(t.tresize(10, 5));
    assert_eq!(t.tabs.len(), 10);
    for i in 0..10usize {
        assert_eq!(t.tabs[i], i == 8);
    }
}

#[test]
fn resize_dirties_everything_and_resets_scroll_region() {
    let mut t = Term::tnew(80, 24, 8, 7, 0);
    t.tsetscroll(3, 9);
    let _ = t.drawregion(0, 24);
    assert!(t.tresize(60, 30));
    assert_eq!((t.top, t.bot), (0, 29));
    for y in 0..30usize {
        assert!(t.dirty[y]);
    }
    assert_eq!(t.dirty.len(), 30);
}

#[test]
fn resize_clears_new_rows_on_both_screens() {
    let mut t = Term::tnew(10, 5, 8, 7, 0);
    assert!(t.tresize(12, 8));
    for y in 5..8 {
        for x in 0..12 {
            assert_eq!(t.cell(x, y), blank_cell(7, 0));
            assert_eq!(t.alt_cell(x, y), blank_cell(7, 0));
        }
    }
    for y in 0..5 {
        for x in 10..12 {
            assert_eq!(t.cell(x, y), blank_cell(7, 0));
            assert_eq!(t.alt_cell(x, y), blank_cell(7, 0));
        }
    }
}

#[test]
fn resize_clears_active_screen_with_cursor_colors() {
    let mut t = Term::tnew(10, 5, 8, 7, 0);
    t.c.attr.fg = 2;
    t.c.attr.bg = 6;
    assert!(t.tresize(12, 5));
    assert_eq!(t.cell(11, 0), blank_cell(2, 6));
    // The inactive screen is cleared with its own saved cursor's colors,
    // which the last reset left at the defaults.
    assert_eq!(t.alt_cell(11, 0), blank_cell(7, 0));
}

#[test]
fn resize_keeps_cursor_column_when_possible() {
    let mut t = Term::tnew(80, 24, 8, 7, 0);
    t.tmoveto(50, 3);
    assert!(t.tresize(40, 24));
    assert_eq!((t.c.x, t.c.y), (39, 3));
    assert!(!t.c.wrapnext);
}

#[test]
fn one_by_one_grid_works() {
    let mut t = Term::tnew(1, 1, 8, 7, 0);
    assert_eq!((t.col, t.row), (1, 1));
    assert_eq!((t.top, t.bot), (0, 0));
    t.tsetchar('Q' as u32, 0, 0);
    assert_eq!(t.cell(0, 0).u, 'Q' as u32);
    t.tmoveto(5, 5);
    assert_eq!((t.c.x, t.c.y), (0, 0));
    assert!(t.tresize(2, 2));
    assert_eq!(t.cell(0, 0).u, 'Q' as u32);
    assert_eq!(t.cell(1, 1), blank_cell(7, 0));
    assert!(t.tresize(1, 1));
    assert_eq!(t.cell(0, 0).u, 'Q' as u32);
}

#[test]
fn resize_with_cursor_on_bottom_row_slides_fully() {
    let mut t = Term::tnew(10, 6, 8, 7, 0);
    for y in 0..6 {
        t.tsetchar(('0' as u8 + y as u8) as u32, 0, y);
    }
    t.tmoveto(0, 5);
    // Shrinking to two rows with the cursor on the last row keeps the two
    // newest rows.
    assert!(t.tresize(10, 2));
    assert_eq!(t.cell(0, 0).u, '4' as u32);
    assert_eq!(t.cell(0, 1).u, '5' as u32);
    assert_eq!(t.c.y, 1);
}
