use rt::between;
use rt::clamp;
use rt::glyph::attrcmp;
use rt::glyph::Glyph;
use rt::glyph::ATTR_BLINK;
use rt::glyph::ATTR_BOLD;
use rt::term::CursorOp;
use rt::term::Term;

fn blank_cell(fg: u32, bg: u32) -> Glyph {
    Glyph { u: 32, mode: 0, fg, bg }
}

#[test]
fn between_bounds() {
    assert!(between(3, 1, 5));
    assert!(between(1, 1, 5));
    assert!(between(5, 1, 5));
    assert!(!between(0, 1, 5));
    assert!(!between(6, 1, 5));
}

#[test]
fn clamp_bounds() {
    assert_eq!(clamp(-3, 0, 10), 0);
    assert_eq!(clamp(4, 0, 10), 4);
    assert_eq!(clamp(11, 0, 10), 10);
}

#[test]
fn attrcmp_compares_style_not_codepoint() {
    let a = Glyph { u: 65, mode: ATTR_BOLD, fg: 1, bg: 2 };
    let b = Glyph { u: 66, mode: ATTR_BOLD, fg: 1, bg: 2 };
    assert!(!attrcmp(a, b));
    let c = Glyph { u: 65, mode: 0, fg: 1, bg: 2 };
    assert!(attrcmp(a, c));
    let d = Glyph { u: 65, mode: ATTR_BOLD, fg: 3, bg: 2 };
    assert!(attrcmp(a, d));
}

#[test]
fn new_terminal_is_fully_reset() {
    let t = Term::tnew(20, 4, 8, 7, 0);
    assert_eq!(t.col, 20);
    assert_eq!(t.row, 4);
    assert_eq!(t.c.x, 0);
    assert_eq!(t.c.y, 0);
    assert!(!t.c.wrapnext);
    assert!(!t.c.origin);
    assert_eq!(t.top, 0);
    assert_eq!(t.bot, 3);
    assert!(t.wrap);
    assert!(t.utf8);
    assert!(!t.altscreen);
    for y in 0..4i32 {
        assert!(t.dirty[y as usize]);
        for x in 0..20i32 {
            assert_eq!(t.cell(x, y), blank_cell(7, 0));
            assert_eq!(t.alt_cell(x, y), blank_cell(7, 0));
        }
    }
    // Default tab stops at positive multiples of the tab width.
    for i in 0..20usize {
        assert_eq!(t.tabs[i], i != 0 && i % 8 == 0, "tab stop at {}", i);
    }
}

#[test]
fn reset_restores_default_state() {
    let mut t = Term::tnew(10, 5, 8, 7, 0);
    t.tsetchar('A' as u32, 3, 2);
    t.tmoveto(9, 4);
    t.c.attr.fg = 3;
    t.tswapscreen();
    t.tsetchar('B' as u32, 1, 1);
    t.treset();
    assert_eq!(t.c.x, 0);
    assert_eq!(t.c.y, 0);
    assert_eq!(t.c.attr.fg, 7);
    assert_eq!(t.c.attr.bg, 0);
    assert!(!t.altscreen);
    assert_eq!(t.top, 0);
    assert_eq!(t.bot, 4);
    for y in 0..5i32 {
        assert!(t.dirty[y as usize]);
        for x in 0..10i32 {
            assert_eq!(t.cell(x, y), blank_cell(7, 0));
            assert_eq!(t.alt_cell(x, y), blank_cell(7, 0));
        }
    }
    assert_eq!(t.saved_main, t.c);
    assert_eq!(t.saved_alt, t.c);
}

#[test]
fn moveto_clamps_and_clears_pending_wrap() {
    let mut t = Term::tnew(80, 24, 8, 7, 0);
    t.c.wrapnext = true;
    t.tmoveto(100, -5);
    assert_eq!(t.c.x, 79);
    assert_eq!(t.c.y, 0);
    assert!(!t.c.wrapnext);
    t.tmoveto(-1, 100);
    assert_eq!(t.c.x, 0);
    assert_eq!(t.c.y, 23);
    t.tmoveto(10, 10);
    assert_eq!(t.c.x, 10);
    assert_eq!(t.c.y, 10);
}

#[test]
fn moveto_confined_by_origin_mode() {
    let mut t = Term::tnew(80, 24, 8, 7, 0);
    t.tsetscroll(5, 10);
    t.c.origin = true;
    t.tmoveto(0, 0);
    assert_eq!(t.c.y, 5);
    t.tmoveto(0, 23);
    assert_eq!(t.c.y, 10);
}

#[test]
fn save_move_load_restores_cursor() {
    let mut t = Term::tnew(80, 24, 8, 7, 0);
    t.tmoveto(17, 11);
    t.c.attr.fg = 5;
    t.tcursor(CursorOp::Save);
    t.c.attr.fg = 9;
    t.tmoveto(1000, -1000);
    assert_eq!(t.c.x, 79);
    assert_eq!(t.c.y, 0);
    t.tcursor(CursorOp::Load);
    assert_eq!(t.c.x, 17);
    assert_eq!(t.c.y, 11);
    assert_eq!(t.c.attr.fg, 5);
}

#[test]
fn each_screen_has_its_own_saved_cursor() {
    let mut t = Term::tnew(80, 24, 8, 7, 0);
    t.tmoveto(3, 4);
    t.tcursor(CursorOp::Save);
    t.tswapscreen();
    t.tmoveto(10, 20);
    t.tcursor(CursorOp::Save);
    t.tmoveto(0, 0);
    t.tcursor(CursorOp::Load);
    assert_eq!((t.c.x, t.c.y), (10, 20));
    t.tswapscreen();
    t.tcursor(CursorOp::Load);
    assert_eq!((t.c.x, t.c.y), (3, 4));
}

#[test]
fn clearregion_normalizes_clamps_and_uses_cursor_colors() {
    let mut t = Term::tnew(10, 5, 8, 7, 0);
    let _ = t.drawregion(0, 5);
    t.tsetchar('A' as u32, 2, 1);
    t.tsetchar('B' as u32, 9, 4);
    t.c.attr.fg = 3;
    t.c.attr.bg = 4;
    // Corners in the wrong order and far out of bounds: clamped to the
    // rectangle (2..=9) x (1..=4).
    t.tclearregion(100, 4, 2, 1);
    for y in 1..5i32 {
        assert!(t.dirty[y as usize], "row {} dirty", y);
        for x in 2..10i32 {
            assert_eq!(t.cell(x, y), blank_cell(3, 4));
        }
    }
    assert!(!t.dirty[0]);
    // Cells left of the rectangle keep the default colors.
    assert_eq!(t.cell(1, 1), blank_cell(7, 0));
}

#[test]
fn setchar_writes_through_cursor_template() {
    let mut t = Term::tnew(10, 5, 8, 7, 0);
    let _ = t.drawregion(0, 5);
    t.c.attr.mode = ATTR_BOLD;
    t.c.attr.fg = 2;
    t.tsetchar('Z' as u32, 4, 3);
    assert_eq!(t.cell(4, 3), Glyph { u: 'Z' as u32, mode: ATTR_BOLD, fg: 2, bg: 0 });
    assert!(t.dirty[3]);
    assert!(!t.dirty[2]);
}

#[test]
fn swapscreen_toggles_buffers_and_dirties_all() {
    let mut t = Term::tnew(10, 5, 8, 7, 0);
    t.tsetchar('A' as u32, 0, 0);
    let _ = t.drawregion(0, 5);
    t.tswapscreen();
    assert!(t.altscreen);
    assert_eq!(t.cell(0, 0), blank_cell(7, 0));
    assert_eq!(t.alt_cell(0, 0).u, 'A' as u32);
    for y in 0..5usize {
        assert!(t.dirty[y]);
    }
    t.tswapscreen();
    assert!(!t.altscreen);
    assert_eq!(t.cell(0, 0).u, 'A' as u32);
}

#[test]
fn damage_marks_accumulate_until_drawn() {
    let mut t = Term::tnew(80, 24, 8, 7, 0);
    let _ = t.drawregion(0, 24);
    t.tsetdirt(2, 4);
    t.tsetchar('A' as u32, 0, 10);
    // Both marks stand: damage only accumulates between draws.
    for y in 0..24usize {
        let expect = (2..=4).contains(&y) || y == 10;
        assert_eq!(t.dirty[y], expect, "row {}", y);
    }
    let rows = t.drawregion(0, 24);
    assert_eq!(rows, vec![2, 3, 4, 10]);
    for y in 0..24usize {
        assert!(!t.dirty[y]);
    }
}

#[test]
fn write_one_cell_dirties_one_row() {
    // An 80x24 grid: writing 'A' at (0,0) dirties row 0 alone, and a draw
    // pass leaves it clean again.
    let mut t = Term::tnew(80, 24, 8, 7, 0);
    let _ = t.drawregion(0, 24);
    t.tsetchar('A' as u32, 0, 0);
    assert!(t.dirty[0]);
    for y in 1..24usize {
        assert!(!t.dirty[y], "row {} must stay clean", y);
    }
    let rows = t.drawregion(0, 24);
    assert_eq!(rows, vec![0]);
    assert!(!t.dirty[0]);
}

#[test]
fn setdirt_clamps_range() {
    let mut t = Term::tnew(10, 5, 8, 7, 0);
    let _ = t.drawregion(0, 5);
    t.tsetdirt(-10, 1);
    assert!(t.dirty[0] && t.dirty[1]);
    assert!(!t.dirty[2]);
    t.tsetdirt(4, 100);
    assert!(t.dirty[4]);
    assert!(!t.dirty[3]);
}

#[test]
fn consume_row_reports_and_clears() {
    let mut t = Term::tnew(10, 5, 8, 7, 0);
    t.tfulldirt();
    assert!(t.consume_row(3));
    assert!(!t.consume_row(3));
    assert!(t.dirty[2]);
}

#[test]
fn blink_attribute_scan_and_dirtying() {
    let mut t = Term::tnew(10, 5, 8, 7, 0);
    let _ = t.drawregion(0, 5);
    assert!(!t.tattrset(ATTR_BLINK));
    t.c.attr.mode = ATTR_BLINK;
    t.tsetchar('C' as u32, 9, 4);
    assert!(t.tattrset(ATTR_BLINK));
    let _ = t.drawregion(0, 5);
    t.tsetdirtattr(ATTR_BLINK);
    for y in 0..5usize {
        assert_eq!(t.dirty[y], y == 4, "row {}", y);
    }
}

#[test]
fn draw_prepare_steps_off_wide_dummy_and_tracks_movement() {
    let mut t = Term::tnew(10, 5, 8, 7, 0);
    let p = t.draw_prepare();
    assert_eq!((p.x, p.y, p.ox, p.oy), (0, 0, 0, 0));
    assert!(!p.moved);
    t.tmoveto(3, 2);
    let p2 = t.draw_prepare();
    assert_eq!((p2.x, p2.y), (3, 2));
    assert_eq!((p2.ox, p2.oy), (0, 0));
    assert!(p2.moved);
    assert_eq!((t.ocx, t.ocy), (3, 2));
    // A wide character's trailing cell: the cursor glyph is drawn on the
    // leading cell instead.
    t.c.attr.mode = rt::glyph::ATTR_WDUMMY;
    t.tsetchar(' ' as u32, 5, 2);
    t.c.attr.mode = 0;
    t.tmoveto(5, 2);
    let p3 = t.draw_prepare();
    assert_eq!((p3.x, p3.y), (4, 2));
}
