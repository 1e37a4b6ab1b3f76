//! Construction and full reset of the terminal state.
use vstd::prelude::*;

use crate::glyph::Glyph;
use crate::glyph::blank;
use crate::sel::cleared_sel;
use crate::sel::sel_shape_contains;
use crate::term::Charset;
use crate::term::Cursor;
use crate::term::CursorOp;
use crate::term::SelMode;
use crate::term::SelPoint;
use crate::term::SelType;
use crate::term::Selection;
use crate::term::Term;

verus! {

/// The cursor a reset installs: home position, no pending wrap or origin
/// mode, and a template of the default colors with no attributes.
pub open spec fn default_cursor(deffg: u32, defbg: u32) -> Cursor {
    Cursor {
        attr: Glyph { u: 0, mode: 0, fg: deffg, bg: defbg },
        x: 0,
        y: 0,
        wrapnext: false,
        origin: false,
    }
}

/// Whether a default tab stop stands at column `i`: a stop at every
/// positive multiple of `tabspaces`.
pub open spec fn default_tab_at(i: int, tabspaces: int) -> bool {
    i != 0 && i % tabspaces == 0
}

/// The default tab stops: one at every positive multiple of `tabspaces`.
pub open spec fn default_tabs(tabs: Seq<bool>, col: int, tabspaces: int) -> bool {
    &&& tabs.len() == col
    &&& forall|i: int| 0 <= i < col ==> #[trigger] tabs[i] == default_tab_at(i, tabspaces)
}

/// Whether a reset's full-screen clears reach the selection: it has an
/// anchor, is not in its empty state, and its shape meets the grid. The
/// screen the selection was made on does not matter, since both screens
/// are cleared.
pub open spec fn reset_hits_sel(o: Term) -> bool {
    &&& o.sel.mode != SelMode::Empty
    &&& o.sel.ob.x != -1
    &&& exists|x: int, y: int|
        0 <= x < o.col && 0 <= y < o.row && sel_shape_contains(o.sel, x, y)
}

impl Term {
    /// The state a reset leaves behind, apart from the selection and the
    /// last-drawn cursor position: default cursor in both saved slots,
    /// both screens fully blank in the default colors, the scrolling
    /// region spanning the grid, wrap and UTF-8 mode set and every other
    /// flag clear, default tab stops, and every row dirty.
    pub open spec fn reset_state(n: Term) -> bool {
        let dc = default_cursor(n.deffg, n.defbg);
        &&& n.c == dc
        &&& n.saved_main == dc
        &&& n.saved_alt == dc
        &&& n.top == 0
        &&& n.bot == n.row - 1
        &&& n.wrap
        &&& n.utf8
        &&& !n.insert
        &&& !n.altscreen
        &&& !n.crlf
        &&& !n.echo
        &&& !n.print_out
        &&& n.charset == 0
        &&& n.trantbl@.len() == 4
        &&& forall|i: int| 0 <= i < 4 ==> n.trantbl@[i] == Charset::Usa
        &&& default_tabs(n.tabs@, n.col as int, n.tabspaces as int)
        &&& n.line@.len() == n.row
        &&& n.alt@.len() == n.row
        &&& forall|y: int, x: int|
            0 <= y < n.row && 0 <= x < n.col ==> (#[trigger] n.line@[y]@[x]) == blank(dc.attr)
        &&& forall|y: int, x: int|
            0 <= y < n.row && 0 <= x < n.col ==> (#[trigger] n.alt@[y]@[x]) == blank(dc.attr)
        &&& n.dirty@.len() == n.row
        &&& forall|y: int| 0 <= y < n.row ==> #[trigger] n.dirty@[y]
    }

    /// What a reset leaves behind: the reset state above, with the
    /// geometry, configuration and last-drawn cursor position untouched,
    /// and the selection cleared exactly when the full-screen clears
    /// reached it.
    pub open spec fn reset_post(o: Term, n: Term) -> bool {
        &&& n.col == o.col
        &&& n.row == o.row
        &&& n.tabspaces == o.tabspaces
        &&& n.deffg == o.deffg
        &&& n.defbg == o.defbg
        &&& n.ocx == o.ocx
        &&& n.ocy == o.ocy
        &&& Term::reset_state(n)
        &&& n.sel == (if reset_hits_sel(o) {
            cleared_sel(o.sel)
        } else {
            o.sel
        })
    }

    /// Rebuild the tab-stop table with default stops at every positive
    /// multiple of the tab spacing.
    fn build_default_tabs(&mut self)
        requires
            old(self).wf_arrays(),
        ensures
            final(self).wf_arrays(),
            final(self).wf_scroll() == old(self).wf_scroll(),
            final(self).wf_cursor() == old(self).wf_cursor(),
            default_tabs(final(self).tabs@, old(self).col as int, old(self).tabspaces as int),
            *final(self) == (Term { tabs: final(self).tabs, ..*old(self) }),
    {
        let cols: usize = self.col as usize;
        let ts: usize = self.tabspaces as usize;
        let mut tabs: Vec<bool> = Vec::new();
        let mut i: usize = 0;
        while i < cols
            invariant
                0 <= i <= cols,
                1 <= ts,
                tabs@.len() == i,
                forall|j: int|
                    0 <= j < i ==> #[trigger] tabs@[j] == default_tab_at(j, ts as int),
            decreases cols - i,
        {
            let stop = i != 0 && i % ts == 0;
            tabs.push(stop);
            proof {
                assert(stop == default_tab_at(i as int, ts as int));
            }
            i = i + 1;
        }
        self.tabs = tabs;
    }

    /// Reset the terminal: default cursor saved to both screens' slots,
    /// default tab stops, full scrolling region, wrap and UTF-8 mode, the
    /// charset table back to its default, and both screens cleared to
    /// blanks in the default colors, ending on the originally active
    /// buffer with every row marked dirty.
    pub fn treset(&mut self)
        requires
            old(self).wf_arrays(),
        ensures
            final(self).wf(),
            Term::reset_post(*old(self), *final(self)),
    {
        let deffg = self.deffg;
        let defbg = self.defbg;
        let dc = Cursor {
            attr: Glyph { u: 0, mode: 0, fg: deffg, bg: defbg },
            x: 0,
            y: 0,
            wrapnext: false,
            origin: false,
        };
        self.c = dc;
        self.build_default_tabs();
        self.top = 0;
        self.bot = self.row - 1;
        self.wrap = true;
        self.utf8 = true;
        self.insert = false;
        self.altscreen = false;
        self.crlf = false;
        self.echo = false;
        self.print_out = false;
        self.charset = 0;
        let mut tbl: Vec<Charset> = Vec::new();
        tbl.push(Charset::Usa);
        tbl.push(Charset::Usa);
        tbl.push(Charset::Usa);
        tbl.push(Charset::Usa);
        self.trantbl = tbl;
        let cols = self.col;
        let rows = self.row;
        // First pass: home and save the cursor, clear the active screen,
        // then swap so the second pass treats the other buffer the same.
        self.tmoveto(0, 0);
        self.tcursor(CursorOp::Save);
        let ghost t1 = *self;
        self.tclearregion(0, 0, cols - 1, rows - 1);
        let ghost c1 = *self;
        self.tswapscreen();
        // Second pass, on the other buffer; its swap also restores the
        // originally active buffer and leaves every row dirty.
        self.tmoveto(0, 0);
        self.tcursor(CursorOp::Save);
        let ghost t2 = *self;
        self.tclearregion(0, 0, cols - 1, rows - 1);
        let ghost c2 = *self;
        self.tswapscreen();
        proof {
            let o = *old(self);
            let n = *self;
            assert(t1.c == dc && t2.c == dc);
            // Both screens are fully blank: each pass cleared the buffer
            // that was active during it.
            assert(forall|y: int, x: int|
                0 <= y < rows && 0 <= x < cols ==> (#[trigger] c1.line@[y]@[x]) == blank(dc.attr));
            assert(forall|y: int, x: int|
                0 <= y < rows && 0 <= x < cols ==> (#[trigger] c2.line@[y]@[x]) == blank(dc.attr));
            assert(n.line == c2.alt && n.alt == c2.line);
            assert(c2.alt == c1.line);
            // The selection is cleared exactly when its shape meets the
            // grid: the pass whose active screen matches its affinity
            // reaches it.
            let h1 = crate::screen::rect_hits_sel(t1, 0, 0, cols - 1, rows - 1);
            let h2 = crate::screen::rect_hits_sel(t2, 0, 0, cols - 1, rows - 1);
            if reset_hits_sel(o) {
                let (wx, wy): (int, int) = choose|x: int, y: int|
                    0 <= x < o.col && 0 <= y < o.row && sel_shape_contains(o.sel, x, y);
                if o.sel.alt == false {
                    assert(crate::sel::sel_hit(t1, wx, wy));
                    assert(h1);
                } else {
                    assert(!h1);
                    assert(t2.sel == o.sel);
                    assert(crate::sel::sel_hit(t2, wx, wy));
                    assert(h2);
                }
                assert(n.sel == cleared_sel(o.sel));
            } else {
                if o.sel.mode != SelMode::Empty && o.sel.ob.x != -1 {
                    assert(!h1) by {
                        if h1 {
                            let (x, y): (int, int) = choose|x: int, y: int|
                                0 <= x <= cols - 1 && 0 <= y <= rows - 1 && crate::sel::sel_hit(
                                    t1,
                                    x,
                                    y,
                                );
                            assert(sel_shape_contains(o.sel, x, y));
                        }
                    }
                    assert(!h2) by {
                        if h2 {
                            let (x, y): (int, int) = choose|x: int, y: int|
                                0 <= x <= cols - 1 && 0 <= y <= rows - 1 && crate::sel::sel_hit(
                                    t2,
                                    x,
                                    y,
                                );
                            assert(sel_shape_contains(o.sel, x, y));
                        }
                    }
                }
                assert(n.sel == o.sel);
            }
        }
    }

    /// Create a terminal of `col` x `row` cells in its fully reset state:
    /// both screens blank in the default colors, default cursor and tab
    /// stops, no selection, and every row dirty.
    pub fn tnew(col: i32, row: i32, tabspaces: i32, deffg: u32, defbg: u32) -> (t: Term)
        requires
            1 <= col,
            1 <= row,
            1 <= tabspaces,
        ensures
            t.wf(),
            t.col == col,
            t.row == row,
            t.tabspaces == tabspaces,
            t.deffg == deffg,
            t.defbg == defbg,
            t.ocx == 0,
            t.ocy == 0,
            Term::reset_state(t),
            t.sel == (Selection {
                mode: SelMode::Idle,
                typ: SelType::Regular,
                alt: false,
                ob: SelPoint { x: -1i32, y: 0i32 },
                nb: SelPoint { x: 0, y: 0 },
                ne: SelPoint { x: 0, y: 0 },
            }),
    {
        let dc = Cursor {
            attr: Glyph { u: 0, mode: 0, fg: deffg, bg: defbg },
            x: 0,
            y: 0,
            wrapnext: false,
            origin: false,
        };
        let g = Glyph { u: 32, mode: 0, fg: deffg, bg: defbg };
        let mut grid_main: Vec<Vec<Glyph>> = Vec::new();
        let mut grid_alt: Vec<Vec<Glyph>> = Vec::new();
        let mut dirt: Vec<bool> = Vec::new();
        let mut y: i32 = 0;
        while y < row
            invariant
                1 <= col,
                0 <= y <= row,
                grid_main@.len() == y,
                grid_alt@.len() == y,
                dirt@.len() == y,
                forall|yy: int|
                    0 <= yy < y ==> (#[trigger] grid_main@[yy])@.len() == col,
                forall|yy: int|
                    0 <= yy < y ==> (#[trigger] grid_alt@[yy])@.len() == col,
                forall|yy: int, xx: int|
                    0 <= yy < y && 0 <= xx < col ==> (#[trigger] grid_main@[yy]@[xx]) == g,
                forall|yy: int, xx: int|
                    0 <= yy < y && 0 <= xx < col ==> (#[trigger] grid_alt@[yy]@[xx]) == g,
                forall|yy: int| 0 <= yy < y ==> #[trigger] dirt@[yy],
            decreases row - y,
        {
            let mut r1: Vec<Glyph> = Vec::new();
            let mut r2: Vec<Glyph> = Vec::new();
            let mut x: i32 = 0;
            while x < col
                invariant
                    1 <= col,
                    0 <= x <= col,
                    r1@.len() == x,
                    r2@.len() == x,
                    forall|xx: int| 0 <= xx < x ==> (#[trigger] r1@[xx]) == g,
                    forall|xx: int| 0 <= xx < x ==> (#[trigger] r2@[xx]) == g,
                decreases col - x,
            {
                r1.push(g);
                r2.push(g);
                x = x + 1;
            }
            grid_main.push(r1);
            grid_alt.push(r2);
            dirt.push(true);
            y = y + 1;
        }
        let mut tabs: Vec<bool> = Vec::new();
        let cols: usize = col as usize;
        let ts: usize = tabspaces as usize;
        let mut i: usize = 0;
        while i < cols
            invariant
                0 <= i <= cols,
                1 <= ts,
                tabs@.len() == i,
                forall|j: int|
                    0 <= j < i ==> #[trigger] tabs@[j] == default_tab_at(j, ts as int),
            decreases cols - i,
        {
            let stop = i != 0 && i % ts == 0;
            tabs.push(stop);
            proof {
                assert(stop == default_tab_at(i as int, ts as int));
            }
            i = i + 1;
        }
        let mut tbl: Vec<Charset> = Vec::new();
        tbl.push(Charset::Usa);
        tbl.push(Charset::Usa);
        tbl.push(Charset::Usa);
        tbl.push(Charset::Usa);
        Term {
            line: grid_main,
            alt: grid_alt,
            dirty: dirt,
            tabs: tabs,
            col: col,
            row: row,
            top: 0,
            bot: row - 1,
            c: dc,
            saved_main: dc,
            saved_alt: dc,
            ocx: 0,
            ocy: 0,
            wrap: true,
            insert: false,
            altscreen: false,
            crlf: false,
            echo: false,
            print_out: false,
            utf8: true,
            charset: 0,
            trantbl: tbl,
            sel: Selection {
                mode: SelMode::Idle,
                typ: SelType::Regular,
                alt: false,
                ob: SelPoint { x: -1i32, y: 0i32 },
                nb: SelPoint { x: 0, y: 0 },
                ne: SelPoint { x: 0, y: 0 },
            },
            tabspaces: tabspaces,
            deffg: deffg,
            defbg: defbg,
        }
    }
}

} // verus!
