//! The resize engine: changes the grid's dimensions in place while keeping
//! the cursor's row visible and the most recent output intact.
use vstd::prelude::*;

use crate::clamp_spec;
use crate::glyph::Glyph;
use crate::glyph::blank;
use crate::reset::default_tab_at;
use crate::sel::cleared_sel;
use crate::sel::sel_shape_contains;
use crate::screen::row_cleared;
use crate::term::CursorOp;
use crate::term::SelMode;
use crate::term::Term;

verus! {

/// How many rows slide off the top on a resize to `row` rows: just enough
/// to keep the cursor's row in view.
pub open spec fn resize_shift(o: Term, row: int) -> int {
    if o.c.y >= row {
        o.c.y - row + 1
    } else {
        0
    }
}

/// Whether the selection's shape meets the rectangle `[lx, hx] x [ly, hy]`.
pub open spec fn strip_hits_shape(s: crate::term::Selection, lx: int, ly: int, hx: int,
    hy: int) -> bool {
    exists|x: int, y: int| lx <= x <= hx && ly <= y <= hy && sel_shape_contains(s, x, y)
}

/// Whether a resize's clears of the newly exposed strips reach the
/// selection. Both screens are cleared, so the screen the selection was
/// made on does not matter.
pub open spec fn resize_hits_sel(o: Term, col: int, row: int) -> bool {
    let minrow: int = if o.row <= row {
        o.row as int
    } else {
        row
    };
    let mincol: int = if o.col <= col {
        o.col as int
    } else {
        col
    };
    &&& o.sel.mode != SelMode::Empty
    &&& o.sel.ob.x != -1
    &&& ((mincol < col && strip_hits_shape(o.sel, mincol, 0, col - 1, minrow - 1)) || (minrow < row
        && strip_hits_shape(o.sel, 0, minrow, col - 1, row - 1)))
}

impl Term {
    /// What a successful resize to `col` x `row` leaves behind.
    ///
    /// The rows `[0, cursor_row - row]` of both buffers slide off the top
    /// when the new height would push the cursor out; each kept row keeps
    /// its leftmost `min(old cols, col)` cells. Newly exposed cells — the
    /// right strip of widened kept rows and the full new bottom rows — are
    /// blank: in the cursor's colors on the active screen, in the inactive
    /// screen's saved-cursor colors on the other. Tab stops keep their old
    /// columns and continue at the default spacing in new columns; the
    /// scrolling region spans the new grid; the cursor is re-clamped; every
    /// row is dirty; a selection the cleared strips reached is cleared.
    pub open spec fn resize_post(o: Term, n: Term, col: int, row: int) -> bool {
        let shift = resize_shift(o, row);
        let minrow: int = if o.row <= row {
            o.row as int
        } else {
            row
        };
        let mincol: int = if o.col <= col {
            o.col as int
        } else {
            col
        };
        let alt_saved = if o.altscreen {
            o.saved_main
        } else {
            o.saved_alt
        };
        &&& n.col == col
        &&& n.row == row
        &&& n.top == 0
        &&& n.bot == row - 1
        &&& n.c.x == clamp_spec(o.c.x as int, 0, col - 1)
        &&& n.c.y == clamp_spec(o.c.y as int, 0, row - 1)
        &&& n.c.attr == o.c.attr
        &&& n.c.origin == o.c.origin
        &&& n.c.wrapnext == false
        &&& n.saved_main == o.saved_main
        &&& n.saved_alt == o.saved_alt
        &&& n.ocx == o.ocx
        &&& n.ocy == o.ocy
        &&& n.wrap == o.wrap
        &&& n.insert == o.insert
        &&& n.altscreen == o.altscreen
        &&& n.crlf == o.crlf
        &&& n.echo == o.echo
        &&& n.print_out == o.print_out
        &&& n.utf8 == o.utf8
        &&& n.charset == o.charset
        &&& n.trantbl == o.trantbl
        &&& n.tabspaces == o.tabspaces
        &&& n.deffg == o.deffg
        &&& n.defbg == o.defbg
        &&& n.dirty@.len() == row
        &&& forall|y: int| 0 <= y < row ==> #[trigger] n.dirty@[y]
        &&& n.tabs@.len() == col
        &&& forall|i: int| 0 <= i < mincol ==> #[trigger] n.tabs@[i] == o.tabs@[i]
        &&& forall|i: int|
            o.col <= i < col ==> #[trigger] n.tabs@[i] == default_tab_at(i, o.tabspaces as int)
        &&& n.line@.len() == row
        &&& n.alt@.len() == row
        &&& forall|y: int| 0 <= y < row ==> (#[trigger] n.line@[y])@.len() == col
        &&& forall|y: int| 0 <= y < row ==> (#[trigger] n.alt@[y])@.len() == col
        &&& forall|y: int, x: int|
            0 <= y < minrow && 0 <= x < mincol ==> (#[trigger] n.line@[y]@[x]) == o.line@[y
                + shift]@[x]
        &&& forall|y: int, x: int|
            0 <= y < minrow && mincol <= x < col ==> (#[trigger] n.line@[y]@[x]) == blank(o.c.attr)
        &&& forall|y: int, x: int|
            minrow <= y < row && 0 <= x < col ==> (#[trigger] n.line@[y]@[x]) == blank(o.c.attr)
        &&& forall|y: int, x: int|
            0 <= y < minrow && 0 <= x < mincol ==> (#[trigger] n.alt@[y]@[x]) == o.alt@[y
                + shift]@[x]
        &&& forall|y: int, x: int|
            0 <= y < minrow && mincol <= x < col ==> (#[trigger] n.alt@[y]@[x]) == blank(
                alt_saved.attr,
            )
        &&& forall|y: int, x: int|
            minrow <= y < row && 0 <= x < col ==> (#[trigger] n.alt@[y]@[x]) == blank(
                alt_saved.attr,
            )
        &&& n.sel == (if resize_hits_sel(o, col, row) {
            cleared_sel(o.sel)
        } else {
            o.sel
        })
    }

    /// Resize one buffer in place: drop the first `shift` rows, cut or grow
    /// to `rows` rows (new rows filled with `fill`), and cut or grow every
    /// kept row to `cols` cells (new cells filled with `fill`).
    fn resize_buffer(buf: &mut Vec<Vec<Glyph>>, shift: i32, rows: i32, cols: i32, fill: Glyph)
        requires
            0 <= shift,
            1 <= rows,
            1 <= cols,
            shift + rows <= old(buf)@.len() || shift == 0,
            old(buf)@.len() <= 0x7fff_ffff,
        ensures
            final(buf)@.len() == rows,
            forall|y: int| 0 <= y < rows ==> (#[trigger] final(buf)@[y])@.len() == cols,
            forall|y: int, x: int|
                0 <= y < rows && y + shift < old(buf)@.len() && 0 <= x < cols && x < old(buf)@[y
                    + shift]@.len() ==> (#[trigger] final(buf)@[y]@[x]) == old(buf)@[y + shift]@[x],
            forall|y: int, x: int|
                0 <= y < rows && y + shift < old(buf)@.len() && 0 <= x < cols && x >= old(buf)@[y
                    + shift]@.len() ==> (#[trigger] final(buf)@[y]@[x]) == fill,
            forall|y: int, x: int|
                0 <= y < rows && y + shift >= old(buf)@.len() && 0 <= x < cols ==> (
                #[trigger] final(buf)@[y]@[x]) == fill,
    {
        let mut k: i32 = 0;
        while k < shift
            invariant
                0 <= k <= shift,
                1 <= rows,
                shift + rows <= old(buf)@.len() || shift == 0,
                buf@ =~= old(buf)@.subrange(k as int, old(buf)@.len() as int),
            decreases shift - k,
        {
            let ghost pre = buf@;
            buf.remove(0);
            proof {
                assert(buf@ =~= old(buf)@.subrange(k + 1, old(buf)@.len() as int));
            }
            k = k + 1;
        }
        if (buf.len() as u64) > (rows as u64) {
            buf.truncate(rows as usize);
        }
        let ghost kept = buf@;
        while buf.len() < rows as usize
            invariant
                1 <= cols,
                kept.len() <= buf@.len() <= rows,
                rows <= 0x7fff_ffff,
                forall|y: int| 0 <= y < kept.len() ==> #[trigger] buf@[y] == kept[y],
                forall|y: int|
                    kept.len() <= y < buf@.len() ==> ((#[trigger] buf@[y])@.len() == cols
                        && forall|x: int| 0 <= x < cols ==> (#[trigger] buf@[y]@[x]) == fill),
            decreases rows - buf@.len(),
        {
            let mut r: Vec<Glyph> = Vec::new();
            let mut x: i32 = 0;
            while x < cols
                invariant
                    0 <= x <= cols,
                    r@.len() == x,
                    forall|xx: int| 0 <= xx < x ==> (#[trigger] r@[xx]) == fill,
                decreases cols - x,
            {
                r.push(fill);
                x = x + 1;
            }
            buf.push(r);
        }
        let ghost tall = buf@;
        // Every kept row now gets the new width.
        let mut y: i32 = 0;
        while (y as usize) < buf.len()
            invariant
                1 <= cols,
                0 <= y,
                buf@.len() == tall.len() == rows,
                forall|yy: int| y <= yy < rows ==> #[trigger] buf@[yy] == tall[yy],
                forall|yy: int|
                    0 <= yy < y && yy < rows ==> ((#[trigger] buf@[yy])@.len() == cols && (forall|
                        x: int,
                    |
                        0 <= x < cols && x < tall[yy]@.len() ==> (#[trigger] buf@[yy]@[x])
                            == tall[yy]@[x]) && (forall|x: int|
                        0 <= x < cols && x >= tall[yy]@.len() ==> (#[trigger] buf@[yy]@[x])
                            == fill)),
            decreases rows - y,
        {
            let mut r = buf.remove(y as usize);
            let ghost orig = r@;
            if (r.len() as u64) > (cols as u64) {
                r.truncate(cols as usize);
            }
            while r.len() < cols as usize
                invariant
                    cols <= 0x7fff_ffff,
                    r@.len() <= cols,
                    r@.len() >= orig.len() || r@.len() >= cols,
                    forall|x: int|
                        0 <= x < r@.len() ==> #[trigger] r@[x] == (if x < orig.len() {
                            orig[x]
                        } else {
                            fill
                        }),
                decreases cols - r@.len(),
            {
                r.push(fill);
            }
            let ghost before = buf@;
            buf.insert(y as usize, r);
            proof {
                assert(buf@ =~= before.insert(y as int, r));
            }
            y = y + 1;
        }
    }

    /// The state after the structural half of a resize: both buffers and
    /// the damage and tab arrays carry the new dimensions, the scrolling
    /// region spans the new grid, and the cursor is re-clamped; the
    /// newly exposed cells of both buffers hold blanks in the old
    /// cursor's colors, to be recolored by the clearing passes.
    pub open spec fn resize_structure_post(o: Term, n: Term, col: int, row: int) -> bool {
        let shift = resize_shift(o, row);
        let minrow: int = if o.row <= row {
            o.row as int
        } else {
            row
        };
        let mincol: int = if o.col <= col {
            o.col as int
        } else {
            col
        };
        &&& n.col == col
        &&& n.row == row
        &&& n.top == 0
        &&& n.bot == row - 1
        &&& n.c.x == clamp_spec(o.c.x as int, 0, col - 1)
        &&& n.c.y == clamp_spec(o.c.y as int, 0, row - 1)
        &&& n.c.attr == o.c.attr
        &&& n.c.origin == o.c.origin
        &&& n.c.wrapnext == false
        &&& n.saved_main == o.saved_main
        &&& n.saved_alt == o.saved_alt
        &&& n.ocx == o.ocx
        &&& n.ocy == o.ocy
        &&& n.wrap == o.wrap
        &&& n.insert == o.insert
        &&& n.altscreen == o.altscreen
        &&& n.crlf == o.crlf
        &&& n.echo == o.echo
        &&& n.print_out == o.print_out
        &&& n.utf8 == o.utf8
        &&& n.charset == o.charset
        &&& n.trantbl == o.trantbl
        &&& n.tabspaces == o.tabspaces
        &&& n.deffg == o.deffg
        &&& n.defbg == o.defbg
        &&& n.sel == o.sel
        &&& n.dirty@.len() == row
        &&& n.tabs@.len() == col
        &&& forall|i: int| 0 <= i < mincol ==> #[trigger] n.tabs@[i] == o.tabs@[i]
        &&& forall|i: int|
            o.col <= i < col ==> #[trigger] n.tabs@[i] == default_tab_at(i, o.tabspaces as int)
        &&& n.line@.len() == row
        &&& n.alt@.len() == row
        &&& forall|y: int| 0 <= y < row ==> (#[trigger] n.line@[y])@.len() == col
        &&& forall|y: int| 0 <= y < row ==> (#[trigger] n.alt@[y])@.len() == col
        &&& forall|y: int, x: int|
            0 <= y < minrow && 0 <= x < mincol ==> (#[trigger] n.line@[y]@[x]) == o.line@[y
                + shift]@[x]
        &&& forall|y: int, x: int|
            0 <= y < minrow && mincol <= x < col ==> (#[trigger] n.line@[y]@[x]) == blank(o.c.attr)
        &&& forall|y: int, x: int|
            minrow <= y < row && 0 <= x < col ==> (#[trigger] n.line@[y]@[x]) == blank(o.c.attr)
        &&& forall|y: int, x: int|
            0 <= y < minrow && 0 <= x < mincol ==> (#[trigger] n.alt@[y]@[x]) == o.alt@[y
                + shift]@[x]
        &&& forall|y: int, x: int|
            0 <= y < minrow && mincol <= x < col ==> (#[trigger] n.alt@[y]@[x]) == blank(o.c.attr)
        &&& forall|y: int, x: int|
            minrow <= y < row && 0 <= x < col ==> (#[trigger] n.alt@[y]@[x]) == blank(o.c.attr)
    }

    /// The structural half of a resize: slide, reallocate and re-clamp,
    /// without the clearing passes.
    #[verifier::rlimit(100)]
    #[verifier::spinoff_prover]
    fn resize_structure(&mut self, col: i32, row: i32)
        requires
            old(self).wf(),
            1 <= col,
            1 <= row,
        ensures
            final(self).wf(),
            Term::resize_structure_post(*old(self), *final(self), col as int, row as int),
    {
        let ghost o = *old(self);
        let o_col = self.col;
        let o_row = self.row;
        let minrow = if row < o_row {
            row
        } else {
            o_row
        };
        let mincol = if col < o_col {
            col
        } else {
            o_col
        };
        // Slide the viewport: drop just enough top rows from both buffers
        // to keep the cursor's row within the new height.
        let shift = if self.c.y >= row {
            self.c.y - row + 1
        } else {
            0
        };
        let fill = Glyph::blank_from(self.c.attr);
        Term::resize_buffer(&mut self.line, shift, row, col, fill);
        Term::resize_buffer(&mut self.alt, shift, row, col, fill);
        // The damage array takes the new height; the swaps below mark
        // every row dirty regardless of what stood here.
        let ghost s1 = *self;
        if (self.dirty.len() as u64) > (row as u64) {
            self.dirty.truncate(row as usize);
        }
        while self.dirty.len() < row as usize
            invariant
                row <= 0x7fff_ffff,
                self.dirty@.len() <= row,
                *self == (Term { dirty: self.dirty, ..s1 }),
            decreases row - self.dirty@.len(),
        {
            self.dirty.push(true);
        }
        // Tab stops: keep the old columns, continue the default spacing in
        // newly added ones.
        let ghost s2 = *self;
        if col < o_col {
            self.tabs.truncate(col as usize);
        } else {
            let ts: usize = self.tabspaces as usize;
            let mut i: usize = o_col as usize;
            while i < col as usize
                invariant
                    1 <= ts,
                    o_col <= self.tabs@.len() <= col,
                    self.tabs@.len() == i,
                    forall|j: int| 0 <= j < o_col ==> self.tabs@[j] == o.tabs@[j],
                    forall|j: int|
                        o_col <= j < i ==> #[trigger] self.tabs@[j] == default_tab_at(
                            j,
                            ts as int,
                        ),
                    o_col == o.col,
                    o.tabs@.len() == o_col,
                    *self == (Term { tabs: self.tabs, ..s2 }),
            decreases col - i,
            {
                let stop = i != 0 && i % ts == 0;
                self.tabs.push(stop);
                proof {
                    assert(stop == default_tab_at(i as int, ts as int));
                }
                i = i + 1;
            }
        }
        // New geometry, full scrolling region, cursor re-clamped.
        self.col = col;
        self.row = row;
        self.tsetscroll(0, row - 1);
        let cx = self.c.x;
        let cy = self.c.y;
        self.tmoveto(cx, cy);
    }

    /// What the two clearing passes leave behind, relative to the state
    /// they start from: the newly exposed strips of the active screen are
    /// blank in the cursor's colors, those of the inactive screen in its
    /// saved cursor's colors, kept cells are untouched, every row is
    /// dirty, and a selection a strip reached is cleared.
    pub open spec fn clear_passes_post(b: Term, n: Term, mincol: int, minrow: int) -> bool {
        let col = b.col as int;
        let row = b.row as int;
        let alt_saved = if b.altscreen {
            b.saved_main
        } else {
            b.saved_alt
        };
        let live = b.sel.mode != SelMode::Empty && b.sel.ob.x != -1;
        let s1 = mincol < col && strip_hits_shape(b.sel, mincol, 0, col - 1, minrow - 1);
        let s2 = minrow < row && strip_hits_shape(b.sel, 0, minrow, col - 1, row - 1);
        &&& n.col == b.col
        &&& n.row == b.row
        &&& n.top == b.top
        &&& n.bot == b.bot
        &&& n.saved_main == b.saved_main
        &&& n.saved_alt == b.saved_alt
        &&& n.ocx == b.ocx
        &&& n.ocy == b.ocy
        &&& n.wrap == b.wrap
        &&& n.insert == b.insert
        &&& n.altscreen == b.altscreen
        &&& n.crlf == b.crlf
        &&& n.echo == b.echo
        &&& n.print_out == b.print_out
        &&& n.utf8 == b.utf8
        &&& n.charset == b.charset
        &&& n.trantbl == b.trantbl
        &&& n.tabspaces == b.tabspaces
        &&& n.deffg == b.deffg
        &&& n.defbg == b.defbg
        &&& n.tabs == b.tabs
        &&& n.dirty@.len() == row
        &&& forall|y: int| 0 <= y < row ==> #[trigger] n.dirty@[y]
        &&& n.line@.len() == row
        &&& n.alt@.len() == row
        &&& forall|y: int| 0 <= y < row ==> (#[trigger] n.line@[y])@.len() == col
        &&& forall|y: int| 0 <= y < row ==> (#[trigger] n.alt@[y])@.len() == col
        &&& forall|y: int, x: int|
            0 <= y < minrow && 0 <= x < mincol ==> (#[trigger] n.line@[y]@[x]) == b.line@[y]@[x]
        &&& forall|y: int, x: int|
            0 <= y < minrow && mincol <= x < col ==> (#[trigger] n.line@[y]@[x]) == blank(b.c.attr)
        &&& forall|y: int, x: int|
            minrow <= y < row && 0 <= x < col ==> (#[trigger] n.line@[y]@[x]) == blank(b.c.attr)
        &&& forall|y: int, x: int|
            0 <= y < minrow && 0 <= x < mincol ==> (#[trigger] n.alt@[y]@[x]) == b.alt@[y]@[x]
        &&& forall|y: int, x: int|
            0 <= y < minrow && mincol <= x < col ==> (#[trigger] n.alt@[y]@[x]) == blank(
                alt_saved.attr,
            )
        &&& forall|y: int, x: int|
            minrow <= y < row && 0 <= x < col ==> (#[trigger] n.alt@[y]@[x]) == blank(
                alt_saved.attr,
            )
        &&& n.sel == (if live && (s1 || s2) {
            cleared_sel(b.sel)
        } else {
            b.sel
        })
    }

    /// What one clearing pass leaves behind, relative to its start: the
    /// newly exposed strips of the active screen are blank in the cursor's
    /// colors, everything else on both screens is untouched, and a live
    /// selection on the active screen that a strip reached is cleared.
    pub open spec fn strips_post(o: Term, n: Term, mincol: int, minrow: int) -> bool {
        let col = o.col as int;
        let row = o.row as int;
        let live = o.sel.mode != SelMode::Empty && o.sel.ob.x != -1 && o.sel.alt == o.altscreen;
        let s1 = mincol < col && strip_hits_shape(o.sel, mincol, 0, col - 1, minrow - 1);
        let s2 = minrow < row && strip_hits_shape(o.sel, 0, minrow, col - 1, row - 1);
        &&& Term::same_frame(o, n)
        &&& n.c == o.c
        &&& n.alt == o.alt
        &&& n.tabs == o.tabs
        &&& n.dirty@.len() == o.dirty@.len()
        &&& n.line@.len() == row
        &&& forall|y: int| 0 <= y < row ==> (#[trigger] n.line@[y])@.len() == col
        &&& forall|y: int, x: int|
            0 <= y < minrow && 0 <= x < mincol ==> (#[trigger] n.line@[y]@[x]) == o.line@[y]@[x]
        &&& forall|y: int, x: int|
            0 <= y < minrow && mincol <= x < col ==> (#[trigger] n.line@[y]@[x]) == blank(o.c.attr)
        &&& forall|y: int, x: int|
            minrow <= y < row && 0 <= x < col ==> (#[trigger] n.line@[y]@[x]) == blank(o.c.attr)
        &&& n.sel == (if live && (s1 || s2) {
            cleared_sel(o.sel)
        } else {
            o.sel
        })
    }

    /// Clear the newly exposed strips of the active screen: the widened
    /// part of the kept rows, and the full new bottom rows.
    #[verifier::rlimit(100)]
    #[verifier::spinoff_prover]
    fn clear_strips(&mut self, mincol: i32, minrow: i32)
        requires
            old(self).wf(),
            1 <= minrow <= old(self).row,
            0 <= mincol <= old(self).col,
        ensures
            final(self).wf(),
            Term::strips_post(*old(self), *final(self), mincol as int, minrow as int),
    {
        let ghost base = *old(self);
        let col = self.col;
        let row = self.row;
        if mincol < col && 0 < minrow {
            self.tclearregion(mincol, 0, col - 1, minrow - 1);
        }
        let ghost p1 = *self;
        if 0 < col && minrow < row {
            self.tclearregion(0, minrow, col - 1, row - 1);
        }
        proof {
            let n = *self;
            let minrow_s: int = minrow as int;
            let mincol_s: int = mincol as int;
            assert forall|y: int, x: int|
                0 <= y < minrow_s && mincol_s <= x < col implies (#[trigger] n.line@[y]@[x])
                == blank(base.c.attr) by {
                assert(n.line@[y] == p1.line@[y]);
                assert(row_cleared(
                    base.line@[y]@,
                    p1.line@[y]@,
                    mincol_s,
                    col - 1,
                    blank(base.c.attr),
                ));
            }
            assert forall|y: int, x: int|
                minrow_s <= y < row && 0 <= x < col implies (#[trigger] n.line@[y]@[x]) == blank(
                base.c.attr,
            ) by {
                assert(p1.line@[y] == base.line@[y]);
                assert(row_cleared(p1.line@[y]@, n.line@[y]@, 0, col - 1, blank(base.c.attr)));
            }
            if mincol_s < col {
                lemma_rect_hits_unfold(base, mincol_s, 0, col - 1, minrow_s - 1);
            }
            if minrow_s < row {
                lemma_rect_hits_unfold(p1, 0, minrow_s, col - 1, row - 1);
            }
        }
    }

    /// Clear the newly exposed strips on both screens, alternating via a
    /// swap and a cursor load so each buffer is cleared with its own
    /// screen's colors; the second swap restores the original screen and
    /// leaves every row dirty.
    #[verifier::rlimit(100)]
    #[verifier::spinoff_prover]
    fn resize_clear_passes(&mut self, mincol: i32, minrow: i32)
        requires
            old(self).wf(),
            1 <= minrow <= old(self).row,
            0 <= mincol <= old(self).col,
        ensures
            final(self).wf(),
            Term::clear_passes_post(*old(self), *final(self), mincol as int, minrow as int),
    {
        let ghost base = *old(self);
        let col = self.col;
        let row = self.row;
        self.clear_strips(mincol, minrow);
        let ghost p1 = *self;
        self.tswapscreen();
        self.tcursor(CursorOp::Load);
        let ghost m2 = *self;
        self.clear_strips(mincol, minrow);
        let ghost p2 = *self;
        self.tswapscreen();
        self.tcursor(CursorOp::Load);
        proof {
            let n = *self;
            let minrow_s: int = minrow as int;
            let mincol_s: int = mincol as int;
            let alt_saved = if base.altscreen {
                base.saved_main
            } else {
                base.saved_alt
            };
            assert(m2.c.attr == alt_saved.attr);
            assert(m2.line == p1.alt && m2.line == base.alt);
            assert(n.line == p2.alt && p2.alt == m2.alt && m2.alt == p1.line);
            assert(n.alt == p2.line);
            assert forall|y: int, x: int|
                0 <= y < minrow_s && 0 <= x < mincol_s implies (#[trigger] n.alt@[y]@[x])
                == base.alt@[y]@[x] by {
                assert(p2.line@[y]@[x] == m2.line@[y]@[x]);
            }
            // The pass whose active screen matches the selection's
            // affinity is the one whose clears can reach it.
            let live = base.sel.mode != SelMode::Empty && base.sel.ob.x != -1;
            let s1 = mincol_s < col && strip_hits_shape(base.sel, mincol_s, 0, col - 1, minrow_s
                - 1);
            let s2 = minrow_s < row && strip_hits_shape(base.sel, 0, minrow_s, col - 1, row - 1);
            assert(n.sel == (if live && (s1 || s2) {
                cleared_sel(base.sel)
            } else {
                base.sel
            }));
        }
    }
    /// Resize the terminal to `col` x `row`. Dimensions below one are
    /// rejected and leave the state untouched; otherwise both screens are
    /// resized as `resize_post` describes.
    #[verifier::rlimit(100)]
    #[verifier::spinoff_prover]
    pub fn tresize(&mut self, col: i32, row: i32) -> (ok: bool)
        requires
            old(self).wf(),
        ensures
            final(self).wf(),
            ok == (col >= 1 && row >= 1),
            !ok ==> *final(self) == *old(self),
            ok ==> Term::resize_post(*old(self), *final(self), col as int, row as int),
    {
        if col < 1 || row < 1 {
            return false;
        }
        let ghost o = *old(self);
        let o_row = self.row;
        let o_col = self.col;
        let minrow = if row < o_row {
            row
        } else {
            o_row
        };
        let mincol = if col < o_col {
            col
        } else {
            o_col
        };
        self.resize_structure(col, row);
        let c = self.c;
        let ghost base = *self;
        self.resize_clear_passes(mincol, minrow);
        self.c = c;
        proof {
            let n = *self;
            let shift = resize_shift(o, row as int);
            assert(base.sel == o.sel);
            assert forall|y: int, x: int|
                0 <= y < minrow && 0 <= x < mincol implies (#[trigger] n.line@[y]@[x]) == o.line@[y
                + shift]@[x] by {
                assert(n.line@[y]@[x] == base.line@[y]@[x]);
            }
            assert forall|y: int, x: int|
                0 <= y < minrow && 0 <= x < mincol implies (#[trigger] n.alt@[y]@[x]) == o.alt@[y
                + shift]@[x] by {
                assert(n.alt@[y]@[x] == base.alt@[y]@[x]);
            }
        }
        true
    }
}

/// A rectangle holds a selected cell exactly when the selection is live on
/// the active screen and its shape meets the rectangle.
proof fn lemma_rect_hits_unfold(t: Term, lx: int, ly: int, hx: int, hy: int)
    ensures
        crate::screen::rect_hits_sel(t, lx, ly, hx, hy) == (t.sel.mode != SelMode::Empty
            && t.sel.ob.x != -1 && t.sel.alt == t.altscreen && strip_hits_shape(
            t.sel,
            lx,
            ly,
            hx,
            hy,
        )),
{
    if crate::screen::rect_hits_sel(t, lx, ly, hx, hy) {
        let (x, y): (int, int) = choose|x: int, y: int|
            lx <= x <= hx && ly <= y <= hy && crate::sel::sel_hit(t, x, y);
        assert(sel_shape_contains(t.sel, x, y));
        assert(strip_hits_shape(t.sel, lx, ly, hx, hy));
    }
    if t.sel.mode != SelMode::Empty && t.sel.ob.x != -1 && t.sel.alt == t.altscreen
        && strip_hits_shape(t.sel, lx, ly, hx, hy) {
        let (x, y): (int, int) = choose|x: int, y: int|
            lx <= x <= hx && ly <= y <= hy && sel_shape_contains(t.sel, x, y);
        assert(crate::sel::sel_hit(t, x, y));
        assert(crate::screen::rect_hits_sel(t, lx, ly, hx, hy));
    }
}

} // verus!
