//! Cell-level operations on the active screen: clearing a rectangle,
//! writing a cell through the cursor's attribute template, and reading
//! cells back.
use vstd::prelude::*;
use vstd::pervasive::VecAdditionalExecFns;

use crate::clamp;
use crate::clamp_spec;
use crate::glyph::Glyph;
use crate::glyph::blank;
use crate::sel::cleared_sel;
use crate::sel::sel_hit;
use crate::term::SelType;
use crate::term::Term;

verus! {

/// Whether some cell of the rectangle `[lx, hx] x [ly, hy]` is selected.
pub open spec fn rect_hits_sel(t: Term, lx: int, ly: int, hx: int, hy: int) -> bool {
    exists|x: int, y: int| lx <= x <= hx && ly <= y <= hy && sel_hit(t, x, y)
}

/// The row `newr` is `oldr` with the cells from `lx` through `hx` replaced
/// by `g`, all other cells unchanged.
pub open spec fn row_cleared(oldr: Seq<Glyph>, newr: Seq<Glyph>, lx: int, hx: int, g: Glyph) -> bool {
    &&& newr.len() == oldr.len()
    &&& forall|x: int|
        0 <= x < oldr.len() ==> #[trigger] newr[x] == (if lx <= x <= hx {
            g
        } else {
            oldr[x]
        })
}

impl Term {
    /// What clearing a region leaves behind, with `lx..hx` and `ly..hy` the
    /// normalized, clamped bounds: the rectangle's cells are blank in the
    /// cursor's colors; the rectangle's rows are dirty; a selection any of
    /// those cells belonged to has been cleared, which also marks the rows
    /// its highlight covered.
    pub open spec fn clearregion_post(o: Term, n: Term, x1: int, y1: int, x2: int, y2: int) -> bool {
        let lx = clamp_spec(if x1 <= x2 { x1 } else { x2 }, 0, o.col - 1);
        let hx = clamp_spec(if x1 <= x2 { x2 } else { x1 }, 0, o.col - 1);
        let ly = clamp_spec(if y1 <= y2 { y1 } else { y2 }, 0, o.row - 1);
        let hy = clamp_spec(if y1 <= y2 { y2 } else { y1 }, 0, o.row - 1);
        let hit = rect_hits_sel(o, lx, ly, hx, hy);
        let snb = clamp_spec(o.sel.nb.y as int, 0, o.row - 1);
        let sne = clamp_spec(o.sel.ne.y as int, 0, o.row - 1);
        &&& n.line@.len() == o.line@.len()
        &&& forall|y: int|
            ly <= y <= hy ==> row_cleared(
                o.line@[y]@,
                (#[trigger] n.line@[y])@,
                lx,
                hx,
                blank(o.c.attr),
            )
        &&& forall|y: int|
            0 <= y < o.line@.len() && !(ly <= y <= hy) ==> #[trigger] n.line@[y] == o.line@[y]
        &&& n.dirty@.len() == o.dirty@.len()
        &&& forall|y: int|
            0 <= y < o.dirty@.len() ==> #[trigger] n.dirty@[y] == (o.dirty@[y] || ly <= y <= hy || (
            hit && snb <= y <= sne))
        &&& n.sel == (if hit {
            cleared_sel(o.sel)
        } else {
            o.sel
        })
        &&& n.alt == o.alt
        &&& Term::same_frame(o, n)
        &&& n.c == o.c
        &&& n.tabs == o.tabs
    }

    /// Whether the live selection overlaps the rectangle `[lx, hx] x [ly, hy]`.
    /// The test is geometric; it reads no cells.
    pub fn sel_overlaps(&self, lx: i32, ly: i32, hx: i32, hy: i32) -> (r: bool)
        requires
            self.wf_arrays(),
            lx <= hx,
            ly <= hy,
        ensures
            r == rect_hits_sel(*self, lx as int, ly as int, hx as int, hy as int),
    {
        if matches!(self.sel.mode, crate::term::SelMode::Empty) || self.sel.ob.x == -1
            || self.sel.alt != self.altscreen {
            return false;
        }
        let nb = self.sel.nb;
        let ne = self.sel.ne;
        if matches!(self.sel.typ, SelType::Rectangular) {
            let r = !(ne.y < ly || nb.y > hy) && !(ne.x < lx || nb.x > hx);
            proof {
                if r {
                    let wx: int = if lx >= nb.x {
                        lx as int
                    } else {
                        nb.x as int
                    };
                    let wy: int = if ly >= nb.y {
                        ly as int
                    } else {
                        nb.y as int
                    };
                    assert(sel_hit(*self, wx, wy));
                }
            }
            return r;
        }
        // Regular selection: the rows strictly between nb.y and ne.y span
        // every column, so only the first and last selected row constrain x.
        let yl = if ly >= nb.y {
            ly
        } else {
            nb.y
        };
        let yh = if hy <= ne.y {
            hy
        } else {
            ne.y
        };
        if yl > yh {
            return false;
        }
        let ok_lo = (yl != nb.y || hx >= nb.x) && (yl != ne.y || lx <= ne.x);
        let ok_hi = (yh != nb.y || hx >= nb.x) && (yh != ne.y || lx <= ne.x);
        let wide = (yh as i64) - (yl as i64) >= 2;
        let r = ok_lo || ok_hi || wide;
        proof {
            let s = self.sel;
            if ok_lo {
                let wx: int = if yl == s.nb.y && lx < s.nb.x {
                    s.nb.x as int
                } else {
                    lx as int
                };
                assert(lx <= wx <= hx);
                assert(sel_hit(*self, wx, yl as int));
            } else if ok_hi {
                let wx: int = if yh == s.nb.y && lx < s.nb.x {
                    s.nb.x as int
                } else {
                    lx as int
                };
                assert(lx <= wx <= hx);
                assert(sel_hit(*self, wx, yh as int));
            } else if wide {
                assert(sel_hit(*self, lx as int, yl + 1));
            }
            if !r && rect_hits_sel(*self, lx as int, ly as int, hx as int, hy as int) {
                let (x, y): (int, int) = choose|x: int, y: int|
                    lx <= x <= hx && ly <= y <= hy && sel_hit(*self, x, y);
                assert(yl <= y <= yh);
                if y == yl {
                    assert(ok_lo);
                } else if y == yh {
                    assert(ok_hi);
                } else {
                    assert(wide);
                }
            }
        }
        r
    }

    /// Clear the rectangle spanned by the two corners (given in any order,
    /// clamped into the grid) to blank cells in the cursor's current
    /// colors. The affected rows are marked dirty, and a selection that
    /// overlapped the rectangle is cleared.
    pub fn tclearregion(&mut self, x1: i32, y1: i32, x2: i32, y2: i32)
        requires
            old(self).wf_arrays(),
        ensures
            final(self).wf_arrays(),
            final(self).wf_scroll() == old(self).wf_scroll(),
            final(self).wf_cursor() == old(self).wf_cursor(),
            Term::clearregion_post(
                *old(self),
                *final(self),
                x1 as int,
                y1 as int,
                x2 as int,
                y2 as int,
            ),
            Term::dirty_monotone(*old(self), *final(self)),
    {
        proof {
            reveal(Term::dirty_monotone);
        }
        let (xa, xb) = if x1 <= x2 {
            (x1, x2)
        } else {
            (x2, x1)
        };
        let (ya, yb) = if y1 <= y2 {
            (y1, y2)
        } else {
            (y2, y1)
        };
        let lx = clamp(xa, 0, self.col - 1);
        let hx = clamp(xb, 0, self.col - 1);
        let ly = clamp(ya, 0, self.row - 1);
        let hy = clamp(yb, 0, self.row - 1);
        if self.sel_overlaps(lx, ly, hx, hy) {
            self.selclear();
        }
        let ghost mid: Term = *self;
        let g = Glyph::blank_from(self.c.attr);
        let mut y = ly;
        while y <= hy
            invariant
                0 <= lx <= hx < self.col,
                0 <= ly <= y <= hy + 1,
                hy < self.row,
                self.wf_arrays(),
                self.col == mid.col,
                self.row == mid.row,
                self.line@.len() == mid.line@.len() == self.row,
                forall|yy: int|
                    ly <= yy < y ==> row_cleared(
                        mid.line@[yy]@,
                        (#[trigger] self.line@[yy])@,
                        lx as int,
                        hx as int,
                        g,
                    ),
                forall|yy: int|
                    0 <= yy < self.row && !(ly <= yy < y) ==> #[trigger] self.line@[yy]
                        == mid.line@[yy],
                self.dirty@.len() == mid.dirty@.len(),
                forall|yy: int|
                    0 <= yy < self.dirty@.len() ==> #[trigger] self.dirty@[yy] == (mid.dirty@[yy]
                        || ly <= yy < y),
                *self == (Term { line: self.line, dirty: self.dirty, ..mid }),
            decreases hy + 1 - y,
        {
            self.dirty.set(y as usize, true);
            let mut r = self.line.remove(y as usize);
            let ghost oldr = r@;
            let mut x = lx;
            while x <= hx
                invariant
                    0 <= lx <= x <= hx + 1,
                    hx < mid.col,
                    hx < r@.len(),
                    r@.len() == oldr.len(),
                    forall|xx: int|
                        0 <= xx < oldr.len() ==> #[trigger] r@[xx] == (if lx <= xx < x {
                            g
                        } else {
                            oldr[xx]
                        }),
                decreases hx + 1 - x,
            {
                r.set(x as usize, g);
                x = x + 1;
            }
            let ghost lpre = self.line@;
            self.line.insert(y as usize, r);
            proof {
                assert(self.line@ =~= lpre.insert(y as int, r));
            }
            y = y + 1;
        }
    }

    /// What writing code point `u` at `(x, y)` leaves behind: that one cell
    /// becomes `u` styled by the cursor's attribute template, and the row
    /// is marked dirty.
    pub open spec fn setchar_post(o: Term, n: Term, u: u32, x: int, y: int) -> bool {
        let g = Glyph { u: u, mode: o.c.attr.mode, fg: o.c.attr.fg, bg: o.c.attr.bg };
        &&& n.line@.len() == o.line@.len()
        &&& n.line@[y]@ =~= o.line@[y]@.update(x, g)
        &&& forall|yy: int|
            0 <= yy < o.line@.len() && yy != y ==> #[trigger] n.line@[yy] == o.line@[yy]
        &&& Term::marked_rows(o.dirty@, n.dirty@, o.row as int, y, y)
        &&& n.alt == o.alt
        &&& Term::same_frame(o, n)
        &&& n.c == o.c
        &&& n.tabs == o.tabs
        &&& n.sel == o.sel
    }

    /// Write code point `u` into the cell at `(x, y)`, styling it with the
    /// cursor's attribute template, and mark the row dirty.
    pub fn tsetchar(&mut self, u: u32, x: i32, y: i32)
        requires
            old(self).wf_arrays(),
            0 <= x < old(self).col,
            0 <= y < old(self).row,
        ensures
            final(self).wf_arrays(),
            final(self).wf_scroll() == old(self).wf_scroll(),
            final(self).wf_cursor() == old(self).wf_cursor(),
            Term::setchar_post(*old(self), *final(self), u, x as int, y as int),
            Term::dirty_monotone(*old(self), *final(self)),
    {
        proof {
            reveal(Term::dirty_monotone);
        }
        let g = Glyph { u: u, mode: self.c.attr.mode, fg: self.c.attr.fg, bg: self.c.attr.bg };
        let mut r = self.line.remove(y as usize);
        r.set(x as usize, g);
        let ghost lpre = self.line@;
        self.line.insert(y as usize, r);
        proof {
            assert(self.line@ =~= lpre.insert(y as int, r));
        }
        self.dirty.set(y as usize, true);
        proof {
            assert(self.line@[y as int]@ =~= old(self).line@[y as int]@.update(
                x as int,
                g,
            ));
        }
    }

    /// The cell at `(x, y)` of the active screen.
    pub fn cell(&self, x: i32, y: i32) -> (g: Glyph)
        requires
            self.wf_arrays(),
            0 <= x < self.col,
            0 <= y < self.row,
        ensures
            g == self.cell_at(x as int, y as int),
    {
        self.line[y as usize][x as usize]
    }

    /// The cell at `(x, y)` of the inactive screen.
    pub fn alt_cell(&self, x: i32, y: i32) -> (g: Glyph)
        requires
            self.wf_arrays(),
            0 <= x < self.col,
            0 <= y < self.row,
        ensures
            g == self.alt_cell_at(x as int, y as int),
    {
        self.alt[y as usize][x as usize]
    }
}

} // verus!
