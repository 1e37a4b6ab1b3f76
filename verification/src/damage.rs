//! The damage tracker's scan and consume operations, and the per-frame
//! cursor bookkeeping a draw pass needs.
use vstd::prelude::*;
use vstd::pervasive::VecAdditionalExecFns;

use crate::clamp;
use crate::clamp_spec;
use crate::glyph::ATTR_WDUMMY;
use crate::term::Term;

verus! {

/// The cursor positions a draw pass paints: the cell to draw the cursor at
/// now, the cell it was drawn at last frame (to erase it), and whether the
/// drawn position changed since the last frame.
#[derive(Clone, Copy, PartialEq, Eq, Structural, Debug)]
pub struct DrawCursor {
    pub x: i32,
    pub y: i32,
    pub ox: i32,
    pub oy: i32,
    pub moved: bool,
}

impl Term {
    /// Whether row `y` of the active screen holds a cell carrying one of
    /// the attribute bits of `attr`.
    pub open spec fn row_has_attr(self, y: int, attr: u16) -> bool {
        exists|x: int| 0 <= x < self.col && ((#[trigger] self.line@[y]@[x]).mode & attr) != 0
    }

    /// Whether any cell of the active screen carries one of the attribute
    /// bits of `attr`.
    pub open spec fn has_attr(self, attr: u16) -> bool {
        exists|y: int| 0 <= y < self.row && #[trigger] self.row_has_attr(y, attr)
    }

    /// Whether any cell on the active screen carries one of the attribute
    /// bits of `attr` (used to decide whether a blink timer is needed).
    pub fn tattrset(&self, attr: u16) -> (r: bool)
        requires
            self.wf_arrays(),
        ensures
            r == self.has_attr(attr),
    {
        let mut y: i32 = 0;
        while y < self.row
            invariant
                0 <= y <= self.row,
                self.wf_arrays(),
                forall|yy: int| 0 <= yy < y ==> !(#[trigger] self.row_has_attr(yy, attr)),
            decreases self.row - y,
        {
            let mut x: i32 = 0;
            while x < self.col
                invariant
                    0 <= y < self.row,
                    0 <= x <= self.col,
                    self.wf_arrays(),
                    forall|xx: int|
                        0 <= xx < x ==> ((#[trigger] self.line@[y as int]@[xx]).mode & attr) == 0,
                decreases self.col - x,
            {
                if self.line[y as usize][x as usize].mode & attr != 0 {
                    proof {
                        assert(self.row_has_attr(y as int, attr));
                    }
                    return true;
                }
                x = x + 1;
            }
            y = y + 1;
        }
        false
    }

    /// Mark every row that holds a cell carrying one of the attribute bits
    /// of `attr` as dirty (used to repaint blinking rows on a blink
    /// toggle). Other rows keep their flag.
    pub fn tsetdirtattr(&mut self, attr: u16)
        requires
            old(self).wf_arrays(),
        ensures
            final(self).wf_arrays(),
            final(self).wf_scroll() == old(self).wf_scroll(),
            final(self).wf_cursor() == old(self).wf_cursor(),
            final(self).dirty@.len() == old(self).dirty@.len(),
            forall|y: int|
                0 <= y < old(self).dirty@.len() ==> #[trigger] final(self).dirty@[y] == (old(
                    self,
                ).dirty@[y] || old(self).row_has_attr(y, attr)),
            *final(self) == (Term { dirty: final(self).dirty, ..*old(self) }),
            Term::dirty_monotone(*old(self), *final(self)),
    {
        proof {
            reveal(Term::dirty_monotone);
        }
        let mut y: i32 = 0;
        while y < self.row
            invariant
                0 <= y <= self.row,
                self.wf_arrays(),
                self.dirty@.len() == old(self).dirty@.len(),
                forall|yy: int|
                    0 <= yy < self.dirty@.len() ==> #[trigger] self.dirty@[yy] == (old(
                        self,
                    ).dirty@[yy] || (yy < y && old(self).row_has_attr(yy, attr))),
                *self == (Term { dirty: self.dirty, ..*old(self) }),
            decreases self.row - y,
        {
            let mut found = false;
            let mut x: i32 = 0;
            while x < self.col
                invariant
                    0 <= y < self.row,
                    0 <= x <= self.col,
                    self.wf_arrays(),
                    found == exists|xx: int|
                        0 <= xx < x && ((#[trigger] self.line@[y as int]@[xx]).mode & attr) != 0,
                decreases self.col - x,
            {
                if self.line[y as usize][x as usize].mode & attr != 0 {
                    found = true;
                }
                x = x + 1;
            }
            if found {
                self.dirty.set(y as usize, true);
            }
            y = y + 1;
        }
    }

    /// Report whether row `y` needs a repaint and clear its damage flag.
    pub fn consume_row(&mut self, y: i32) -> (was: bool)
        requires
            old(self).wf_arrays(),
            0 <= y < old(self).row,
        ensures
            final(self).wf_arrays(),
            final(self).wf_scroll() == old(self).wf_scroll(),
            final(self).wf_cursor() == old(self).wf_cursor(),
            was == old(self).dirty@[y as int],
            final(self).dirty@ =~= old(self).dirty@.update(y as int, false),
            *final(self) == (Term { dirty: final(self).dirty, ..*old(self) }),
    {
        let was = self.dirty[y as usize];
        self.dirty.set(y as usize, false);
        was
    }

    /// Consume the damage of the rows in `[y1, y2)`: their flags are
    /// cleared, and the rows that needed a repaint are returned in
    /// increasing order. After a pass over the whole grid no dirty row
    /// remains.
    pub fn drawregion(&mut self, y1: i32, y2: i32) -> (rows: Vec<i32>)
        requires
            old(self).wf_arrays(),
            0 <= y1,
            y2 <= old(self).row,
        ensures
            final(self).wf_arrays(),
            final(self).wf_scroll() == old(self).wf_scroll(),
            final(self).wf_cursor() == old(self).wf_cursor(),
            final(self).dirty@.len() == old(self).dirty@.len(),
            forall|y: int|
                y1 <= y < y2 ==> !(#[trigger] final(self).dirty@[y]),
            forall|y: int|
                0 <= y < old(self).dirty@.len() && !(y1 <= y < y2) ==> final(self).dirty@[y]
                    == #[trigger] old(self).dirty@[y],
            *final(self) == (Term { dirty: final(self).dirty, ..*old(self) }),
            forall|i: int|
                0 <= i < rows@.len() ==> y1 <= #[trigger] rows@[i] < y2 && old(self).dirty@[rows@[i]
                    as int],
            forall|y: i32| y1 <= y < y2 && old(self).dirty@[y as int] ==> rows@.contains(y),
            forall|i: int, j: int| 0 <= i < j < rows@.len() ==> rows@[i] < rows@[j],
    {
        let mut rows: Vec<i32> = Vec::new();
        let mut y = y1;
        while y < y2
            invariant
                0 <= y1 <= y,
                y2 <= self.row,
                y <= y2 || y == y1,
                self.wf_arrays(),
                self.dirty@.len() == old(self).dirty@.len(),
                forall|yy: int| y1 <= yy < y ==> !(#[trigger] self.dirty@[yy]),
                forall|yy: int|
                    0 <= yy < self.dirty@.len() && !(y1 <= yy < y) ==> #[trigger] self.dirty@[yy]
                        == old(self).dirty@[yy],
                *self == (Term { dirty: self.dirty, ..*old(self) }),
                forall|i: int|
                    0 <= i < rows@.len() ==> y1 <= #[trigger] rows@[i] < y && old(
                        self,
                    ).dirty@[rows@[i] as int],
                forall|yy: i32| y1 <= yy < y && old(self).dirty@[yy as int] ==> rows@.contains(yy),
                forall|i: int, j: int| 0 <= i < j < rows@.len() ==> rows@[i] < rows@[j],
            decreases y2 - y,
        {
            let ghost prev = *self;
            let ghost prev_rows = rows@;
            let was = self.consume_row(y);
            if was {
                rows.push(y);
            }
            proof {
                assert forall|yy: int| y1 <= yy < y + 1 implies !(self.dirty@[yy]) by {
                    assert(self.dirty@ =~= prev.dirty@.update(y as int, false));
                }
                assert forall|yy: i32| y1 <= yy < y + 1 && old(self).dirty@[yy as int] implies
                    rows@.contains(yy) by {
                    if yy < y {
                        assert(prev_rows.contains(yy));
                        let i = choose|i: int| 0 <= i < prev_rows.len() && prev_rows[i] == yy;
                        assert(rows@[i] == yy);
                    } else {
                        assert(rows@[rows@.len() - 1] == yy);
                    }
                }
            }
            y = y + 1;
        }
        rows
    }

    /// Prepare the cursor positions for a draw pass: clamp the last-drawn
    /// position into the grid, step both positions off a wide character's
    /// trailing cell onto its leading cell, record the new position as the
    /// last drawn, and report whether it changed.
    pub fn draw_prepare(&mut self) -> (p: DrawCursor)
        requires
            old(self).wf(),
        ensures
            final(self).wf(),
            ({
                let o = *old(self);
                let ox0 = clamp_spec(o.ocx as int, 0, o.col - 1);
                let oy0 = clamp_spec(o.ocy as int, 0, o.row - 1);
                let ox: int = if ox0 > 0 && (o.line@[oy0]@[ox0].mode & ATTR_WDUMMY) != 0 {
                    ox0 - 1
                } else {
                    ox0
                };
                let x: int = if o.c.x > 0 && (o.line@[o.c.y as int]@[o.c.x as int].mode
                    & ATTR_WDUMMY) != 0 {
                    o.c.x - 1
                } else {
                    o.c.x as int
                };
                &&& p.x == x
                &&& p.y == o.c.y
                &&& p.ox == ox
                &&& p.oy == oy0
                &&& p.moved == (o.ocx != x || o.ocy != o.c.y)
                &&& *final(self) == (Term { ocx: p.x, ocy: p.y, ..o })
            }),
    {
        let ocx_in = self.ocx;
        let ocy_in = self.ocy;
        let ox0 = clamp(ocx_in, 0, self.col - 1);
        let oy0 = clamp(ocy_in, 0, self.row - 1);
        let ox = if ox0 > 0 && self.line[oy0 as usize][ox0 as usize].mode & ATTR_WDUMMY != 0 {
            ox0 - 1
        } else {
            ox0
        };
        let cx = if self.c.x > 0 && self.line[self.c.y as usize][self.c.x as usize].mode
            & ATTR_WDUMMY != 0 {
            self.c.x - 1
        } else {
            self.c.x
        };
        let p = DrawCursor {
            x: cx,
            y: self.c.y,
            ox: ox,
            oy: oy0,
            moved: ocx_in != cx || ocy_in != self.c.y,
        };
        self.ocx = cx;
        self.ocy = self.c.y;
        p
    }
}

} // verus!
