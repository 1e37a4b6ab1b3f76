//! Selection tracking: hit-testing, clearing, and the begin/extend
//! operations driven by pointer input.
use vstd::prelude::*;

use crate::clamp;
use crate::clamp_spec;
use crate::term::SelMode;
use crate::term::SelPoint;
use crate::term::SelType;
use crate::term::Selection;
use crate::term::Term;

verus! {

/// Whether `(x, y)` lies inside the selection's normalized range. For the
/// rectangular type both coordinates are bounded independently; for the
/// regular type the range is row-major from `nb` to `ne`.
pub open spec fn sel_shape_contains(s: Selection, x: int, y: int) -> bool {
    if s.typ == SelType::Rectangular {
        s.nb.y <= y <= s.ne.y && s.nb.x <= x <= s.ne.x
    } else {
        &&& s.nb.y <= y <= s.ne.y
        &&& (y != s.nb.y || x >= s.nb.x)
        &&& (y != s.ne.y || x <= s.ne.x)
    }
}

/// Whether `(x, y)` is selected in state `t`: the selection must have an
/// anchor, not be in its empty state, and have been made on the screen that
/// is active now; then the shape decides.
pub open spec fn sel_hit(t: Term, x: int, y: int) -> bool {
    &&& t.sel.mode != SelMode::Empty
    &&& t.sel.ob.x != -1
    &&& t.sel.alt == t.altscreen
    &&& sel_shape_contains(t.sel, x, y)
}

/// The selection after a clear: mode idle and the anchor unset; the stored
/// range is left as it was.
pub open spec fn cleared_sel(s: Selection) -> Selection {
    Selection { mode: SelMode::Idle, ob: SelPoint { x: -1i32, y: s.ob.y }, ..s }
}

/// The normalized range spanned by the anchor `ob` and the extent `(ex, ey)`:
/// row-major order for a regular selection across rows, otherwise the
/// coordinate-wise minimum and maximum.
pub open spec fn normalized_range(typ: SelType, ob: SelPoint, ex: int, ey: int) -> (SelPoint,
    SelPoint) {
    let nby = if ob.y <= ey {
        ob.y as int
    } else {
        ey
    };
    let ney = if ob.y <= ey {
        ey
    } else {
        ob.y as int
    };
    let (nbx, nex) = if typ == SelType::Regular && ob.y != ey {
        if ob.y < ey {
            (ob.x as int, ex)
        } else {
            (ex, ob.x as int)
        }
    } else {
        if ob.x <= ex {
            (ob.x as int, ex)
        } else {
            (ex, ob.x as int)
        }
    };
    (SelPoint { x: nbx as i32, y: nby as i32 }, SelPoint { x: nex as i32, y: ney as i32 })
}

/// What a selection clear leaves behind: nothing, if there was no anchor;
/// otherwise the selection is cleared and the rows its highlight covered
/// are marked dirty.
pub open spec fn selclear_post(o: Term, n: Term) -> bool {
    if o.sel.ob.x == -1 {
        n == o
    } else {
        &&& n.sel == cleared_sel(o.sel)
        &&& Term::marked_rows(o.dirty@, n.dirty@, o.row as int, o.sel.nb.y as int, o.sel.ne.y as int)
        &&& Term::same_frame(o, n)
        &&& n.line == o.line
        &&& n.alt == o.alt
        &&& n.c == o.c
        &&& n.tabs == o.tabs
    }
}

impl Term {
    /// Initialize the selection to its idle, anchorless state.
    pub fn selinit(&mut self)
        requires
            old(self).wf_arrays(),
        ensures
            final(self).wf_arrays(),
            final(self).wf_scroll() == old(self).wf_scroll(),
            final(self).wf_cursor() == old(self).wf_cursor(),
            final(self).sel == (Selection {
                mode: SelMode::Idle,
                typ: SelType::Regular,
                alt: false,
                ob: SelPoint { x: -1i32, y: 0i32 },
                nb: SelPoint { x: 0, y: 0 },
                ne: SelPoint { x: 0, y: 0 },
            }),
            *final(self) == (Term { sel: final(self).sel, ..*old(self) }),
    {
        self.sel = Selection {
            mode: SelMode::Idle,
            typ: SelType::Regular,
            alt: false,
            ob: SelPoint { x: -1i32, y: 0i32 },
            nb: SelPoint { x: 0, y: 0 },
            ne: SelPoint { x: 0, y: 0 },
        };
    }

    /// Whether the cell at `(x, y)` is part of the live selection.
    pub fn selected(&self, x: i32, y: i32) -> (r: bool)
        ensures
            r == sel_hit(*self, x as int, y as int),
    {
        if matches!(self.sel.mode, SelMode::Empty) || self.sel.ob.x == -1 || self.sel.alt
            != self.altscreen {
            return false;
        }
        if matches!(self.sel.typ, SelType::Rectangular) {
            return self.sel.nb.y <= y && y <= self.sel.ne.y && self.sel.nb.x <= x && x
                <= self.sel.ne.x;
        }
        self.sel.nb.y <= y && y <= self.sel.ne.y && (y != self.sel.nb.y || x >= self.sel.nb.x) && (y
            != self.sel.ne.y || x <= self.sel.ne.x)
    }

    /// Clear the selection: a no-op without an anchor, otherwise the mode
    /// goes idle, the anchor is unset, and the rows the highlight covered
    /// are marked dirty so it disappears on the next draw.
    pub fn selclear(&mut self)
        requires
            old(self).wf_arrays(),
        ensures
            final(self).wf_arrays(),
            final(self).wf_scroll() == old(self).wf_scroll(),
            final(self).wf_cursor() == old(self).wf_cursor(),
            selclear_post(*old(self), *final(self)),
            Term::dirty_monotone(*old(self), *final(self)),
    {
        proof {
            reveal(Term::dirty_monotone);
        }
        if self.sel.ob.x == -1 {
            return ;
        }
        self.sel.mode = SelMode::Idle;
        self.sel.ob.x = -1;
        let nby = self.sel.nb.y;
        let ney = self.sel.ne.y;
        self.tsetdirt(nby, ney);
    }

    /// Begin a selection at `(x, y)` (clamped into the grid): the anchor is
    /// set, the range collapses to that cell, the mode is empty until an
    /// extent arrives, and the cell's row is marked dirty.
    pub fn selstart(&mut self, x: i32, y: i32)
        requires
            old(self).wf_arrays(),
        ensures
            final(self).wf_arrays(),
            final(self).wf_scroll() == old(self).wf_scroll(),
            final(self).wf_cursor() == old(self).wf_cursor(),
            ({
                let cx = clamp_spec(x as int, 0, old(self).col - 1);
                let cy = clamp_spec(y as int, 0, old(self).row - 1);
                final(self).sel == (Selection {
                    mode: SelMode::Empty,
                    typ: SelType::Regular,
                    alt: old(self).altscreen,
                    ob: SelPoint { x: cx as i32, y: cy as i32 },
                    nb: SelPoint { x: cx as i32, y: cy as i32 },
                    ne: SelPoint { x: cx as i32, y: cy as i32 },
                })
            }),
            Term::marked_rows(
                old(self).dirty@,
                final(self).dirty@,
                old(self).row as int,
                clamp_spec(y as int, 0, old(self).row - 1),
                clamp_spec(y as int, 0, old(self).row - 1),
            ),
            Term::same_frame(*old(self), *final(self)),
            final(self).line == old(self).line,
            final(self).alt == old(self).alt,
            final(self).c == old(self).c,
            final(self).tabs == old(self).tabs,
            Term::dirty_monotone(*old(self), *final(self)),
    {
        proof {
            reveal(Term::dirty_monotone);
        }
        let cx = clamp(x, 0, self.col - 1);
        let cy = clamp(y, 0, self.row - 1);
        self.sel = Selection {
            mode: SelMode::Empty,
            typ: SelType::Regular,
            alt: self.altscreen,
            ob: SelPoint { x: cx, y: cy },
            nb: SelPoint { x: cx, y: cy },
            ne: SelPoint { x: cx, y: cy },
        };
        self.tsetdirt(cy, cy);
    }

    /// Extend the selection to `(x, y)` (clamped into the grid) with the
    /// given type: the range is re-normalized from the anchor, the mode
    /// becomes ready, and the rows of both the old and the new highlight
    /// are marked dirty. A no-op while no selection has been started.
    pub fn selextend(&mut self, x: i32, y: i32, typ: SelType)
        requires
            old(self).wf_arrays(),
        ensures
            final(self).wf_arrays(),
            final(self).wf_scroll() == old(self).wf_scroll(),
            final(self).wf_cursor() == old(self).wf_cursor(),
            old(self).sel.mode == SelMode::Idle ==> *final(self) == *old(self),
            old(self).sel.mode != SelMode::Idle ==> ({
                let cx = clamp_spec(x as int, 0, old(self).col - 1);
                let cy = clamp_spec(y as int, 0, old(self).row - 1);
                let r = normalized_range(typ, old(self).sel.ob, cx, cy);
                let lo: int = if r.0.y < old(self).sel.nb.y {
                    r.0.y as int
                } else {
                    old(self).sel.nb.y as int
                };
                let hi: int = if r.1.y > old(self).sel.ne.y {
                    r.1.y as int
                } else {
                    old(self).sel.ne.y as int
                };
                &&& final(self).sel == (Selection {
                    mode: SelMode::Ready,
                    typ: typ,
                    alt: old(self).sel.alt,
                    ob: old(self).sel.ob,
                    nb: r.0,
                    ne: r.1,
                })
                &&& Term::marked_rows(
                    old(self).dirty@,
                    final(self).dirty@,
                    old(self).row as int,
                    lo,
                    hi,
                )
                &&& Term::same_frame(*old(self), *final(self))
                &&& final(self).line == old(self).line
                &&& final(self).alt == old(self).alt
                &&& final(self).c == old(self).c
                &&& final(self).tabs == old(self).tabs
            }),
            Term::dirty_monotone(*old(self), *final(self)),
    {
        proof {
            reveal(Term::dirty_monotone);
        }
        if matches!(self.sel.mode, SelMode::Idle) {
            return ;
        }
        let cx = clamp(x, 0, self.col - 1);
        let cy = clamp(y, 0, self.row - 1);
        let ob = self.sel.ob;
        let nby = if ob.y <= cy {
            ob.y
        } else {
            cy
        };
        let ney = if ob.y <= cy {
            cy
        } else {
            ob.y
        };
        let regular_span = matches!(typ, SelType::Regular) && ob.y != cy;
        let (nbx, nex) = if regular_span {
            if ob.y < cy {
                (ob.x, cx)
            } else {
                (cx, ob.x)
            }
        } else {
            if ob.x <= cx {
                (ob.x, cx)
            } else {
                (cx, ob.x)
            }
        };
        let old_nby = self.sel.nb.y;
        let old_ney = self.sel.ne.y;
        self.sel = Selection {
            mode: SelMode::Ready,
            typ: typ,
            alt: self.sel.alt,
            ob: ob,
            nb: SelPoint { x: nbx, y: nby },
            ne: SelPoint { x: nex, y: ney },
        };
        let lo = if nby < old_nby {
            nby
        } else {
            old_nby
        };
        let hi = if ney > old_ney {
            ney
        } else {
            old_ney
        };
        self.tsetdirt(lo, hi);
    }
}

} // verus!
