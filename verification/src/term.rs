//! The terminal's emulation state: the two screen buffers, per-row damage
//! flags, tab stops, scrolling region, cursor and mode flags, and the text
//! selection.
use vstd::prelude::*;

use crate::clamp;
use crate::clamp_spec;
use crate::glyph::Glyph;

verus! {

/// Whether `save_or_load` saves the cursor into the slot of the active
/// screen or restores it from there.
#[derive(Clone, Copy, PartialEq, Eq, Structural, Debug)]
pub enum CursorOp {
    Save,
    Load,
}

/// One slot of the character-set translation table.
#[derive(Clone, Copy, PartialEq, Eq, Structural, Debug)]
pub enum Charset {
    Graphic0,
    Graphic1,
    Uk,
    Usa,
    Multi,
    Ger,
    Fin,
}

/// The cursor: its position, the attribute template applied to newly
/// written cells, and the wrap-pending / origin-mode state bits.
#[derive(Clone, Copy, PartialEq, Eq, Structural, Debug)]
pub struct Cursor {
    pub attr: Glyph,
    pub x: i32,
    pub y: i32,
    /// A character was written in the last column; the next write wraps.
    pub wrapnext: bool,
    /// Origin mode: cursor rows are confined to the scrolling region.
    pub origin: bool,
}

/// A grid coordinate used by the selection.
#[derive(Clone, Copy, PartialEq, Eq, Structural, Debug)]
pub struct SelPoint {
    pub x: i32,
    pub y: i32,
}

/// The selection's lifecycle state.
#[derive(Clone, Copy, PartialEq, Eq, Structural, Debug)]
pub enum SelMode {
    Idle,
    Empty,
    Ready,
}

/// The selection's shape.
#[derive(Clone, Copy, PartialEq, Eq, Structural, Debug)]
pub enum SelType {
    Regular,
    Rectangular,
}

/// The text selection: the anchor `ob`, the normalized range `nb..=ne`
/// (row-major for the regular type, a rectangle otherwise), and the screen
/// (primary or alternate) it was made on. `ob.x == -1` means no anchor.
#[derive(Clone, Copy, PartialEq, Eq, Structural, Debug)]
pub struct Selection {
    pub mode: SelMode,
    pub typ: SelType,
    /// The selection was made while the alternate screen was active.
    pub alt: bool,
    pub ob: SelPoint,
    pub nb: SelPoint,
    pub ne: SelPoint,
}

/// The terminal's emulation state. `line` is the active screen, `alt` the
/// inactive one; `swap_screens` exchanges them. Damage (`dirty`) is one flag
/// per row of the active screen.
pub struct Term {
    /// Rows of the active screen, each `col` cells wide.
    pub line: Vec<Vec<Glyph>>,
    /// Rows of the inactive screen, same shape.
    pub alt: Vec<Vec<Glyph>>,
    /// Per-row damage: true means the row must be repainted.
    pub dirty: Vec<bool>,
    /// One flag per column: a tab stop stands there.
    pub tabs: Vec<bool>,
    pub col: i32,
    pub row: i32,
    /// Scrolling region, `0 <= top <= bot <= row - 1`.
    pub top: i32,
    pub bot: i32,
    pub c: Cursor,
    /// Saved cursor of the primary screen.
    pub saved_main: Cursor,
    /// Saved cursor of the alternate screen.
    pub saved_alt: Cursor,
    /// Position where the cursor glyph was last drawn.
    pub ocx: i32,
    pub ocy: i32,
    // Terminal mode flags.
    pub wrap: bool,
    pub insert: bool,
    /// The alternate screen is active.
    pub altscreen: bool,
    pub crlf: bool,
    pub echo: bool,
    pub print_out: bool,
    pub utf8: bool,
    /// Index of the active charset slot.
    pub charset: i32,
    /// The four charset translation slots.
    pub trantbl: Vec<Charset>,
    pub sel: Selection,
    // Configuration.
    /// Spacing of default tab stops, at least 1.
    pub tabspaces: i32,
    /// Default foreground color.
    pub deffg: u32,
    /// Default background color.
    pub defbg: u32,
}

impl Term {
    /// The arrays agree with the stored geometry and the configuration is
    /// sane. Holds at every point, even while the cursor or the scrolling
    /// region is being re-clamped.
    pub open spec fn wf_arrays(self) -> bool {
        &&& 1 <= self.col
        &&& 1 <= self.row
        &&& self.line@.len() == self.row
        &&& self.alt@.len() == self.row
        &&& forall|y: int|
            0 <= y < self.row ==> (#[trigger] self.line@[y])@.len() == self.col
        &&& forall|y: int|
            0 <= y < self.row ==> (#[trigger] self.alt@[y])@.len() == self.col
        &&& self.dirty@.len() == self.row
        &&& self.tabs@.len() == self.col
        &&& 1 <= self.tabspaces
        &&& 0 <= self.charset < 4
        &&& self.trantbl@.len() == 4
        &&& self.sel_wf()
    }

    /// The selection's stored points are ordered, and an idle selection has
    /// no anchor.
    pub open spec fn sel_wf(self) -> bool {
        &&& self.sel.mode == SelMode::Idle ==> self.sel.ob.x == -1
        &&& self.sel.ob.x != -1 ==> self.sel.nb.y <= self.sel.ne.y
        &&& self.sel.ob.x != -1 && self.sel.typ == SelType::Rectangular ==> self.sel.nb.x
            <= self.sel.ne.x
        &&& self.sel.ob.x != -1 && self.sel.typ == SelType::Regular && self.sel.nb.y
            == self.sel.ne.y ==> self.sel.nb.x <= self.sel.ne.x
    }

    /// The scrolling region lies within the grid.
    pub open spec fn wf_scroll(self) -> bool {
        0 <= self.top <= self.bot < self.row
    }

    /// The cursor lies within the grid.
    pub open spec fn wf_cursor(self) -> bool {
        &&& 0 <= self.c.x < self.col
        &&& 0 <= self.c.y < self.row
    }

    /// Full well-formedness.
    pub open spec fn wf(self) -> bool {
        self.wf_arrays() && self.wf_scroll() && self.wf_cursor()
    }

    /// Cell `x` of row `y` of the active screen.
    pub open spec fn cell_at(self, x: int, y: int) -> Glyph {
        self.line@[y]@[x]
    }

    /// Cell `x` of row `y` of the inactive screen.
    pub open spec fn alt_cell_at(self, x: int, y: int) -> Glyph {
        self.alt@[y]@[x]
    }

    /// Both screens hold the same cells in `a` and `b`.
    pub open spec fn same_screens(a: Term, b: Term) -> bool {
        &&& b.line@.len() == a.line@.len()
        &&& b.alt@.len() == a.alt@.len()
        &&& forall|y: int|
            0 <= y < a.line@.len() ==> (#[trigger] b.line@[y])@ =~= a.line@[y]@
        &&& forall|y: int|
            0 <= y < a.alt@.len() ==> (#[trigger] b.alt@[y])@ =~= a.alt@[y]@
    }

    /// The geometry, configuration, saved cursors, mode flags, charset
    /// table and last-drawn cursor position are the same in `a` and `b`.
    pub open spec fn same_frame(a: Term, b: Term) -> bool {
        &&& b.col == a.col
        &&& b.row == a.row
        &&& b.top == a.top
        &&& b.bot == a.bot
        &&& b.saved_main == a.saved_main
        &&& b.saved_alt == a.saved_alt
        &&& b.ocx == a.ocx
        &&& b.ocy == a.ocy
        &&& b.wrap == a.wrap
        &&& b.insert == a.insert
        &&& b.altscreen == a.altscreen
        &&& b.crlf == a.crlf
        &&& b.echo == a.echo
        &&& b.print_out == a.print_out
        &&& b.utf8 == a.utf8
        &&& b.charset == a.charset
        &&& b.trantbl == a.trantbl
        &&& b.tabspaces == a.tabspaces
        &&& b.deffg == a.deffg
        &&& b.defbg == a.defbg
    }

    /// Every damage flag of `a` still stands in `b`: mutations may only add
    /// damage, never remove it.
    #[verifier::opaque]
    pub open spec fn dirty_monotone(a: Term, b: Term) -> bool {
        &&& b.dirty@.len() == a.dirty@.len()
        &&& forall|y: int| 0 <= y < a.dirty@.len() && #[trigger] a.dirty@[y] ==> b.dirty@[y]
    }

    /// What `move_to(x, y)` leaves behind: the cursor clamped into the grid
    /// (into the scrolling region's rows under origin mode), wrap-pending
    /// cleared, everything else untouched.
    pub open spec fn moveto_post(o: Term, n: Term, x: int, y: int) -> bool {
        let miny: int = if o.c.origin {
            o.top as int
        } else {
            0
        };
        let maxy: int = if o.c.origin {
            o.bot as int
        } else {
            o.row - 1
        };
        &&& n.c.x == clamp_spec(x, 0, o.col - 1)
        &&& n.c.y == clamp_spec(y, miny, maxy)
        &&& n.c.wrapnext == false
        &&& n.c.attr == o.c.attr
        &&& n.c.origin == o.c.origin
        &&& Term::same_frame(o, n)
        &&& n.line == o.line
        &&& n.alt == o.alt
        &&& n.dirty == o.dirty
        &&& n.tabs == o.tabs
        &&& n.sel == o.sel
    }

    /// Move the cursor to `(x, y)`, clamping x into the columns and y into
    /// the rows (or into the scrolling region when origin mode is set), and
    /// clear the pending-wrap bit. Any coordinates are accepted.
    pub fn tmoveto(&mut self, x: i32, y: i32)
        requires
            old(self).wf_arrays(),
            old(self).wf_scroll(),
        ensures
            final(self).wf_arrays(),
            final(self).wf_scroll(),
            final(self).wf_cursor(),
            Term::moveto_post(*old(self), *final(self), x as int, y as int),
    {
        let miny: i32 = if self.c.origin {
            self.top
        } else {
            0
        };
        let maxy: i32 = if self.c.origin {
            self.bot
        } else {
            self.row - 1
        };
        self.c.wrapnext = false;
        self.c.x = clamp(x, 0, self.col - 1);
        self.c.y = clamp(y, miny, maxy);
    }

    /// What a cursor save leaves behind: the active screen's slot holds the
    /// cursor, everything else is untouched.
    pub open spec fn cursor_save_post(o: Term, n: Term) -> bool {
        &&& n.saved_main == (if o.altscreen {
            o.saved_main
        } else {
            o.c
        })
        &&& n.saved_alt == (if o.altscreen {
            o.c
        } else {
            o.saved_alt
        })
        &&& n.c == o.c
        &&& n.col == o.col
        &&& n.row == o.row
        &&& n.top == o.top
        &&& n.bot == o.bot
        &&& n.ocx == o.ocx
        &&& n.ocy == o.ocy
        &&& n.wrap == o.wrap
        &&& n.insert == o.insert
        &&& n.altscreen == o.altscreen
        &&& n.crlf == o.crlf
        &&& n.echo == o.echo
        &&& n.print_out == o.print_out
        &&& n.utf8 == o.utf8
        &&& n.charset == o.charset
        &&& n.trantbl == o.trantbl
        &&& n.tabspaces == o.tabspaces
        &&& n.deffg == o.deffg
        &&& n.defbg == o.defbg
        &&& n.line == o.line
        &&& n.alt == o.alt
        &&& n.dirty == o.dirty
        &&& n.tabs == o.tabs
        &&& n.sel == o.sel
    }

    /// What a cursor load leaves behind: the cursor is the active screen's
    /// saved copy, re-clamped against the current bounds as `move_to` does.
    pub open spec fn cursor_load_post(o: Term, n: Term) -> bool {
        let s = if o.altscreen {
            o.saved_alt
        } else {
            o.saved_main
        };
        let miny: int = if s.origin {
            o.top as int
        } else {
            0
        };
        let maxy: int = if s.origin {
            o.bot as int
        } else {
            o.row - 1
        };
        &&& n.c.x == clamp_spec(s.x as int, 0, o.col - 1)
        &&& n.c.y == clamp_spec(s.y as int, miny, maxy)
        &&& n.c.wrapnext == false
        &&& n.c.attr == s.attr
        &&& n.c.origin == s.origin
        &&& Term::same_frame(o, n)
        &&& n.line == o.line
        &&& n.alt == o.alt
        &&& n.dirty == o.dirty
        &&& n.tabs == o.tabs
        &&& n.sel == o.sel
    }

    /// Save the cursor into, or load it back from, the slot belonging to
    /// the active screen; a load re-clamps the restored position.
    pub fn tcursor(&mut self, op: CursorOp)
        requires
            old(self).wf_arrays(),
            old(self).wf_scroll(),
            op == CursorOp::Load || old(self).wf_cursor(),
        ensures
            final(self).wf_arrays(),
            final(self).wf_scroll(),
            final(self).wf_cursor(),
            op == CursorOp::Save ==> Term::cursor_save_post(*old(self), *final(self)),
            op == CursorOp::Load ==> Term::cursor_load_post(*old(self), *final(self)),
    {
        match op {
            CursorOp::Save => {
                if self.altscreen {
                    self.saved_alt = self.c;
                } else {
                    self.saved_main = self.c;
                }
            },
            CursorOp::Load => {
                let s = if self.altscreen {
                    self.saved_alt
                } else {
                    self.saved_main
                };
                self.c = s;
                self.tmoveto(s.x, s.y);
            },
        }
    }

    /// The damage flags `nd` are the flags `od` with the rows between `t`
    /// and `b` (clamped into `[0, row - 1]`) newly set; every other row
    /// keeps its old flag.
    pub open spec fn marked_rows(od: Seq<bool>, nd: Seq<bool>, row: int, t: int, b: int) -> bool {
        let tc = clamp_spec(t, 0, row - 1);
        let bc = clamp_spec(b, 0, row - 1);
        &&& nd.len() == od.len()
        &&& forall|y: int| 0 <= y < od.len() ==> #[trigger] nd[y] == (od[y] || tc <= y <= bc)
    }

    /// What marking rows dirty leaves behind: exactly the clamped range is
    /// newly set, everything else keeps its old flag.
    pub open spec fn setdirt_post(o: Term, n: Term, top: int, bot: int) -> bool {
        &&& Term::marked_rows(o.dirty@, n.dirty@, o.row as int, top, bot)
        &&& Term::same_frame(o, n)
        &&& n.line == o.line
        &&& n.alt == o.alt
        &&& n.c == o.c
        &&& n.tabs == o.tabs
        &&& n.sel == o.sel
    }

    /// Mark the rows between `top` and `bot` (clamped into the grid) as
    /// needing a repaint.
    pub fn tsetdirt(&mut self, top: i32, bot: i32)
        requires
            old(self).wf_arrays(),
        ensures
            final(self).wf_arrays(),
            final(self).wf_scroll() == old(self).wf_scroll(),
            final(self).wf_cursor() == old(self).wf_cursor(),
            Term::setdirt_post(*old(self), *final(self), top as int, bot as int),
            Term::dirty_monotone(*old(self), *final(self)),
    {
        proof {
            reveal(Term::dirty_monotone);
        }
        let t = clamp(top, 0, self.row - 1);
        let b = clamp(bot, 0, self.row - 1);
        if t <= b {
            let mut y = t;
            while y <= b
                invariant
                    0 <= t <= y <= b + 1,
                    b < self.row,
                    b < self.dirty@.len(),
                    self.dirty@.len() == old(self).dirty@.len(),
                    forall|i: int|
                        0 <= i < self.dirty@.len() ==> #[trigger] self.dirty@[i] == (old(
                            self,
                        ).dirty@[i] || t <= i < y),
                    *self == (Term { dirty: self.dirty, ..*old(self) }),
                decreases b + 1 - y,
            {
                self.dirty.set(y as usize, true);
                y = y + 1;
            }
        }
    }

    /// Mark every row as needing a repaint.
    pub fn tfulldirt(&mut self)
        requires
            old(self).wf_arrays(),
        ensures
            final(self).wf_arrays(),
            final(self).wf_scroll() == old(self).wf_scroll(),
            final(self).wf_cursor() == old(self).wf_cursor(),
            Term::setdirt_post(*old(self), *final(self), 0, old(self).row - 1),
            forall|y: int| 0 <= y < final(self).dirty@.len() ==> #[trigger] final(self).dirty@[y],
            Term::dirty_monotone(*old(self), *final(self)),
    {
        let bot = self.row - 1;
        self.tsetdirt(0, bot);
    }

    /// What a screen swap leaves behind: the buffers exchanged, the
    /// active-screen flag toggled, every row dirty, the rest untouched.
    pub open spec fn swap_post(o: Term, n: Term) -> bool {
        &&& n.line == o.alt
        &&& n.alt == o.line
        &&& n.altscreen == !o.altscreen
        &&& n.dirty@.len() == o.dirty@.len()
        &&& forall|y: int| 0 <= y < n.dirty@.len() ==> #[trigger] n.dirty@[y]
        &&& n.col == o.col
        &&& n.row == o.row
        &&& n.top == o.top
        &&& n.bot == o.bot
        &&& n.c == o.c
        &&& n.saved_main == o.saved_main
        &&& n.saved_alt == o.saved_alt
        &&& n.ocx == o.ocx
        &&& n.ocy == o.ocy
        &&& n.wrap == o.wrap
        &&& n.insert == o.insert
        &&& n.crlf == o.crlf
        &&& n.echo == o.echo
        &&& n.print_out == o.print_out
        &&& n.utf8 == o.utf8
        &&& n.charset == o.charset
        &&& n.trantbl == o.trantbl
        &&& n.tabspaces == o.tabspaces
        &&& n.deffg == o.deffg
        &&& n.defbg == o.defbg
        &&& n.tabs == o.tabs
        &&& n.sel == o.sel
    }

    /// Exchange the active and inactive screens, toggle the alternate-screen
    /// flag, and mark the whole terminal dirty.
    pub fn tswapscreen(&mut self)
        requires
            old(self).wf_arrays(),
        ensures
            final(self).wf_arrays(),
            final(self).wf_scroll() == old(self).wf_scroll(),
            final(self).wf_cursor() == old(self).wf_cursor(),
            Term::swap_post(*old(self), *final(self)),
            Term::dirty_monotone(*old(self), *final(self)),
    {
        proof {
            reveal(Term::dirty_monotone);
        }
        core::mem::swap(&mut self.line, &mut self.alt);
        self.altscreen = !self.altscreen;
        self.tfulldirt();
    }

    /// Set the scrolling region to the given rows, clamping both bounds into
    /// the grid and swapping them if given in the wrong order.
    pub fn tsetscroll(&mut self, t: i32, b: i32)
        requires
            old(self).wf_arrays(),
        ensures
            final(self).wf_arrays(),
            final(self).wf_scroll(),
            final(self).wf_cursor() == old(self).wf_cursor(),
            ({
                let tc = clamp_spec(t as int, 0, old(self).row - 1);
                let bc = clamp_spec(b as int, 0, old(self).row - 1);
                &&& final(self).top == (if tc <= bc {
                    tc
                } else {
                    bc
                })
                &&& final(self).bot == (if tc <= bc {
                    bc
                } else {
                    tc
                })
            }),
            *final(self) == (Term {
                top: final(self).top,
                bot: final(self).bot,
                ..*old(self)
            }),
    {
        let mut tc = clamp(t, 0, self.row - 1);
        let mut bc = clamp(b, 0, self.row - 1);
        if tc > bc {
            let tmp = tc;
            tc = bc;
            bc = tmp;
        }
        self.top = tc;
        self.bot = bc;
    }
}

} // verus!
