//! Laws relating the terminal's operations: what holds across sequences of
//! calls, stated over the same relations the operations' contracts use.
use vstd::prelude::*;

use crate::clamp_spec;
use crate::reset::default_tab_at;
use crate::sel::sel_hit;
use crate::sel::selclear_post;
use crate::term::SelMode;
use crate::term::Term;

verus! {

/// Resizing is idempotent: a second resize to the same dimensions changes
/// nothing — not the grid contents of either screen, nor the cursor, tab
/// stops, damage, selection, or any mode.
pub proof fn lemma_resize_idempotent(o: Term, a: Term, b: Term, col: int, row: int)
    requires
        o.wf(),
        1 <= col,
        1 <= row,
        Term::resize_post(o, a, col, row),
        Term::resize_post(a, b, col, row),
    ensures
        Term::same_screens(a, b),
        b.c == a.c,
        b.tabs@ =~= a.tabs@,
        b.dirty@ =~= a.dirty@,
        b.sel == a.sel,
        b.top == a.top,
        b.bot == a.bot,
        b.col == a.col,
        b.row == a.row,
{
    assert(a.col == col && a.row == row);
    assert(0 <= a.c.y < row);
    assert(crate::resize::resize_shift(a, row) == 0);
    assert(!crate::resize::resize_hits_sel(a, col, row));
    assert(b.c.x == clamp_spec(a.c.x as int, 0, col - 1) == a.c.x as int);
    assert(b.c.y == clamp_spec(a.c.y as int, 0, row - 1) == a.c.y as int);
    assert forall|y: int| 0 <= y < a.line@.len() implies (#[trigger] b.line@[y])@ =~= a.line@[y]@
    by {
        assert(forall|x: int| 0 <= x < col ==> (#[trigger] b.line@[y]@[x]) == a.line@[y]@[x]);
    }
    assert forall|y: int| 0 <= y < a.alt@.len() implies (#[trigger] b.alt@[y])@ =~= a.alt@[y]@ by {
        assert(forall|x: int| 0 <= x < col ==> (#[trigger] b.alt@[y]@[x]) == a.alt@[y]@[x]);
    }
}

/// Saving the cursor, moving it anywhere — clamped or not — and loading it
/// back restores the saved position, attributes and origin mode; the
/// restored row is re-clamped into the scrolling region when origin mode
/// is on, and is exactly the saved row otherwise.
pub proof fn lemma_cursor_roundtrip(t0: Term, t1: Term, t2: Term, t3: Term, x: int, y: int)
    requires
        t0.wf(),
        Term::cursor_save_post(t0, t1),
        Term::moveto_post(t1, t2, x, y),
        Term::cursor_load_post(t2, t3),
    ensures
        t3.c.attr == t0.c.attr,
        t3.c.origin == t0.c.origin,
        t3.c.x == t0.c.x,
        t3.c.wrapnext == false,
        !t0.c.origin ==> t3.c.y == t0.c.y,
        t0.c.origin ==> t3.c.y == clamp_spec(t0.c.y as int, t0.top as int, t0.bot as int),
{
    assert(t2.altscreen == t0.altscreen);
    assert((if t2.altscreen {
        t2.saved_alt
    } else {
        t2.saved_main
    }) == t0.c);
}

/// Shrinking the grid below the cursor's row keeps that row: its kept
/// columns land in the new bottom row, where the cursor now stands.
pub proof fn lemma_shrink_keeps_cursor_row(o: Term, n: Term, col: int, row: int)
    requires
        o.wf(),
        1 <= col,
        1 <= row <= o.c.y,
        Term::resize_post(o, n, col, row),
    ensures
        n.c.y == row - 1,
        forall|x: int|
            0 <= x < col && x < o.col ==> (#[trigger] n.line@[row - 1]@[x]) == o.line@[o.c.y
                as int]@[x],
{
    assert(crate::resize::resize_shift(o, row) == o.c.y - row + 1);
}

/// No cell is selected after a clear.
pub proof fn lemma_nothing_selected_after_clear(o: Term, n: Term)
    requires
        o.wf_arrays(),
        selclear_post(o, n),
    ensures
        forall|x: int, y: int| !sel_hit(n, x, y),
{
    assert(n.sel.ob.x == -1);
}

/// No cell is selected while the selection is idle or empty.
pub proof fn lemma_nothing_selected_when_inactive(t: Term)
    requires
        t.wf_arrays(),
        t.sel.mode == SelMode::Idle || t.sel.mode == SelMode::Empty,
    ensures
        forall|x: int, y: int| !sel_hit(t, x, y),
{
}

/// Widening the grid preserves every existing tab stop at its column and
/// adds stops, at multiples of the tab width only, in the new columns.
pub proof fn lemma_widen_preserves_tabs(o: Term, n: Term, col: int, row: int)
    requires
        o.wf(),
        1 <= row,
        o.col <= col,
        Term::resize_post(o, n, col, row),
    ensures
        forall|i: int| 0 <= i < o.col ==> #[trigger] n.tabs@[i] == o.tabs@[i],
        forall|i: int|
            o.col <= i < col ==> #[trigger] n.tabs@[i] == default_tab_at(i, o.tabspaces as int),
{
}

/// Damage accumulates: marks survive any two successive mutations that
/// each preserve existing marks, so they only leave when a draw pass
/// consumes them.
pub proof fn lemma_damage_accumulates(a: Term, b: Term, c: Term)
    requires
        Term::dirty_monotone(a, b),
        Term::dirty_monotone(b, c),
    ensures
        Term::dirty_monotone(a, c),
{
    reveal(Term::dirty_monotone);
    assert forall|y: int|
        0 <= y < a.dirty@.len() && #[trigger] a.dirty@[y] implies c.dirty@[y] by {
        assert(b.dirty@[y]);
        assert(c.dirty@[y]);
    }
}

} // verus!
