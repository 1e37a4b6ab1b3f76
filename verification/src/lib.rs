//! Core state of a terminal emulator: the two screen buffers with their
//! per-row damage flags and tab stops, the cursor and mode state, the text
//! selection, the resize engine, and the redraw scheduler's latency policy.
//!
//! All drawing, process I/O and window-system work is left to the embedding
//! program; this crate owns the state machines and proves their invariants.
use vstd::prelude::*;

pub mod damage;
pub mod glyph;
pub mod laws;
pub mod reset;
pub mod resize;
pub mod sched;
pub mod screen;
pub mod sel;
pub mod term;
pub mod win;

verus! {

/// Clamp of `v` into `[lo, hi]`, for `lo <= hi`.
pub open spec fn clamp_spec(v: int, lo: int, hi: int) -> int {
    if v < lo {
        lo
    } else if v > hi {
        hi
    } else {
        v
    }
}

/// Clamp `v` into `[lo, hi]`.
pub fn clamp(v: i32, lo: i32, hi: i32) -> (r: i32)
    requires
        lo <= hi,
    ensures
        r == clamp_spec(v as int, lo as int, hi as int),
{
    if v < lo {
        lo
    } else if v > hi {
        hi
    } else {
        v
    }
}

/// Whether `x` lies in the closed interval `[a, b]`.
pub fn between(x: i32, a: i32, b: i32) -> (r: bool)
    ensures
        r == (a <= x <= b),
{
    a <= x && x <= b
}

} // verus!
