//! Presentation-side window state the emulation core reads and drives: the
//! visibility and focus flags a renderer consults, the blink-visibility
//! phase, the cursor shape, and the window title.
use vstd::prelude::*;

verus! {

/// The highest cursor-shape number a terminal accepts.
pub const CURSOR_SHAPE_MAX: i32 = 7;

/// Window state: mode flags the draw path consults, the cursor shape, and
/// the title.
pub struct WinState {
    /// The window is currently visible; drawing is skipped otherwise.
    pub visible: bool,
    /// The window has input focus.
    pub focused: bool,
    /// Reverse video.
    pub reverse: bool,
    /// The cursor glyph is hidden.
    pub hidden: bool,
    /// Blink phase: blinking cells are currently blanked.
    pub blink: bool,
    pub numlock: bool,
    /// Cursor shape, in `0..=CURSOR_SHAPE_MAX`.
    pub cursor: i32,
    pub title: String,
    /// The title installed by `resettitle`.
    pub default_title: String,
}

impl WinState {
    pub open spec fn wf(self) -> bool {
        0 <= self.cursor <= CURSOR_SHAPE_MAX
    }

    /// Fresh window state: not yet visible or focused, numlock on (as
    /// terminals start), default cursor shape, and the given title.
    pub fn new(default_title: String) -> (w: WinState)
        ensures
            w.wf(),
            !w.visible,
            !w.focused,
            !w.reverse,
            !w.hidden,
            !w.blink,
            w.numlock,
            w.cursor == 2,
            w.title@ == default_title@,
            w.default_title@ == default_title@,
    {
        let title = default_title.clone();
        WinState {
            visible: false,
            focused: false,
            reverse: false,
            hidden: false,
            blink: false,
            numlock: true,
            cursor: 2,
            title: title,
            default_title: default_title,
        }
    }

    /// Set the cursor shape. Shapes outside `0..=CURSOR_SHAPE_MAX` are
    /// rejected with a nonzero result and leave the state untouched.
    pub fn xsetcursor(&mut self, cursor: i32) -> (r: i32)
        requires
            old(self).wf(),
        ensures
            final(self).wf(),
            r == (if 0 <= cursor <= CURSOR_SHAPE_MAX {
                0int
            } else {
                1int
            }),
            r == 0 ==> *final(self) == (WinState { cursor: cursor, ..*old(self) }),
            r != 0 ==> *final(self) == *old(self),
    {
        if !(0 <= cursor && cursor <= CURSOR_SHAPE_MAX) {
            return 1;
        }
        self.cursor = cursor;
        0
    }

    /// Whether a draw pass should proceed: only while the window is
    /// visible.
    pub fn startdraw(&self) -> (r: bool)
        ensures
            r == self.visible,
    {
        self.visible
    }

    /// Restore the default window title.
    pub fn resettitle(&mut self)
        ensures
            final(self).title@ == old(self).default_title@,
            *final(self) == (WinState { title: final(self).title, ..*old(self) }),
    {
        self.title = self.default_title.clone();
    }

    /// Flip the blink phase. When more than a whole blink period was
    /// missed (`start_visible`), the cycle restarts with blinking cells
    /// shown instead of merely flipping the stale phase.
    pub fn toggle_blink(&mut self, start_visible: bool)
        ensures
            final(self).blink == (if start_visible {
                false
            } else {
                !old(self).blink
            }),
            *final(self) == (WinState { blink: final(self).blink, ..*old(self) }),
    {
        if start_visible {
            self.blink = true;
        }
        self.blink = !self.blink;
    }
}

} // verus!
