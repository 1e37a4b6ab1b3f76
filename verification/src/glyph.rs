//! A single grid cell: code point, style-attribute bits, and colors.
use vstd::prelude::*;

verus! {

// Style-attribute bits carried by a cell.
pub const ATTR_BOLD: u16 = 0x0001;
pub const ATTR_FAINT: u16 = 0x0002;
pub const ATTR_ITALIC: u16 = 0x0004;
pub const ATTR_UNDERLINE: u16 = 0x0008;
pub const ATTR_BLINK: u16 = 0x0010;
pub const ATTR_REVERSE: u16 = 0x0020;
pub const ATTR_INVISIBLE: u16 = 0x0040;
pub const ATTR_STRUCK: u16 = 0x0080;
pub const ATTR_WRAP: u16 = 0x0100;
pub const ATTR_WIDE: u16 = 0x0200;
pub const ATTR_WDUMMY: u16 = 0x0400;

/// One cell of the grid: a code point `u`, a bitmask `mode` of `ATTR_*`
/// style bits, and foreground/background color values.
#[derive(Clone, Copy, PartialEq, Eq, Structural, Debug)]
pub struct Glyph {
    pub u: u32,
    pub mode: u16,
    pub fg: u32,
    pub bg: u32,
}

/// The blank cell written by a clear: a space with no attributes, colored
/// with the clearing cursor's template colors.
pub open spec fn blank(attr: Glyph) -> Glyph {
    Glyph { u: 32, mode: 0, fg: attr.fg, bg: attr.bg }
}

impl Glyph {
    /// The blank cell taking its colors from `attr`.
    pub fn blank_from(attr: Glyph) -> (g: Glyph)
        ensures
            g == blank(attr),
    {
        Glyph { u: 32, mode: 0, fg: attr.fg, bg: attr.bg }
    }
}

/// Whether two cells differ in attributes or colors (the code point is not
/// compared): a renderer must break its run of glyphs at such a boundary.
pub fn attrcmp(a: Glyph, b: Glyph) -> (r: bool)
    ensures
        r == (a.mode != b.mode || a.fg != b.fg || a.bg != b.bg),
{
    a.mode != b.mode || a.fg != b.fg || a.bg != b.bg
}

} // verus!
