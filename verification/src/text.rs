//! Screen-label layout choices.

use vstd::prelude::*;

verus! {

/// Horizontal alignment of a line's typographic advance around its baseline
/// anchor. It aligns the whole line, never single glyphs, and never changes
/// the shaping direction.
#[derive(Debug, Clone, Copy, PartialEq, Eq, Hash, Structural)]
pub enum TextAlignment {
    /// The baseline origin starts at the anchor's x coordinate.
    Left,
    /// Half the line's advance lies on each side of the anchor.
    Center,
    /// The line's advance ends at the anchor's x coordinate.
    Right,
}

impl Default for TextAlignment {
    /// Left alignment.
    fn default() -> (alignment: Self)
        ensures
            alignment == TextAlignment::Left,
    {
        TextAlignment::Left
    }
}

} // verus!
