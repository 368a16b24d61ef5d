use vstd::prelude::*;

verus! {

/// A location in document coordinates: `x` is a grapheme-cluster column
/// within a row, `y` is a row index.  Also reused for the viewport offset,
/// where it names the top-left document coordinate currently visible.
#[derive(Clone, Copy, Debug, PartialEq, Eq, Structural)]
pub struct Position {
    pub x: usize,
    pub y: usize,
}

impl Default for Position {
    /// The origin `(0, 0)`.
    fn default() -> (p: Position)
        ensures
            p.x == 0,
            p.y == 0,
    {
        Position { x: 0, y: 0 }
    }
}

/// Terminal dimensions in character cells.  The height stored here is the
/// usable text height: the status and message bars are subtracted before the
/// size is handed to layout logic.
#[derive(Clone, Copy, Debug, PartialEq, Eq, Structural)]
pub struct Size {
    pub width: u16,
    pub height: u16,
}

impl Size {
    /// The usable text area of a terminal: its full width, and its height
    /// less the two rows reserved for the status and message bars.
    pub fn usable(width: u16, height: u16) -> (s: Size)
        ensures
            s.width == width,
            s.height == sub_floor(height as int, 2),
    {
        Size { width, height: height.saturating_sub(2) }
    }
}

/// Subtraction on the unsigned domain, saturating at zero.
pub open spec fn sub_floor(a: int, b: int) -> int {
    if a >= b {
        a - b
    } else {
        0
    }
}

/// Addition capped at the machine word, as `usize::saturating_add` computes it.
pub open spec fn add_cap(a: int, b: int) -> int {
    if a + b > usize::MAX {
        usize::MAX as int
    } else {
        a + b
    }
}

} // verus!
