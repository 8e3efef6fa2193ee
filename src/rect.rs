use vstd::prelude::*;

verus! {

/// The largest coordinate a terminal cell can have.
pub const MAX_COORD: u16 = 65535;

/// A rectangle of terminal cells: its top left corner and its size.
#[derive(Clone, Copy, Debug, PartialEq, Eq, Structural)]
pub struct Rect {
    pub x: u16,
    pub y: u16,
    pub width: u16,
    pub height: u16,
}

impl Rect {
    /// The empty rectangle at the origin.
    pub open spec fn empty() -> Rect {
        Rect { x: 0, y: 0, width: 0, height: 0 }
    }

    /// A rectangle that covers no cell.
    pub open spec fn is_degenerate_spec(self) -> bool {
        self.width == 0 || self.height == 0
    }

    /// One past the last row, clamped to the coordinate range.
    pub open spec fn bottom_spec(self) -> int {
        if self.y + self.height <= MAX_COORD {
            self.y + self.height
        } else {
            MAX_COORD as int
        }
    }

    /// One past the last column, clamped to the coordinate range.
    pub open spec fn right_spec(self) -> int {
        if self.x + self.width <= MAX_COORD {
            self.x + self.width
        } else {
            MAX_COORD as int
        }
    }

    /// The rows of the rectangle that have a coordinate.
    pub open spec fn visible_rows(self) -> int {
        self.bottom_spec() - self.y
    }

    /// The columns of the rectangle that have a coordinate.
    pub open spec fn visible_cols(self) -> int {
        self.right_spec() - self.x
    }

    /// Whether the rectangle covers no cell.
    pub fn is_degenerate(&self) -> (r: bool)
        ensures
            r == self.is_degenerate_spec(),
    {
        self.width == 0 || self.height == 0
    }

    /// One past the last row, saturating at the largest coordinate.
    pub fn bottom(&self) -> (r: u16)
        ensures
            r == self.bottom_spec(),
    {
        self.y.saturating_add(self.height)
    }

    /// One past the last column, saturating at the largest coordinate.
    pub fn right(&self) -> (r: u16)
        ensures
            r == self.right_spec(),
    {
        self.x.saturating_add(self.width)
    }
}

impl Default for Rect {
    fn default() -> (r: Rect)
        ensures
            r == Rect::empty(),
    {
        Rect { x: 0, y: 0, width: 0, height: 0 }
    }
}

} // verus!
