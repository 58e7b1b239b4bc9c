//! Board coordinates for the fixed 3x3 grid.

use vstd::prelude::*;

verus! {

/// Edge length of every board in the system.
pub const SIZE: usize = 3;

/// Number of cells of a board, row-major.
pub const CELLS: usize = 9;

/// A square of the board, `x` counting columns and `y` counting rows.
#[derive(Clone, Copy, PartialEq, Eq, Structural, Debug)]
pub struct Position {
    pub x: usize,
    pub y: usize,
}

impl Position {
    /// Both coordinates lie on the board.
    pub open spec fn wf(self) -> bool {
        self.x < 3 && self.y < 3
    }

    /// Row-major index of the square inside a flat nine-cell buffer.
    pub open spec fn idx(self) -> int {
        self.y * 3 + self.x
    }

    /// The square `delta` rows away in the same column, or `None` when
    /// that square would fall off the board.
    pub fn offset_y(self, delta: isize) -> (r: Option<Position>)
        requires
            self.wf(),
        ensures
            r is Some <==> 0 <= self.y + delta < 3,
            r matches Some(q) ==> q.x == self.x && q.y == self.y + delta && q.wf(),
    {
        if delta >= 0 {
            let d = delta as usize;
            if d < 3 && self.y + d < 3 {
                Some(pos(self.x, self.y + d))
            } else {
                None
            }
        } else if delta >= -2 {
            let d = (-delta) as usize;
            if self.y >= d {
                Some(pos(self.x, self.y - d))
            } else {
                None
            }
        } else {
            None
        }
    }

    /// The square `delta` columns away in the same row, or `None` when
    /// that square would fall off the board.
    pub fn offset_x(self, delta: isize) -> (r: Option<Position>)
        requires
            self.wf(),
        ensures
            r is Some <==> 0 <= self.x + delta < 3,
            r matches Some(q) ==> q.y == self.y && q.x == self.x + delta && q.wf(),
    {
        if delta >= 0 {
            let d = delta as usize;
            if d < 3 && self.x + d < 3 {
                Some(pos(self.x + d, self.y))
            } else {
                None
            }
        } else if delta >= -2 {
            let d = (-delta) as usize;
            if self.x >= d {
                Some(pos(self.x - d, self.y))
            } else {
                None
            }
        } else {
            None
        }
    }
}

/// Builds a position from its two coordinates.
pub fn pos(x: usize, y: usize) -> (r: Position)
    ensures
        r.x == x && r.y == y,
{
    Position { x, y }
}

} // verus!
