//! A fixed 3x3 grid of copyable cells, stored row-major.

use vstd::prelude::*;
use vstd::pervasive::VecAdditionalExecFns;
use crate::position::Position;
use crate::position::CELLS;

verus! {

/// A 3x3 board of `T`, indexed by [`Position`], cell `(x, y)` living at
/// flat index `y * 3 + x` of the view.
pub struct Grid<T: Copy> {
    cells: Vec<T>,
}

impl<T: Copy> View for Grid<T> {
    type V = Seq<T>;

    closed spec fn view(&self) -> Seq<T> {
        self.cells@
    }
}

impl<T: Copy> Grid<T> {
    /// The grid holds exactly its nine cells.
    pub open spec fn wf(&self) -> bool {
        self@.len() == 9
    }

    /// A grid with every cell set to `v`.
    pub fn filled(v: T) -> (r: Grid<T>)
        ensures
            r.wf(),
            forall|i: int| 0 <= i < 9 ==> r@[i] == v,
    {
        let mut cells: Vec<T> = Vec::new();
        let mut k: usize = 0;
        while k < CELLS
            invariant
                k <= 9,
                cells@.len() == k,
                forall|i: int| 0 <= i < k ==> cells@[i] == v,
            decreases 9 - k,
        {
            cells.push(v);
            k = k + 1;
        }
        Grid { cells }
    }

    /// A grid over the nine given cells, row-major.
    pub fn from_cells(cells: Vec<T>) -> (r: Grid<T>)
        requires
            cells@.len() == 9,
        ensures
            r.wf(),
            r@ == cells@,
    {
        Grid { cells }
    }

    /// The cell standing at `p`.
    pub fn at(&self, p: Position) -> (r: T)
        requires
            self.wf(),
            p.wf(),
        ensures
            r == self@[p.idx()],
    {
        self.cells[p.y * 3 + p.x]
    }

    /// The cell at flat index `k` of the row-major buffer.
    pub fn at_flat(&self, k: usize) -> (r: T)
        requires
            self.wf(),
            k < 9,
        ensures
            r == self@[k as int],
    {
        self.cells[k]
    }

    /// Replaces the cell standing at `p`.
    pub fn set_at(&mut self, p: Position, v: T)
        requires
            old(self).wf(),
            p.wf(),
        ensures
            final(self).wf(),
            final(self)@ == old(self)@.update(p.idx(), v),
    {
        self.cells.set(p.y * 3 + p.x, v);
    }
}

} // verus!
