//! Button-matrix snapshots and the exactly-one reduction.

use vstd::prelude::*;
use crate::grid::Grid;
use crate::position::CELLS;
use crate::position::Position;
use crate::position::pos;

verus! {

/// One snapshot of the whole button matrix; `true` means pressed.
pub struct ButtonScan(pub Grid<bool>);

impl ButtonScan {
    /// The snapshot holds its nine cells.
    pub open spec fn wf(&self) -> bool {
        self.0.wf()
    }

    /// Exactly one button of the whole snapshot is down, the one at
    /// flat index `i`.
    pub open spec fn only_pressed(&self, i: int) -> bool {
        &&& 0 <= i < 9
        &&& self.0@[i]
        &&& forall|j: int| 0 <= j < 9 && j != i ==> !self.0@[j]
    }

    /// The position of the single pressed button, or `None` unless
    /// exactly one button of the snapshot is down.  Zero presses,
    /// several presses and electrical ghosting all yield `None` rather
    /// than a guess.
    pub fn exactly_one(&self) -> (r: Option<Position>)
        requires
            self.wf(),
        ensures
            r is Some <==> exists|i: int| self.only_pressed(i),
            r matches Some(p) ==> p.wf() && self.only_pressed(p.idx()),
    {
        let mut count: usize = 0;
        let mut found: usize = 0;
        let mut k: usize = 0;
        while k < CELLS
            invariant
                k <= 9,
                self.wf(),
                count <= k,
                count == 0 ==> forall|j: int| 0 <= j < k ==> !self.0@[j],
                count == 1 ==> found < k && self.0@[found as int]
                    && (forall|j: int| 0 <= j < k && j != found ==> !self.0@[j]),
                count >= 2 ==> exists|j1: int, j2: int|
                    0 <= j1 < j2 < k && self.0@[j1] && self.0@[j2],
            decreases 9 - k,
        {
            let pressed = self.0.at(pos(k % 3, k / 3));
            proof {
                assert((k / 3) * 3 + (k % 3) == k) by (nonlinear_arith)
                    requires k < 9,;
            }
            if pressed {
                count = count + 1;
                if count == 1 {
                    found = k;
                }
            }
            k = k + 1;
        }
        if count == 1 {
            let p = pos(found % 3, found / 3);
            proof {
                assert((found / 3) * 3 + (found % 3) == found) by (nonlinear_arith)
                    requires found < 9,;
                assert(self.only_pressed(p.idx()));
            }
            Some(p)
        } else {
            proof {
                if count == 0 {
                    assert(forall|i: int| !self.only_pressed(i));
                } else {
                    let (j1, j2) = choose|j1: int, j2: int|
                        0 <= j1 < j2 < 9 && self.0@[j1] && self.0@[j2];
                    assert forall|i: int| !self.only_pressed(i) by {
                        if self.only_pressed(i) {
                            if j1 != i {
                                assert(!self.0@[j1]);
                            } else {
                                assert(!self.0@[j2]);
                            }
                        }
                    }
                }
            }
            None
        }
    }
}

} // verus!
