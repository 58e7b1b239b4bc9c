//! Bi-color pixels, frame construction, and the per-row multiplexing plan.

use vstd::prelude::*;
use crate::grid::Grid;
use crate::player::Player;
use crate::position::CELLS;
use crate::position::SIZE;

verus! {

/// One LED of the matrix: two independently switched colors.  Both set
/// renders mixed, both clear renders dark.
#[derive(Clone, Copy, PartialEq, Eq, Structural, Debug)]
pub struct DisplayPixel {
    pub red: bool,
    pub blue: bool,
}

impl DisplayPixel {
    /// A dark pixel.
    pub open spec fn off() -> DisplayPixel {
        DisplayPixel { red: false, blue: false }
    }

    /// Both colors gated by `b`: the pixel itself when `b`, dark otherwise.
    pub open spec fn masked(self, b: bool) -> DisplayPixel {
        DisplayPixel { red: self.red && b, blue: self.blue && b }
    }

    /// The color a player plays in.
    pub open spec fn of_player(player: Player) -> DisplayPixel {
        match player {
            Player::Red => DisplayPixel { red: true, blue: false },
            Player::Blue => DisplayPixel { red: false, blue: true },
        }
    }

    /// The pixel with the player's color switched on as well.
    pub open spec fn with_player(self, player: Player) -> DisplayPixel {
        match player {
            Player::Red => DisplayPixel { red: true, blue: self.blue },
            Player::Blue => DisplayPixel { red: self.red, blue: true },
        }
    }

    /// Keeps the pixel lit only while `b` holds; otherwise darkens it.
    pub fn filter(&mut self, b: bool)
        ensures
            *final(self) == (*old(self)).masked(b),
    {
        self.red = self.red && b;
        self.blue = self.blue && b;
    }

    /// The pixel gated by `b`, by value.
    pub fn and(self, b: bool) -> (r: DisplayPixel)
        ensures
            r == self.masked(b),
    {
        DisplayPixel { red: self.red && b, blue: self.blue && b }
    }

    /// A pure red pixel.
    pub fn red() -> (r: DisplayPixel)
        ensures
            r == DisplayPixel::of_player(Player::Red),
    {
        DisplayPixel { red: true, blue: false }
    }

    /// A pure blue pixel.
    pub fn blue() -> (r: DisplayPixel)
        ensures
            r == DisplayPixel::of_player(Player::Blue),
    {
        DisplayPixel { red: false, blue: true }
    }

    /// Red when `cond` holds, blue otherwise.
    pub fn red_if(cond: bool) -> (r: DisplayPixel)
        ensures
            r.red == cond && r.blue == !cond,
    {
        DisplayPixel { red: cond, blue: !cond }
    }

    /// Switches on the given player's color, keeping the other flag.
    pub fn or_player(&mut self, player: Player)
        ensures
            *final(self) == (*old(self)).with_player(player),
    {
        match player {
            Player::Red => self.red = true,
            Player::Blue => self.blue = true,
        }
    }
}

impl Default for DisplayPixel {
    /// A dark pixel.
    fn default() -> (r: DisplayPixel)
        ensures
            r == DisplayPixel::off(),
    {
        DisplayPixel { red: false, blue: false }
    }
}

impl From<Player> for DisplayPixel {
    /// The color the player plays in.
    fn from(player: Player) -> (r: DisplayPixel)
    {
        match player {
            Player::Red => DisplayPixel { red: true, blue: false },
            Player::Blue => DisplayPixel { red: false, blue: true },
        }
    }
}

impl vstd::std_specs::convert::FromSpecImpl<Player> for DisplayPixel {
    open spec fn obeys_from_spec() -> bool {
        true
    }

    open spec fn from_spec(player: Player) -> DisplayPixel {
        DisplayPixel::of_player(player)
    }
}

/// A full frame of the LED matrix.
pub type Frame = Grid<DisplayPixel>;

/// True during the first half of each second; the games blink on this.
pub open spec fn first_half(now: u32) -> bool {
    now % 1000 < 500
}

/// The cell of flat index `i` is lit in the checkerboard shown at `now`:
/// odd cells during the first half-second of each second, even cells
/// during the other half.
pub open spec fn checker_lit(now: u32, i: int) -> bool {
    if first_half(now) {
        i % 2 == 1
    } else {
        i % 2 == 0
    }
}

/// A frame of one solid color, shown while a player is presented.
pub fn solid_frame(player: Player) -> (r: Frame)
    ensures
        r.wf(),
        forall|i: int| 0 <= i < 9 ==> r@[i] == DisplayPixel::of_player(player),
{
    Grid::filled(DisplayPixel { red: matches!(player, Player::Red), blue: matches!(player, Player::Blue) })
}

/// The flashing checkerboard shown for a winner: the winner's color on
/// the cells `checker_lit` picks at `now`, dark elsewhere.
pub fn winner_frame(winner: Player, now: u32) -> (r: Frame)
    ensures
        r.wf(),
        forall|i: int| 0 <= i < 9 ==>
            r@[i] == DisplayPixel::of_player(winner).masked(checker_lit(now, i)),
{
    let lit_parity: usize = if now % 1000 < 500 { 1 } else { 0 };
    let base = DisplayPixel { red: matches!(winner, Player::Red), blue: matches!(winner, Player::Blue) };
    let mut cells: Vec<DisplayPixel> = Vec::new();
    let mut k: usize = 0;
    while k < CELLS
        invariant
            k <= 9,
            cells@.len() == k,
            base == DisplayPixel::of_player(winner),
            lit_parity == (if first_half(now) { 1int } else { 0int }),
            forall|i: int| 0 <= i < k ==>
                cells@[i] == DisplayPixel::of_player(winner).masked(checker_lit(now, i)),
        decreases 9 - k,
    {
        cells.push(base.and(k % 2 == lit_parity));
        k = k + 1;
    }
    Grid::from_cells(cells)
}

/// The flashing checkerboard shown for a tie: red on the cells
/// `checker_lit` picks at `now`, blue on the others.
pub fn tie_frame(now: u32) -> (r: Frame)
    ensures
        r.wf(),
        forall|i: int| 0 <= i < 9 ==>
            r@[i] == (DisplayPixel { red: checker_lit(now, i), blue: !checker_lit(now, i) }),
{
    let lit_parity: usize = if now % 1000 < 500 { 1 } else { 0 };
    let mut cells: Vec<DisplayPixel> = Vec::new();
    let mut k: usize = 0;
    while k < CELLS
        invariant
            k <= 9,
            cells@.len() == k,
            lit_parity == (if first_half(now) { 1int } else { 0int }),
            forall|i: int| 0 <= i < k ==>
                cells@[i] == (DisplayPixel { red: checker_lit(now, i), blue: !checker_lit(now, i) }),
        decreases 9 - k,
    {
        cells.push(DisplayPixel::red_if(k % 2 == lit_parity));
        k = k + 1;
    }
    Grid::from_cells(cells)
}

/// What one multiplexing step must drive on the matrix: the active row,
/// which row-select lines are active, and the pixels of that row.
pub struct RowPlan {
    pub y: usize,
    pub row_active: Vec<bool>,
    pub pixels: Vec<DisplayPixel>,
}

/// Computes the one-row slice that a call of the display driver shows at
/// time `now`: row `now % 3` is selected alone, and its three pixels are
/// taken from the frame.  Repeated over consecutive clock values this
/// walks every row, so the whole frame is reconstructed on the matrix.
pub fn show_plan(frame: &Frame, now: u32) -> (p: RowPlan)
    requires
        frame.wf(),
    ensures
        p.y == now as int % 3,
        p.row_active@.len() == 3,
        forall|i: int| 0 <= i < 3 ==> (p.row_active@[i] <==> i == p.y),
        p.pixels@.len() == 3,
        forall|x: int| 0 <= x < 3 ==> p.pixels@[x] == frame@[p.y * 3 + x],
{
    let y: usize = (now % 3) as usize;
    let mut row_active: Vec<bool> = Vec::new();
    let mut pixels: Vec<DisplayPixel> = Vec::new();
    let mut k: usize = 0;
    while k < SIZE
        invariant
            k <= 3,
            y < 3,
            frame.wf(),
            row_active@.len() == k,
            pixels@.len() == k,
            forall|i: int| 0 <= i < k ==> (row_active@[i] <==> i == y),
            forall|x: int| 0 <= x < k ==> pixels@[x] == frame@[y * 3 + x],
        decreases 3 - k,
    {
        row_active.push(k == y);
        pixels.push(frame.at(crate::position::pos(k, y)));
        k = k + 1;
    }
    RowPlan { y, row_active, pixels }
}

} // verus!
