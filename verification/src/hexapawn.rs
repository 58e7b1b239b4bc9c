//! The Hexapawn engine: pawns, move legality, captures, the three win
//! conditions, and the per-iteration state machine.

use vstd::prelude::*;
use vstd::pervasive::VecAdditionalExecFns;
use crate::display::DisplayPixel;
use crate::display::Frame;
use crate::display::checker_lit;
use crate::display::first_half;
use crate::display::winner_frame;
use crate::grid::Grid;
use crate::player::Player;
use crate::position::CELLS;
use crate::position::Position;
use crate::position::pos;

verus! {

/// One pawn: where it stands and who owns it.
#[derive(Clone, Copy, PartialEq, Eq, Structural, Debug)]
pub struct Pawn {
    pub position: Position,
    pub player: Player,
}

impl Pawn {
    /// Builds a pawn from its square and owner.
    pub fn new(position: Position, player: Player) -> (r: Pawn)
        ensures
            r.position == position && r.player == player,
    {
        Pawn { position, player }
    }
}

/// A pawn of owner `pl` stands at `(x, y)` in slot `k`.
pub open spec fn pawn_in_slot(s: Seq<Option<Pawn>>, k: int, x: int, y: int, pl: Player) -> bool {
    s[k] matches Some(pw) && pw.position.x == x && pw.position.y == y && pw.player == pl
}

/// Some pawn of owner `pl` stands at `(x, y)`.
pub open spec fn occupied_by(s: Seq<Option<Pawn>>, x: int, y: int, pl: Player) -> bool {
    exists|k: int| 0 <= k < 6 && pawn_in_slot(s, k, x, y, pl)
}

/// Some pawn of either owner stands at `(x, y)`.
pub open spec fn occupied(s: Seq<Option<Pawn>>, x: int, y: int) -> bool {
    occupied_by(s, x, y, Player::Red) || occupied_by(s, x, y, Player::Blue)
}

/// The row a pawn of `pl` moves to from row `y`: red advances down the
/// board, blue up.
pub open spec fn fwd_row(pl: Player, y: int) -> int {
    match pl {
        Player::Red => y + 1,
        Player::Blue => y - 1,
    }
}

/// The square one step toward the opponent's edge and `dx` columns
/// aside, or `None` when it falls off the board.
pub open spec fn dest(pw: Pawn, dx: int) -> Option<Position> {
    let nx = pw.position.x + dx;
    let ny = fwd_row(pw.player, pw.position.y as int);
    if 0 <= nx < 3 && 0 <= ny < 3 {
        Some(Position { x: nx as usize, y: ny as usize })
    } else {
        None
    }
}

/// The straight advance is on the board and lands on an empty square.
pub open spec fn advance_ok(s: Seq<Option<Pawn>>, pw: Pawn) -> bool {
    dest(pw, 0) matches Some(q) && !occupied(s, q.x as int, q.y as int)
}

/// The diagonal step `dx` is on the board and captures an enemy pawn.
pub open spec fn capture_ok(s: Seq<Option<Pawn>>, pw: Pawn, dx: int) -> bool {
    dest(pw, dx) matches Some(q) && occupied_by(s, q.x as int, q.y as int, pw.player.flipped())
}

/// Every legal destination of `pw`, in the order the engine offers
/// them: the straight advance, then the left and the right capture.
pub open spec fn legal_dests(s: Seq<Option<Pawn>>, pw: Pawn) -> Seq<Position> {
    (if advance_ok(s, pw) {
        seq![dest(pw, 0)->0]
    } else {
        Seq::<Position>::empty()
    }) + (if capture_ok(s, pw, -1) {
        seq![dest(pw, -1)->0]
    } else {
        Seq::<Position>::empty()
    }) + (if capture_ok(s, pw, 1) {
        seq![dest(pw, 1)->0]
    } else {
        Seq::<Position>::empty()
    })
}

/// The pawn `pw` has at least one legal move.
pub open spec fn can_move(s: Seq<Option<Pawn>>, pw: Pawn) -> bool {
    advance_ok(s, pw) || capture_ok(s, pw, -1) || capture_ok(s, pw, 1)
}

/// The slots after a move from `from` to `to`: a pawn standing on `to`
/// is cleared, the pawn standing on `from` is relocated to `to`, and
/// every other slot is kept.
pub open spec fn moved_slots(s: Seq<Option<Pawn>>, from: Position, to: Position) -> Seq<
    Option<Pawn>,
> {
    Seq::new(
        s.len(),
        |k: int|
            match s[k] {
                Some(pw) => if pw.position == to {
                    None
                } else if pw.position == from {
                    Some(Pawn { position: to, player: pw.player })
                } else {
                    Some(pw)
                },
                None => None,
            },
    )
}

/// How many pawns are still on the board.
pub open spec fn alive_count(s: Seq<Option<Pawn>>) -> nat
    decreases s.len(),
{
    if s.len() == 0 {
        0
    } else {
        alive_count(s.drop_last()) + (if s.last() is Some {
            1nat
        } else {
            0nat
        })
    }
}

/// Two slot sequences with the same slots filled hold the same number
/// of pawns.
proof fn lemma_count_same_filled(s1: Seq<Option<Pawn>>, s2: Seq<Option<Pawn>>)
    requires
        s1.len() == s2.len(),
        forall|k: int| 0 <= k < s1.len() ==> (s1[k] is Some <==> s2[k] is Some),
    ensures
        alive_count(s1) == alive_count(s2),
    decreases s1.len(),
{
    if s1.len() > 0 {
        lemma_count_same_filled(s1.drop_last(), s2.drop_last());
    }
}

/// Clearing exactly one filled slot lowers the pawn count by one.
proof fn lemma_count_one_cleared(s1: Seq<Option<Pawn>>, s2: Seq<Option<Pawn>>, k0: int)
    requires
        s1.len() == s2.len(),
        0 <= k0 < s1.len(),
        s1[k0] is Some,
        s2[k0] is None,
        forall|k: int| 0 <= k < s1.len() && k != k0 ==> (s1[k] is Some <==> s2[k] is Some),
    ensures
        alive_count(s1) == alive_count(s2) + 1,
    decreases s1.len(),
{
    if k0 == s1.len() - 1 {
        lemma_count_same_filled(s1.drop_last(), s2.drop_last());
    } else {
        lemma_count_one_cleared(s1.drop_last(), s2.drop_last(), k0);
    }
}

/// A capturing move removes exactly the one pawn standing on its
/// destination: the pawn count drops by exactly one.  A move onto an
/// empty square removes none.
pub proof fn lemma_move_pawn_count(s: Seq<Option<Pawn>>, from: Position, to: Position)
    requires
        s.len() == 6,
        forall|k1: int, k2: int|
            0 <= k1 < k2 < 6 && s[k1] is Some && s[k2] is Some ==> s[k1]->0.position
                != s[k2]->0.position,
        from != to,
    ensures
        occupied(s, to.x as int, to.y as int) ==> alive_count(moved_slots(s, from, to)) + 1
            == alive_count(s),
        !occupied(s, to.x as int, to.y as int) ==> alive_count(moved_slots(s, from, to))
            == alive_count(s),
{
    let s2 = moved_slots(s, from, to);
    if occupied(s, to.x as int, to.y as int) {
        let pl = if occupied_by(s, to.x as int, to.y as int, Player::Red) {
            Player::Red
        } else {
            Player::Blue
        };
        let k0 = choose|k: int| 0 <= k < 6 && pawn_in_slot(s, k, to.x as int, to.y as int, pl);
        assert(s[k0] is Some && s[k0]->0.position == to);
        assert forall|k: int| 0 <= k < 6 && k != k0 implies (s[k] is Some <==> s2[k] is Some) by {
            if s[k] is Some && s[k]->0.position == to {
                assert(s[k0] is Some);
            }
        }
        lemma_count_one_cleared(s, s2, k0);
    } else {
        assert forall|k: int| 0 <= k < 6 implies (s[k] is Some <==> s2[k] is Some) by {
            if s[k] is Some && s[k]->0.position == to {
                assert(pawn_in_slot(s, k, to.x as int, to.y as int, s[k]->0.player));
            }
        }
        lemma_count_same_filled(s, s2);
    }
}

/// The color shown on square `(x, y)`: the standing pawn's owner's
/// color, dark when the square is empty.
pub open spec fn pawn_px(s: Seq<Option<Pawn>>, x: int, y: int) -> DisplayPixel {
    if occupied_by(s, x, y, Player::Red) {
        DisplayPixel::of_player(Player::Red)
    } else if occupied_by(s, x, y, Player::Blue) {
        DisplayPixel::of_player(Player::Blue)
    } else {
        DisplayPixel::off()
    }
}

/// The color shown on the square of flat index `i`.
pub open spec fn pawn_px_at(s: Seq<Option<Pawn>>, i: int) -> DisplayPixel {
    pawn_px(s, i % 3, i / 3)
}

/// At least one pawn is still on the board.
pub open spec fn any_alive(s: Seq<Option<Pawn>>) -> bool {
    exists|k: int| 0 <= k < 6 && s[k] is Some
}

/// Every pawn still on the board belongs to `pl`.
pub open spec fn all_owned_by(s: Seq<Option<Pawn>>, pl: Player) -> bool {
    forall|k: int| 0 <= k < 6 && s[k] is Some ==> s[k]->0.player == pl
}

/// `pl` has won by elimination: pawns remain, and all are `pl`'s.
pub open spec fn eliminated_down_to(s: Seq<Option<Pawn>>, pl: Player) -> bool {
    any_alive(s) && all_owned_by(s, pl)
}

/// No pawn of `pl` has a legal move (vacuously true without pawns).
pub open spec fn stalemated(s: Seq<Option<Pawn>>, pl: Player) -> bool {
    forall|k: int|
        0 <= k < 6 && s[k] is Some && s[k]->0.player == pl ==> !can_move(s, s[k]->0)
}

/// The row whose reach wins for `pl`: the opponent's home row.
pub open spec fn promo_row(pl: Player) -> int {
    match pl {
        Player::Red => 2,
        Player::Blue => 0,
    }
}

/// Some pawn of `pl` stands on the opponent's home row.
pub open spec fn promoted(s: Seq<Option<Pawn>>, pl: Player) -> bool {
    exists|k: int|
        0 <= k < 6 && s[k] is Some && s[k]->0.player == pl && s[k]->0.position.y == promo_row(pl)
}

/// Some win condition holds with `cur` about to move: elimination,
/// stalemate of `cur`, or promotion.
pub open spec fn some_winner(s: Seq<Option<Pawn>>, cur: Player) -> bool {
    ||| eliminated_down_to(s, Player::Red)
    ||| eliminated_down_to(s, Player::Blue)
    ||| stalemated(s, cur)
    ||| promoted(s, Player::Red)
    ||| promoted(s, Player::Blue)
}

/// Who a declared winner `w` must be, by the priority the engine
/// checks: elimination first, then stalemate of the player about to
/// move (the other player wins), then promotion.
pub open spec fn winner_ok(s: Seq<Option<Pawn>>, cur: Player, w: Player) -> bool {
    &&& eliminated_down_to(s, Player::Red) ==> w == Player::Red
    &&& eliminated_down_to(s, Player::Blue) ==> w == Player::Blue
    &&& (!eliminated_down_to(s, Player::Red) && !eliminated_down_to(s, Player::Blue)
        && stalemated(s, cur)) ==> w == cur.flipped()
    &&& (!eliminated_down_to(s, Player::Red) && !eliminated_down_to(s, Player::Blue)
        && !stalemated(s, cur) && promoted(s, Player::Red) && !promoted(s, Player::Blue)) ==> w
        == Player::Red
    &&& (!eliminated_down_to(s, Player::Red) && !eliminated_down_to(s, Player::Blue)
        && !stalemated(s, cur) && promoted(s, Player::Blue) && !promoted(s, Player::Red)) ==> w
        == Player::Blue
}

/// Square `i` is a legal destination of the selected pawn.
pub open spec fn highlight(s: Seq<Option<Pawn>>, pw: Pawn, i: int) -> bool {
    exists|q: Position| legal_dests(s, pw).contains(q) && q.idx() == i
}

/// The pawn layout with the selected pawn's own square blinked: dark
/// during the second half of each second.
pub open spec fn place_mid_px(s: Seq<Option<Pawn>>, pw: Pawn, now: u32, i: int) -> DisplayPixel {
    if i == pw.position.idx() {
        pawn_px_at(s, i).masked(first_half(now))
    } else {
        pawn_px_at(s, i)
    }
}

/// What square `i` shows while pawn `pw` is selected at time `now`:
/// the layout, the selected pawn blinking, and during the second half
/// of each second every legal destination lit in the mover's color.
pub open spec fn place_px(s: Seq<Option<Pawn>>, pw: Pawn, now: u32, i: int) -> DisplayPixel {
    if now % 1000 > 500 && highlight(s, pw, i) && i != pw.position.idx() {
        place_mid_px(s, pw, now, i).with_player(pw.player)
    } else {
        place_mid_px(s, pw, now, i)
    }
}

/// The six pawn slots of a game; a cleared slot is a captured pawn.
pub struct Pawns {
    pub slots: Vec<Option<Pawn>>,
}

impl View for Pawns {
    type V = Seq<Option<Pawn>>;

    open spec fn view(&self) -> Seq<Option<Pawn>> {
        self.slots@
    }
}

impl Pawns {
    /// Six slots, every pawn on the board, and no two pawns on the same
    /// square.
    pub open spec fn wf(&self) -> bool {
        &&& self@.len() == 6
        &&& forall|k: int| 0 <= k < 6 ==> (#[trigger] self@[k] matches Some(pw) ==> pw.position.wf())
        &&& forall|k1: int, k2: int|
            0 <= k1 < k2 < 6 && self@[k1] is Some && self@[k2] is Some
                ==> self@[k1]->0.position != self@[k2]->0.position
    }

    /// True when a pawn owned by `pl` stands at `q`.
    pub fn pawn_of_at(&self, q: Position, pl: Player) -> (r: bool)
        requires
            self@.len() == 6,
        ensures
            r == occupied_by(self@, q.x as int, q.y as int, pl),
    {
        let mut k: usize = 0;
        while k < 6
            invariant
                k <= 6,
                self@.len() == 6,
                forall|j: int| 0 <= j < k ==> !pawn_in_slot(self@, j, q.x as int, q.y as int, pl),
            decreases 6 - k,
        {
            match self.slots[k] {
                Some(pw) => {
                    if pw.position == q && pw.player == pl {
                        proof {
                            assert(pawn_in_slot(self@, k as int, q.x as int, q.y as int, pl));
                        }
                        return true;
                    }
                },
                None => {},
            }
            k = k + 1;
        }
        false
    }

    /// True when a pawn of either owner stands at `q`.
    pub fn any_pawn_at(&self, q: Position) -> (r: bool)
        requires
            self@.len() == 6,
        ensures
            r == occupied(self@, q.x as int, q.y as int),
    {
        let mut k: usize = 0;
        while k < 6
            invariant
                k <= 6,
                self@.len() == 6,
                forall|j: int, pl: Player| 0 <= j < k
                    ==> !pawn_in_slot(self@, j, q.x as int, q.y as int, pl),
            decreases 6 - k,
        {
            match self.slots[k] {
                Some(pw) => {
                    if pw.position == q {
                        proof {
                            assert(pawn_in_slot(self@, k as int, q.x as int, q.y as int, pw.player));
                        }
                        return true;
                    }
                },
                None => {},
            }
            k = k + 1;
        }
        false
    }

    /// Renders the pawn layout: each pawn's square in its owner's
    /// color, empty squares dark.
    pub fn into_display_buffer(&self) -> (f: Frame)
        requires
            self.wf(),
        ensures
            f.wf(),
            forall|i: int| 0 <= i < 9 ==> f@[i] == pawn_px_at(self@, i),
    {
        let mut cells: Vec<DisplayPixel> = Vec::new();
        let mut k: usize = 0;
        while k < CELLS
            invariant
                k <= 9,
                self.wf(),
                cells@.len() == k,
                forall|i: int| 0 <= i < k ==> cells@[i] == pawn_px_at(self@, i),
            decreases 9 - k,
        {
            let q = pos(k % 3, k / 3);
            let px = if self.pawn_of_at(q, Player::Red) {
                DisplayPixel { red: true, blue: false }
            } else if self.pawn_of_at(q, Player::Blue) {
                DisplayPixel { red: false, blue: true }
            } else {
                DisplayPixel { red: false, blue: false }
            };
            cells.push(px);
            k = k + 1;
        }
        Grid::from_cells(cells)
    }

    /// Executes a move: any pawn standing on `to` is captured (its slot
    /// cleared), and the pawn standing on `from` is relocated to `to`.
    /// All other slots keep their pawns.
    pub fn apply_move(&mut self, from: Position, to: Position)
        requires
            old(self).wf(),
            to.wf(),
            occupied(old(self)@, from.x as int, from.y as int),
            from != to,
        ensures
            final(self).wf(),
            final(self)@ == moved_slots(old(self)@, from, to),
    {
        let mut k: usize = 0;
        while k < 6
            invariant
                k <= 6,
                self@.len() == 6,
                old(self).wf(),
                forall|j: int| 0 <= j < k ==> self@[j] == moved_slots(old(self)@, from, to)[j],
                forall|j: int| k <= j < 6 ==> self@[j] == old(self)@[j],
            decreases 6 - k,
        {
            match self.slots[k] {
                Some(pw) => {
                    if pw.position == to {
                        self.slots.set(k, None);
                    } else if pw.position == from {
                        self.slots.set(k, Some(Pawn { position: to, player: pw.player }));
                    }
                },
                None => {},
            }
            k = k + 1;
        }
        proof {
            assert(self@ =~= moved_slots(old(self)@, from, to));
            assert forall|k1: int, k2: int|
                0 <= k1 < k2 < 6 && self@[k1] is Some && self@[k2] is Some implies self@[k1]->0.position
                != self@[k2]->0.position by {
                assert(old(self)@[k1] is Some && old(self)@[k2] is Some);
            }
        }
    }

    /// Every legal destination of `pw`: the straight advance when its
    /// square is free, and each diagonal that captures an enemy pawn.
    pub fn valid_next_moves(&self, pw: Pawn) -> (r: Vec<Position>)
        requires
            self.wf(),
            pw.position.wf(),
        ensures
            r@ == legal_dests(self@, pw),
            forall|j: int|
                0 <= j < r@.len() ==> (#[trigger] r@[j]).wf() && r@[j].y != pw.position.y,
    {
        let mut r: Vec<Position> = Vec::new();
        let dy: isize = match pw.player {
            Player::Red => 1,
            Player::Blue => -1,
        };
        let forward = pw.position.offset_y(dy);
        proof {
            assert(forward == dest(pw, 0));
        }
        if let Some(f) = forward {
            if !self.any_pawn_at(f) {
                r.push(f);
            }
            let left = f.offset_x(-1);
            proof {
                assert(left == dest(pw, -1));
            }
            if let Some(l) = left {
                if self.pawn_of_at(l, pw.player.other()) {
                    r.push(l);
                }
            }
            let right = f.offset_x(1);
            proof {
                assert(right == dest(pw, 1));
            }
            if let Some(rg) = right {
                if self.pawn_of_at(rg, pw.player.other()) {
                    r.push(rg);
                }
            }
        }
        proof {
            assert(r@ =~= legal_dests(self@, pw));
        }
        r
    }
}

/// The phases of a Hexapawn session; the last one is terminal.
#[derive(Clone, Copy, PartialEq, Eq, Structural, Debug)]
pub enum HexState {
    PresentCurrentPlayer,
    WaitForPick,
    WaitForPlace(Pawn),
    DisplayWinner(Player),
}

/// A running Hexapawn game.
pub struct Hexapawn {
    pub pawns: Pawns,
    pub current_player: Player,
    pub state: HexState,
}

/// The opening layout: three red pawns on row 0, three blue pawns on
/// row 2, each on its home row.
pub open spec fn initial_pawns() -> Seq<Option<Pawn>> {
    seq![
        Some(Pawn { position: Position { x: 0, y: 0 }, player: Player::Red }),
        Some(Pawn { position: Position { x: 1, y: 0 }, player: Player::Red }),
        Some(Pawn { position: Position { x: 2, y: 0 }, player: Player::Red }),
        Some(Pawn { position: Position { x: 0, y: 2 }, player: Player::Blue }),
        Some(Pawn { position: Position { x: 1, y: 2 }, player: Player::Blue }),
        Some(Pawn { position: Position { x: 2, y: 2 }, player: Player::Blue }),
    ]
}

impl Hexapawn {
    /// The pawns are well formed, and while a pawn is selected it is
    /// one of the current player's pawns still on the board.
    pub open spec fn wf(&self) -> bool {
        &&& self.pawns.wf()
        &&& self.state matches HexState::WaitForPlace(pw) ==> pw.player == self.current_player
            && pw.position.wf() && occupied_by(
            self.pawns@,
            pw.position.x as int,
            pw.position.y as int,
            pw.player,
        )
    }

    /// A fresh game: the opening layout, the given starting player, and
    /// the presentation phase first.
    pub fn new(starting_player: Player) -> (g: Hexapawn)
        ensures
            g.wf(),
            g.pawns@ == initial_pawns(),
            g.current_player == starting_player,
            g.state is PresentCurrentPlayer,
    {
        let mut slots: Vec<Option<Pawn>> = Vec::new();
        slots.push(Some(Pawn { position: pos(0, 0), player: Player::Red }));
        slots.push(Some(Pawn { position: pos(1, 0), player: Player::Red }));
        slots.push(Some(Pawn { position: pos(2, 0), player: Player::Red }));
        slots.push(Some(Pawn { position: pos(0, 2), player: Player::Blue }));
        slots.push(Some(Pawn { position: pos(1, 2), player: Player::Blue }));
        slots.push(Some(Pawn { position: pos(2, 2), player: Player::Blue }));
        proof {
            assert(slots@ =~= initial_pawns());
        }
        Hexapawn {
            pawns: Pawns { slots },
            current_player: starting_player,
            state: HexState::PresentCurrentPlayer,
        }
    }

    /// The winner under the current layout, if any, checked in priority
    /// order: elimination, then stalemate of the player about to move
    /// (won by the other player), then promotion.
    pub fn winner(&self) -> (r: Option<Player>)
        requires
            self.pawns.wf(),
        ensures
            r is Some <==> some_winner(self.pawns@, self.current_player),
            r matches Some(w) ==> winner_ok(self.pawns@, self.current_player, w),
    {
        let mut any_red = false;
        let mut any_blue = false;
        let mut k: usize = 0;
        while k < 6
            invariant
                k <= 6,
                self.pawns@.len() == 6,
                any_red == exists|j: int|
                    0 <= j < k && self.pawns@[j] is Some && self.pawns@[j]->0.player
                        == Player::Red,
                any_blue == exists|j: int|
                    0 <= j < k && self.pawns@[j] is Some && self.pawns@[j]->0.player
                        == Player::Blue,
            decreases 6 - k,
        {
            match self.pawns.slots[k] {
                Some(pw) => {
                    match pw.player {
                        Player::Red => any_red = true,
                        Player::Blue => any_blue = true,
                    }
                },
                None => {},
            }
            k = k + 1;
        }
        if any_red && !any_blue {
            return Some(Player::Red);
        }
        if any_blue && !any_red {
            return Some(Player::Blue);
        }
        let mut all_stuck = true;
        let mut k: usize = 0;
        while k < 6
            invariant
                k <= 6,
                self.pawns.wf(),
                all_stuck == forall|j: int|
                    0 <= j < k && self.pawns@[j] is Some && self.pawns@[j]->0.player
                        == self.current_player ==> !can_move(self.pawns@, self.pawns@[j]->0),
            decreases 6 - k,
        {
            match self.pawns.slots[k] {
                Some(pw) => {
                    if pw.player == self.current_player {
                        let mv = self.pawns.valid_next_moves(pw);
                        if mv.len() > 0 {
                            all_stuck = false;
                        }
                    }
                },
                None => {},
            }
            k = k + 1;
        }
        if all_stuck {
            return Some(self.current_player.other());
        }
        let mut k: usize = 0;
        while k < 6
            invariant
                k <= 6,
                self.pawns@.len() == 6,
                any_red == exists|j: int|
                    0 <= j < 6 && self.pawns@[j] is Some && self.pawns@[j]->0.player
                        == Player::Red,
                any_blue == exists|j: int|
                    0 <= j < 6 && self.pawns@[j] is Some && self.pawns@[j]->0.player
                        == Player::Blue,
                !(any_red && !any_blue),
                !(any_blue && !any_red),
                !stalemated(self.pawns@, self.current_player),
                forall|j: int|
                    0 <= j < k && self.pawns@[j] is Some ==> self.pawns@[j]->0.position.y
                        != promo_row(self.pawns@[j]->0.player),
            decreases 6 - k,
        {
            match self.pawns.slots[k] {
                Some(pw) => {
                    let target: usize = match pw.player {
                        Player::Red => 2,
                        Player::Blue => 0,
                    };
                    if pw.position.y == target {
                        proof {
                            if eliminated_down_to(self.pawns@, Player::Red) {
                                let j = choose|j: int| 0 <= j < 6 && self.pawns@[j] is Some;
                                assert(self.pawns@[j]->0.player == Player::Red);
                                assert(any_red && !any_blue);
                            }
                            if eliminated_down_to(self.pawns@, Player::Blue) {
                                let j = choose|j: int| 0 <= j < 6 && self.pawns@[j] is Some;
                                assert(self.pawns@[j]->0.player == Player::Blue);
                                assert(any_blue && !any_red);
                            }
                        }
                        return Some(pw.player);
                    }
                },
                None => {},
            }
            k = k + 1;
        }
        None
    }

    /// The press lands on one of the current player's pawns.
    pub open spec fn picked(self, press: Option<Position>) -> bool {
        press matches Some(p) && occupied_by(
            self.pawns@,
            p.x as int,
            p.y as int,
            self.current_player,
        )
    }

    /// The press lands on a legal destination of the selected pawn.
    pub open spec fn move_pressed(self, pw: Pawn, press: Option<Position>) -> bool {
        press matches Some(q) && legal_dests(self.pawns@, pw).contains(q)
    }

    /// One iteration of the game loop at time `now` with the button
    /// reduction `press`.  Returns the frame to show, or `None` while
    /// the starting player is still being presented.
    ///
    /// Picking one of the current player's pawns selects it; with a
    /// pawn selected, pressing another own pawn re-selects, pressing a
    /// legal destination executes the move and passes the turn, and any
    /// other press is ignored.  The win conditions are evaluated each
    /// iteration of the picking phase; `DisplayWinner` is terminal.
    pub fn advance(&mut self, now: u32, press: Option<Position>) -> (frame: Option<Frame>)
        requires
            old(self).wf(),
            press matches Some(p) ==> p.wf(),
        ensures
            final(self).wf(),
            old(self).state is PresentCurrentPlayer ==> {
                &&& final(self).pawns@ == old(self).pawns@
                &&& final(self).current_player == old(self).current_player
                &&& final(self).state == (if now > 1000 {
                    HexState::WaitForPick
                } else {
                    HexState::PresentCurrentPlayer
                })
                &&& frame is None
            },
            old(self).state is WaitForPick ==> {
                &&& final(self).pawns@ == old(self).pawns@
                &&& final(self).current_player == old(self).current_player
                &&& some_winner(old(self).pawns@, old(self).current_player)
                    ==> (final(self).state matches HexState::DisplayWinner(w) && winner_ok(
                    old(self).pawns@,
                    old(self).current_player,
                    w,
                ))
                &&& (!some_winner(old(self).pawns@, old(self).current_player) && old(self).picked(
                    press,
                )) ==> final(self).state == HexState::WaitForPlace(
                    Pawn { position: press->0, player: old(self).current_player },
                )
                &&& (!some_winner(old(self).pawns@, old(self).current_player) && !old(self).picked(
                    press,
                )) ==> final(self).state is WaitForPick
                &&& (frame matches Some(f) && f.wf() && forall|i: int|
                    0 <= i < 9 ==> f@[i] == pawn_px_at(old(self).pawns@, i))
            },
            old(self).state matches HexState::WaitForPlace(pw) ==> {
                &&& old(self).picked(press) ==> {
                    &&& final(self).pawns@ == old(self).pawns@
                    &&& final(self).current_player == old(self).current_player
                    &&& final(self).state == HexState::WaitForPlace(
                        Pawn { position: press->0, player: old(self).current_player },
                    )
                }
                &&& (!old(self).picked(press) && old(self).move_pressed(pw, press)) ==> {
                    &&& final(self).pawns@ == moved_slots(old(self).pawns@, pw.position, press->0)
                    &&& final(self).current_player == old(self).current_player.flipped()
                    &&& final(self).state is WaitForPick
                }
                &&& (!old(self).picked(press) && !old(self).move_pressed(pw, press)) ==> {
                    &&& final(self).pawns@ == old(self).pawns@
                    &&& final(self).current_player == old(self).current_player
                    &&& final(self).state == old(self).state
                }
                &&& (frame matches Some(f) && f.wf() && forall|i: int|
                    0 <= i < 9 ==> f@[i] == place_px(old(self).pawns@, pw, now, i))
            },
            old(self).state matches HexState::DisplayWinner(w) ==> {
                &&& *final(self) == *old(self)
                &&& (frame matches Some(f) && f.wf() && forall|i: int|
                    0 <= i < 9 ==> f@[i] == DisplayPixel::of_player(w).masked(checker_lit(now, i)))
            },
    {
        match self.state {
            HexState::PresentCurrentPlayer => {
                if now > 1000 {
                    self.state = HexState::WaitForPick;
                }
                None
            },
            HexState::WaitForPick => {
                let frame = self.pawns.into_display_buffer();
                if let Some(p) = press {
                    if self.pawns.pawn_of_at(p, self.current_player) {
                        self.state = HexState::WaitForPlace(Pawn::new(p, self.current_player));
                    }
                }
                if let Some(w) = self.winner() {
                    self.state = HexState::DisplayWinner(w);
                }
                Some(frame)
            },
            HexState::WaitForPlace(pw) => {
                let ghost s = self.pawns@;
                let mut frame = self.pawns.into_display_buffer();
                let mut px = frame.at(pw.position);
                px.filter(now % 1000 < 500);
                frame.set_at(pw.position, px);
                let mv = self.pawns.valid_next_moves(pw);
                if now % 1000 > 500 {
                    let mut n: usize = 0;
                    while n < mv.len()
                        invariant
                            n <= mv@.len(),
                            frame.wf(),
                            now % 1000 > 500,
                            mv@ == legal_dests(s, pw),
                            pw.position.wf(),
                            forall|j: int|
                                0 <= j < mv@.len() ==> (#[trigger] mv@[j]).wf() && mv@[j].y
                                    != pw.position.y,
                            forall|i: int|
                                0 <= i < 9 ==> frame@[i] == (if (exists|j: int|
                                    0 <= j < n && mv@[j].idx() == i) {
                                    place_mid_px(s, pw, now, i).with_player(pw.player)
                                } else {
                                    place_mid_px(s, pw, now, i)
                                }),
                        decreases mv@.len() - n,
                    {
                        let q = mv[n];
                        let mut p2 = frame.at(q);
                        p2.or_player(pw.player);
                        frame.set_at(q, p2);
                        n = n + 1;
                    }
                }
                proof {
                    assert forall|i: int| 0 <= i < 9 implies frame@[i] == place_px(
                        s,
                        pw,
                        now,
                        i,
                    ) by {
                        if now % 1000 > 500 {
                            if exists|j: int| 0 <= j < mv@.len() && mv@[j].idx() == i {
                                let j = choose|j: int| 0 <= j < mv@.len() && mv@[j].idx() == i;
                                assert(legal_dests(s, pw).contains(mv@[j]));
                                assert(highlight(s, pw, i));
                                assert(mv@[j].y * 3 + mv@[j].x != pw.position.y * 3
                                    + pw.position.x);
                            }
                            if highlight(s, pw, i) {
                                let q = choose|q: Position|
                                    legal_dests(s, pw).contains(q) && q.idx() == i;
                                let j = choose|j: int|
                                    0 <= j < legal_dests(s, pw).len() && legal_dests(s, pw)[j]
                                        == q;
                                assert(mv@[j].idx() == i);
                            }
                        }
                    }
                }
                if let Some(newp) = press {
                    if self.pawns.pawn_of_at(newp, self.current_player) {
                        self.state = HexState::WaitForPlace(
                            Pawn::new(newp, self.current_player),
                        );
                    } else {
                        let mut is_dest = false;
                        let mut n: usize = 0;
                        while n < mv.len()
                            invariant
                                n <= mv@.len(),
                                mv@ == legal_dests(s, pw),
                                is_dest == exists|j: int| 0 <= j < n && mv@[j] == newp,
                            decreases mv@.len() - n,
                        {
                            if mv[n] == newp {
                                is_dest = true;
                            }
                            n = n + 1;
                        }
                        if is_dest {
                            proof {
                                let j = choose|j: int| 0 <= j < mv@.len() && mv@[j] == newp;
                                assert(legal_dests(s, pw).contains(newp));
                                assert(mv@[j].y != pw.position.y);
                                assert(occupied(s, pw.position.x as int, pw.position.y as int));
                            }
                            self.pawns.apply_move(pw.position, newp);
                            self.current_player.flip();
                            self.state = HexState::WaitForPick;
                        } else {
                            proof {
                                assert(!legal_dests(s, pw).contains(newp));
                            }
                        }
                    }
                }
                Some(frame)
            },
            HexState::DisplayWinner(w) => Some(winner_frame(w, now)),
        }
    }
}

impl crate::game::Game for Hexapawn {
    open spec fn inv(&self) -> bool {
        self.wf()
    }

    fn step(&mut self, now: u32, press: Option<Position>) -> (frame: Option<Frame>) {
        self.advance(now, press)
    }
}

/// With its forward square free and an enemy pawn on exactly one
/// diagonal, a pawn has exactly two legal destinations: the forward
/// square and that one diagonal.
pub proof fn lemma_advance_and_one_capture(s: Seq<Option<Pawn>>, pw: Pawn, dx: int)
    requires
        dx == -1 || dx == 1,
        advance_ok(s, pw),
        capture_ok(s, pw, dx),
        !capture_ok(s, pw, 0 - dx),
    ensures
        legal_dests(s, pw).len() == 2,
        legal_dests(s, pw).contains(dest(pw, 0)->0),
        legal_dests(s, pw).contains(dest(pw, dx)->0),
        forall|q: Position|
            legal_dests(s, pw).contains(q) ==> q == dest(pw, 0)->0 || q == dest(pw, dx)->0,
{
    let ds = legal_dests(s, pw);
    if dx == -1 {
        assert(ds =~= seq![dest(pw, 0)->0, dest(pw, -1)->0]);
    } else {
        assert(ds =~= seq![dest(pw, 0)->0, dest(pw, 1)->0]);
    }
    assert(ds[0] == dest(pw, 0)->0);
    assert(ds[1] == dest(pw, dx)->0);
    assert forall|q: Position| ds.contains(q) implies q == dest(pw, 0)->0 || q == dest(
        pw,
        dx,
    )->0 by {
        let j = choose|j: int| 0 <= j < ds.len() && ds[j] == q;
        assert(j == 0 || j == 1);
    }
}

} // verus!
