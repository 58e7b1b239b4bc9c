//! The tic-tac-toe engine: marks, the eight winning lines, tie
//! detection, and the per-iteration state machine.

use vstd::prelude::*;
use crate::display::DisplayPixel;
use crate::display::Frame;
use crate::display::checker_lit;
use crate::display::tie_frame;
use crate::display::winner_frame;
use crate::grid::Grid;
use crate::player::Player;
use crate::position::CELLS;
use crate::position::Position;
use crate::position::pos;

verus! {

/// A board square: the player whose mark stands there, if any.
pub type Cell = Option<Player>;

/// The three cells at flat indices `a`, `m`, `c` all carry `p`'s mark.
pub open spec fn line_won(b: Seq<Cell>, a: int, m: int, c: int, p: Player) -> bool {
    b[a] == Some(p) && b[m] == Some(p) && b[c] == Some(p)
}

/// Player `p` owns a complete line: one of the three rows, the three
/// columns, or the two diagonals.
pub open spec fn wins(b: Seq<Cell>, p: Player) -> bool {
    ||| line_won(b, 0, 1, 2, p)
    ||| line_won(b, 3, 4, 5, p)
    ||| line_won(b, 6, 7, 8, p)
    ||| line_won(b, 0, 3, 6, p)
    ||| line_won(b, 1, 4, 7, p)
    ||| line_won(b, 2, 5, 8, p)
    ||| line_won(b, 0, 4, 8, p)
    ||| line_won(b, 2, 4, 6, p)
}

/// Every square of the board carries a mark.
pub open spec fn full(b: Seq<Cell>) -> bool {
    forall|i: int| 0 <= i < 9 ==> b[i] is Some
}

/// The color a square is rendered in: its owner's color, dark if empty.
pub open spec fn cell_px(cv: Cell) -> DisplayPixel {
    match cv {
        Some(p) => DisplayPixel::of_player(p),
        None => DisplayPixel::off(),
    }
}

/// True when the cell carries exactly `p`'s mark.
fn cell_is(cv: Cell, p: Player) -> (r: bool)
    ensures
        r == (cv == Some(p)),
{
    match cv {
        Some(q) => q == p,
        None => false,
    }
}

/// The winner of the line `a`, `m`, `c` if one player marks all three.
fn line_winner(board: &Grid<Cell>, a: Position, m: Position, c: Position) -> (r: Option<Player>)
    requires
        board.wf(),
        a.wf(),
        m.wf(),
        c.wf(),
    ensures
        r matches Some(p) ==> line_won(board@, a.idx(), m.idx(), c.idx(), p),
        r is None ==> !line_won(board@, a.idx(), m.idx(), c.idx(), Player::Red)
            && !line_won(board@, a.idx(), m.idx(), c.idx(), Player::Blue),
{
    match board.at(a) {
        Some(p) => {
            if cell_is(board.at(m), p) && cell_is(board.at(c), p) {
                Some(p)
            } else {
                None
            }
        },
        None => None,
    }
}

/// The frame that renders a board: each square in its mark's color.
pub fn board_frame(board: &Grid<Cell>) -> (f: Frame)
    requires
        board.wf(),
    ensures
        f.wf(),
        forall|i: int| 0 <= i < 9 ==> f@[i] == cell_px(board@[i]),
{
    let mut cells: Vec<DisplayPixel> = Vec::new();
    let mut k: usize = 0;
    while k < CELLS
        invariant
            k <= 9,
            board.wf(),
            cells@.len() == k,
            forall|i: int| 0 <= i < k ==> cells@[i] == cell_px(board@[i]),
        decreases 9 - k,
    {
        let px = match board.at_flat(k) {
            Some(p) => DisplayPixel { red: matches!(p, Player::Red), blue: matches!(p, Player::Blue) },
            None => DisplayPixel { red: false, blue: false },
        };
        cells.push(px);
        k = k + 1;
    }
    Grid::from_cells(cells)
}

/// The phases of a tic-tac-toe session; the last two are terminal.
#[derive(Clone, Copy, PartialEq, Eq, Structural, Debug)]
pub enum TttState {
    PresentCurrentPlayer,
    WaitForMove,
    DisplayWinner(Player),
    DisplayTie,
}

/// A running tic-tac-toe game.
pub struct TicTacToe {
    pub board: Grid<Cell>,
    pub current_player: Player,
    pub state: TttState,
}

impl TicTacToe {
    /// The board holds its nine cells.
    pub open spec fn wf(&self) -> bool {
        self.board.wf()
    }

    /// The press lands on an empty square, so a mark is placed.
    pub open spec fn placed(self, press: Option<Position>) -> bool {
        press matches Some(p) && p.wf() && self.board@[p.idx()] is None
    }

    /// The board after handling `press`: the pressed empty square takes
    /// the current player's mark, anything else leaves it unchanged.
    pub open spec fn board_after(self, press: Option<Position>) -> Seq<Cell> {
        if self.placed(press) {
            self.board@.update(press->0.idx(), Some(self.current_player))
        } else {
            self.board@
        }
    }

    /// The player to move after handling `press`: flipped on a
    /// placement, unchanged otherwise.
    pub open spec fn player_after(self, press: Option<Position>) -> Player {
        if self.placed(press) {
            self.current_player.flipped()
        } else {
            self.current_player
        }
    }

    /// A fresh game: empty board, the given starting player, and the
    /// presentation phase first.
    pub fn new(starting_player: Player) -> (g: TicTacToe)
        ensures
            g.wf(),
            forall|i: int| 0 <= i < 9 ==> g.board@[i] is None,
            g.current_player == starting_player,
            g.state is PresentCurrentPlayer,
    {
        TicTacToe {
            board: Grid::filled(None),
            current_player: starting_player,
            state: TttState::PresentCurrentPlayer,
        }
    }

    /// The player owning a complete line, if any; `None` on a board with
    /// no complete line, even a full one.
    pub fn winner(&self) -> (r: Option<Player>)
        requires
            self.wf(),
        ensures
            r is Some <==> (wins(self.board@, Player::Red) || wins(self.board@, Player::Blue)),
            r matches Some(p) ==> wins(self.board@, p),
    {
        let b = &self.board;
        if let Some(p) = line_winner(b, pos(0, 0), pos(1, 0), pos(2, 0)) {
            return Some(p);
        }
        if let Some(p) = line_winner(b, pos(0, 1), pos(1, 1), pos(2, 1)) {
            return Some(p);
        }
        if let Some(p) = line_winner(b, pos(0, 2), pos(1, 2), pos(2, 2)) {
            return Some(p);
        }
        if let Some(p) = line_winner(b, pos(0, 0), pos(0, 1), pos(0, 2)) {
            return Some(p);
        }
        if let Some(p) = line_winner(b, pos(1, 0), pos(1, 1), pos(1, 2)) {
            return Some(p);
        }
        if let Some(p) = line_winner(b, pos(2, 0), pos(2, 1), pos(2, 2)) {
            return Some(p);
        }
        if let Some(p) = line_winner(b, pos(0, 0), pos(1, 1), pos(2, 2)) {
            return Some(p);
        }
        if let Some(p) = line_winner(b, pos(2, 0), pos(1, 1), pos(0, 2)) {
            return Some(p);
        }
        None
    }

    /// Every square carries a mark.
    pub fn is_full(&self) -> (r: bool)
        requires
            self.wf(),
        ensures
            r == full(self.board@),
    {
        let mut k: usize = 0;
        while k < CELLS
            invariant
                k <= 9,
                self.wf(),
                forall|i: int| 0 <= i < k ==> self.board@[i] is Some,
            decreases 9 - k,
        {
            if self.board.at_flat(k).is_none() {
                return false;
            }
            k = k + 1;
        }
        true
    }

    /// One iteration of the game loop at time `now` with the button
    /// reduction `press`.  Returns the frame to show, or `None` while
    /// the starting player is still being presented.
    ///
    /// While waiting for a move, a press on an empty square places the
    /// current player's mark and passes the turn; the board is then
    /// rendered, and the game ends in `DisplayWinner` when a line is
    /// complete, else in `DisplayTie` when the board is full.  The two
    /// terminal phases only render their flashing checkerboard.
    pub fn advance(&mut self, now: u32, press: Option<Position>) -> (frame: Option<Frame>)
        requires
            old(self).wf(),
            press matches Some(p) ==> p.wf(),
        ensures
            final(self).wf(),
            old(self).state is PresentCurrentPlayer ==> {
                &&& final(self).board@ == old(self).board@
                &&& final(self).current_player == old(self).current_player
                &&& final(self).state == (if now > 1000 { TttState::WaitForMove } else {
                    TttState::PresentCurrentPlayer
                })
                &&& frame is None
            },
            old(self).state is WaitForMove ==> {
                &&& final(self).board@ == old(self).board_after(press)
                &&& final(self).current_player == old(self).player_after(press)
                &&& (wins(old(self).board_after(press), Player::Red) || wins(
                    old(self).board_after(press),
                    Player::Blue,
                )) ==> (final(self).state matches TttState::DisplayWinner(w) && wins(
                    old(self).board_after(press),
                    w,
                ))
                &&& (!wins(old(self).board_after(press), Player::Red) && !wins(
                    old(self).board_after(press),
                    Player::Blue,
                ) && full(old(self).board_after(press))) ==> final(self).state is DisplayTie
                &&& (!wins(old(self).board_after(press), Player::Red) && !wins(
                    old(self).board_after(press),
                    Player::Blue,
                ) && !full(old(self).board_after(press))) ==> final(self).state is WaitForMove
                &&& (frame matches Some(f) && f.wf() && forall|i: int|
                    0 <= i < 9 ==> f@[i] == cell_px(old(self).board_after(press)[i]))
            },
            old(self).state matches TttState::DisplayWinner(w) ==> {
                &&& *final(self) == *old(self)
                &&& (frame matches Some(f) && f.wf() && forall|i: int|
                    0 <= i < 9 ==> f@[i] == DisplayPixel::of_player(w).masked(checker_lit(now, i)))
            },
            old(self).state is DisplayTie ==> {
                &&& *final(self) == *old(self)
                &&& (frame matches Some(f) && f.wf() && forall|i: int|
                    0 <= i < 9 ==> f@[i] == (DisplayPixel {
                        red: checker_lit(now, i),
                        blue: !checker_lit(now, i),
                    }))
            },
    {
        match self.state {
            TttState::PresentCurrentPlayer => {
                if now > 1000 {
                    self.state = TttState::WaitForMove;
                }
                None
            },
            TttState::WaitForMove => {
                if let Some(p) = press {
                    if self.board.at(p).is_none() {
                        self.board.set_at(p, Some(self.current_player));
                        self.current_player.flip();
                    }
                }
                let frame = board_frame(&self.board);
                if let Some(win) = self.winner() {
                    self.state = TttState::DisplayWinner(win);
                } else if self.is_full() {
                    self.state = TttState::DisplayTie;
                }
                Some(frame)
            },
            TttState::DisplayWinner(win) => Some(winner_frame(win, now)),
            TttState::DisplayTie => Some(tie_frame(now)),
        }
    }
}

impl crate::game::Game for TicTacToe {
    open spec fn inv(&self) -> bool {
        self.wf()
    }

    fn step(&mut self, now: u32, press: Option<Position>) -> (frame: Option<Frame>) {
        self.advance(now, press)
    }
}

} // verus!
