use gridgames::hexapawn::Hexapawn;
use gridgames::hexapawn::HexState;
use gridgames::hexapawn::Pawn;
use gridgames::hexapawn::Pawns;
use gridgames::player::Player;
use gridgames::position::Position;
use gridgames::position::pos;

fn pawns_of(list: &[(usize, usize, Player)]) -> Pawns {
    let mut slots: Vec<Option<Pawn>> = Vec::new();
    for &(x, y, pl) in list {
        slots.push(Some(Pawn::new(pos(x, y), pl)));
    }
    while slots.len() < 6 {
        slots.push(None);
    }
    Pawns { slots }
}

fn alive(p: &Pawns) -> Vec<Pawn> {
    p.slots.iter().flatten().copied().collect()
}

fn pawn_at(p: &Pawns, x: usize, y: usize) -> Option<Pawn> {
    alive(p).into_iter().find(|pw| pw.position == pos(x, y))
}

#[test]
fn opening_layout_has_three_pawns_per_side() {
    let g = Hexapawn::new(Player::Red);
    assert_eq!(g.state, HexState::PresentCurrentPlayer);
    for x in 0..3 {
        assert_eq!(pawn_at(&g.pawns, x, 0).unwrap().player, Player::Red);
        assert_eq!(pawn_at(&g.pawns, x, 2).unwrap().player, Player::Blue);
    }
    assert_eq!(alive(&g.pawns).len(), 6);
}

#[test]
fn free_advance_and_one_capture_yield_exactly_two_moves() {
    // Red pawn at (1,1): forward square (1,2) empty, enemy on the left
    // diagonal (0,2) only.
    let p = pawns_of(&[(1, 1, Player::Red), (0, 2, Player::Blue)]);
    let moves = p.valid_next_moves(Pawn::new(pos(1, 1), Player::Red));
    assert_eq!(moves, vec![pos(1, 2), pos(0, 2)]);
}

#[test]
fn blocked_advance_leaves_only_the_capture() {
    let p = pawns_of(&[(1, 1, Player::Red), (1, 2, Player::Blue), (2, 2, Player::Blue)]);
    let moves = p.valid_next_moves(Pawn::new(pos(1, 1), Player::Red));
    assert_eq!(moves, vec![pos(2, 2)]);
}

#[test]
fn own_pawn_on_diagonal_is_not_a_capture() {
    let p = pawns_of(&[(1, 1, Player::Red), (0, 2, Player::Red)]);
    let moves = p.valid_next_moves(Pawn::new(pos(1, 1), Player::Red));
    assert_eq!(moves, vec![pos(1, 2)]);
}

#[test]
fn edge_pawn_has_no_off_board_moves() {
    // Blue moves toward row 0; from (0, 1) only (0, 0) and (1, 0) exist.
    let p = pawns_of(&[(0, 1, Player::Blue), (1, 0, Player::Red), (0, 0, Player::Red)]);
    let moves = p.valid_next_moves(Pawn::new(pos(0, 1), Player::Blue));
    assert_eq!(moves, vec![pos(1, 0)]);
}

#[test]
fn capture_removes_exactly_the_taken_pawn() {
    let mut p = pawns_of(&[
        (1, 1, Player::Red),
        (0, 2, Player::Blue),
        (2, 2, Player::Blue),
    ]);
    assert_eq!(alive(&p).len(), 3);
    p.apply_move(pos(0, 2), pos(1, 1));
    assert_eq!(alive(&p).len(), 2);
    assert_eq!(pawn_at(&p, 1, 1).unwrap().player, Player::Blue);
    assert!(pawn_at(&p, 0, 2).is_none());
    assert_eq!(pawn_at(&p, 2, 2).unwrap().player, Player::Blue);
}

#[test]
fn move_to_empty_square_keeps_the_pawn_count() {
    let mut p = pawns_of(&[(1, 0, Player::Red), (1, 2, Player::Blue)]);
    p.apply_move(pos(1, 0), pos(1, 1));
    assert_eq!(alive(&p).len(), 2);
    assert!(pawn_at(&p, 1, 0).is_none());
    assert_eq!(pawn_at(&p, 1, 1).unwrap().player, Player::Red);
}

#[test]
fn elimination_wins_before_stalemate_would_apply() {
    // Only red pawns remain, and the red pawn cannot move; were the
    // stalemate rule checked first, blue would win instead.
    let g = Hexapawn {
        pawns: pawns_of(&[(1, 2, Player::Red)]),
        current_player: Player::Red,
        state: HexState::WaitForPick,
    };
    assert_eq!(g.winner(), Some(Player::Red));
}

#[test]
fn stalemate_gives_the_win_to_the_other_player() {
    // Red to move; red's only pawn is blocked and has no capture.
    let g = Hexapawn {
        pawns: pawns_of(&[(1, 1, Player::Red), (1, 2, Player::Blue)]),
        current_player: Player::Red,
        state: HexState::WaitForPick,
    };
    assert_eq!(g.winner(), Some(Player::Blue));
}

#[test]
fn promotion_wins_for_the_pawn_owner() {
    // Red still has a move, so the stalemate rule stays quiet, and the
    // red pawn on row 2 wins by promotion.
    let g = Hexapawn {
        pawns: pawns_of(&[(1, 0, Player::Red), (0, 2, Player::Red), (2, 1, Player::Blue)]),
        current_player: Player::Red,
        state: HexState::WaitForPick,
    };
    assert_eq!(g.winner(), Some(Player::Red));
}

#[test]
fn fresh_game_has_no_winner() {
    let mut g = Hexapawn::new(Player::Red);
    g.advance(1500, None);
    assert_eq!(g.state, HexState::WaitForPick);
    g.advance(1600, None);
    assert_eq!(g.state, HexState::WaitForPick);
}

#[test]
fn advance_then_diagonal_capture_scenario() {
    // Red's pawn at (1,0) advances to (1,1); blue's pawn at (0,2)
    // captures into (1,1).  Afterwards (1,0) is empty and the pawn on
    // (1,1) is blue's.
    let mut g = Hexapawn::new(Player::Red);
    g.advance(1500, None);
    assert_eq!(g.state, HexState::WaitForPick);

    g.advance(1600, Some(pos(1, 0)));
    assert_eq!(g.state, HexState::WaitForPlace(Pawn::new(pos(1, 0), Player::Red)));
    g.advance(1700, Some(pos(1, 1)));
    assert_eq!(g.state, HexState::WaitForPick);
    assert_eq!(g.current_player, Player::Blue);
    assert_eq!(pawn_at(&g.pawns, 1, 1).unwrap().player, Player::Red);

    g.advance(1800, Some(pos(0, 2)));
    assert_eq!(g.state, HexState::WaitForPlace(Pawn::new(pos(0, 2), Player::Blue)));
    g.advance(1900, Some(pos(1, 1)));
    assert_eq!(g.state, HexState::WaitForPick);
    assert_eq!(g.current_player, Player::Red);

    assert!(pawn_at(&g.pawns, 1, 0).is_none());
    assert_eq!(pawn_at(&g.pawns, 1, 1).unwrap().player, Player::Blue);
    assert!(pawn_at(&g.pawns, 0, 2).is_none());
    assert_eq!(alive(&g.pawns).len(), 5);
}

#[test]
fn picking_an_enemy_or_empty_square_is_ignored() {
    let mut g = Hexapawn::new(Player::Red);
    g.advance(1500, None);
    g.advance(1600, Some(pos(1, 2)));
    assert_eq!(g.state, HexState::WaitForPick);
    g.advance(1700, Some(pos(1, 1)));
    assert_eq!(g.state, HexState::WaitForPick);
}

#[test]
fn repicking_another_own_pawn_reselects() {
    let mut g = Hexapawn::new(Player::Red);
    g.advance(1500, None);
    g.advance(1600, Some(pos(0, 0)));
    assert_eq!(g.state, HexState::WaitForPlace(Pawn::new(pos(0, 0), Player::Red)));
    g.advance(1700, Some(pos(2, 0)));
    assert_eq!(g.state, HexState::WaitForPlace(Pawn::new(pos(2, 0), Player::Red)));
}

#[test]
fn illegal_destination_is_ignored() {
    let mut g = Hexapawn::new(Player::Red);
    g.advance(1500, None);
    g.advance(1600, Some(pos(1, 0)));
    // (0, 1) is a diagonal without an enemy pawn: no move happens.
    g.advance(1700, Some(pos(0, 1)));
    assert_eq!(g.state, HexState::WaitForPlace(Pawn::new(pos(1, 0), Player::Red)));
    assert_eq!(g.current_player, Player::Red);
    assert_eq!(alive(&g.pawns).len(), 6);
}

#[test]
fn capturing_the_last_enemy_pawn_wins_by_elimination() {
    let mut g = Hexapawn {
        pawns: pawns_of(&[(1, 1, Player::Blue), (2, 0, Player::Red)]),
        current_player: Player::Blue,
        state: HexState::WaitForPick,
    };
    g.advance(1600, Some(pos(1, 1)));
    assert_eq!(g.state, HexState::WaitForPlace(Pawn::new(pos(1, 1), Player::Blue)));
    g.advance(1700, Some(pos(2, 0)));
    assert_eq!(alive(&g.pawns).len(), 1);
    // The next picking iteration declares the winner.
    g.advance(1800, None);
    assert_eq!(g.state, HexState::DisplayWinner(Player::Blue));
}

fn find_position(moves: &[Position], q: Position) -> bool {
    moves.iter().any(|m| *m == q)
}

#[test]
fn opening_middle_pawn_has_one_move() {
    let g = Hexapawn::new(Player::Red);
    let moves = g.pawns.valid_next_moves(Pawn::new(pos(1, 0), Player::Red));
    assert_eq!(moves.len(), 1);
    assert!(find_position(&moves, pos(1, 1)));
}
