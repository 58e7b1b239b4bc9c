use gridgames::player::Player;
use gridgames::position::pos;

#[test]
fn offsets_inside_the_board() {
    assert_eq!(pos(1, 1).offset_y(1), Some(pos(1, 2)));
    assert_eq!(pos(1, 1).offset_y(-1), Some(pos(1, 0)));
    assert_eq!(pos(1, 1).offset_x(1), Some(pos(2, 1)));
    assert_eq!(pos(1, 1).offset_x(-1), Some(pos(0, 1)));
    assert_eq!(pos(0, 0).offset_y(2), Some(pos(0, 2)));
}

#[test]
fn offsets_off_the_board_are_absent() {
    assert_eq!(pos(1, 2).offset_y(1), None);
    assert_eq!(pos(1, 0).offset_y(-1), None);
    assert_eq!(pos(2, 1).offset_x(1), None);
    assert_eq!(pos(0, 1).offset_x(-1), None);
    assert_eq!(pos(0, 0).offset_x(3), None);
    assert_eq!(pos(0, 0).offset_y(-5), None);
}

#[test]
fn zero_offset_stays_put() {
    assert_eq!(pos(2, 1).offset_x(0), Some(pos(2, 1)));
    assert_eq!(pos(2, 1).offset_y(0), Some(pos(2, 1)));
}

#[test]
fn flip_swaps_the_players() {
    let mut p = Player::Red;
    p.flip();
    assert_eq!(p, Player::Blue);
    p.flip();
    assert_eq!(p, Player::Red);
    assert_eq!(Player::Red.other(), Player::Blue);
    assert_eq!(Player::Blue.other(), Player::Red);
}
