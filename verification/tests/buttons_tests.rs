use gridgames::buttons::ButtonScan;
use gridgames::grid::Grid;
use gridgames::position::pos;

fn scan_of(pressed: &[(usize, usize)]) -> ButtonScan {
    let mut g: Grid<bool> = Grid::filled(false);
    for &(x, y) in pressed {
        g.set_at(pos(x, y), true);
    }
    ButtonScan(g)
}

#[test]
fn all_false_grid_gives_none() {
    assert_eq!(scan_of(&[]).exactly_one(), None);
}

#[test]
fn single_press_gives_its_position() {
    for y in 0..3 {
        for x in 0..3 {
            let r = scan_of(&[(x, y)]).exactly_one();
            assert_eq!(r, Some(pos(x, y)));
        }
    }
}

#[test]
fn two_presses_same_row_give_none() {
    assert_eq!(scan_of(&[(0, 1), (2, 1)]).exactly_one(), None);
}

#[test]
fn two_presses_different_rows_give_none() {
    assert_eq!(scan_of(&[(0, 0), (2, 2)]).exactly_one(), None);
}

#[test]
fn ghosting_row_plus_single_gives_none() {
    // A row with two pressed cells beside a row with one: still ambiguous.
    assert_eq!(scan_of(&[(0, 0), (2, 0), (1, 1)]).exactly_one(), None);
}

#[test]
fn all_pressed_gives_none() {
    let presses: Vec<(usize, usize)> =
        (0..3).flat_map(|y| (0..3).map(move |x| (x, y))).collect();
    assert_eq!(scan_of(&presses).exactly_one(), None);
}
