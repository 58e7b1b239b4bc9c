use gridgames::display::DisplayPixel;
use gridgames::display::show_plan;
use gridgames::display::solid_frame;
use gridgames::display::tie_frame;
use gridgames::display::winner_frame;
use gridgames::grid::Grid;
use gridgames::player::Player;
use gridgames::position::pos;

#[test]
fn pixel_constructors() {
    let r = DisplayPixel::red();
    assert!(r.red && !r.blue);
    let b = DisplayPixel::blue();
    assert!(!b.red && b.blue);
    let c = DisplayPixel::red_if(true);
    assert!(c.red && !c.blue);
    let c = DisplayPixel::red_if(false);
    assert!(!c.red && c.blue);
    let d = DisplayPixel::default();
    assert!(!d.red && !d.blue);
}

#[test]
fn pixel_from_player() {
    assert_eq!(DisplayPixel::from(Player::Red), DisplayPixel::red());
    assert_eq!(DisplayPixel::from(Player::Blue), DisplayPixel::blue());
}

#[test]
fn filter_darkens_when_false() {
    let mut p = DisplayPixel::red();
    p.filter(true);
    assert_eq!(p, DisplayPixel::red());
    p.filter(false);
    assert!(!p.red && !p.blue);
}

#[test]
fn and_gates_both_colors() {
    assert_eq!(DisplayPixel::blue().and(true), DisplayPixel::blue());
    let off = DisplayPixel::blue().and(false);
    assert!(!off.red && !off.blue);
}

#[test]
fn or_player_mixes_colors() {
    let mut p = DisplayPixel::red();
    p.or_player(Player::Blue);
    assert!(p.red && p.blue);
    let mut q = DisplayPixel::default();
    q.or_player(Player::Red);
    assert!(q.red && !q.blue);
}

#[test]
fn solid_frame_is_one_color_everywhere() {
    let f = solid_frame(Player::Blue);
    for y in 0..3 {
        for x in 0..3 {
            assert_eq!(f.at(pos(x, y)), DisplayPixel::blue());
        }
    }
}

#[test]
fn winner_frame_blinks_the_checkerboard() {
    // During the first half-second the odd cells carry the color.
    let f = winner_frame(Player::Red, 0);
    for y in 0..3 {
        for x in 0..3 {
            let lit = (y * 3 + x) % 2 == 1;
            assert_eq!(f.at(pos(x, y)).red, lit);
            assert!(!f.at(pos(x, y)).blue);
        }
    }
    // During the second half the even cells carry it.
    let f = winner_frame(Player::Red, 700);
    assert!(f.at(pos(0, 0)).red);
    assert!(!f.at(pos(1, 0)).red);
}

#[test]
fn tie_frame_alternates_the_two_colors() {
    let f = tie_frame(0);
    for y in 0..3 {
        for x in 0..3 {
            let lit = (y * 3 + x) % 2 == 1;
            assert_eq!(f.at(pos(x, y)).red, lit);
            assert_eq!(f.at(pos(x, y)).blue, !lit);
        }
    }
}

#[test]
fn show_plan_selects_the_clock_row() {
    let mut cells: Vec<DisplayPixel> = Vec::new();
    for i in 0..9 {
        cells.push(DisplayPixel { red: i % 2 == 0, blue: i % 3 == 0 });
    }
    let frame: Grid<DisplayPixel> = Grid::from_cells(cells);
    let plan = show_plan(&frame, 4);
    assert_eq!(plan.y, 1);
    assert_eq!(plan.row_active, vec![false, true, false]);
    for x in 0..3 {
        assert_eq!(plan.pixels[x], frame.at(pos(x, 1)));
    }
    let plan = show_plan(&frame, 9);
    assert_eq!(plan.y, 0);
    assert_eq!(plan.row_active, vec![true, false, false]);
}
