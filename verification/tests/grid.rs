use rust_calc::grid::{place_digit, place_fixed, FixedButton, GridCell, GridSlot};

#[test]
fn digit_buttons_land_on_their_cells() {
    let expected: [(i32, i32, i32); 9] = [
        (1, 1, 2),
        (2, 2, 2),
        (3, 3, 2),
        (4, 1, 3),
        (5, 2, 3),
        (6, 3, 3),
        (7, 1, 4),
        (8, 2, 4),
        (9, 3, 4),
    ];
    for (n, col, row) in expected {
        assert_eq!(place_digit(n), GridCell { col, row });
    }
}

#[test]
fn digit_one_top_left_of_digit_block() {
    assert_eq!(place_digit(1), GridCell { col: 1, row: 2 });
}

#[test]
fn digit_nine_bottom_right_of_digit_block() {
    assert_eq!(place_digit(9), GridCell { col: 3, row: 4 });
}

#[test]
fn fixed_buttons_land_on_their_slots() {
    assert_eq!(place_fixed(FixedButton::Plus), GridSlot { col: 4, row: 3, width: 1, height: 1 });
    assert_eq!(place_fixed(FixedButton::Minus), GridSlot { col: 4, row: 2, width: 1, height: 1 });
    assert_eq!(
        place_fixed(FixedButton::Multiply),
        GridSlot { col: 3, row: 1, width: 1, height: 1 }
    );
    assert_eq!(place_fixed(FixedButton::Divide), GridSlot { col: 2, row: 1, width: 1, height: 1 });
    assert_eq!(place_fixed(FixedButton::Modulo), GridSlot { col: 1, row: 1, width: 1, height: 1 });
    assert_eq!(place_fixed(FixedButton::Zero), GridSlot { col: 1, row: 5, width: 3, height: 1 });
    assert_eq!(place_fixed(FixedButton::Equals), GridSlot { col: 4, row: 4, width: 1, height: 2 });
    assert_eq!(place_fixed(FixedButton::Back), GridSlot { col: 4, row: 1, width: 1, height: 1 });
}
