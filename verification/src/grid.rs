//! Placement of the calculator's buttons in its fixed 3-wide grid.
//!
//! The nine digit buttons are placed by a formula over their 1-based
//! ordinal index; the operator buttons sit at hand-picked coordinates,
//! kept here as a lookup table.

use vstd::prelude::*;

verus! {

/// The grid is three columns wide.
pub const GRID_WIDTH: i32 = 3;

/// The digit rows start one row below the top row of operator buttons.
pub const ROW_OFFSET: i32 = 1;

/// Column of the digit button with 1-based index `n`.
pub open spec fn digit_col(n: int) -> int {
    ((n + (GRID_WIDTH - 1)) % (GRID_WIDTH as int)) + 1
}

/// Row of the digit button with 1-based index `n`.
pub open spec fn digit_row(n: int) -> int {
    ROW_OFFSET + ((n - 1) / (GRID_WIDTH as int) + 1)
}

/// A (column, row) position in the button grid. Columns and rows are
/// 1-based.
#[derive(Clone, Copy, Debug, PartialEq, Eq, Structural)]
pub struct GridCell {
    pub col: i32,
    pub row: i32,
}

/// Where the digit button with 1-based index `n` goes: column
/// `((n + 2) mod 3) + 1`, row `1 + ((n - 1) div 3 + 1)`. Deterministic and
/// total over the nine digit buttons.
pub fn place_digit(n: i32) -> (c: GridCell)
    requires
        1 <= n <= 9,
    ensures
        c.col == digit_col(n as int),
        c.row == digit_row(n as int),
        1 <= c.col <= GRID_WIDTH,
        ROW_OFFSET + 1 <= c.row <= ROW_OFFSET + 3,
{
    let col: i32 = ((n + (GRID_WIDTH - 1)) % GRID_WIDTH) + 1;
    let row: i32 = ROW_OFFSET + ((n - 1) / GRID_WIDTH + 1);
    GridCell { col, row }
}

/// The buttons placed at hand-picked coordinates outside the digit
/// formula.
#[derive(Clone, Copy, Debug, PartialEq, Eq, Structural)]
pub enum FixedButton {
    Plus,
    Minus,
    Multiply,
    Divide,
    Modulo,
    Zero,
    Equals,
    Back,
}

/// A grid slot: position plus the number of columns and rows the button
/// spans.
#[derive(Clone, Copy, Debug, PartialEq, Eq, Structural)]
pub struct GridSlot {
    pub col: i32,
    pub row: i32,
    pub width: i32,
    pub height: i32,
}

/// The lookup table of the hand-picked placements: the top row holds
/// back, multiply, divide and modulo, the right-hand column the plus,
/// minus and the two-row equals, and the bottom row the three-wide zero.
pub open spec fn fixed_slot(b: FixedButton) -> GridSlot {
    match b {
        FixedButton::Plus => GridSlot { col: 4, row: 3, width: 1, height: 1 },
        FixedButton::Minus => GridSlot { col: 4, row: 2, width: 1, height: 1 },
        FixedButton::Multiply => GridSlot { col: 3, row: 1, width: 1, height: 1 },
        FixedButton::Divide => GridSlot { col: 2, row: 1, width: 1, height: 1 },
        FixedButton::Modulo => GridSlot { col: 1, row: 1, width: 1, height: 1 },
        FixedButton::Zero => GridSlot { col: 1, row: 5, width: 3, height: 1 },
        FixedButton::Equals => GridSlot { col: 4, row: 4, width: 1, height: 2 },
        FixedButton::Back => GridSlot { col: 4, row: 1, width: 1, height: 1 },
    }
}

/// Where the fixed button `b` goes, straight from the lookup table.
pub fn place_fixed(b: FixedButton) -> (s: GridSlot)
    ensures
        s == fixed_slot(b),
{
    match b {
        FixedButton::Plus => GridSlot { col: 4, row: 3, width: 1, height: 1 },
        FixedButton::Minus => GridSlot { col: 4, row: 2, width: 1, height: 1 },
        FixedButton::Multiply => GridSlot { col: 3, row: 1, width: 1, height: 1 },
        FixedButton::Divide => GridSlot { col: 2, row: 1, width: 1, height: 1 },
        FixedButton::Modulo => GridSlot { col: 1, row: 1, width: 1, height: 1 },
        FixedButton::Zero => GridSlot { col: 1, row: 5, width: 3, height: 1 },
        FixedButton::Equals => GridSlot { col: 4, row: 4, width: 1, height: 2 },
        FixedButton::Back => GridSlot { col: 4, row: 1, width: 1, height: 1 },
    }
}

} // verus!
