//! Grid coordinates and the unit offsets used to move between cells.

use vstd::prelude::*;

verus! {

/// A coordinate on (or just off) the level grid. Rows grow downwards.
#[derive(Clone, Copy, PartialEq, Eq, Structural, Debug)]
pub struct Pos {
    pub row: i32,
    pub col: i32,
}

impl Pos {
    pub fn new(row: i32, col: i32) -> (p: Pos)
        ensures
            p.row == row,
            p.col == col,
    {
        Pos { row: row, col: col }
    }
}

/// One column to the left.
pub fn left() -> (p: Pos)
    ensures
        p.row == 0,
        p.col == -1,
{
    Pos { row: 0, col: -1i32 }
}

/// One row down.
pub fn down() -> (p: Pos)
    ensures
        p.row == 1,
        p.col == 0,
{
    Pos { row: 1, col: 0 }
}

/// One row up.
pub fn up() -> (p: Pos)
    ensures
        p.row == -1,
        p.col == 0,
{
    Pos { row: -1i32, col: 0 }
}

/// One column to the right.
pub fn right() -> (p: Pos)
    ensures
        p.row == 0,
        p.col == 1,
{
    Pos { row: 0, col: 1 }
}

/// Diagonally up and left.
pub fn up_left() -> (p: Pos)
    ensures
        p.row == -1,
        p.col == -1,
{
    Pos { row: -1i32, col: -1i32 }
}

/// Diagonally up and right.
pub fn up_right() -> (p: Pos)
    ensures
        p.row == -1,
        p.col == 1,
{
    Pos { row: -1i32, col: 1 }
}

/// Diagonally down and left.
pub fn down_left() -> (p: Pos)
    ensures
        p.row == 1,
        p.col == -1,
{
    Pos { row: 1, col: -1i32 }
}

/// Diagonally down and right.
pub fn down_right() -> (p: Pos)
    ensures
        p.row == 1,
        p.col == 1,
{
    Pos { row: 1, col: 1 }
}

} // verus!
