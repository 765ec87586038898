//! The four axis-aligned directions of travel, and standing still.

use vstd::prelude::*;

verus! {

/// A step between 4-adjacent cells. `Here` is the empty step: it is the
/// direction of a fill that has not moved yet.
#[derive(Clone, Copy, PartialEq, Eq, Structural, Debug)]
pub enum Dir {
    Here,
    Down,
    Up,
    Right,
    Left,
}

impl Dir {
    /// Change of row made by one step.
    pub open spec fn d_row(self) -> int {
        match self {
            Dir::Down => 1,
            Dir::Up => -1,
            _ => 0,
        }
    }

    /// Change of column made by one step.
    pub open spec fn d_col(self) -> int {
        match self {
            Dir::Right => 1,
            Dir::Left => -1,
            _ => 0,
        }
    }

    /// Travel along a row. Standing still counts as horizontal: a fill that
    /// has not moved is on the row it started on.
    pub open spec fn is_horizontal(self) -> bool {
        self.d_row() == 0
    }

    pub fn row_step(self) -> (d: i32)
        ensures
            d == self.d_row(),
    {
        match self {
            Dir::Down => 1,
            Dir::Up => -1,
            _ => 0,
        }
    }

    pub fn col_step(self) -> (d: i32)
        ensures
            d == self.d_col(),
    {
        match self {
            Dir::Right => 1,
            Dir::Left => -1,
            _ => 0,
        }
    }
}

/// The order in which a door opens onto its four neighbours.
pub open spec fn compass() -> Seq<Dir> {
    seq![Dir::Down, Dir::Up, Dir::Right, Dir::Left]
}

} // verus!
