//! The fixed-size classification grid and its mathematical model.

use vstd::prelude::*;
use crate::cell::Cell;
use crate::pos::Pos;

verus! {

/// Number of rows of every level.
pub const HEIGHT: usize = 19;

/// Number of columns of every level.
pub const WIDTH: usize = 77;

/// `HEIGHT` as a signed number, for coordinates that may lie off the grid.
pub const ROWS: i32 = 19;

/// `WIDTH` as a signed number, for coordinates that may lie off the grid.
pub const COLS: i32 = 77;

/// The model of a grid: `HEIGHT` rows of `WIDTH` cells each.
pub type GridModel = Seq<Seq<Cell>>;

/// Whether `(row, col)` names a cell of the grid.
pub open spec fn in_grid(row: int, col: int) -> bool {
    0 <= row < HEIGHT && 0 <= col < WIDTH
}

/// Whether `g` has the dimensions of a level grid.
pub open spec fn shaped(g: GridModel) -> bool {
    &&& g.len() == HEIGHT
    &&& forall|r: int| 0 <= r < HEIGHT ==> (#[trigger] g[r]).len() == WIDTH
}

/// `g` with the cell at `(row, col)` replaced by `v`.
pub open spec fn put(g: GridModel, row: int, col: int, v: Cell) -> GridModel {
    g.update(row, g[row].update(col, v))
}

/// The grid of open space only.
pub open spec fn blank() -> GridModel {
    Seq::new(HEIGHT as nat, |r: int| Seq::new(WIDTH as nat, |c: int| Cell::Empty))
}

/// The classification grid. Every cell always holds a value; a fresh grid is
/// all `Empty`.
#[derive(Clone, Copy, Debug)]
pub struct Grid {
    cells: [[Cell; 77]; 19],
}

impl View for Grid {
    type V = GridModel;

    closed spec fn view(&self) -> GridModel {
        Seq::new(HEIGHT as nat, |r: int| self.cells@[r]@)
    }
}

impl Grid {
    /// Every grid has the fixed dimensions.
    pub proof fn lemma_shaped(&self)
        ensures
            shaped(self@),
    {
        broadcast use vstd::array::group_array_axioms;
    }

    /// A grid of open space only.
    pub fn new() -> (g: Grid)
        ensures
            g@ == blank(),
    {
        let g = Grid { cells: [[Cell::Empty; 77]; 19] };
        proof {
            broadcast use vstd::array::group_array_axioms;
            assert forall|r: int| 0 <= r < HEIGHT implies #[trigger] g@[r] =~= blank()[r] by {}
            assert(g@ =~= blank());
        }
        g
    }

    /// The cell at `(row, col)`.
    pub fn get(&self, row: usize, col: usize) -> (v: Cell)
        requires
            in_grid(row as int, col as int),
        ensures
            v == self@[row as int][col as int],
    {
        self.cells[row][col]
    }

    /// The cell at `p`, or `None` where `p` lies off the grid.
    pub fn probe(&self, p: Pos) -> (v: Option<Cell>)
        ensures
            v == cell_at(self@, p.row as int, p.col as int),
    {
        if 0 <= p.row && p.row < ROWS && 0 <= p.col && p.col < COLS {
            Some(self.cells[p.row as usize][p.col as usize])
        } else {
            None
        }
    }

    /// Replaces the cell at `(row, col)` and leaves all others as they were.
    pub fn set(&mut self, row: usize, col: usize, v: Cell)
        requires
            in_grid(row as int, col as int),
        ensures
            final(self)@ == put(old(self)@, row as int, col as int, v),
    {
        self.cells[row][col] = v;
        proof {
            broadcast use vstd::array::group_array_axioms;
            assert(self@ =~= put(old(self)@, row as int, col as int, v));
        }
    }
}

/// The cell of `g` at `(row, col)`, or `None` off the grid.
pub open spec fn cell_at(g: GridModel, row: int, col: int) -> Option<Cell> {
    if in_grid(row, col) {
        Some(g[row][col])
    } else {
        None
    }
}

} // verus!
