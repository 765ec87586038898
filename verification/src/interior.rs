//! Telling room floor from room wall: a wall cell with no open space around
//! it is enclosed and becomes interior.

use vstd::prelude::*;
use crate::cell::Cell;
use crate::grid::{cell_at, in_grid, shaped, Grid, GridModel, HEIGHT, WIDTH};
use crate::invariants::{near, sealed};
use crate::visit::look;

verus! {

/// Whether `(row, col)` is anything but open untouched space. Places off
/// the grid count as solid.
pub open spec fn solid(g: GridModel, row: int, col: int) -> bool {
    cell_at(g, row, col) != Some(Cell::Empty)
}

/// Whether the 3 by 3 block around `(row, col)`, the cell itself included,
/// is solid throughout.
pub open spec fn enclosed(g: GridModel, row: int, col: int) -> bool {
    &&& solid(g, row - 1, col - 1)
    &&& solid(g, row - 1, col)
    &&& solid(g, row - 1, col + 1)
    &&& solid(g, row, col - 1)
    &&& solid(g, row, col)
    &&& solid(g, row, col + 1)
    &&& solid(g, row + 1, col - 1)
    &&& solid(g, row + 1, col)
    &&& solid(g, row + 1, col + 1)
}

/// What interior detection makes of the cell at `(row, col)`.
pub open spec fn detected_cell(g: GridModel, row: int, col: int) -> Cell {
    if g[row][col] == Cell::Wall && enclosed(g, row, col) {
        Cell::Interior
    } else {
        g[row][col]
    }
}

/// `g` with every enclosed wall cell turned into interior.
pub open spec fn detected(g: GridModel) -> GridModel {
    Seq::new(HEIGHT as nat, |r: int| Seq::new(WIDTH as nat, |c: int| detected_cell(g, r, c)))
}

/// Whether the block around `(row, col)` is solid throughout.
fn is_enclosed(grid: &Grid, row: usize, col: usize) -> (b: bool)
    requires
        in_grid(row as int, col as int),
    ensures
        b == enclosed(grid@, row as int, col as int),
{
    let r: i64 = row as i64;
    let c: i64 = col as i64;
    look(grid, r - 1, c - 1) != Some(Cell::Empty)
        && look(grid, r - 1, c) != Some(Cell::Empty)
        && look(grid, r - 1, c + 1) != Some(Cell::Empty)
        && look(grid, r, c - 1) != Some(Cell::Empty)
        && look(grid, r, c) != Some(Cell::Empty)
        && look(grid, r, c + 1) != Some(Cell::Empty)
        && look(grid, r + 1, c - 1) != Some(Cell::Empty)
        && look(grid, r + 1, c) != Some(Cell::Empty)
        && look(grid, r + 1, c + 1) != Some(Cell::Empty)
}

/// Detection leaves open space where it was and makes none.
proof fn lemma_same_open_space(g: GridModel, h: GridModel, row: int, col: int)
    requires
        forall|r: int, c: int|
            in_grid(r, c) ==> (#[trigger] h[r][c] == Cell::Empty) == (g[r][c] == Cell::Empty),
    ensures
        enclosed(h, row, col) == enclosed(g, row, col),
{
    assert forall|r: int, c: int| solid(h, r, c) == solid(g, r, c) by {
        if in_grid(r, c) {
            assert((h[r][c] == Cell::Empty) == (g[r][c] == Cell::Empty));
        }
    }
}

/// Turns every wall cell whose 3 by 3 block holds no open space into
/// interior; the grid's edge counts as closed. All other cells stay.
pub fn detect_interiors(grid: &mut Grid)
    ensures
        final(grid)@ == detected(old(grid)@),
        sealed(old(grid)@) ==> sealed(final(grid)@),
{
    proof {
        grid.lemma_shaped();
    }
    let mut row: usize = 0;
    while row < HEIGHT
        invariant
            row <= HEIGHT,
            shaped(grid@),
            shaped(old(grid)@),
            forall|r: int, c: int|
                in_grid(r, c) ==> #[trigger] grid@[r][c] == if r < row {
                    detected_cell(old(grid)@, r, c)
                } else {
                    old(grid)@[r][c]
                },
        decreases HEIGHT - row,
    {
        let mut col: usize = 0;
        while col < WIDTH
            invariant
                row < HEIGHT,
                col <= WIDTH,
                shaped(grid@),
                shaped(old(grid)@),
                forall|r: int, c: int|
                    in_grid(r, c) ==> #[trigger] grid@[r][c]
                        == if r < row || (r == row && c < col) {
                        detected_cell(old(grid)@, r, c)
                    } else {
                        old(grid)@[r][c]
                    },
            decreases WIDTH - col,
        {
            if grid.get(row, col) == Cell::Wall {
                proof {
                    lemma_same_open_space(old(grid)@, grid@, row as int, col as int);
                }
                if is_enclosed(grid, row, col) {
                    grid.set(row, col, Cell::Interior);
                    proof {
                        grid.lemma_shaped();
                    }
                }
            }
            col += 1;
        }
        row += 1;
    }
    proof {
        let want = detected(old(grid)@);
        assert forall|r: int| 0 <= r < HEIGHT implies #[trigger] grid@[r] =~= want[r] by {
            assert forall|c: int| 0 <= c < WIDTH implies grid@[r][c] == want[r][c] by {
                assert(in_grid(r, c));
            }
        }
        assert(grid@ =~= want);
        if sealed(old(grid)@) {
            lemma_detected_sealed(old(grid)@);
        }
    }
}

/// After interior detection no room floor has open untouched space among
/// its eight neighbours, provided that held of the room floor that was
/// there before.
pub proof fn lemma_detected_sealed(g: GridModel)
    requires
        shaped(g),
        sealed(g),
    ensures
        sealed(detected(g)),
{
    let h = detected(g);
    assert forall|r: int, c: int, r2: int, c2: int|
        in_grid(r, c) && in_grid(r2, c2) && near(r, c, r2, c2) && h[r][c].is_room()
        implies h[r2][c2] != Cell::Empty by {
        assert(h[r][c] == detected_cell(g, r, c));
        assert(h[r2][c2] == detected_cell(g, r2, c2));
        if g[r][c].is_room() {
            assert(g[r2][c2] != Cell::Empty);
        } else {
            assert(enclosed(g, r, c));
            assert(solid(g, r2, c2));
        }
    }
}

/// A grid of open space and wall only is sealed: it holds no room floor.
pub proof fn lemma_no_rooms_sealed(g: GridModel)
    requires
        forall|r: int, c: int| in_grid(r, c) ==> !(#[trigger] g[r][c]).is_room(),
    ensures
        sealed(g),
{
}

} // verus!
