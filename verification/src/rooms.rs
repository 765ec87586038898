//! Room footprints and their stamping onto the grid.

use vstd::prelude::*;
use crate::cell::Cell;
use crate::grid::{in_grid, Grid, GridModel, HEIGHT, WIDTH};

verus! {

/// The cells a room covers: rows `row_lo..row_hi` and columns
/// `col_lo..col_hi`, upper bounds excluded. A footprint may reach beyond the
/// grid; only its cells on the grid count.
#[derive(Clone, Copy, PartialEq, Eq, Structural, Debug)]
pub struct RoomRect {
    pub row_lo: usize,
    pub row_hi: usize,
    pub col_lo: usize,
    pub col_hi: usize,
}

impl RoomRect {
    /// Whether the footprint holds `(row, col)`.
    pub open spec fn covers(self, row: int, col: int) -> bool {
        self.row_lo <= row < self.row_hi && self.col_lo <= col < self.col_hi
    }

    /// Whether the footprint ends on the grid.
    pub open spec fn within_grid(self) -> bool {
        self.row_hi <= HEIGHT && self.col_hi <= WIDTH
    }

    /// The footprint cut down to the grid: it covers the same grid cells as
    /// `self` and none beyond.
    pub fn clipped(&self) -> (out: RoomRect)
        ensures
            out.within_grid(),
            out.row_lo == self.row_lo,
            out.col_lo == self.col_lo,
            out.row_hi == if self.row_hi <= HEIGHT { self.row_hi } else { HEIGHT },
            out.col_hi == if self.col_hi <= WIDTH { self.col_hi } else { WIDTH },
            forall|r: int, c: int| in_grid(r, c) ==> out.covers(r, c) == self.covers(r, c),
            forall|r: int, c: int| out.covers(r, c) ==> in_grid(r, c),
    {
        RoomRect {
            row_lo: self.row_lo,
            row_hi: if self.row_hi <= HEIGHT { self.row_hi } else { HEIGHT },
            col_lo: self.col_lo,
            col_hi: if self.col_hi <= WIDTH { self.col_hi } else { WIDTH },
        }
    }
}

/// Whether some room of `rooms` covers `(row, col)`.
pub open spec fn covered(rooms: Seq<RoomRect>, row: int, col: int) -> bool {
    exists|i: int| 0 <= i < rooms.len() && (#[trigger] rooms[i]).covers(row, col)
}

/// The cell at `(row, col)` once `rooms` are stamped onto `g`: wall where a
/// room covers it, and what it was elsewhere.
pub open spec fn stamped_cell(g: GridModel, rooms: Seq<RoomRect>, row: int, col: int) -> Cell {
    if covered(rooms, row, col) {
        Cell::Wall
    } else {
        g[row][col]
    }
}

/// `g` with every cell that a room covers turned into wall. Rooms that
/// overlap merge into one footprint.
pub open spec fn stamped(g: GridModel, rooms: Seq<RoomRect>) -> GridModel {
    Seq::new(
        HEIGHT as nat,
        |r: int| Seq::new(WIDTH as nat, |c: int| stamped_cell(g, rooms, r, c)),
    )
}

/// A cell is covered by the first `n + 1` rooms when it is covered by the
/// first `n` or by the one after them.
proof fn lemma_covered_by_one_more(rooms: Seq<RoomRect>, n: int, row: int, col: int)
    requires
        0 <= n < rooms.len(),
    ensures
        covered(rooms.take(n + 1), row, col) == (covered(rooms.take(n), row, col)
            || rooms[n].covers(row, col)),
{
    let done = rooms.take(n);
    let more = rooms.take(n + 1);
    if covered(done, row, col) {
        let k = choose|k: int| 0 <= k < done.len() && (#[trigger] done[k]).covers(row, col);
        assert(more[k].covers(row, col));
    }
    if rooms[n].covers(row, col) {
        assert(more[n].covers(row, col));
    }
    if covered(more, row, col) {
        let k = choose|k: int| 0 <= k < more.len() && (#[trigger] more[k]).covers(row, col);
        if k < n {
            assert(done[k].covers(row, col));
        }
    }
}

/// Stamps one footprint.
fn stamp(grid: &mut Grid, room: &RoomRect)
    ensures
        forall|r: int, c: int|
            in_grid(r, c) ==> #[trigger] final(grid)@[r][c]
                == if room.covers(r, c) { Cell::Wall } else { old(grid)@[r][c] },
{
    let rect = room.clipped();
    let mut row: usize = rect.row_lo;
    while row < rect.row_hi
        invariant
            rect.within_grid(),
            rect.row_lo <= row,
            forall|r: int, c: int|
                in_grid(r, c) ==> #[trigger] grid@[r][c]
                    == if rect.covers(r, c) && r < row { Cell::Wall } else { old(grid)@[r][c] },
        decreases rect.row_hi - row,
    {
        let mut col: usize = rect.col_lo;
        while col < rect.col_hi
            invariant
                rect.within_grid(),
                rect.row_lo <= row < rect.row_hi,
                rect.col_lo <= col,
                forall|r: int, c: int|
                    in_grid(r, c) ==> #[trigger] grid@[r][c]
                        == if rect.covers(r, c) && (r < row || (r == row && c < col)) {
                        Cell::Wall
                    } else {
                        old(grid)@[r][c]
                    },
            decreases rect.col_hi - col,
        {
            proof {
                grid.lemma_shaped();
            }
            grid.set(row, col, Cell::Wall);
            col += 1;
        }
        row += 1;
    }
}

/// Marks every grid cell that a room covers as wall and leaves the others
/// as they were. Parts of a footprint beyond the grid are ignored.
pub fn rasterize(grid: &mut Grid, rooms: &Vec<RoomRect>)
    ensures
        final(grid)@ == stamped(old(grid)@, rooms@),
{
    let mut i: usize = 0;
    while i < rooms.len()
        invariant
            i <= rooms.len(),
            forall|r: int, c: int|
                in_grid(r, c) ==> #[trigger] grid@[r][c]
                    == stamped_cell(old(grid)@, rooms@.take(i as int), r, c),
        decreases rooms.len() - i,
    {
        stamp(grid, &rooms[i]);
        proof {
            assert forall|r: int, c: int| in_grid(r, c) implies #[trigger] grid@[r][c]
                == stamped_cell(old(grid)@, rooms@.take(i + 1), r, c) by {
                lemma_covered_by_one_more(rooms@, i as int, r, c);
            }
        }
        i += 1;
    }
    proof {
        grid.lemma_shaped();
        assert(rooms@.take(i as int) =~= rooms@);
        let want = stamped(old(grid)@, rooms@);
        assert forall|r: int| 0 <= r < HEIGHT implies #[trigger] grid@[r] =~= want[r] by {
            assert forall|c: int| 0 <= c < WIDTH implies grid@[r][c] == want[r][c] by {
                assert(in_grid(r, c));
            }
        }
        assert(grid@ =~= want);
    }
}

} // verus!
