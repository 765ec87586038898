//! The finished level: a grid of tiles made from the classification grid.

use vstd::prelude::*;
use crate::cell::Cell;
use crate::grid::{in_grid, Grid, GridModel, COLS, HEIGHT, ROWS, WIDTH};
use crate::pos::Pos;
use crate::tiles::{Corridor, Door, EmptyTile, Floor, Tile, Wall};

verus! {

/// The model of a level: `HEIGHT` rows of `WIDTH` tiles each.
pub type LevelModel = Seq<Seq<Tile>>;

/// A wall or door stands upright when it is off the top and bottom rows and
/// sits between two wall cells, one above and one below. Otherwise it lies.
pub open spec fn stands_upright(g: GridModel, row: int, col: int) -> bool {
    &&& 0 < row < HEIGHT - 1
    &&& g[row - 1][col] == Cell::Wall
    &&& g[row + 1][col] == Cell::Wall
}

/// The tile that the cell at `(row, col)` becomes. Walls and doors take
/// their orientation from their vertical neighbours, doors are open, room
/// floor becomes floor whether it was swept or not, and open space that was
/// never carved stays empty.
pub open spec fn tile_of(g: GridModel, row: int, col: int) -> Tile {
    match g[row][col] {
        Cell::Wall => Tile::Wall(Wall { vert: stands_upright(g, row, col) }),
        Cell::Door => Tile::Door(Door { vert: stands_upright(g, row, col), open: true }),
        Cell::Corridor => Tile::Corridor(Corridor {  }),
        Cell::Interior | Cell::InteriorFilled => Tile::Floor(Floor {  }),
        Cell::Empty => Tile::Empty(EmptyTile {  }),
    }
}

/// The level that the grid `g` becomes.
pub open spec fn tiles_of(g: GridModel) -> LevelModel {
    Seq::new(HEIGHT as nat, |r: int| Seq::new(WIDTH as nat, |c: int| tile_of(g, r, c)))
}

/// The tile at `(row, col)` of `m`, or `None` off the grid.
pub open spec fn tile_at(m: LevelModel, row: int, col: int) -> Option<Tile> {
    if in_grid(row, col) {
        Some(m[row][col])
    } else {
        None
    }
}

/// A level's tiles. The level is not changed once it is made.
#[derive(Clone, Copy, Debug)]
pub struct LevelMap {
    tiles: [[Tile; 77]; 19],
}

impl View for LevelMap {
    type V = LevelModel;

    closed spec fn view(&self) -> LevelModel {
        Seq::new(HEIGHT as nat, |r: int| self.tiles@[r]@)
    }
}

impl LevelMap {
    /// Every level has the fixed dimensions.
    pub proof fn lemma_shaped(&self)
        ensures
            self@.len() == HEIGHT,
            forall|r: int| 0 <= r < HEIGHT ==> (#[trigger] self@[r]).len() == WIDTH,
    {
        broadcast use vstd::array::group_array_axioms;
    }

    /// The tile at `(row, col)`.
    pub fn tile(&self, row: usize, col: usize) -> (t: Tile)
        requires
            in_grid(row as int, col as int),
        ensures
            t == self@[row as int][col as int],
    {
        self.tiles[row][col]
    }

    /// The tile at `p`, or `None` where `p` lies off the grid.
    pub fn probe(&self, p: Pos) -> (t: Option<Tile>)
        ensures
            t == tile_at(self@, p.row as int, p.col as int),
    {
        if 0 <= p.row && p.row < ROWS && 0 <= p.col && p.col < COLS {
            Some(self.tiles[p.row as usize][p.col as usize])
        } else {
            None
        }
    }
}

/// Whether the wall or door at `(row, col)` stands upright.
fn is_upright(grid: &Grid, row: usize, col: usize) -> (b: bool)
    requires
        in_grid(row as int, col as int),
    ensures
        b == stands_upright(grid@, row as int, col as int),
{
    0 < row && row < HEIGHT - 1
        && grid.get(row - 1, col) == Cell::Wall
        && grid.get(row + 1, col) == Cell::Wall
}

/// Turns the finished grid into tiles, one for each cell.
pub fn materialize(grid: &Grid) -> (map: LevelMap)
    ensures
        map@ == tiles_of(grid@),
{
    let mut map = LevelMap { tiles: [[Tile::Empty(EmptyTile {  }); 77]; 19] };
    let mut row: usize = 0;
    while row < HEIGHT
        invariant
            row <= HEIGHT,
            forall|r: int, c: int|
                0 <= r < row && 0 <= c < WIDTH ==> #[trigger] map.tiles@[r]@[c] == tile_of(
                    grid@,
                    r,
                    c,
                ),
        decreases HEIGHT - row,
    {
        let mut col: usize = 0;
        while col < WIDTH
            invariant
                row < HEIGHT,
                col <= WIDTH,
                forall|r: int, c: int|
                    0 <= r < row && 0 <= c < WIDTH ==> #[trigger] map.tiles@[r]@[c] == tile_of(
                        grid@,
                        r,
                        c,
                    ),
                forall|c: int|
                    0 <= c < col ==> #[trigger] map.tiles@[row as int]@[c] == tile_of(
                        grid@,
                        row as int,
                        c,
                    ),
            decreases WIDTH - col,
        {
            let tile = match grid.get(row, col) {
                Cell::Wall => Tile::Wall(Wall { vert: is_upright(grid, row, col) }),
                Cell::Door => Tile::Door(Door { vert: is_upright(grid, row, col), open: true }),
                Cell::Corridor => Tile::Corridor(Corridor {  }),
                Cell::Interior | Cell::InteriorFilled => Tile::Floor(Floor {  }),
                Cell::Empty => Tile::Empty(EmptyTile {  }),
            };
            map.tiles[row][col] = tile;
            proof {
                broadcast use vstd::array::group_array_axioms;
            }
            col += 1;
        }
        row += 1;
    }
    proof {
        broadcast use vstd::array::group_array_axioms;
        let want = tiles_of(grid@);
        assert forall|r: int| 0 <= r < HEIGHT implies #[trigger] map@[r] =~= want[r] by {
            assert forall|c: int| 0 <= c < WIDTH implies map@[r][c] == want[r][c] by {
                assert(map.tiles@[r]@[c] == tile_of(grid@, r, c));
            }
        }
        assert(map@ =~= want);
    }
    map
}

/// A wall on the top or bottom row of the grid always lies.
pub proof fn lemma_edge_walls_lie(g: GridModel, row: int, col: int)
    requires
        in_grid(row, col),
        row == 0 || row == HEIGHT - 1,
        g[row][col] == Cell::Wall,
    ensures
        tiles_of(g)[row][col] == Tile::Wall(Wall { vert: false }),
{
}

} // verus!
