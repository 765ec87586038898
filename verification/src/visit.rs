//! One visit of the corridor carver, and the machine that the carver is.
//!
//! The carver is a randomized flood fill run from an explicit stack of
//! pending visits. Its state is the grid, the stack and a fault flag; one
//! step either seeds a new fill at a drawn coordinate (when the stack is
//! empty and unswept room floor remains) or pops the top visit and makes it.
//! Everything random enters a step through a `Draws` value, so a step is a
//! function of state and draws.

use vstd::prelude::*;
use crate::cell::{Cell, Mode};
use crate::dir::{compass, Dir};
use crate::grid::{cell_at, in_grid, put, Grid, GridModel, COLS, HEIGHT, ROWS, WIDTH};
use crate::pos::Pos;

verus! {

/// One pending visit: the fill arrives at the cell one `dir` step away from
/// `from`. A fill that has not moved yet has `dir == Dir::Here`.
#[derive(Clone, Copy, PartialEq, Eq, Structural, Debug)]
pub struct WorkItem {
    pub from: Pos,
    pub dir: Dir,
    pub mode: Mode,
}

impl WorkItem {
    /// Row of the visited cell.
    pub open spec fn at_row(self) -> int {
        self.from.row + self.dir.d_row()
    }

    /// Column of the visited cell.
    pub open spec fn at_col(self) -> int {
        self.from.col + self.dir.d_col()
    }

    /// The first visit of a fill started at `p`: it searches, and its
    /// previous cell is `p` itself.
    pub fn start(p: Pos) -> (w: WorkItem)
        ensures
            w == seed_item(p),
    {
        WorkItem { from: p, dir: Dir::Here, mode: Mode::Searching }
    }
}

/// The visit that starts a fill at `p`.
pub open spec fn seed_item(p: Pos) -> WorkItem {
    WorkItem { from: p, dir: Dir::Here, mode: Mode::Searching }
}

/// The visit that continues from `(row, col)` in direction `dir`.
pub open spec fn onward(row: int, col: int, dir: Dir, mode: Mode) -> WorkItem {
    WorkItem { from: Pos { row: row as i32, col: col as i32 }, dir, mode }
}

/// Everything random that one step of the carver may consult.
#[derive(Clone, Copy, Debug)]
pub struct Draws {
    /// Where the next fill starts, if this step seeds one.
    pub start: Pos,
    /// The order in which room floor passes the fill on to its neighbours.
    pub order: [Dir; 4],
    /// Whether a wall reached from unswept room floor is tried as a door.
    pub door: bool,
    /// Whether a corridor with open space ahead turns.
    pub turn: bool,
    /// Which way a turn is tried first: towards the larger row or column.
    pub side: bool,
}

impl Draws {
    /// The start is a cell of the grid and the order names each of the four
    /// directions once.
    pub open spec fn valid(self) -> bool {
        &&& in_grid(self.start.row as int, self.start.col as int)
        &&& self.order@.to_multiset() == compass().to_multiset()
    }
}

/// Every element of `ds` is valid.
pub open spec fn all_valid(ds: Seq<Draws>) -> bool {
    forall|i: int| 0 <= i < ds.len() ==> (#[trigger] ds[i]).valid()
}

/// One chance in this many that a wall reached from unswept room floor is
/// tried as a door.
pub const DOOR_ODDS: u32 = 50;

/// One chance in this many that a corridor with open space ahead turns.
pub const TURN_ODDS: u32 = 35;

/// Whether one of the four neighbours of `(row, col)` lies on the grid and
/// is a `kind` cell.
pub open spec fn touches(g: GridModel, row: int, col: int, kind: Cell) -> bool {
    ||| cell_at(g, row + 1, col) == Some(kind)
    ||| cell_at(g, row - 1, col) == Some(kind)
    ||| cell_at(g, row, col + 1) == Some(kind)
    ||| cell_at(g, row, col - 1) == Some(kind)
}

/// A wall may be opened from a room when it has open space on one side and
/// unswept room floor on another.
pub open spec fn door_fits(g: GridModel, row: int, col: int) -> bool {
    touches(g, row, col, Cell::Empty) && touches(g, row, col, Cell::Interior)
}

/// The direction a corridor at `(row, col)` travelling in `dir` turns to:
/// perpendicular to `dir`, on the drawn side unless that step would leave
/// the grid, in which case the other side.
pub open spec fn turn_dir(row: int, col: int, dir: Dir, side: bool) -> Dir {
    if dir.is_horizontal() {
        if side {
            if row + 1 < HEIGHT { Dir::Down } else { Dir::Up }
        } else {
            if row - 1 >= 0 { Dir::Up } else { Dir::Down }
        }
    } else {
        if side {
            if col + 1 < WIDTH { Dir::Right } else { Dir::Left }
        } else {
            if col - 1 >= 0 { Dir::Left } else { Dir::Right }
        }
    }
}

/// What one visit does: the grid afterwards, the visits it asks for in the
/// order in which they are to be made, and whether it found a corridor about
/// to run into room floor.
pub struct Visit {
    pub grid: GridModel,
    pub next: Seq<WorkItem>,
    pub fault: bool,
}

/// A visit that changes nothing and asks for nothing.
pub open spec fn idle(g: GridModel) -> Visit {
    Visit { grid: g, next: Seq::empty(), fault: false }
}

/// Visit of unswept room floor: swept when filling, and passed on to the
/// four neighbours in the drawn order, in the same mode.
pub open spec fn visit_interior(g: GridModel, w: WorkItem, d: Draws) -> Visit {
    let (r, c) = (w.at_row(), w.at_col());
    Visit {
        grid: if w.mode == Mode::Filling { put(g, r, c, Cell::InteriorFilled) } else { g },
        next: Seq::new(4, |i: int| onward(r, c, d.order@[i], w.mode)),
        fault: false,
    }
}

/// Visit of a wall. Reached from unswept room floor it becomes a door when
/// the draw says so and the door fits, and the fill goes on, filling, to all
/// four neighbours. Reached from a corridor it becomes a door and the fill
/// stops. Otherwise nothing happens.
pub open spec fn visit_wall(g: GridModel, w: WorkItem, d: Draws) -> Visit {
    let (r, c) = (w.at_row(), w.at_col());
    let came_from = cell_at(g, w.from.row as int, w.from.col as int);
    if came_from == Some(Cell::Interior) {
        if d.door && door_fits(g, r, c) {
            Visit {
                grid: put(g, r, c, Cell::Door),
                next: Seq::new(4, |i: int| onward(r, c, compass()[i], Mode::Filling)),
                fault: false,
            }
        } else {
            idle(g)
        }
    } else if came_from == Some(Cell::Corridor) {
        Visit { grid: put(g, r, c, Cell::Door), next: Seq::empty(), fault: false }
    } else {
        idle(g)
    }
}

/// Visit of open space while filling: it becomes corridor, and the cell one
/// further step ahead decides how the corridor goes on.
pub open spec fn visit_empty(g: GridModel, w: WorkItem, d: Draws) -> Visit {
    let (r, c) = (w.at_row(), w.at_col());
    let dug = put(g, r, c, Cell::Corridor);
    let straight = seq![onward(r, c, w.dir, Mode::Filling)];
    let turned = seq![onward(r, c, turn_dir(r, c, w.dir, d.side), Mode::Filling)];
    match cell_at(dug, r + w.dir.d_row(), c + w.dir.d_col()) {
        None => Visit { grid: dug, next: turned, fault: false },
        Some(Cell::Empty) | Some(Cell::Corridor) => Visit {
            grid: dug,
            next: if d.turn { turned } else { straight },
            fault: false,
        },
        Some(Cell::Wall) => Visit { grid: dug, next: straight, fault: false },
        Some(Cell::Door) => Visit { grid: dug, next: Seq::empty(), fault: false },
        Some(Cell::Interior) | Some(Cell::InteriorFilled) => Visit {
            grid: dug,
            next: Seq::empty(),
            fault: true,
        },
    }
}

/// What the visit `w` does to `g` under the draws `d`.
pub open spec fn visit_spec(g: GridModel, w: WorkItem, d: Draws) -> Visit {
    match cell_at(g, w.at_row(), w.at_col()) {
        None => idle(g),
        Some(Cell::Interior) => visit_interior(g, w, d),
        Some(Cell::Wall) => visit_wall(g, w, d),
        Some(Cell::Empty) => if w.mode == Mode::Filling {
            visit_empty(g, w, d)
        } else {
            idle(g)
        },
        Some(Cell::InteriorFilled) | Some(Cell::Door) | Some(Cell::Corridor) => idle(g),
    }
}

/// Whether any cell of `g` is unswept room floor.
pub open spec fn has_interior(g: GridModel) -> bool {
    exists|r: int, c: int| in_grid(r, c) && #[trigger] g[r][c] == Cell::Interior
}

/// The state of the carver.
pub struct CarveModel {
    pub grid: GridModel,
    /// Pending visits; the last one is made next.
    pub stack: Seq<WorkItem>,
    /// Set once a corridor was about to run into room floor; final.
    pub fault: bool,
}

/// The carver before its first step.
pub open spec fn carve_init(g: GridModel) -> CarveModel {
    CarveModel { grid: g, stack: Seq::empty(), fault: false }
}

/// One step of the carver under the draws `d`.
pub open spec fn step(s: CarveModel, d: Draws) -> CarveModel {
    if s.fault {
        s
    } else if s.stack.len() == 0 {
        if has_interior(s.grid) {
            CarveModel { stack: seq![seed_item(d.start)], ..s }
        } else {
            s
        }
    } else {
        let v = visit_spec(s.grid, s.stack.last(), d);
        CarveModel {
            grid: v.grid,
            stack: s.stack.drop_last() + v.next.reverse(),
            fault: v.fault,
        }
    }
}

/// The carver after one step for each element of `ds`, in order.
pub open spec fn run(s: CarveModel, ds: Seq<Draws>) -> CarveModel
    decreases ds.len(),
{
    if ds.len() == 0 {
        s
    } else {
        step(run(s, ds.drop_last()), ds.last())
    }
}

/// The cell at `(row, col)`, or `None` off the grid.
pub(crate) fn look(grid: &Grid, row: i64, col: i64) -> (v: Option<Cell>)
    ensures
        v == cell_at(grid@, row as int, col as int),
{
    if 0 <= row && row < ROWS as i64 && 0 <= col && col < COLS as i64 {
        Some(grid.get(row as usize, col as usize))
    } else {
        None
    }
}

/// Whether a 4-neighbour of `(row, col)` is a `kind` cell.
fn touches_kind(grid: &Grid, row: i64, col: i64, kind: Cell) -> (b: bool)
    requires
        in_grid(row as int, col as int),
    ensures
        b == touches(grid@, row as int, col as int, kind),
{
    look(grid, row + 1, col) == Some(kind)
        || look(grid, row - 1, col) == Some(kind)
        || look(grid, row, col + 1) == Some(kind)
        || look(grid, row, col - 1) == Some(kind)
}

/// The perpendicular direction a corridor turns to.
fn turn_toward(row: i64, col: i64, dir: Dir, side: bool) -> (t: Dir)
    requires
        in_grid(row as int, col as int),
    ensures
        t == turn_dir(row as int, col as int, dir, side),
{
    if dir.row_step() == 0 {
        if side {
            if row + 1 < ROWS as i64 { Dir::Down } else { Dir::Up }
        } else {
            if row - 1 >= 0 { Dir::Up } else { Dir::Down }
        }
    } else {
        if side {
            if col + 1 < COLS as i64 { Dir::Right } else { Dir::Left }
        } else {
            if col - 1 >= 0 { Dir::Left } else { Dir::Right }
        }
    }
}

/// The visit that continues from the grid cell `(row, col)`.
fn onward_from(row: i64, col: i64, dir: Dir, mode: Mode) -> (w: WorkItem)
    requires
        in_grid(row as int, col as int),
    ensures
        w == onward(row as int, col as int, dir, mode),
{
    WorkItem { from: Pos { row: row as i32, col: col as i32 }, dir, mode }
}

/// Pushes four visits so that `a` is made first and `d` last.
fn push_four(stack: &mut Vec<WorkItem>, a: WorkItem, b: WorkItem, c: WorkItem, d: WorkItem)
    ensures
        final(stack)@ == old(stack)@ + seq![a, b, c, d].reverse(),
{
    stack.push(d);
    stack.push(c);
    stack.push(b);
    stack.push(a);
    assert(stack@ =~= old(stack)@ + seq![a, b, c, d].reverse());
}

/// Pushes one visit.
fn push_one(stack: &mut Vec<WorkItem>, a: WorkItem)
    ensures
        final(stack)@ == old(stack)@ + seq![a].reverse(),
{
    stack.push(a);
    assert(stack@ =~= old(stack)@ + seq![a].reverse());
}

/// Makes the visit `w` under the draws `d`: updates the grid, pushes the
/// visits it asks for so that the first of them is on top, and reports
/// whether a corridor was about to run into room floor.
pub fn visit(grid: &mut Grid, stack: &mut Vec<WorkItem>, w: WorkItem, d: &Draws) -> (fault: bool)
    ensures
        final(grid)@ == visit_spec(old(grid)@, w, *d).grid,
        final(stack)@ == old(stack)@ + visit_spec(old(grid)@, w, *d).next.reverse(),
        fault == visit_spec(old(grid)@, w, *d).fault,
{
    let r: i64 = w.from.row as i64 + w.dir.row_step() as i64;
    let c: i64 = w.from.col as i64 + w.dir.col_step() as i64;
    let ghost v = visit_spec(grid@, w, *d);
    proof {
        grid.lemma_shaped();
        assert(Seq::<WorkItem>::empty().reverse() =~= Seq::<WorkItem>::empty());
        assert(stack@ + Seq::<WorkItem>::empty() =~= stack@);
    }
    match look(grid, r, c) {
        Some(Cell::Interior) => {
            if w.mode == Mode::Filling {
                grid.set(r as usize, c as usize, Cell::InteriorFilled);
            }
            let a = onward_from(r, c, d.order[0], w.mode);
            let b = onward_from(r, c, d.order[1], w.mode);
            let e = onward_from(r, c, d.order[2], w.mode);
            let f = onward_from(r, c, d.order[3], w.mode);
            push_four(stack, a, b, e, f);
            assert(v.next =~= seq![a, b, e, f]);
            false
        },
        Some(Cell::Wall) => {
            let came_from = look(grid, w.from.row as i64, w.from.col as i64);
            if came_from == Some(Cell::Interior) {
                if d.door
                    && touches_kind(grid, r, c, Cell::Empty)
                    && touches_kind(grid, r, c, Cell::Interior)
                {
                    grid.set(r as usize, c as usize, Cell::Door);
                    let a = onward_from(r, c, Dir::Down, Mode::Filling);
                    let b = onward_from(r, c, Dir::Up, Mode::Filling);
                    let e = onward_from(r, c, Dir::Right, Mode::Filling);
                    let f = onward_from(r, c, Dir::Left, Mode::Filling);
                    push_four(stack, a, b, e, f);
                    assert(v.next =~= seq![a, b, e, f]);
                }
            } else if came_from == Some(Cell::Corridor) {
                grid.set(r as usize, c as usize, Cell::Door);
            }
            false
        },
        Some(Cell::Empty) => {
            if w.mode == Mode::Filling {
                grid.set(r as usize, c as usize, Cell::Corridor);
                let ahead = look(grid, r + w.dir.row_step() as i64, c + w.dir.col_step() as i64);
                match ahead {
                    None => {
                        let t = turn_toward(r, c, w.dir, d.side);
                        push_one(stack, onward_from(r, c, t, Mode::Filling));
                        false
                    },
                    Some(Cell::Empty) | Some(Cell::Corridor) => {
                        if d.turn {
                            let t = turn_toward(r, c, w.dir, d.side);
                            push_one(stack, onward_from(r, c, t, Mode::Filling));
                        } else {
                            push_one(stack, onward_from(r, c, w.dir, Mode::Filling));
                        }
                        false
                    },
                    Some(Cell::Wall) => {
                        push_one(stack, onward_from(r, c, w.dir, Mode::Filling));
                        false
                    },
                    Some(Cell::Door) => false,
                    Some(Cell::Interior) | Some(Cell::InteriorFilled) => true,
                }
            } else {
                false
            }
        },
        _ => false,
    }
}

} // verus!
