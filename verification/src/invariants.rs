//! What carving never breaks: cells only move forward, room floor stays
//! sealed off from open space, every door stays justified, and no room is
//! left half swept. Each fact is proved for one visit and lifted to whole
//! runs of the carver. A run is also shown to depend on nothing but the grid
//! it starts from and the draws it is fed.

use vstd::prelude::*;
use crate::cell::{Cell, Mode};
use crate::visit::{
    all_valid, has_interior, run, step, touches, visit_spec, CarveModel, Draws, WorkItem,
};
use crate::dir::{compass, Dir};
use crate::grid::{cell_at, in_grid, put, shaped, GridModel, HEIGHT, WIDTH};

verus! {

/// Every cell of `b` is the cell of `a` at the same place or what that cell
/// may become.
pub open spec fn evolves(a: GridModel, b: GridModel) -> bool {
    &&& shaped(a)
    &&& shaped(b)
    &&& forall|r: int, c: int|
        #![trigger a[r][c]]
        #![trigger b[r][c]]
        in_grid(r, c) ==> a[r][c].may_become(b[r][c])
}

/// Whether two cells are the same or touch, diagonals included.
pub open spec fn near(row: int, col: int, row2: int, col2: int) -> bool {
    -1 <= row - row2 <= 1 && -1 <= col - col2 <= 1
}

/// No room floor, swept or not, has open untouched space among its eight
/// neighbours.
pub open spec fn sealed(g: GridModel) -> bool {
    forall|r: int, c: int, r2: int, c2: int|
        #![trigger g[r][c], g[r2][c2]]
        in_grid(r, c) && in_grid(r2, c2) && near(r, c, r2, c2) && g[r][c].is_room()
            ==> g[r2][c2] != Cell::Empty
}

/// A 4-neighbour is open space, carved or not.
pub open spec fn touches_open(g: GridModel, row: int, col: int) -> bool {
    touches(g, row, col, Cell::Empty) || touches(g, row, col, Cell::Corridor)
}

/// A 4-neighbour is room floor, swept or not.
pub open spec fn touches_room(g: GridModel, row: int, col: int) -> bool {
    touches(g, row, col, Cell::Interior) || touches(g, row, col, Cell::InteriorFilled)
}

/// A door is justified when it links room floor to open space, or when a
/// corridor runs up to it: a door made where a corridor met a wall keeps that
/// corridor as a neighbour.
pub open spec fn door_justified(g: GridModel, row: int, col: int) -> bool {
    ||| (touches_open(g, row, col) && touches_room(g, row, col))
    ||| touches(g, row, col, Cell::Corridor)
}

/// Every door of `g` is justified.
pub open spec fn doors_sound(g: GridModel) -> bool {
    forall|r: int, c: int|
        in_grid(r, c) && #[trigger] g[r][c] == Cell::Door ==> door_justified(g, r, c)
}

/// A grid evolves into itself.
pub proof fn lemma_evolves_refl(g: GridModel)
    requires
        shaped(g),
    ensures
        evolves(g, g),
{
}

/// Evolution composes.
pub proof fn lemma_evolves_trans(a: GridModel, b: GridModel, c: GridModel)
    requires
        evolves(a, b),
        evolves(b, c),
    ensures
        evolves(a, c),
{
    assert forall|r: int, k: int| in_grid(r, k) implies a[r][k].may_become(c[r][k]) by {
        assert(a[r][k].may_become(b[r][k]));
        assert(b[r][k].may_become(c[r][k]));
    }
}

/// Replacing one cell by what it may become is an evolution.
pub proof fn lemma_put_evolves(g: GridModel, row: int, col: int, v: Cell)
    requires
        shaped(g),
        in_grid(row, col),
        g[row][col].may_become(v),
    ensures
        evolves(g, put(g, row, col, v)),
{
    let h = put(g, row, col, v);
    assert forall|r: int| 0 <= r < HEIGHT implies (#[trigger] h[r]).len() == WIDTH by {
        assert(g[r].len() == WIDTH);
    }
}

/// A visit only moves cells forward.
pub proof fn lemma_visit_evolves(g: GridModel, w: WorkItem, d: Draws)
    requires
        shaped(g),
    ensures
        evolves(g, visit_spec(g, w, d).grid),
{
    let (r, c) = (w.at_row(), w.at_col());
    lemma_evolves_refl(g);
    if in_grid(r, c) {
        match g[r][c] {
            Cell::Interior => lemma_put_evolves(g, r, c, Cell::InteriorFilled),
            Cell::Wall => lemma_put_evolves(g, r, c, Cell::Door),
            Cell::Empty => lemma_put_evolves(g, r, c, Cell::Corridor),
            _ => {},
        }
    }
}

/// Evolution cannot unseal a grid: it makes no open space and no room floor.
pub proof fn lemma_evolves_keeps_sealed(a: GridModel, b: GridModel)
    requires
        evolves(a, b),
        sealed(a),
    ensures
        sealed(b),
{
    assert forall|r: int, c: int, r2: int, c2: int|
        in_grid(r, c) && in_grid(r2, c2) && near(r, c, r2, c2) && b[r][c].is_room()
        implies b[r2][c2] != Cell::Empty by {
        assert(a[r][c].may_become(b[r][c]));
        assert(a[r2][c2].may_become(b[r2][c2]));
        assert(a[r][c].is_room());
    }
}

/// A neighbour that was `kind` is afterwards what `kind` may become.
proof fn lemma_touch_evolves(a: GridModel, b: GridModel, row: int, col: int, kind: Cell)
    requires
        evolves(a, b),
        touches(a, row, col, kind),
    ensures
        exists|next: Cell| kind.may_become(next) && #[trigger] touches(b, row, col, next),
{
    if cell_at(a, row + 1, col) == Some(kind) {
        assert(a[row + 1][col].may_become(b[row + 1][col]));
        assert(touches(b, row, col, b[row + 1][col]));
    } else if cell_at(a, row - 1, col) == Some(kind) {
        assert(a[row - 1][col].may_become(b[row - 1][col]));
        assert(touches(b, row, col, b[row - 1][col]));
    } else if cell_at(a, row, col + 1) == Some(kind) {
        assert(a[row][col + 1].may_become(b[row][col + 1]));
        assert(touches(b, row, col, b[row][col + 1]));
    } else {
        assert(a[row][col - 1].may_become(b[row][col - 1]));
        assert(touches(b, row, col, b[row][col - 1]));
    }
}

/// A justified door stays justified while the grid evolves.
pub proof fn lemma_evolves_keeps_justified(a: GridModel, b: GridModel, row: int, col: int)
    requires
        evolves(a, b),
        door_justified(a, row, col),
    ensures
        door_justified(b, row, col),
{
    if touches(a, row, col, Cell::Corridor) {
        lemma_touch_evolves(a, b, row, col, Cell::Corridor);
    } else {
        if touches(a, row, col, Cell::Empty) {
            lemma_touch_evolves(a, b, row, col, Cell::Empty);
        }
        if touches(a, row, col, Cell::Interior) {
            lemma_touch_evolves(a, b, row, col, Cell::Interior);
        }
        if touches(a, row, col, Cell::InteriorFilled) {
            lemma_touch_evolves(a, b, row, col, Cell::InteriorFilled);
        }
    }
}

/// Every door that a visit makes or finds is justified afterwards.
pub proof fn lemma_visit_keeps_doors(g: GridModel, w: WorkItem, d: Draws)
    requires
        shaped(g),
        doors_sound(g),
    ensures
        doors_sound(visit_spec(g, w, d).grid),
{
    let h = visit_spec(g, w, d).grid;
    let (r0, c0) = (w.at_row(), w.at_col());
    lemma_visit_evolves(g, w, d);
    assert forall|r: int, c: int|
        in_grid(r, c) && #[trigger] h[r][c] == Cell::Door implies door_justified(h, r, c) by {
        assert(g[r][c].may_become(h[r][c]));
        if g[r][c] == Cell::Door {
            lemma_evolves_keeps_justified(g, h, r, c);
        } else {
            // The door was made by this visit, from the wall at (r0, c0).
            assert(g[r][c] == Cell::Wall);
            assert(r == r0 && c == c0);
            let came_from = cell_at(g, w.from.row as int, w.from.col as int);
            if came_from == Some(Cell::Interior) {
                assert(touches(g, r, c, Cell::Empty));
                assert(touches(g, r, c, Cell::Interior));
                assert(touches(h, r, c, Cell::Empty));
                assert(touches(h, r, c, Cell::Interior));
            } else {
                assert(came_from == Some(Cell::Corridor));
                assert(w.dir != Dir::Here);
                assert(touches(h, r, c, Cell::Corridor));
            }
        }
    }
}

/// On a sealed grid no corridor is ever about to run into room floor.
pub proof fn lemma_visit_no_fault(g: GridModel, w: WorkItem, d: Draws)
    requires
        shaped(g),
        sealed(g),
    ensures
        !visit_spec(g, w, d).fault,
{
    let (r, c) = (w.at_row(), w.at_col());
    if visit_spec(g, w, d).fault {
        let (r2, c2) = (r + w.dir.d_row(), c + w.dir.d_col());
        let dug = put(g, r, c, Cell::Corridor);
        assert(in_grid(r2, c2));
        assert(dug[r2][c2].is_room());
        assert(g[r2][c2].is_room());
        assert(near(r2, c2, r, c));
        assert(g[r][c] == Cell::Empty);
        assert(false);
    }
}


/// One step of the carver keeps what single visits keep. On a sealed grid
/// it raises no fault.
pub proof fn lemma_step_keeps(s: CarveModel, d: Draws)
    requires
        shaped(s.grid),
    ensures
        evolves(s.grid, step(s, d).grid),
        doors_sound(s.grid) ==> doors_sound(step(s, d).grid),
        sealed(s.grid) ==> sealed(step(s, d).grid) && step(s, d).fault == s.fault,
{
    lemma_evolves_refl(s.grid);
    if !s.fault && s.stack.len() > 0 {
        let w = s.stack.last();
        lemma_visit_evolves(s.grid, w, d);
        if doors_sound(s.grid) {
            lemma_visit_keeps_doors(s.grid, w, d);
        }
        if sealed(s.grid) {
            lemma_visit_no_fault(s.grid, w, d);
            lemma_evolves_keeps_sealed(s.grid, step(s, d).grid);
        }
    }
}

/// A whole run of the carver only moves cells forward, keeps every door
/// justified, keeps a sealed grid sealed, and on a sealed grid raises no
/// fault.
pub proof fn lemma_run_keeps(s: CarveModel, ds: Seq<Draws>)
    requires
        shaped(s.grid),
    ensures
        evolves(s.grid, run(s, ds).grid),
        doors_sound(s.grid) ==> doors_sound(run(s, ds).grid),
        sealed(s.grid) ==> sealed(run(s, ds).grid) && run(s, ds).fault == s.fault,
    decreases ds.len(),
{
    if ds.len() == 0 {
        lemma_evolves_refl(s.grid);
    } else {
        let mid = run(s, ds.drop_last());
        lemma_run_keeps(s, ds.drop_last());
        lemma_step_keeps(mid, ds.last());
        lemma_evolves_trans(s.grid, mid.grid, run(s, ds).grid);
    }
}

/// Running on `ds` and then taking one more step is running on `ds` with
/// that step's draws appended.
pub proof fn lemma_run_push(s: CarveModel, ds: Seq<Draws>, d: Draws)
    ensures
        run(s, ds.push(d)) == step(run(s, ds), d),
{
    assert(ds.push(d).drop_last() =~= ds);
}

/// Running on `a` and then on `b` is running on `a + b`.
pub proof fn lemma_run_concat(s: CarveModel, a: Seq<Draws>, b: Seq<Draws>)
    ensures
        run(s, a + b) == run(run(s, a), b),
    decreases b.len(),
{
    if b.len() == 0 {
        assert(a + b =~= a);
    } else {
        lemma_run_concat(s, a, b.drop_last());
        assert((a + b).drop_last() =~= a + b.drop_last());
    }
}

/// Once no unswept room floor is left and nothing is pending, the carver
/// stays where it is.
pub proof fn lemma_run_at_rest(s: CarveModel, ds: Seq<Draws>)
    requires
        s.fault || (s.stack.len() == 0 && !has_interior(s.grid)),
    ensures
        run(s, ds) == s,
    decreases ds.len(),
{
    if ds.len() > 0 {
        lemma_run_at_rest(s, ds.drop_last());
    }
}

/// Whether two draws agree in everything the carver reads of them.
pub open spec fn same_draws(a: Draws, b: Draws) -> bool {
    &&& a.start == b.start
    &&& a.order@ == b.order@
    &&& a.door == b.door
    &&& a.turn == b.turn
    &&& a.side == b.side
}

/// Whether two sequences of draws agree element by element.
pub open spec fn same_script(a: Seq<Draws>, b: Seq<Draws>) -> bool {
    &&& a.len() == b.len()
    &&& forall|i: int| 0 <= i < a.len() ==> same_draws(#[trigger] a[i], b[i])
}

/// A step depends on the draws only through what `same_draws` compares.
pub proof fn lemma_step_same(s: CarveModel, a: Draws, b: Draws)
    requires
        same_draws(a, b),
    ensures
        step(s, a) == step(s, b),
{
    if !s.fault && s.stack.len() > 0 {
        let w = s.stack.last();
        let va = visit_spec(s.grid, w, a);
        let vb = visit_spec(s.grid, w, b);
        assert(va.next =~= vb.next);
    }
}

/// Carving is determined by the grid it starts from and the draws it is
/// fed: two runs from the same state on draws that agree end in the same
/// state, grid and all.
pub proof fn lemma_run_same(s: CarveModel, a: Seq<Draws>, b: Seq<Draws>)
    requires
        same_script(a, b),
    ensures
        run(s, a) == run(s, b),
    decreases a.len(),
{
    if a.len() > 0 {
        lemma_run_same(s, a.drop_last(), b.drop_last());
        lemma_step_same(run(s, a.drop_last()), a.last(), b.last());
    }
}

/// Whether two cells share an edge.
pub open spec fn beside(row: int, col: int, row2: int, col2: int) -> bool {
    ||| (row == row2 && (col - col2 == 1 || col2 - col == 1))
    ||| (col == col2 && (row - row2 == 1 || row2 - row == 1))
}

/// Whether a filling visit of `(row, col)` is pending.
pub open spec fn fill_pending(stack: Seq<WorkItem>, row: int, col: int) -> bool {
    exists|i: int|
        0 <= i < stack.len() && aims_to_fill(#[trigger] stack[i], row, col)
}

/// Whether `w` is a filling visit of `(row, col)`.
pub open spec fn aims_to_fill(w: WorkItem, row: int, col: int) -> bool {
    w.mode == Mode::Filling && w.at_row() == row && w.at_col() == col
}

/// Wherever swept floor borders unswept floor, a filling visit of the
/// unswept cell is pending: the sweep has not forgotten any part of a room.
pub open spec fn sweep_ongoing(s: CarveModel) -> bool {
    forall|r: int, c: int, r2: int, c2: int|
        #![trigger s.grid[r][c], s.grid[r2][c2]]
        half_swept(s.grid, r, c, r2, c2) ==> fill_pending(s.stack, r2, c2)
}

/// Whether `(row, col)` is swept floor and `(row2, col2)`, which shares an
/// edge with it, is unswept floor.
pub open spec fn half_swept(g: GridModel, row: int, col: int, row2: int, col2: int) -> bool {
    &&& in_grid(row, col)
    &&& in_grid(row2, col2)
    &&& beside(row, col, row2, col2)
    &&& g[row][col] == Cell::InteriorFilled
    &&& g[row2][col2] == Cell::Interior
}

/// No swept floor borders unswept floor: every room is swept whole or not
/// at all.
pub open spec fn rooms_whole(g: GridModel) -> bool {
    forall|r: int, c: int, r2: int, c2: int|
        #![trigger g[r][c], g[r2][c2]]
        !half_swept(g, r, c, r2, c2)
}

/// A valid order names every one of the four directions.
pub proof fn lemma_order_covers(d: Draws, dir: Dir)
    requires
        d.valid(),
        dir != Dir::Here,
    ensures
        exists|j: int| 0 <= j < 4 && d.order@[j] == dir,
{
    let all = compass();
    all.to_multiset_ensures();
    d.order@.to_multiset_ensures();
    assert(all[0] == Dir::Down);
    assert(all[1] == Dir::Up);
    assert(all[2] == Dir::Right);
    assert(all[3] == Dir::Left);
    assert(all.contains(dir));
    assert(d.order@.to_multiset().count(dir) > 0);
    assert(d.order@.contains(dir));
    let j = choose|j: int| 0 <= j < d.order@.len() && d.order@[j] == dir;
    assert(0 <= j < 4 && d.order@[j] == dir);
}

/// With whole rooms and any stack, the sweep is in order.
pub proof fn lemma_whole_is_ongoing(g: GridModel, stack: Seq<WorkItem>)
    requires
        rooms_whole(g),
    ensures
        sweep_ongoing(CarveModel { grid: g, stack, fault: false }),
{
}

/// With nothing pending, a sweep in order has left every room whole.
pub proof fn lemma_rest_is_whole(s: CarveModel)
    requires
        sweep_ongoing(s),
        s.stack.len() == 0,
    ensures
        rooms_whole(s.grid),
{
    assert forall|r: int, c: int, r2: int, c2: int|
        #![trigger s.grid[r][c], s.grid[r2][c2]]
        !half_swept(s.grid, r, c, r2, c2) by {
        if half_swept(s.grid, r, c, r2, c2) {
            assert(fill_pending(s.stack, r2, c2));
        }
    }
}

/// A step keeps the sweep in order: floor that a filling visit sweeps hands
/// the fill on to all four neighbours, and no other visit sweeps floor.
pub proof fn lemma_step_keeps_sweep(s: CarveModel, d: Draws)
    requires
        shaped(s.grid),
        d.valid(),
        sweep_ongoing(s),
    ensures
        sweep_ongoing(step(s, d)),
{
    let t = step(s, d);
    if s.fault {
    } else if s.stack.len() == 0 {
        assert forall|r: int, c: int, r2: int, c2: int|
            #![trigger t.grid[r][c], t.grid[r2][c2]]
            half_swept(t.grid, r, c, r2, c2) implies fill_pending(t.stack, r2, c2) by {
            assert(fill_pending(s.stack, r2, c2));
        }
    } else {
        let w = s.stack.last();
        let v = visit_spec(s.grid, w, d);
        let (x, y) = (w.at_row(), w.at_col());
        let kept = s.stack.drop_last();
        lemma_visit_evolves(s.grid, w, d);
        assert forall|r: int, c: int, r2: int, c2: int|
            #![trigger t.grid[r][c], t.grid[r2][c2]]
            half_swept(t.grid, r, c, r2, c2) implies fill_pending(t.stack, r2, c2) by {
            assert(s.grid[r][c].may_become(t.grid[r][c]));
            assert(s.grid[r2][c2].may_become(t.grid[r2][c2]));
            assert(s.grid[r2][c2] == Cell::Interior);
            if s.grid[r][c] == Cell::InteriorFilled {
                // The pair was there before; its pending visit is not the one just made.
                assert(fill_pending(s.stack, r2, c2));
                let i = choose|i: int|
                    0 <= i < s.stack.len() && aims_to_fill(#[trigger] s.stack[i], r2, c2);
                if i == s.stack.len() - 1 {
                    assert(t.grid[r2][c2] == Cell::InteriorFilled);
                }
                assert(t.stack[i] == s.stack[i]);
                assert(aims_to_fill(t.stack[i], r2, c2));
            } else {
                // The visit swept (r, c) and handed the fill on to (r2, c2).
                assert(r == x && c == y);
                assert(w.mode == Mode::Filling);
                let dir = if r2 == r + 1 {
                    Dir::Down
                } else if r2 == r - 1 {
                    Dir::Up
                } else if c2 == c + 1 {
                    Dir::Right
                } else {
                    Dir::Left
                };
                lemma_order_covers(d, dir);
                let j = choose|j: int| 0 <= j < 4 && d.order@[j] == dir;
                let k = kept.len() + 3 - j;
                assert(v.next.len() == 4);
                assert(v.next.reverse()[3 - j] == v.next[j]);
                assert(t.stack[k] == v.next[j]);
                assert(aims_to_fill(t.stack[k], r2, c2));
            }
        }
    }
}

/// A run keeps the sweep in order.
pub proof fn lemma_run_keeps_sweep(s: CarveModel, ds: Seq<Draws>)
    requires
        shaped(s.grid),
        sweep_ongoing(s),
        all_valid(ds),
    ensures
        sweep_ongoing(run(s, ds)),
    decreases ds.len(),
{
    if ds.len() > 0 {
        lemma_run_keeps_sweep(s, ds.drop_last());
        lemma_run_keeps(s, ds.drop_last());
        lemma_step_keeps_sweep(run(s, ds.drop_last()), ds.last());
    }
}

/// Rooms are swept whole: when a run starts with no room half swept and
/// ends with nothing pending, no room is half swept at the end either.
pub proof fn lemma_run_sweeps_whole(g: GridModel, stack: Seq<WorkItem>, ds: Seq<Draws>)
    requires
        shaped(g),
        rooms_whole(g),
        all_valid(ds),
        run(CarveModel { grid: g, stack, fault: false }, ds).stack.len() == 0,
    ensures
        rooms_whole(run(CarveModel { grid: g, stack, fault: false }, ds).grid),
{
    let s = CarveModel { grid: g, stack, fault: false };
    lemma_whole_is_ongoing(g, stack);
    lemma_run_keeps_sweep(s, ds);
    lemma_rest_is_whole(run(s, ds));
}

} // verus!
