//! Running the carver: one flood fill from a given visit, and the driving
//! loop that starts fills at random cells until no unswept room floor is
//! left or the step budget is spent.

use vstd::prelude::*;
use crate::cell::{Cell, Mode};
use crate::dice::{flip, one_in, roll_in, shuffled};
use crate::dir::{compass, Dir};
use crate::grid::{in_grid, shaped, Grid, GridModel, COLS, HEIGHT, ROWS, WIDTH};
use crate::invariants::{
    doors_sound, evolves, lemma_run_at_rest, lemma_run_concat, lemma_run_keeps, lemma_run_push,
    lemma_run_sweeps_whole, rooms_whole, sealed,
};
use crate::pos::Pos;
use crate::visit::{
    all_valid, carve_init, has_interior, look, run, seed_item, visit, CarveModel, Draws,
    WorkItem, DOOR_ODDS, TURN_ODDS,
};

verus! {

/// Why a level could not be generated.
#[derive(Clone, Copy, PartialEq, Eq, Structural, Debug)]
pub enum GenError {
    /// A corridor was about to run into room floor without passing a door:
    /// the grid handed to the carver was not sealed.
    InteriorBreached,
    /// The step budget was spent before carving was complete.
    StepLimit,
}

impl GenError {
    /// What went wrong, in words.
    pub open spec fn message_spec(self) -> Seq<char> {
        match self {
            GenError::InteriorBreached => "a corridor ran into room floor without a door"@,
            GenError::StepLimit => "the step budget ran out before carving was complete"@,
        }
    }

    /// What went wrong, in words, for whoever has to report it.
    pub fn message(&self) -> (text: &'static str)
        ensures
            text@ == self.message_spec(),
    {
        match self {
            GenError::InteriorBreached => "a corridor ran into room floor without a door",
            GenError::StepLimit => "the step budget ran out before carving was complete",
        }
    }
}

/// The carver with the single pending visit `first`.
pub open spec fn fill_init(g: GridModel, first: WorkItem) -> CarveModel {
    CarveModel { grid: g, stack: seq![first], fault: false }
}

/// How a flood fill that stopped in state `s` ended.
pub open spec fn fill_verdict(s: CarveModel) -> Result<(), GenError> {
    if s.fault {
        Err(GenError::InteriorBreached)
    } else if s.stack.len() == 0 {
        Ok(())
    } else {
        Err(GenError::StepLimit)
    }
}

/// How a carving that stopped in state `s` ended.
pub open spec fn carve_verdict(s: CarveModel) -> Result<(), GenError> {
    if s.fault {
        Err(GenError::InteriorBreached)
    } else if s.stack.len() == 0 && !has_interior(s.grid) {
        Ok(())
    } else {
        Err(GenError::StepLimit)
    }
}

/// Whether the draws `ds` account for a flood fill from `first` on `before`
/// that ends in `after` with `verdict` and `left` of `fuel` steps unused:
/// they are valid, there is one for each step taken, a visit was pending
/// before each step, and they take the carver to `after` and to `verdict`.
/// A fill is cut short only by a spent budget.
pub open spec fn fill_trace(
    before: GridModel,
    first: WorkItem,
    fuel: u64,
    after: GridModel,
    verdict: Result<(), GenError>,
    left: u64,
    ds: Seq<Draws>,
) -> bool {
    let start = fill_init(before, first);
    &&& all_valid(ds)
    &&& ds.len() + left == fuel
    &&& run(start, ds).grid == after
    &&& verdict == fill_verdict(run(start, ds))
    &&& (verdict matches Err(GenError::StepLimit)) ==> left == 0
    &&& forall|k: int| 0 <= k < ds.len() ==> (#[trigger] run(start, ds.take(k))).stack.len() > 0
}

/// A flood fill from `first` on `before` with `fuel` steps allowed may end
/// in `after` with `verdict` and `left` steps unused: some draws account
/// for it.
pub open spec fn filled(
    before: GridModel,
    first: WorkItem,
    fuel: u64,
    after: GridModel,
    verdict: Result<(), GenError>,
    left: u64,
) -> bool {
    exists|ds: Seq<Draws>| #[trigger] fill_trace(before, first, fuel, after, verdict, left, ds)
}

/// Whether the draws `ds` account for a carving of `before` that ends in
/// `after` with `verdict`: they are valid, at most `fuel` in number and
/// exactly `fuel` where the budget ran out, and they take the carver to
/// `after` and to `verdict`.
pub open spec fn carve_trace(
    before: GridModel,
    fuel: u64,
    after: GridModel,
    verdict: Result<(), GenError>,
    ds: Seq<Draws>,
) -> bool {
    &&& all_valid(ds)
    &&& ds.len() <= fuel
    &&& run(carve_init(before), ds).grid == after
    &&& verdict == carve_verdict(run(carve_init(before), ds))
    &&& (verdict matches Err(GenError::StepLimit)) ==> ds.len() == fuel
}

/// A carving of `before` with `fuel` steps allowed may end in `after` with
/// `verdict`: some draws account for it.
pub open spec fn carved(
    before: GridModel,
    fuel: u64,
    after: GridModel,
    verdict: Result<(), GenError>,
) -> bool {
    exists|ds: Seq<Draws>| #[trigger] carve_trace(before, fuel, after, verdict, ds)
}

/// Draws in which nothing was drawn: the first cell, the compass order, no
/// door, no turn.
fn still_draws() -> (d: Draws)
    ensures
        d.valid(),
        d.start == (Pos { row: 0, col: 0 }),
{
    let d = Draws {
        start: Pos { row: 0, col: 0 },
        order: [Dir::Down, Dir::Up, Dir::Right, Dir::Left],
        door: false,
        turn: false,
        side: false,
    };
    assert(d.order@ =~= compass());
    d
}

/// Draws what the visit `w` may consult, and nothing else.
fn draws_for(grid: &Grid, w: &WorkItem, rng: &mut rand::StdRng) -> (d: Draws)
    ensures
        d.valid(),
{
    let mut d = still_draws();
    let r: i64 = w.from.row as i64 + w.dir.row_step() as i64;
    let c: i64 = w.from.col as i64 + w.dir.col_step() as i64;
    match look(grid, r, c) {
        Some(Cell::Interior) => {
            d.order = shuffled(rng, d.order);
        },
        Some(Cell::Wall) => {
            if grid.probe(w.from) == Some(Cell::Interior) {
                d.door = one_in(rng, DOOR_ODDS);
            }
        },
        Some(Cell::Empty) => {
            if w.mode == Mode::Filling {
                match look(grid, r + w.dir.row_step() as i64, c + w.dir.col_step() as i64) {
                    None => {
                        d.side = flip(rng);
                    },
                    Some(Cell::Empty) | Some(Cell::Corridor) => {
                        d.turn = one_in(rng, TURN_ODDS);
                        if d.turn {
                            d.side = flip(rng);
                        }
                    },
                    _ => {},
                }
            }
        },
        _ => {},
    }
    d
}

/// Whether any cell is unswept room floor.
pub fn any_interior(grid: &Grid) -> (found: bool)
    ensures
        found == has_interior(grid@),
{
    let mut row: usize = 0;
    while row < HEIGHT
        invariant
            row <= HEIGHT,
            forall|r: int, c: int| 0 <= r < row && 0 <= c < WIDTH ==> grid@[r][c] != Cell::Interior,
        decreases HEIGHT - row,
    {
        let mut col: usize = 0;
        while col < WIDTH
            invariant
                row < HEIGHT,
                col <= WIDTH,
                forall|r: int, c: int|
                    0 <= r < row && 0 <= c < WIDTH ==> grid@[r][c] != Cell::Interior,
                forall|c: int| 0 <= c < col ==> grid@[row as int][c] != Cell::Interior,
            decreases WIDTH - col,
        {
            if grid.get(row, col) == Cell::Interior {
                assert(in_grid(row as int, col as int));
                return true;
            }
            col += 1;
        }
        row += 1;
    }
    false
}

/// Runs one flood fill: makes `first` and every visit it leads to, newest
/// first, drawing from `rng` what each visit may consult, until nothing is
/// pending, a fault is found or `fuel` visits were made. Returns how the
/// fill ended and how many visits of `fuel` were left.
pub fn flood_fill(
    grid: &mut Grid,
    first: WorkItem,
    rng: &mut rand::StdRng,
    fuel: u64,
) -> (out: (Result<(), GenError>, u64))
    ensures
        filled(old(grid)@, first, fuel, final(grid)@, out.0, out.1),
        evolves(old(grid)@, final(grid)@),
        doors_sound(old(grid)@) ==> doors_sound(final(grid)@),
        sealed(old(grid)@) ==> sealed(final(grid)@) && !(out.0 matches Err(
            GenError::InteriorBreached,
        )),
        rooms_whole(old(grid)@) && out.0 is Ok ==> rooms_whole(final(grid)@),
{
    let ghost s0 = fill_init(grid@, first);
    let ghost mut used: Seq<Draws> = Seq::empty();
    let mut stack: Vec<WorkItem> = Vec::new();
    stack.push(first);
    let mut left: u64 = fuel;
    proof {
        grid.lemma_shaped();
        assert(stack@ =~= seq![first]);
    }
    while stack.len() > 0 && left > 0
        invariant
            s0 == fill_init(old(grid)@, first),
            shaped(s0.grid),
            run(s0, used) == (CarveModel { grid: grid@, stack: stack@, fault: false }),
            all_valid(used),
            used.len() + left == fuel,
            forall|k: int| 0 <= k < used.len() ==> (#[trigger] run(s0, used.take(k))).stack.len() > 0,
        decreases left,
    {
        let w = stack.pop().unwrap();
        let d = draws_for(grid, &w, rng);
        let fault = visit(grid, &mut stack, w, &d);
        left = left - 1;
        proof {
            lemma_run_push(s0, used, d);
            let longer = used.push(d);
            assert forall|k: int| 0 <= k < longer.len() implies (#[trigger] run(
                s0,
                longer.take(k),
            )).stack.len() > 0 by {
                if k < used.len() {
                    assert(longer.take(k) =~= used.take(k));
                } else {
                    assert(longer.take(k) =~= used);
                }
            }
            used = longer;
        }
        if fault {
            let verdict = Err(GenError::InteriorBreached);
            proof {
                lemma_run_keeps(s0, used);
                assert(fill_trace(old(grid)@, first, fuel, grid@, verdict, left, used));
            }
            return (verdict, left);
        }
    }
    let verdict = if stack.len() == 0 { Ok(()) } else { Err(GenError::StepLimit) };
    proof {
        lemma_run_keeps(s0, used);
        if rooms_whole(old(grid)@) && stack.len() == 0 {
            lemma_run_sweeps_whole(old(grid)@, seq![first], used);
        }
        assert(fill_trace(old(grid)@, first, fuel, grid@, verdict, left, used));
    }
    (verdict, left)
}

/// Carves the grid: while unswept room floor remains, starts a flood fill
/// at a cell drawn uniformly from the grid. Seeding a fill and making a
/// visit each cost one step of `fuel`; carving fails with `StepLimit` when
/// the budget runs out first.
pub fn carve(grid: &mut Grid, rng: &mut rand::StdRng, fuel: u64) -> (verdict: Result<(), GenError>)
    ensures
        carved(old(grid)@, fuel, final(grid)@, verdict),
        evolves(old(grid)@, final(grid)@),
        verdict is Ok ==> !has_interior(final(grid)@),
        !has_interior(old(grid)@) ==> verdict is Ok && final(grid)@ == old(grid)@,
        has_interior(old(grid)@) && fuel == 0 ==> (verdict matches Err(GenError::StepLimit))
            && final(grid)@ == old(grid)@,
        doors_sound(old(grid)@) ==> doors_sound(final(grid)@),
        sealed(old(grid)@) ==> sealed(final(grid)@) && !(verdict matches Err(
            GenError::InteriorBreached,
        )),
{
    let ghost s0 = carve_init(grid@);
    let ghost mut used: Seq<Draws> = Seq::empty();
    let mut left: u64 = fuel;
    proof {
        grid.lemma_shaped();
    }
    loop
        invariant
            s0 == carve_init(old(grid)@),
            shaped(s0.grid),
            run(s0, used) == carve_init(grid@),
            all_valid(used),
            used.len() + left == fuel,
            used.len() == 0 ==> grid@ == old(grid)@,
            used.len() > 0 ==> has_interior(old(grid)@),
        decreases left,
    {
        proof {
            lemma_run_keeps(s0, used);
        }
        if !any_interior(grid) {
            assert(carve_trace(old(grid)@, fuel, grid@, Ok(()), used));
            return Ok(());
        }
        if left == 0 {
            assert(carve_trace(old(grid)@, fuel, grid@, Err(GenError::StepLimit), used));
            return Err(GenError::StepLimit);
        }
        let mut d = still_draws();
        d.start = Pos { row: roll_in(rng, 0, ROWS), col: roll_in(rng, 0, COLS) };
        left = left - 1;
        let ghost seeded = fill_init(grid@, seed_item(d.start));
        proof {
            lemma_run_push(s0, used, d);
            used = used.push(d);
            assert(run(s0, used) == seeded);
        }
        let ghost before_fill = grid@;
        let out = flood_fill(grid, WorkItem::start(d.start), rng, left);
        proof {
            let ds = choose|ds: Seq<Draws>|
                fill_trace(before_fill, seed_item(d.start), left, grid@, out.0, out.1, ds);
            lemma_run_concat(s0, used, ds);
            if out.0 is Ok {
                assert(run(seeded, ds).stack =~= Seq::empty());
            }
            used = used + ds;
            lemma_run_keeps(s0, used);
        }
        left = out.1;
        match out.0 {
            Ok(()) => {},
            Err(e) => {
                assert(carve_trace(old(grid)@, fuel, grid@, Err(e), used));
                return Err(e);
            },
        }
    }
}

/// Carves the grid from a script: the carver takes one step for each
/// element of `script`, in order, and reads from it what it would otherwise
/// draw. The outcome is a function of the grid and the script.
pub fn replay(grid: &mut Grid, script: &Vec<Draws>) -> (verdict: Result<(), GenError>)
    ensures
        final(grid)@ == run(carve_init(old(grid)@), script@).grid,
        verdict == carve_verdict(run(carve_init(old(grid)@), script@)),
        evolves(old(grid)@, final(grid)@),
        doors_sound(old(grid)@) ==> doors_sound(final(grid)@),
        sealed(old(grid)@) ==> sealed(final(grid)@) && !(verdict matches Err(
            GenError::InteriorBreached,
        )),
{
    let ghost s0 = carve_init(grid@);
    let mut stack: Vec<WorkItem> = Vec::new();
    let mut i: usize = 0;
    proof {
        grid.lemma_shaped();
    }
    while i < script.len()
        invariant
            i <= script.len(),
            s0 == carve_init(old(grid)@),
            shaped(s0.grid),
            run(s0, script@.take(i as int)) == (CarveModel {
                grid: grid@,
                stack: stack@,
                fault: false,
            }),
        decreases script.len() - i,
    {
        let d = &script[i];
        let mut fault = false;
        if stack.len() == 0 {
            if any_interior(grid) {
                stack.push(WorkItem::start(d.start));
                assert(stack@ =~= seq![seed_item(d.start)]);
            }
        } else {
            let w = stack.pop().unwrap();
            fault = visit(grid, &mut stack, w, d);
        }
        proof {
            assert(script@.take(i + 1) =~= script@.take(i as int).push(*d));
            lemma_run_push(s0, script@.take(i as int), *d);
            assert(run(s0, script@.take(i + 1)) == (CarveModel { grid: grid@, stack: stack@, fault }));
        }
        i += 1;
        if fault {
            proof {
                let rest = script@.skip(i as int);
                assert(script@ =~= script@.take(i as int) + rest);
                lemma_run_concat(s0, script@.take(i as int), rest);
                lemma_run_at_rest(run(s0, script@.take(i as int)), rest);
                lemma_run_keeps(s0, script@);
            }
            return Err(GenError::InteriorBreached);
        }
    }
    proof {
        assert(script@.take(i as int) =~= script@);
        lemma_run_keeps(s0, script@);
    }
    if stack.len() == 0 && !any_interior(grid) {
        Ok(())
    } else {
        Err(GenError::StepLimit)
    }
}

} // verus!
