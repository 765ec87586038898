//! The whole pipeline: from room footprints to a finished level.

use vstd::prelude::*;
use crate::carve::{carve, carved, GenError};
use crate::cell::Cell;
use crate::grid::{blank, in_grid, Grid, GridModel};
use crate::interior::{detect_interiors, detected, detected_cell, lemma_no_rooms_sealed};
use crate::invariants::{doors_sound, evolves, lemma_run_same, same_script, sealed};
use crate::level::{materialize, tiles_of, LevelMap};
use crate::rooms::{rasterize, stamped, RoomRect};
use crate::visit::{carve_init, has_interior, run, Draws};

verus! {

/// The grid that carving starts from: the rooms stamped onto open space,
/// and their enclosed cells made interior.
pub open spec fn blueprint(rooms: Seq<RoomRect>) -> GridModel {
    detected(stamped(blank(), rooms))
}

/// Whether `g` is a complete carving of the rooms' blueprint: reachable from
/// it within `fuel` steps of the carver, with no unswept room floor left.
pub open spec fn finished(rooms: Seq<RoomRect>, fuel: u64, g: GridModel) -> bool {
    &&& carved(blueprint(rooms), fuel, g, Ok(()))
    &&& evolves(blueprint(rooms), g)
    &&& !has_interior(g)
    &&& sealed(g)
    &&& doors_sound(g)
}

/// A blueprint is sealed and holds no door.
pub proof fn lemma_blueprint_sound(rooms: Seq<RoomRect>)
    ensures
        sealed(blueprint(rooms)),
        doors_sound(blueprint(rooms)),
{
    let raw = stamped(blank(), rooms);
    let plan = blueprint(rooms);
    assert forall|r: int, c: int| in_grid(r, c) implies !(#[trigger] raw[r][c]).is_room() by {}
    lemma_no_rooms_sealed(raw);
    crate::interior::lemma_detected_sealed(raw);
    assert forall|r: int, c: int| in_grid(r, c) implies #[trigger] plan[r][c] != Cell::Door by {
        assert(plan[r][c] == detected_cell(raw, r, c));
    }
}

/// Generates one level. The rooms are stamped onto an empty grid, their
/// interiors are detected, doors and corridors are carved with draws from
/// `rng` in at most `fuel` steps, and the grid is turned into tiles.
///
/// The only failure is `StepLimit`: a blueprint is sealed, so no corridor
/// can run into room floor. Rooms without interior need no carving, and
/// then the level is made whatever the budget.
pub fn gen_rooms(
    rooms: &Vec<RoomRect>,
    rng: &mut rand::StdRng,
    fuel: u64,
) -> (out: Result<LevelMap, GenError>)
    ensures
        match out {
            Ok(map) => exists|g: GridModel|
                #[trigger] finished(rooms@, fuel, g) && map@ == tiles_of(g),
            Err(e) => e == GenError::StepLimit && exists|g: GridModel|
                #[trigger] carved(blueprint(rooms@), fuel, g, Err(GenError::StepLimit)),
        },
        !has_interior(blueprint(rooms@)) ==> (out matches Ok(map)
            && map@ == tiles_of(blueprint(rooms@))),
        has_interior(blueprint(rooms@)) && fuel == 0 ==> out is Err,
{
    let mut grid = Grid::new();
    rasterize(&mut grid, rooms);
    detect_interiors(&mut grid);
    proof {
        lemma_blueprint_sound(rooms@);
    }
    match carve(&mut grid, rng, fuel) {
        Ok(()) => {
            assert(finished(rooms@, fuel, grid@));
            Ok(materialize(&grid))
        },
        Err(e) => {
            assert(carved(blueprint(rooms@), fuel, grid@, Err(GenError::StepLimit)));
            Err(e)
        },
    }
}

/// The grid that generation from `rooms` reaches when the carver is fed
/// the draws `ds`.
pub open spec fn generated_grid(rooms: Seq<RoomRect>, ds: Seq<Draws>) -> GridModel {
    run(carve_init(blueprint(rooms)), ds).grid
}

/// Generation is repeatable: the same rooms and the same draws give the
/// same grid, cell for cell, and so the same level.
pub proof fn lemma_generation_repeatable(
    rooms_a: Seq<RoomRect>,
    rooms_b: Seq<RoomRect>,
    ds_a: Seq<Draws>,
    ds_b: Seq<Draws>,
)
    requires
        rooms_a =~= rooms_b,
        same_script(ds_a, ds_b),
    ensures
        generated_grid(rooms_a, ds_a) == generated_grid(rooms_b, ds_b),
        tiles_of(generated_grid(rooms_a, ds_a)) == tiles_of(generated_grid(rooms_b, ds_b)),
{
    lemma_run_same(carve_init(blueprint(rooms_a)), ds_a, ds_b);
}

} // verus!
