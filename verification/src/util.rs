//! Moving an actor by one step on the level.

use vstd::prelude::*;
use crate::grid::{in_grid, COLS, ROWS};
use crate::level::{LevelMap, LevelModel};
use crate::object::{Actor, Object};
use crate::pos::Pos;
use crate::tiles::MapTile;

verus! {

/// Whether an actor of `others` stands at `(row, col)` and does not let
/// `mover` pass.
pub open spec fn blocked_by(others: Seq<Actor>, mover: Actor, row: int, col: int) -> bool {
    exists|i: int|
        0 <= i < others.len() && stands_in_way(#[trigger] others[i], mover, row, col)
}

/// Whether `other` stands at `(row, col)` and does not let `mover` pass.
pub open spec fn stands_in_way(other: Actor, mover: Actor, row: int, col: int) -> bool {
    &&& other.pos_spec().row == row
    &&& other.pos_spec().col == col
    &&& !other.passable_spec(&mover)
}

/// Where `object` comes to stand when it moves by `offset`: the cell that
/// far from its position, provided the cell is on the grid, its tile lets
/// the actor pass and no other actor blocks it. `None` where the move is
/// not possible.
pub open spec fn landing(
    object: Actor,
    offset: Pos,
    map: LevelModel,
    before: Seq<Actor>,
    after: Seq<Actor>,
) -> Option<Pos> {
    let row = object.pos_spec().row + offset.row;
    let col = object.pos_spec().col + offset.col;
    if in_grid(row, col)
        && map[row][col].passable_spec(&object)
        && !blocked_by(before, object, row, col)
        && !blocked_by(after, object, row, col)
    {
        Some(Pos { row: row as i32, col: col as i32 })
    } else {
        None
    }
}

/// Whether some actor of `others` blocks `(row, col)` for `mover`.
fn any_in_way(others: &[Actor], mover: &Actor, row: i32, col: i32) -> (b: bool)
    ensures
        b == blocked_by(others@, *mover, row as int, col as int),
{
    let mut i: usize = 0;
    while i < others.len()
        invariant
            i <= others.len(),
            forall|k: int|
                0 <= k < i ==> !stands_in_way(#[trigger] others@[k], *mover, row as int, col as int),
        decreases others.len() - i,
    {
        let p = others[i].get_pos();
        if p.row == row && p.col == col && !others[i].passable(mover) {
            return true;
        }
        i += 1;
    }
    false
}

/// Tries to move `object` by `offset`. `before` and `after` are the other
/// actors of the level.
pub fn move_relative(
    object: &Actor,
    offset: &Pos,
    map: &LevelMap,
    before: &[Actor],
    after: &[Actor],
) -> (to: Option<Pos>)
    ensures
        to == landing(*object, *offset, map@, before@, after@),
{
    let from = object.get_pos();
    let row: i64 = from.row as i64 + offset.row as i64;
    let col: i64 = from.col as i64 + offset.col as i64;
    if 0 <= row && row < ROWS as i64 && 0 <= col && col < COLS as i64 {
        let r: i32 = row as i32;
        let c: i32 = col as i32;
        if map.tile(r as usize, c as usize).passable(object)
            && !any_in_way(before, object, r, c)
            && !any_in_way(after, object, r, c)
        {
            Some(Pos { row: r, col: c })
        } else {
            None
        }
    } else {
        None
    }
}

} // verus!
