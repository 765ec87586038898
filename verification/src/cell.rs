//! The classification of a grid cell while a level is being generated.

use vstd::prelude::*;

verus! {

/// What a cell of the classification grid currently is.
#[derive(Clone, Copy, PartialEq, Eq, Structural, Debug)]
pub enum Cell {
    /// Untouched open space.
    Empty,
    /// Part of a room's footprint that borders open space.
    Wall,
    /// Enclosed room floor that the carver has not swept yet.
    Interior,
    /// Enclosed room floor that the carver has swept; never revisited.
    InteriorFilled,
    /// A wall cell opened into a passage.
    Door,
    /// Open space carved into a passage.
    Corridor,
}

/// Whether the flood fill is still looking for a way out of a room or is
/// already sweeping rooms and growing corridors.
#[derive(Clone, Copy, PartialEq, Eq, Structural, Debug)]
pub enum Mode {
    Searching,
    Filling,
}

impl Cell {
    /// Room floor, swept or not.
    pub open spec fn is_room(self) -> bool {
        self == Cell::Interior || self == Cell::InteriorFilled
    }

    /// Space outside the rooms that a corridor may run through.
    pub open spec fn is_open(self) -> bool {
        self == Cell::Empty || self == Cell::Corridor
    }

    /// The only changes a cell ever undergoes during carving: open space
    /// becomes corridor, a wall becomes a door, and room floor gets swept.
    pub open spec fn may_become(self, next: Cell) -> bool {
        ||| next == self
        ||| (self == Cell::Empty && next == Cell::Corridor)
        ||| (self == Cell::Wall && next == Cell::Door)
        ||| (self == Cell::Interior && next == Cell::InteriorFilled)
    }
}

} // verus!
