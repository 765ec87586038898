//! The tiles of a finished level and what the rest of the game may ask of
//! them: how a tile is drawn and whether an actor may step on it.

use vstd::prelude::*;
use crate::disp::{color_white, color_yellow, white, yellow, Disp};
use crate::object::Actor;

verus! {

/// What every tile of the level answers.
pub trait MapTile {
    /// How the tile is drawn.
    spec fn disp_spec(&self) -> Disp;

    /// Whether `object` may step on the tile.
    spec fn passable_spec(&self, object: &Actor) -> bool;

    fn get_disp(&self) -> (d: Disp)
        ensures
            d == self.disp_spec(),
    ;

    fn passable(&self, object: &Actor) -> (b: bool)
        ensures
            b == self.passable_spec(object),
    ;
}

/// Untouched space outside rooms and corridors. Nothing walks there.
#[derive(Clone, Copy, PartialEq, Eq, Structural, Debug)]
pub struct EmptyTile {}

/// Room floor.
#[derive(Clone, Copy, PartialEq, Eq, Structural, Debug)]
pub struct Floor {}

/// A wall segment, drawn upright or lying.
#[derive(Clone, Copy, PartialEq, Eq, Structural, Debug)]
pub struct Wall {
    pub vert: bool,
}

/// A door in a wall that stands upright or lies, open or closed.
#[derive(Clone, Copy, PartialEq, Eq, Structural, Debug)]
pub struct Door {
    pub vert: bool,
    pub open: bool,
}

/// A carved passage.
#[derive(Clone, Copy, PartialEq, Eq, Structural, Debug)]
pub struct Corridor {}

impl MapTile for EmptyTile {
    open spec fn disp_spec(&self) -> Disp {
        Disp { ch: ' ', color: white() }
    }

    open spec fn passable_spec(&self, object: &Actor) -> bool {
        false
    }

    fn get_disp(&self) -> (d: Disp) {
        Disp::new(' ', color_white())
    }

    fn passable(&self, object: &Actor) -> (b: bool) {
        false
    }
}

impl MapTile for Floor {
    open spec fn disp_spec(&self) -> Disp {
        Disp { ch: '.', color: white() }
    }

    open spec fn passable_spec(&self, object: &Actor) -> bool {
        true
    }

    fn get_disp(&self) -> (d: Disp) {
        Disp::new('.', color_white())
    }

    fn passable(&self, object: &Actor) -> (b: bool) {
        true
    }
}

impl MapTile for Wall {
    open spec fn disp_spec(&self) -> Disp {
        Disp { ch: if self.vert { '|' } else { '-' }, color: white() }
    }

    open spec fn passable_spec(&self, object: &Actor) -> bool {
        false
    }

    fn get_disp(&self) -> (d: Disp) {
        Disp::new(if self.vert { '|' } else { '-' }, color_white())
    }

    fn passable(&self, object: &Actor) -> (b: bool) {
        false
    }
}

impl MapTile for Door {
    /// A closed door shows as `+`; an open one as a leaf swung across the
    /// wall it sits in.
    open spec fn disp_spec(&self) -> Disp {
        Disp {
            ch: if self.open { if self.vert { '-' } else { '|' } } else { '+' },
            color: yellow(),
        }
    }

    open spec fn passable_spec(&self, object: &Actor) -> bool {
        self.open
    }

    fn get_disp(&self) -> (d: Disp) {
        Disp::new(
            if self.open { if self.vert { '-' } else { '|' } } else { '+' },
            color_yellow(),
        )
    }

    fn passable(&self, object: &Actor) -> (b: bool) {
        self.open
    }
}

impl MapTile for Corridor {
    open spec fn disp_spec(&self) -> Disp {
        Disp { ch: '#', color: white() }
    }

    open spec fn passable_spec(&self, object: &Actor) -> bool {
        true
    }

    fn get_disp(&self) -> (d: Disp) {
        Disp::new('#', color_white())
    }

    fn passable(&self, object: &Actor) -> (b: bool) {
        true
    }
}

/// Any one tile of a level.
#[derive(Clone, Copy, PartialEq, Eq, Structural, Debug)]
pub enum Tile {
    Empty(EmptyTile),
    Floor(Floor),
    Wall(Wall),
    Door(Door),
    Corridor(Corridor),
}

impl MapTile for Tile {
    open spec fn disp_spec(&self) -> Disp {
        match *self {
            Tile::Empty(t) => t.disp_spec(),
            Tile::Floor(t) => t.disp_spec(),
            Tile::Wall(t) => t.disp_spec(),
            Tile::Door(t) => t.disp_spec(),
            Tile::Corridor(t) => t.disp_spec(),
        }
    }

    open spec fn passable_spec(&self, object: &Actor) -> bool {
        match *self {
            Tile::Empty(t) => t.passable_spec(object),
            Tile::Floor(t) => t.passable_spec(object),
            Tile::Wall(t) => t.passable_spec(object),
            Tile::Door(t) => t.passable_spec(object),
            Tile::Corridor(t) => t.passable_spec(object),
        }
    }

    fn get_disp(&self) -> (d: Disp) {
        match self {
            Tile::Empty(t) => t.get_disp(),
            Tile::Floor(t) => t.get_disp(),
            Tile::Wall(t) => t.get_disp(),
            Tile::Door(t) => t.get_disp(),
            Tile::Corridor(t) => t.get_disp(),
        }
    }

    fn passable(&self, object: &Actor) -> (b: bool) {
        match self {
            Tile::Empty(t) => t.passable(object),
            Tile::Floor(t) => t.passable(object),
            Tile::Wall(t) => t.passable(object),
            Tile::Door(t) => t.passable(object),
            Tile::Corridor(t) => t.passable(object),
        }
    }
}

} // verus!
