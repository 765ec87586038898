//! The actors that move about a finished level.

use vstd::prelude::*;
use crate::dice::roll_in;
use crate::disp::{color_red, color_white, red, white, Disp};
use crate::level::{LevelMap, LevelModel};
use crate::pos::Pos;
use crate::util::{landing, move_relative};

verus! {

/// What every actor of the level answers and does.
pub trait Object {
    /// How the actor is drawn.
    spec fn disp_spec(&self) -> Disp;

    /// Whether `object` may step onto the cell this actor stands on.
    spec fn passable_spec(&self, object: &Actor) -> bool;

    /// Where the actor stands.
    spec fn pos_spec(&self) -> Pos;

    fn get_disp(&self) -> (d: Disp)
        ensures
            d == self.disp_spec(),
    ;

    fn passable(&self, object: &Actor) -> (b: bool)
        ensures
            b == self.passable_spec(object),
    ;

    fn get_pos(&self) -> (p: Pos)
        ensures
            p == self.pos_spec(),
    ;

    /// Takes the actor's turn. `key` is the key that was pressed, for actors
    /// that listen to the keyboard; `rng` serves those that move at random.
    /// `before` and `after` are the other actors of the level.
    fn turn(
        &mut self,
        key: char,
        rng: &mut rand::StdRng,
        map: &LevelMap,
        before: &[Actor],
        after: &[Actor],
    )
    ;
}

/// The player's character.
#[derive(Clone, Copy, PartialEq, Eq, Structural, Debug)]
pub struct Player {
    pub pos: Pos,
}

/// A creature that wanders at random.
#[derive(Clone, Copy, PartialEq, Eq, Structural, Debug)]
pub struct RandomWalker {
    pub pos: Pos,
}

/// Any one actor of a level.
#[derive(Clone, Copy, PartialEq, Eq, Structural, Debug)]
pub enum Actor {
    Player(Player),
    Walker(RandomWalker),
}

/// The step that a movement key asks for: `h`, `j`, `k`, `l` for left, down,
/// up, right and `y`, `u`, `b`, `n` for the diagonals. Other keys ask for
/// none.
pub open spec fn key_offset(key: char) -> Option<Pos> {
    if key == 'h' {
        Some(Pos { row: 0, col: -1i32 })
    } else if key == 'j' {
        Some(Pos { row: 1, col: 0 })
    } else if key == 'k' {
        Some(Pos { row: -1i32, col: 0 })
    } else if key == 'l' {
        Some(Pos { row: 0, col: 1 })
    } else if key == 'y' {
        Some(Pos { row: -1i32, col: -1i32 })
    } else if key == 'u' {
        Some(Pos { row: -1i32, col: 1 })
    } else if key == 'b' {
        Some(Pos { row: 1, col: -1i32 })
    } else if key == 'n' {
        Some(Pos { row: 1, col: 1 })
    } else {
        None
    }
}

/// Where an actor at `from` stands after trying to move by `offset`: where
/// the move lands, or `from` where the move is not possible.
pub open spec fn after_step(
    mover: Actor,
    offset: Pos,
    map: LevelModel,
    before: Seq<Actor>,
    after: Seq<Actor>,
) -> Pos {
    match landing(mover, offset, map, before, after) {
        Some(to) => to,
        None => mover.pos_spec(),
    }
}

/// The step that `key` asks for.
pub fn offset_for(key: char) -> (offset: Option<Pos>)
    ensures
        offset == key_offset(key),
{
    if key == 'h' {
        Some(crate::pos::left())
    } else if key == 'j' {
        Some(crate::pos::down())
    } else if key == 'k' {
        Some(crate::pos::up())
    } else if key == 'l' {
        Some(crate::pos::right())
    } else if key == 'y' {
        Some(crate::pos::up_left())
    } else if key == 'u' {
        Some(crate::pos::up_right())
    } else if key == 'b' {
        Some(crate::pos::down_left())
    } else if key == 'n' {
        Some(crate::pos::down_right())
    } else {
        None
    }
}

impl Object for Player {
    open spec fn disp_spec(&self) -> Disp {
        Disp { ch: '@', color: white() }
    }

    open spec fn passable_spec(&self, object: &Actor) -> bool {
        false
    }

    open spec fn pos_spec(&self) -> Pos {
        self.pos
    }

    fn get_disp(&self) -> (d: Disp) {
        Disp { ch: '@', color: color_white() }
    }

    fn passable(&self, object: &Actor) -> (b: bool) {
        false
    }

    fn get_pos(&self) -> (p: Pos) {
        self.pos
    }

    /// Moves by the step that `key` asks for, if it asks for one and the
    /// move is possible; otherwise stays.
    fn turn(
        &mut self,
        key: char,
        rng: &mut rand::StdRng,
        map: &LevelMap,
        before: &[Actor],
        after: &[Actor],
    )
        ensures
            final(self).pos == match key_offset(key) {
                Some(offset) => after_step(Actor::Player(*old(self)), offset, map@, before@, after@),
                None => old(self).pos,
            },
    {
        match offset_for(key) {
            Some(offset) => {
                let me = Actor::Player(*self);
                match move_relative(&me, &offset, map, before, after) {
                    Some(to) => {
                        self.pos = to;
                    },
                    None => {},
                }
            },
            None => {},
        }
    }
}

impl RandomWalker {
    /// Moves by `offset` if that is possible; otherwise stays.
    pub fn step_by(&mut self, offset: Pos, map: &LevelMap, before: &[Actor], after: &[Actor])
        ensures
            final(self).pos == after_step(
                Actor::Walker(*old(self)),
                offset,
                map@,
                before@,
                after@,
            ),
    {
        let me = Actor::Walker(*self);
        match move_relative(&me, &offset, map, before, after) {
            Some(to) => {
                self.pos = to;
            },
            None => {},
        }
    }
}

impl Object for RandomWalker {
    open spec fn disp_spec(&self) -> Disp {
        Disp { ch: 'W', color: red() }
    }

    open spec fn passable_spec(&self, object: &Actor) -> bool {
        false
    }

    open spec fn pos_spec(&self) -> Pos {
        self.pos
    }

    fn get_disp(&self) -> (d: Disp) {
        Disp::new('W', color_red())
    }

    fn passable(&self, object: &Actor) -> (b: bool) {
        false
    }

    fn get_pos(&self) -> (p: Pos) {
        self.pos
    }

    /// Tries a step drawn from the nine offsets of at most one row and one
    /// column, standing still included.
    fn turn(
        &mut self,
        key: char,
        rng: &mut rand::StdRng,
        map: &LevelMap,
        before: &[Actor],
        after: &[Actor],
    )
        ensures
            exists|offset: Pos|
                -1 <= offset.row <= 1 && -1 <= offset.col <= 1 && final(self).pos
                    == #[trigger] after_step(
                    Actor::Walker(*old(self)),
                    offset,
                    map@,
                    before@,
                    after@,
                ),
    {
        let row: i32 = roll_in(rng, -1, 2);
        let col: i32 = roll_in(rng, -1, 2);
        self.step_by(Pos { row, col }, map, before, after);
    }
}

impl Object for Actor {
    open spec fn disp_spec(&self) -> Disp {
        match *self {
            Actor::Player(a) => a.disp_spec(),
            Actor::Walker(a) => a.disp_spec(),
        }
    }

    open spec fn passable_spec(&self, object: &Actor) -> bool {
        match *self {
            Actor::Player(a) => a.passable_spec(object),
            Actor::Walker(a) => a.passable_spec(object),
        }
    }

    open spec fn pos_spec(&self) -> Pos {
        match *self {
            Actor::Player(a) => a.pos_spec(),
            Actor::Walker(a) => a.pos_spec(),
        }
    }

    fn get_disp(&self) -> (d: Disp) {
        match self {
            Actor::Player(a) => a.get_disp(),
            Actor::Walker(a) => a.get_disp(),
        }
    }

    fn passable(&self, object: &Actor) -> (b: bool) {
        match self {
            Actor::Player(a) => a.passable(object),
            Actor::Walker(a) => a.passable(object),
        }
    }

    fn get_pos(&self) -> (p: Pos) {
        match self {
            Actor::Player(a) => a.get_pos(),
            Actor::Walker(a) => a.get_pos(),
        }
    }

    /// Takes the turn of the actor that this is.
    fn turn(
        &mut self,
        key: char,
        rng: &mut rand::StdRng,
        map: &LevelMap,
        before: &[Actor],
        after: &[Actor],
    )
        ensures
            match *old(self) {
                Actor::Player(a) => *final(self) == Actor::Player(
                    Player {
                        pos: match key_offset(key) {
                            Some(offset) => after_step(*old(self), offset, map@, before@, after@),
                            None => a.pos,
                        },
                    },
                ),
                Actor::Walker(a) => exists|offset: Pos|
                    -1 <= offset.row <= 1 && -1 <= offset.col <= 1 && *final(self)
                        == Actor::Walker(
                        RandomWalker {
                            pos: #[trigger] after_step(*old(self), offset, map@, before@, after@),
                        },
                    ),
            },
    {
        match *self {
            Actor::Player(a) => {
                let mut moved = a;
                moved.turn(key, rng, map, before, after);
                *self = Actor::Player(moved);
            },
            Actor::Walker(a) => {
                let mut moved = a;
                moved.turn(key, rng, map, before, after);
                *self = Actor::Walker(moved);
            },
        }
    }
}

} // verus!
