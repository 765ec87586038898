//! Procedural generation of one dungeon level on a fixed grid: rooms are
//! stamped as wall footprints, enclosed cells become room interior, a
//! randomized flood fill punches doors and grows corridors, and the finished
//! grid is turned into tiles.

pub mod pos;
pub mod disp;
pub mod cell;
pub mod grid;
pub mod rooms;
pub mod interior;
pub mod dir;
pub mod dice;
pub mod visit;
pub mod invariants;
pub mod carve;
pub mod object;
pub mod tiles;
pub mod util;
pub mod level;
pub mod gen_rooms;
