//! What a tile or an actor looks like on screen: a glyph and a colour.

use vstd::prelude::*;

verus! {

/// A glyph and the number of the colour it is drawn in.
#[derive(Clone, Copy, PartialEq, Eq, Structural, Debug)]
pub struct Disp {
    pub ch: char,
    pub color: i16,
}

impl Disp {
    pub fn new(ch: char, color: i16) -> (d: Disp)
        ensures
            d.ch == ch,
            d.color == color,
    {
        Disp { ch: ch, color: color }
    }
}

/// Colour number of white.
pub open spec fn white() -> i16 {
    7
}

/// Colour number of yellow.
pub open spec fn yellow() -> i16 {
    3
}

/// Colour number of red.
pub open spec fn red() -> i16 {
    1
}

/// `ncurses::COLOR_WHITE`, which the crate's source defines as 7.
#[verifier::external_body]
pub(crate) fn color_white() -> (c: i16)
    ensures
        c == white(),
{
    ncurses::COLOR_WHITE
}

/// `ncurses::COLOR_YELLOW`, which the crate's source defines as 3.
#[verifier::external_body]
pub(crate) fn color_yellow() -> (c: i16)
    ensures
        c == yellow(),
{
    ncurses::COLOR_YELLOW
}

/// `ncurses::COLOR_RED`, which the crate's source defines as 1.
#[verifier::external_body]
pub(crate) fn color_red() -> (c: i16)
    ensures
        c == red(),
{
    ncurses::COLOR_RED
}

} // verus!
