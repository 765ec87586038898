//! The random draws that level generation makes, each taken from a generator
//! that the caller passes in. Nothing here is proved: the contracts say what
//! the generator's documentation and source promise of every outcome.

use vstd::prelude::*;
use rand::Rng;
use crate::dir::Dir;

verus! {

#[verifier::external_type_specification]
#[verifier::external_body]
pub struct ExStdRng(rand::StdRng);

/// `Rng::gen_range(low, high)` on `i32`: some value in `[low, high)`. The
/// call panics unless `low < high`, which `requires` rules out.
#[verifier::external_body]
pub(crate) fn roll_in(rng: &mut rand::StdRng, low: i32, high: i32) -> (r: i32)
    requires
        low < high,
    ensures
        low <= r < high,
{
    rng.gen_range(low, high)
}

/// `Rng::gen_weighted_bool(n)`: true with a chance of one in `n`. For
/// `n <= 1` the source returns true without drawing.
#[verifier::external_body]
pub(crate) fn one_in(rng: &mut rand::StdRng, n: u32) -> (hit: bool)
    ensures
        n <= 1 ==> hit,
{
    rng.gen_weighted_bool(n)
}

/// `Rng::gen::<bool>()`: a fair coin. Nothing is promised of the outcome.
#[verifier::external_body]
pub(crate) fn flip(rng: &mut rand::StdRng) -> (heads: bool)
{
    rng.gen::<bool>()
}

/// `Rng::shuffle` on a copy of `dirs`: the source only swaps elements of the
/// slice, so the result holds the same directions, each as often as before.
#[verifier::external_body]
pub(crate) fn shuffled(rng: &mut rand::StdRng, dirs: [Dir; 4]) -> (out: [Dir; 4])
    ensures
        out@.to_multiset() == dirs@.to_multiset(),
{
    let mut out = dirs;
    rng.shuffle(&mut out);
    out
}

} // verus!
