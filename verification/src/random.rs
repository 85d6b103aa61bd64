//! The random source used to place ships automatically.

use vstd::prelude::*;

use rand::rngs::ThreadRng;

verus! {

/// `rand::rngs::ThreadRng`, carried through as an opaque value.
#[verifier::external_type_specification]
#[verifier::external_body]
pub struct ExThreadRng(rand::rngs::ThreadRng);

/// Calls `rand::thread_rng()`: the lazily seeded thread-local generator.
/// Nothing is promised about its state; rand panics here only if the
/// operating system cannot seed it.
#[verifier::external_body]
pub(crate) fn thread_rng() -> ThreadRng {
    rand::thread_rng()
}

/// Calls `Rng::gen_range(0..bound)`: a value drawn from `0..bound`, so below
/// `bound`. rand panics on an empty range, hence `bound > 0`. Which value
/// comes out is up to chance.
#[verifier::external_body]
pub(crate) fn gen_below(rng: &mut ThreadRng, bound: u8) -> (r: u8)
    requires
        bound > 0,
    ensures
        r < bound,
{
    rand::Rng::gen_range(rng, 0..bound)
}

/// Calls `Rng::gen::<bool>()`: a fair coin. Either value may come out.
#[verifier::external_body]
pub(crate) fn gen_coin(rng: &mut ThreadRng) -> bool {
    rand::Rng::gen::<bool>(rng)
}

} // verus!
