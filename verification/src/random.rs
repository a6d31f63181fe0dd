//! Chance, as far as a bot needs it.

use rand::Rng;
use vstd::prelude::*;

verus! {

/// Draws an index below `n` from the thread's random number generator, by
/// `rand::thread_rng` and `Rng::gen_range` over `0..n`. The generator
/// samples the half-open range uniformly, so all that is claimed of a draw
/// is that it lies below `n`. The range must not be empty: `gen_range`
/// panics on an empty one. Not covered by the contract, because it is a
/// failure of the machine and of no input: the generator panics if the
/// operating system gives it no seed, at its start or when it reseeds.
#[verifier::external_body]
pub(crate) fn random_index(n: usize) -> (index: usize)
    requires
        n > 0,
    ensures
        index < n,
{
    rand::thread_rng().gen_range(0..n)
}

} // verus!
