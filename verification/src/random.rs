//! Random draws, taken from the thread-local generator of the `rand` crate.

use rand::Rng;
use vstd::prelude::*;

verus! {

/// Draws a number from `low` up to, but not including, `high`, by
/// `rand::thread_rng().gen_range(low..high)`.
///
/// Not proved, but read off `rand`: `gen_range` panics on an empty range,
/// which `low < high` rules out, and on a range of integers it returns a
/// value that is at least `low` and less than `high`. Which value comes back
/// is left open, so two draws from one range need not agree. `thread_rng`
/// takes no argument; it panics only where the operating system cannot seed
/// the generator of the thread, which nothing in this library decides.
#[verifier::external_body]
pub(crate) fn random_in(low: usize, high: usize) -> (drawn: usize)
    requires
        low < high,
    ensures
        low <= drawn < high,
{
    rand::thread_rng().gen_range(low..high)
}

} // verus!
