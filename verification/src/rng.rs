//! The one source of randomness the library uses. Uniform shuffles, random
//! target selection, and personality variation all draw from `rand_below`.
use vstd::prelude::*;
use rand::Rng;

verus! {

/// Relies on rand's `Rng::gen_range` over the half-open range `0..n`, which
/// panics only on an empty range and otherwise returns a value in the range.
/// The draw depends on the thread-local generator, so nothing more than the
/// bound can be promised of the result.
#[verifier::external_body]
pub(crate) fn rand_below(n: u64) -> (r: u64)
    requires
        n > 0,
    ensures
        r < n,
{
    rand::thread_rng().gen_range(0..n)
}

/// A biased coin: true with probability `p_thousandths` out of 1000.
pub(crate) fn rand_chance(p_thousandths: u32) -> (r: bool)
{
    let d = rand_below(1000);
    d < p_thousandths as u64
}

} // verus!
