//! The pseudorandom generator behind the resolver's weighted policy: a
//! process-wide deterministic generator, seeded once by the host and
//! threaded explicitly through resolver calls.

use vstd::prelude::*;

verus! {

/// Declares rand's `SmallRng` to the verifier as an opaque type: the
/// generator's state is carried through, never inspected.
#[verifier::external_type_specification]
#[verifier::external_body]
pub struct ExSmallRng(rand::rngs::SmallRng);

/// Relies on rand's `Rng::gen_range` over the integer range `0..bound`:
/// the result is drawn uniformly from that range, so it lies below the
/// bound. `gen_range` panics on an empty range, hence the bound is
/// required to be positive.
#[verifier::external_body]
pub(crate) fn draw(rng: &mut rand::rngs::SmallRng, bound: u64) -> (r: u64)
    requires
        bound >= 1,
    ensures
        r < bound,
{
    rand::Rng::gen_range(rng, 0..bound)
}

} // verus!
