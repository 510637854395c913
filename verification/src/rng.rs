//! The pseudo-random source behind the title scene. Its generator is not
//! verified: the contracts below are taken on trust from the `rand` crate.

use vstd::prelude::*;
use rand::rngs::StdRng;
use rand::{Rng, SeedableRng};

verus! {

/// `rand::rngs::StdRng`, whose state stays hidden from proofs.
#[verifier::external_type_specification]
#[verifier::external_body]
pub struct ExStdRng(StdRng);

/// Calls `SeedableRng::seed_from_u64`, which builds a generator from a
/// 64-bit seed. Nothing is claimed of the generator it returns.
#[verifier::external_body]
pub(crate) fn seeded(seed: u64) -> StdRng {
    StdRng::seed_from_u64(seed)
}

/// Calls `Rng::gen_range` on the half-open range `0..n`. The crate samples
/// a value inside the range it is given and panics on an empty one, so `n`
/// must be positive and the result is below `n`. Which value comes back is
/// left open.
#[verifier::external_body]
pub(crate) fn pick_below(rng: &mut StdRng, n: usize) -> (r: usize)
    requires
        n > 0,
    ensures
        r < n,
{
    rng.gen_range(0..n)
}

} // verus!
