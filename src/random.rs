use vstd::prelude::*;

use rand::rngs::StdRng;
use rand::Rng;

verus! {

/// rand's standard generator, carried through the simulation as the one
/// source of chance.
#[verifier::external_type_specification]
#[verifier::external_body]
pub struct ExStdRng(StdRng);

/// Relies on rand's `Rng::gen_range` over `0..n`: a value below `n`. The
/// range is non-empty, which `gen_range` needs to return at all.
#[verifier::external_body]
pub(crate) fn roll(rng: &mut StdRng, n: u32) -> (r: u32)
    requires
        n > 0,
    ensures
        r < n,
{
    rng.gen_range(0..n)
}

} // verus!
