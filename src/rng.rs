//! The random source threaded through placement, exploration and replay
//! sampling.
use vstd::prelude::*;

use rand::Rng;

verus! {

#[verifier::external_type_specification]
#[verifier::external_body]
pub struct ExStdRng(rand::rngs::StdRng);

/// Relies on rand::Rng::gen_range on `0..n`: a value drawn from the
/// non-empty half-open range, so below `n`. The draw itself is not known.
#[verifier::external_body]
pub(crate) fn below(rng: &mut rand::rngs::StdRng, n: usize) -> (r: usize)
    requires
        n > 0,
    ensures
        r < n,
{
    rng.gen_range(0..n)
}

} // verus!
