//! The library's one source of randomness: a uniform draw below a
//! bound, used for shuffle advances and sweeper selection.

use rand::Rng;
use vstd::prelude::*;

verus! {

/// Relies on `rand::thread_rng` and `rand::Rng::gen_range` over the
/// half-open range `0..n`: the sampled value is always within the
/// range, and the call panics only on an empty range, which the
/// precondition excludes. Nothing is assumed about the distribution.
#[verifier::external_body]
pub(crate) fn random_below(n: usize) -> (r: usize)
    requires
        n > 0,
    ensures
        r < n,
{
    rand::thread_rng().gen_range(0..n)
}

} // verus!
