//! The random source that publication codes are drawn from.

use vstd::prelude::*;

verus! {

/// Relies on rand's `Rng::gen_range` on `thread_rng()`: a value in `0..bound`.
/// `gen_range` panics on an empty range, which `requires` excludes.
#[verifier::external_body]
pub(crate) fn random_below(bound: u64) -> (r: u64)
    requires
        bound > 0,
    ensures
        r < bound,
{
    rand::Rng::gen_range(&mut rand::thread_rng(), 0..bound)
}

} // verus!
