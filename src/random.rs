//! Random draws.
use vstd::prelude::*;

verus! {

/// Relies on `rand::rng` and `Rng::random_range` (rand 0.9): a value drawn from
/// `0..bound`, which panics only on an empty range.
#[verifier::external_body]
pub(crate) fn random_below(bound: u32) -> (r: u32)
    requires
        bound > 0,
    ensures
        r < bound,
{
    rand::Rng::random_range(&mut rand::rng(), 0..bound)
}

} // verus!
