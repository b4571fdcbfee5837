//! The engine's two sources of randomness, each a thin trusted wrapper
//! around the `rand` crate.

use vstd::prelude::*;

verus! {

/// Relies on rand's `Rng::gen_range` over `thread_rng`: the sample lies
/// within the given inclusive range. The range must be non-empty, since
/// `gen_range` panics on an empty one.
#[verifier::external_body]
pub(crate) fn random_u8_in(lo: u8, hi: u8) -> (r: u8)
    requires
        lo <= hi,
    ensures
        lo <= r <= hi,
{
    rand::Rng::gen_range(&mut rand::thread_rng(), lo..=hi)
}

/// Relies on rand's `Rng::gen` over `thread_rng` for a fair coin; nothing is
/// assumed of the outcome.
#[verifier::external_body]
pub(crate) fn random_bool() -> bool {
    rand::Rng::gen::<bool>(&mut rand::thread_rng())
}

} // verus!
