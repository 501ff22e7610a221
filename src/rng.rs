use vstd::prelude::*;
use rand_xoshiro::Xoroshiro128StarStar;

verus! {

/// The pseudo-random generator that animations draw from.
#[verifier::external_type_specification]
#[verifier::external_body]
pub struct ExXoroshiro128StarStar(Xoroshiro128StarStar);

/// Relies on rand_core's `Rng::next_u32` for `Xoroshiro128StarStar`: it advances the
/// generator and returns its next word, which may be any `u32`.
#[verifier::external_body]
pub(crate) fn next_u32(rng: &mut Xoroshiro128StarStar) -> (r: u32) {
    rand_xoshiro::rand_core::Rng::next_u32(rng)
}

} // verus!
