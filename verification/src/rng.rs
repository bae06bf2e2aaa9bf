//! The seeded random source used for layout shuffling and payload
//! generation, together with the trusted interface to the `rand` crates.
//!
//! Every run uses the same fixed seed, so a run's layout and payloads are
//! reproducible.

use rand::Rng;
use rand::RngCore;
use rand::seq::SliceRandom;
use vstd::prelude::*;

verus! {

/// The permuted-congruential generator the benchmark draws from.
#[verifier::external_type_specification]
#[verifier::external_body]
pub struct ExLcg128Xsl64(rand_pcg::Lcg128Xsl64);

/// Default PCG state parameter.
pub const RNG_STATE: u128 = 0xcafef00dd15ea5e5;

/// Default PCG stream parameter.
pub const RNG_STREAM: u128 = 0xa02bdbf7bb3c0a7ac28fa16a64abf96;

/// Relies on rand_pcg::Lcg128Xsl64::new: builds the generator from a seed
/// and stream selector.
#[verifier::external_body]
fn pcg_from_seed(state: u128, stream: u128) -> (r: rand_pcg::Pcg64) {
    rand_pcg::Pcg64::new(state, stream)
}

/// The generator every run starts from: a fixed seed, so runs are
/// reproducible.
pub fn rng() -> (r: rand_pcg::Pcg64) {
    pcg_from_seed(RNG_STATE, RNG_STREAM)
}

/// Relies on rand::RngCore::fill_bytes: overwrites the whole slice with
/// random bytes; the slice's length cannot change.
#[verifier::external_body]
pub fn fill_random(rng: &mut rand_pcg::Pcg64, buf: &mut Vec<u8>)
    ensures
        final(buf)@.len() == old(buf)@.len(),
{
    rng.fill_bytes(buf.as_mut_slice());
}

/// Relies on rand::Rng::gen_range: returns a uniformly distributed value of
/// the given non-empty range.
#[verifier::external_body]
pub fn sample_below(rng: &mut rand_pcg::Pcg64, bound: usize) -> (r: usize)
    requires
        bound > 0,
    ensures
        r < bound,
{
    rng.gen_range(0..bound)
}

/// Relies on rand::seq::SliceRandom::shuffle: permutes the slice in place,
/// so the elements afterwards are exactly the elements before, rearranged.
#[verifier::external_body]
pub fn shuffle(v: &mut Vec<u64>, rng: &mut rand_pcg::Pcg64)
    ensures
        final(v)@.len() == old(v)@.len(),
        final(v)@.to_multiset() == old(v)@.to_multiset(),
{
    v.as_mut_slice().shuffle(rng);
}

} // verus!
