//! The thread-local random generator of `rand`, and the two draws that the
//! game makes from it.

use vstd::prelude::*;
use rand::Rng;
use rand::rngs::ThreadRng;

verus! {

/// `rand::rngs::ThreadRng`, carried through the library as an opaque value.
#[verifier::external_type_specification]
#[verifier::external_body]
pub struct ExThreadRng(ThreadRng);

/// Calls `rand::Rng::random::<u32>()`: 32 uniformly random bits. This is the
/// draw from which `rand` builds a uniform `f32` in `[0, 1)`, as
/// `(bits >> 8) * 2^-24`. Any value can come out, so nothing is claimed of
/// the result.
#[verifier::external_body]
pub(crate) fn random_bits(rng: &mut ThreadRng) -> u32 {
    rng.random::<u32>()
}

/// Calls `rand::Rng::random_range(..len)`, the uniform index draw that
/// `rand::seq::IndexedRandom::choose` makes on a slice of length `len`.
/// `rand` panics on an empty range, so `len` must be positive; its source
/// returns a value in `0 .. len`, and which one rests on chance.
#[verifier::external_body]
pub(crate) fn random_index(rng: &mut ThreadRng, len: usize) -> (i: usize)
    requires
        0 < len,
    ensures
        i < len,
{
    rng.random_range(..len)
}

/// A uniform `f32` in `[0, 1)` that `rand` builds from the 32 random bits
/// `bits` is below a threshold `t` exactly when its 24-bit numerator
/// `bits / 2^8` is below `bound`, the number of 24-bit numerators `k` with
/// `k * 2^-24 < t`.
pub open spec fn f32_draw_below(bits: u32, bound: u32) -> bool {
    bits / 256 < bound
}

/// Whether the `f32` that `rand` builds from `bits` falls below the
/// threshold whose numerator bound is `bound`.
pub fn draw_below(bits: u32, bound: u32) -> (below: bool)
    ensures
        below == f32_draw_below(bits, bound),
{
    assert(bits >> 8u32 == bits / 256) by (bit_vector);
    (bits >> 8u32) < bound
}


/// For a bound of at most `2^24`, the `f32` built from `bits` is below the
/// threshold exactly when `bits` is below `bound * 256`: the draws below a
/// threshold are the lowest `bound * 256` of the `2^32` bit patterns.
pub proof fn law_draw_below_is_a_prefix(bits: u32, bound: u32)
    requires
        bound <= 16_777_216,
    ensures
        f32_draw_below(bits, bound) <==> (bits as int) < (bound as int) * 256,
{
}

} // verus!
