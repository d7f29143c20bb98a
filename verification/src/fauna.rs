//! The plankton species of the water and what they are worth as food.

use vstd::prelude::*;
use rand::rngs::ThreadRng;
use crate::random::{draw_below, random_bits};

verus! {

/// A species of plankton.
#[derive(Debug, Clone, Copy, PartialEq, Eq, Structural)]
pub enum SpeciesType {
    RedPlankton,
    GreenPlankton,
}

/// The nutrition that eating one individual of a species gives.
pub open spec fn nutrition_of(species: SpeciesType) -> u32 {
    1
}

/// The species picked by a draw that came out below one half (`true`) or not.
pub open spec fn species_of_draw(below_half: bool) -> SpeciesType {
    if below_half {
        SpeciesType::RedPlankton
    } else {
        SpeciesType::GreenPlankton
    }
}

/// A sampled individual is red when a uniform `f32` in `[0, 1)` falls below
/// `0.5`: for `rand`'s 24-bit floats, when the numerator is below `2^23`.
pub const RED_DRAW_BOUND: u32 = 8_388_608;

/// The species sampled from the 32 random bits `bits`.
pub open spec fn species_of_bits(bits: u32) -> SpeciesType {
    species_of_draw(crate::random::f32_draw_below(bits, RED_DRAW_BOUND))
}

/// Nutrition of one individual of `species`.
pub fn get_nutrition(species: &SpeciesType) -> (n: u32)
    ensures
        n == nutrition_of(*species),
{
    match species {
        SpeciesType::RedPlankton => 1,
        SpeciesType::GreenPlankton => 1,
    }
}

/// The species chosen for a draw that fell below one half (`true`) or not.
pub fn species_for_draw(below_half: bool) -> (s: SpeciesType)
    ensures
        s == species_of_draw(below_half),
{
    if below_half {
        SpeciesType::RedPlankton
    } else {
        SpeciesType::GreenPlankton
    }
}

/// The species sampled from the 32 random bits `bits`: red when the `f32`
/// that `rand` builds from them is below `0.5`, green otherwise.
pub fn species_for_bits(bits: u32) -> (s: SpeciesType)
    ensures
        s == species_of_bits(bits),
{
    species_for_draw(draw_below(bits, RED_DRAW_BOUND))
}

/// Samples a species: red with chance one half, green otherwise. The species
/// is `species_for_bits` of 32 random bits drawn from `rng`; which species
/// comes out rests on chance, so nothing beyond the type of the result is
/// claimed.
pub fn sample_species(rng: &mut ThreadRng) -> SpeciesType {
    let bits = random_bits(rng);
    species_for_bits(bits)
}


/// A sample is red exactly when its 32 random bits are among the lower half
/// of all `2^32` patterns, that is below `2^31`; otherwise it is green.
pub proof fn law_red_exactly_on_the_lower_half(bits: u32)
    ensures
        species_of_bits(bits) == SpeciesType::RedPlankton <==> bits < 0x8000_0000u32,
        species_of_bits(bits) == SpeciesType::GreenPlankton <==> bits >= 0x8000_0000u32,
{
    crate::random::law_draw_below_is_a_prefix(bits, RED_DRAW_BOUND);
}

} // verus!
