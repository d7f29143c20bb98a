//! What grows on a freshly loaded tile: a fixed number of diatoms of
//! randomly chosen species, and now and then a copepod.

use vstd::prelude::*;
use rand::rngs::ThreadRng;
use crate::random::{draw_below, random_bits, random_index};

verus! {

/// A species of diatom.
#[derive(Debug, Clone, Copy, PartialEq, Eq, Structural)]
pub enum DiatomSpecies {
    Star,
    Circle,
    Rod,
}

/// How many diatoms are spawned on each new tile.
pub const DIATOMS_PER_TILE: usize = 5;

/// How many diatom species there are to draw from.
pub const DIATOM_SPECIES_COUNT: usize = 3;

/// A copepod is spawned on a new tile when a uniform `f32` in `[0, 1)`
/// falls below `0.1`: for `rand`'s 24-bit floats `k * 2^-24`, that holds
/// exactly for `k < 1_677_722`, a chance a little above one in ten.
pub const COPEPOD_DRAW_BOUND: u32 = 1_677_722;

/// The diatom species at position `index` of the list the draw picks from:
/// Star, Circle, Rod.
pub open spec fn diatom_of_index(index: int) -> DiatomSpecies {
    if index == 0 {
        DiatomSpecies::Star
    } else if index == 1 {
        DiatomSpecies::Circle
    } else {
        DiatomSpecies::Rod
    }
}

/// Whether the 32 random bits `bits` call for a copepod.
pub open spec fn copepod_of_bits(bits: u32) -> bool {
    crate::random::f32_draw_below(bits, COPEPOD_DRAW_BOUND)
}

/// What to spawn on one new tile.
pub struct TileSpawnPlan {
    /// The species of each diatom to spawn, one entry per diatom.
    pub diatoms: Vec<DiatomSpecies>,
    /// Whether a copepod is spawned as well.
    pub spawn_copepod: bool,
}

/// The diatom species at position `index` of the list Star, Circle, Rod.
pub fn diatom_at(index: usize) -> (s: DiatomSpecies)
    requires
        index < DIATOM_SPECIES_COUNT,
    ensures
        s == diatom_of_index(index as int),
{
    if index == 0 {
        DiatomSpecies::Star
    } else if index == 1 {
        DiatomSpecies::Circle
    } else {
        DiatomSpecies::Rod
    }
}

/// Whether the 32 random bits `bits` call for a copepod: whether the `f32`
/// that `rand` builds from them is below `0.1`.
pub fn copepod_for_bits(bits: u32) -> (spawn: bool)
    ensures
        spawn == copepod_of_bits(bits),
{
    draw_below(bits, COPEPOD_DRAW_BOUND)
}

/// Draws a diatom species, each of the three with equal chance: the species
/// at a uniformly drawn position of the list Star, Circle, Rod. Which
/// position comes out rests on chance, so nothing beyond the type of the
/// result is claimed.
pub fn sample_diatom(rng: &mut ThreadRng) -> DiatomSpecies {
    let index = random_index(rng, DIATOM_SPECIES_COUNT);
    diatom_at(index)
}

/// The plan for one new tile made from its draws: the `k`-th diatom is the
/// species at position `diatom_draws[k]` of the list Star, Circle, Rod, and
/// a copepod comes when `copepod_for_bits(copepod_bits)` says so.
pub fn plan_from_draws(diatom_draws: &Vec<usize>, copepod_bits: u32) -> (plan: TileSpawnPlan)
    requires
        forall|k: int| 0 <= k < diatom_draws@.len() ==> #[trigger] diatom_draws@[k] < DIATOM_SPECIES_COUNT,
    ensures
        plan.diatoms@.len() == diatom_draws@.len(),
        forall|k: int| 0 <= k < diatom_draws@.len() ==> #[trigger] plan.diatoms@[k] == diatom_of_index(diatom_draws@[k] as int),
        plan.spawn_copepod == copepod_of_bits(copepod_bits),
{
    let mut diatoms: Vec<DiatomSpecies> = Vec::new();
    let mut n: usize = 0;
    while n < diatom_draws.len()
        invariant
            n <= diatom_draws@.len(),
            forall|k: int| 0 <= k < diatom_draws@.len() ==> #[trigger] diatom_draws@[k] < DIATOM_SPECIES_COUNT,
            diatoms@.len() == n,
            forall|k: int| 0 <= k < n ==> #[trigger] diatoms@[k] == diatom_of_index(diatom_draws@[k] as int),
        decreases diatom_draws@.len() - n,
    {
        let species = diatom_at(diatom_draws[n]);
        diatoms.push(species);
        n = n + 1;
    }
    let spawn_copepod = copepod_for_bits(copepod_bits);
    TileSpawnPlan { diatoms, spawn_copepod }
}

/// Draws the plan for one new tile: `DIATOMS_PER_TILE` diatoms, each of a
/// species at its own uniformly drawn position of the list Star, Circle,
/// Rod, and a copepod when `copepod_for_bits` of a fresh 32-bit draw says
/// so; the plan is `plan_from_draws` of those draws. The draws rest on
/// chance: only the number of diatoms is claimed.
pub fn plan_tile_spawn(rng: &mut ThreadRng) -> (plan: TileSpawnPlan)
    ensures
        plan.diatoms@.len() == DIATOMS_PER_TILE,
{
    let mut draws: Vec<usize> = Vec::new();
    let mut n: usize = 0;
    while n < DIATOMS_PER_TILE
        invariant
            n <= DIATOMS_PER_TILE,
            draws@.len() == n,
            forall|k: int| 0 <= k < draws@.len() ==> #[trigger] draws@[k] < DIATOM_SPECIES_COUNT,
        decreases DIATOMS_PER_TILE - n,
    {
        let index = random_index(rng, DIATOM_SPECIES_COUNT);
        draws.push(index);
        n = n + 1;
    }
    let bits = random_bits(rng);
    plan_from_draws(&draws, bits)
}

/// A copepod comes exactly when the 32 random bits are below
/// `1_677_722 * 256 = 429_496_832`: that many of the `2^32` patterns, a
/// little over one in ten.
pub proof fn law_copepod_exactly_below_a_tenth(bits: u32)
    ensures
        copepod_of_bits(bits) <==> bits < 429_496_832u32,
{
    crate::random::law_draw_below_is_a_prefix(bits, COPEPOD_DRAW_BOUND);
}

/// Each of the three diatom species sits at exactly one of the three
/// positions the draw picks from, so a uniform position gives each species
/// the same chance.
pub proof fn law_each_species_at_one_position(s: DiatomSpecies)
    ensures
        exists|i: int| 0 <= i < 3 && diatom_of_index(i) == s,
        forall|i: int, j: int|
            0 <= i < 3 && 0 <= j < 3 && diatom_of_index(i) == s && diatom_of_index(j) == s ==> i == j,
{
    match s {
        DiatomSpecies::Star => assert(diatom_of_index(0) == s),
        DiatomSpecies::Circle => assert(diatom_of_index(1) == s),
        DiatomSpecies::Rod => assert(diatom_of_index(2) == s),
    }
}

} // verus!
