use plankton::fauna::{get_nutrition, sample_species, species_for_bits, species_for_draw, SpeciesType, RED_DRAW_BOUND};
use plankton::input::movement_from_keys;
use plankton::spawning::{copepod_for_bits, diatom_at, plan_tile_spawn, sample_diatom, DiatomSpecies, COPEPOD_DRAW_BOUND, DIATOMS_PER_TILE};

#[test]
fn every_species_is_worth_one() {
    assert_eq!(get_nutrition(&SpeciesType::RedPlankton), 1);
    assert_eq!(get_nutrition(&SpeciesType::GreenPlankton), 1);
}

#[test]
fn a_low_draw_is_red_and_a_high_one_green() {
    assert_eq!(species_for_draw(true), SpeciesType::RedPlankton);
    assert_eq!(species_for_draw(false), SpeciesType::GreenPlankton);
}

#[test]
fn sampling_yields_both_species() {
    let mut rng = rand::rng();
    let mut red = 0;
    let mut green = 0;
    for _ in 0..400 {
        match sample_species(&mut rng) {
            SpeciesType::RedPlankton => red += 1,
            SpeciesType::GreenPlankton => green += 1,
        }
    }
    assert!(red > 0 && green > 0);
}

#[test]
fn sampling_diatoms_yields_every_species() {
    let mut rng = rand::rng();
    let mut seen = [false; 3];
    for _ in 0..300 {
        match sample_diatom(&mut rng) {
            DiatomSpecies::Star => seen[0] = true,
            DiatomSpecies::Circle => seen[1] = true,
            DiatomSpecies::Rod => seen[2] = true,
        }
    }
    assert_eq!(seen, [true, true, true]);
}

#[test]
fn a_tile_plan_has_five_diatoms_and_sometimes_a_copepod() {
    let mut rng = rand::rng();
    let mut copepods = 0;
    for _ in 0..2000 {
        let plan = plan_tile_spawn(&mut rng);
        assert_eq!(plan.diatoms.len(), DIATOMS_PER_TILE);
        assert_eq!(DIATOMS_PER_TILE, 5);
        if plan.spawn_copepod {
            copepods += 1;
        }
    }
    assert!(copepods > 0);
    assert!(copepods < 2000);
}

#[test]
fn keys_give_the_swim_direction() {
    assert_eq!(movement_from_keys(false, false, false, false), (0, 0));
    assert_eq!(movement_from_keys(true, false, false, false), (0, 1));
    assert_eq!(movement_from_keys(false, true, false, false), (0, -1));
    assert_eq!(movement_from_keys(false, false, true, false), (-1, 0));
    assert_eq!(movement_from_keys(false, false, false, true), (1, 0));
    assert_eq!(movement_from_keys(true, false, false, true), (1, 1));
    assert_eq!(movement_from_keys(true, true, true, true), (0, 0));
    assert_eq!(movement_from_keys(true, true, false, true), (1, 0));
}

fn count_f32_draws_below(threshold: f32) -> u64 {
    let scale = 1.0f32 / ((1u32 << 24) as f32);
    (0u32..(1u32 << 24)).filter(|k| scale * (*k as f32) < threshold).count() as u64
}

#[test]
fn draw_bounds_count_the_f32_draws_below_the_threshold() {
    assert_eq!(count_f32_draws_below(0.1), COPEPOD_DRAW_BOUND as u64);
    assert_eq!(count_f32_draws_below(0.5), RED_DRAW_BOUND as u64);
}

#[test]
fn species_from_bits_splits_at_one_half() {
    assert_eq!(species_for_bits(0), SpeciesType::RedPlankton);
    assert_eq!(species_for_bits(0x7FFF_FFFF), SpeciesType::RedPlankton);
    assert_eq!(species_for_bits(0x8000_0000), SpeciesType::GreenPlankton);
    assert_eq!(species_for_bits(u32::MAX), SpeciesType::GreenPlankton);
}

#[test]
fn copepod_from_bits_splits_at_one_tenth() {
    assert!(copepod_for_bits(0));
    assert!(copepod_for_bits((1_677_721 << 8) | 0xFF));
    assert!(!copepod_for_bits(1_677_722 << 8));
    assert!(!copepod_for_bits(u32::MAX));
}

#[test]
fn diatom_positions_name_the_species() {
    assert_eq!(diatom_at(0), DiatomSpecies::Star);
    assert_eq!(diatom_at(1), DiatomSpecies::Circle);
    assert_eq!(diatom_at(2), DiatomSpecies::Rod);
}
