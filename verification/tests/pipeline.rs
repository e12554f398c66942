use angled_random_walker as arw;
use walker_heightmap::blur::{clamp_buffer, heightmap_blur};
use walker_heightmap::hello;
use walker_heightmap::image::to_image;
use walker_heightmap::scale::{flatten_grid, max_age_for, scale_age_to_height, scale_grid};
use walker_heightmap::seed::seed_from_bytes;

const FALLBACK_SEED: u64 = 0x0807_0605_0403_0201;

#[test]
fn hello_returns_the_probe_constant() {
    assert_eq!(hello(), 42);
}

#[test]
fn seed_empty_input_falls_back() {
    assert_eq!(seed_from_bytes(&[]), FALLBACK_SEED);
    assert_eq!(seed_from_bytes(&[]), FALLBACK_SEED);
}

#[test]
fn seed_seven_bytes_fall_back() {
    assert_eq!(seed_from_bytes(&[1, 2, 3, 4, 5, 6, 7]), FALLBACK_SEED);
    assert_eq!(seed_from_bytes(&[1, 2, 3, 4, 5, 6, 7]), FALLBACK_SEED);
}

#[test]
fn seed_nine_bytes_fall_back() {
    assert_eq!(seed_from_bytes(&[9, 9, 9, 9, 9, 9, 9, 9, 9]), FALLBACK_SEED);
}

#[test]
fn seed_eight_bytes_read_little_endian() {
    assert_eq!(
        seed_from_bytes(&[0x78, 0x56, 0x34, 0x12, 0, 0, 0, 0]),
        0x1234_5678
    );
    assert_eq!(
        seed_from_bytes(&[1, 2, 3, 4, 5, 6, 7, 8]),
        FALLBACK_SEED
    );
}

#[test]
fn max_age_matches_the_accumulation_formula() {
    assert_eq!(max_age_for(3, 2), 12);
    assert_eq!(max_age_for(0, 0), 1);
    assert_eq!(max_age_for(10, 0), 11);
}

#[test]
fn scale_keeps_zero_as_background() {
    assert_eq!(scale_age_to_height(0, 12), 0);
    assert_eq!(scale_age_to_height(0, 1), 0);
}

#[test]
fn scale_exact_values() {
    // (12 - 1) * 255 / 12 = 233, (12 - 6) * 255 / 12 = 127, oldest age gives 0
    assert_eq!(scale_age_to_height(1, 12), 233);
    assert_eq!(scale_age_to_height(6, 12), 127);
    assert_eq!(scale_age_to_height(12, 12), 0);
}

#[test]
fn scale_is_monotonically_decreasing_and_in_range() {
    let max_age: usize = 37;
    let mut last: u8 = 255;
    for v in 1..=37u16 {
        let h = scale_age_to_height(v, max_age);
        assert!(h <= 254);
        assert!(h <= last);
        last = h;
    }
}

#[test]
fn flatten_is_row_major() {
    let rows = vec![vec![1u16, 2], vec![3, 4], vec![5, 6]];
    assert_eq!(flatten_grid(&rows), vec![1, 2, 3, 4, 5, 6]);
}

#[test]
fn scale_grid_scales_each_cell() {
    let ages = vec![0u16, 1, 6, 12];
    assert_eq!(scale_grid(&ages, 12), vec![0, 233, 127, 0]);
}

#[test]
fn image_of_all_zero_is_all_transparent() {
    let img = to_image(vec![0u8; 5]);
    assert_eq!(img, vec![0u8; 20]);
}

#[test]
fn image_of_all_opaque_heights_is_all_white() {
    let img = to_image(vec![255u8; 3]);
    assert_eq!(img, vec![255u8; 12]);
}

#[test]
fn empty_buffers_stay_empty() {
    assert_eq!(to_image(vec![]), Vec::<u8>::new());
    assert_eq!(flatten_grid(&vec![]), Vec::<u16>::new());
    assert_eq!(scale_grid(&vec![], 1), Vec::<u8>::new());
}

#[test]
fn image_length_is_four_times_input_length() {
    let img = to_image(vec![0u8, 1, 2, 3, 4, 5, 6]);
    assert_eq!(img.len(), 28);
}

#[test]
fn image_boundary_near_zero_is_still_opaque() {
    // only a raw 0 is transparent; 254 and 1 are fully opaque
    let img = to_image(vec![254u8, 0, 1]);
    assert_eq!(img, vec![255, 255, 255, 255, 0, 0, 0, 0, 255, 255, 255, 255]);
}

#[test]
fn clamp_caps_only_samples_above_the_ceiling() {
    let data = vec![0u8, 5, 10, 200, 255];
    assert_eq!(clamp_buffer(&data, 10), vec![0, 5, 10, 10, 10]);
    assert_eq!(clamp_buffer(&data, 255), data);
}

#[test]
fn blur_preserves_buffer_length() {
    let data = vec![0u8; 512 * 512];
    let out = heightmap_blur(data, 3, 255);
    assert_eq!(out.len(), 512 * 512);
}

#[test]
fn blur_radius_zero_reduces_to_buffer_plus_detail_pass() {
    // A constant buffer blurs to itself at every radius, so with a base
    // radius of 0 and a ceiling above every sample the composite is
    // exactly buffer + blur(buffer, 4) = 10 + 10 at every position.
    let data = vec![10u8; 512 * 512];
    let out = heightmap_blur(data, 0, 255);
    assert!(out.iter().all(|&v| v == 20));
}

#[test]
fn blur_composite_sum_wraps_modulo_256() {
    // base 200 + detail 200 = 400, which wraps to 144
    let data = vec![200u8; 512 * 512];
    let out = heightmap_blur(data, 0, 255);
    assert!(out.iter().all(|&v| v == 144));
}

#[test]
fn blur_zero_ceiling_reduces_to_the_base_pass() {
    // With ceiling 0 the detail input blurs to all zeros, so the composite
    // is the base pass alone; a constant buffer blurs to itself, so with
    // base radius 2 the result is the buffer unchanged.
    let data = vec![7u8; 512 * 512];
    let out = heightmap_blur(data.clone(), 2, 0);
    assert_eq!(out, data);
}

#[test]
fn blur_zero_ceiling_and_zero_radius_is_the_identity() {
    let mut data = vec![0u8; 512 * 512];
    data[100] = 31;
    data[200_000] = 254;
    let out = heightmap_blur(data.clone(), 0, 0);
    assert_eq!(out, data);
}

#[test]
fn blur_spreads_an_impulse() {
    // A single bright sample must be smoothed down and smeared onto its
    // neighbours: the blur is not the identity on non-constant input.
    let mut data = vec![0u8; 512 * 512];
    let center = 256 * 512 + 256;
    data[center] = 255;
    let out = heightmap_blur(data.clone(), 2, 0);
    assert_ne!(out, data);
    assert!(out[center] > 0);
    assert!(out[center] < 255);
    assert!(out[center + 1] > 0);
    assert!(out[center + 512] > 0);
}

fn simulation_params(seed: u64) -> arw::SimulationParams {
    arw::SimulationParams {
        size: 8,
        max_long_age: 3,
        max_short_age: 1,
        max_generations: 2,
        children: 2,
        max_long_angle_divergence: 0.25,
        max_short_angle_divergence: 0.125,
        short_branch_frequency: 2,
        paint: arw::Paint::CumulativeAge,
        initial_walkers: arw::InitialWalkers::CardinalsAndOrdinals,
        seed,
    }
}

#[test]
fn generation_is_reproducible_for_a_fixed_seed() {
    let seed = seed_from_bytes(&[42, 0, 0, 0, 0, 0, 0, 1]);
    let max_age = max_age_for(3, 2);

    let first_grid = arw::simulate(simulation_params(seed));
    let first_flat = flatten_grid(&first_grid);
    assert!(first_flat.iter().all(|&v| (v as usize) <= max_age));
    let first_heights = scale_grid(&first_flat, max_age);
    assert_eq!(first_heights.len(), 64);

    let second_grid = arw::simulate(simulation_params(seed));
    let second_flat = flatten_grid(&second_grid);
    let second_heights = scale_grid(&second_flat, max_age);

    assert_eq!(first_heights, second_heights);
}
