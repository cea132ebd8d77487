use rustracer::mipmap::{is_power_of_2, modulo, num_levels, round_up_pow_2, Grid, MIPMap, WrapMode};

#[test]
fn modulo_is_never_negative() {
    assert_eq!(modulo(7, 8), 7);
    assert_eq!(modulo(-3, 8), 5);
    assert_eq!(modulo(-8, 8), 0);
    assert_eq!(modulo(16, 8), 0);
    assert_eq!(modulo(-1, 3), 2);
    assert_eq!(modulo(0, 5), 0);
}

#[test]
fn powers_of_two() {
    assert!(is_power_of_2(1));
    assert!(is_power_of_2(2));
    assert!(is_power_of_2(64));
    assert!(!is_power_of_2(0));
    assert!(!is_power_of_2(3));
    assert!(!is_power_of_2(6));
    assert!(!is_power_of_2(96));

    assert_eq!(round_up_pow_2(1), 1);
    assert_eq!(round_up_pow_2(3), 4);
    assert_eq!(round_up_pow_2(17), 32);
    assert_eq!(round_up_pow_2(64), 64);
}

#[test]
fn level_counts() {
    assert_eq!(num_levels(1, 1), 1);
    assert_eq!(num_levels(2, 1), 2);
    assert_eq!(num_levels(8, 1), 4);
    assert_eq!(num_levels(256, 256), 9);
    // the driver resamples a 3x5 image up to 4x8 before building
    assert_eq!(num_levels(round_up_pow_2(3), round_up_pow_2(5)), 4);
}

#[test]
fn grids_read_row_major() {
    let g = Grid::from_vec(3, 2, vec![1u32, 2, 3, 4, 5, 6]);
    assert_eq!(g.u_size(), 3);
    assert_eq!(g.v_size(), 2);
    assert_eq!(g.get(0, 0), 1);
    assert_eq!(g.get(2, 0), 3);
    assert_eq!(g.get(0, 1), 4);
    assert_eq!(g.get(2, 1), 6);
}

#[test]
fn constant_image_pyramid_stays_constant() {
    let v: u32 = 7;
    let img = vec![v; 16 * 16];
    let m = MIPMap::new((16, 16), img, WrapMode::Repeat, 0);
    assert_eq!(m.width(), 16);
    assert_eq!(m.height(), 16);
    assert_eq!(m.levels(), 5);
    for level in 0..m.levels() {
        // in range, and wrapped from far outside
        assert_eq!(m.texel(level, 0, 0), v);
        assert_eq!(m.texel(level, 3, 1), v);
        assert_eq!(m.texel(level, -25, 40), v);
    }
}

#[test]
fn pyramid_averages_quads() {
    // 4x4 ramp; level 1 holds the averages of each 2x2 quad
    let img: Vec<u32> = (0u32..16).collect();
    let m = MIPMap::new((4, 4), img, WrapMode::Clamp, 0);
    assert_eq!(m.levels(), 3);
    assert_eq!(m.texel(1, 0, 0), (0 + 1 + 4 + 5) / 4);
    assert_eq!(m.texel(1, 1, 0), (2 + 3 + 6 + 7) / 4);
    assert_eq!(m.texel(1, 0, 1), (8 + 9 + 12 + 13) / 4);
    assert_eq!(m.texel(1, 1, 1), (10 + 11 + 14 + 15) / 4);
    // the tip averages the whole image: sum 0..15 is 120, over 16 texels
    assert_eq!(m.texel(2, 0, 0), ((0 + 1 + 4 + 5) / 4 + (2 + 3 + 6 + 7) / 4 + (8 + 9 + 12 + 13) / 4 + (10 + 11 + 14 + 15) / 4) / 4);
}

#[test]
fn wrap_modes_address_texels() {
    let g = vec![10u32, 20, 30, 40];
    let m = MIPMap::new((2, 2), g, WrapMode::Repeat, 99);
    assert_eq!(m.texel(0, 2, 0), 10);
    assert_eq!(m.texel(0, -1, 0), 20);
    assert_eq!(m.texel(0, 0, -1), 30);

    let m = MIPMap::new((2, 2), vec![10u32, 20, 30, 40], WrapMode::Clamp, 99);
    assert_eq!(m.texel(0, -5, 0), 10);
    assert_eq!(m.texel(0, 5, 0), 20);
    assert_eq!(m.texel(0, 5, 7), 40);

    let m = MIPMap::new((2, 2), vec![10u32, 20, 30, 40], WrapMode::Black, 99);
    assert_eq!(m.texel(0, -1, 0), 99);
    assert_eq!(m.texel(0, 0, 2), 99);
    assert_eq!(m.texel(0, 1, 1), 40);
}

#[test]
fn non_square_pyramids_floor_at_one() {
    let img: Vec<u32> = vec![5; 8];
    let m = MIPMap::new((8, 1), img, WrapMode::Repeat, 0);
    assert_eq!(m.levels(), 4);
    for level in 0..m.levels() {
        assert_eq!(m.texel(level, 0, 0), 5);
    }
}
