use raytracer::key::key_of_bits;

#[test]
fn patterns_without_the_sign_bit_move_up() {
    assert_eq!(key_of_bits(0), 0x8000_0000);
    assert_eq!(key_of_bits(1), 0x8000_0001);
    assert_eq!(key_of_bits(0x3F80_0000), 0xBF80_0000);
    assert_eq!(key_of_bits(0x7FFF_FFFF), 0xFFFF_FFFF);
}

#[test]
fn patterns_with_the_sign_bit_are_reversed() {
    assert_eq!(key_of_bits(0x8000_0000), 0x7FFF_FFFF);
    assert_eq!(key_of_bits(0x8000_0001), 0x7FFF_FFFE);
    assert_eq!(key_of_bits(0xBF80_0000), 0x407F_FFFF);
    assert_eq!(key_of_bits(0xFFFF_FFFF), 0);
}

#[test]
fn keys_order_distances() {
    let distances = [f32::NEG_INFINITY, -1.0e30, -3.0, -1.0e-40, 0.0, 1.0e-40, 0.5, 1.0, 7.0, f32::INFINITY];
    for pair in distances.windows(2) {
        assert!(key_of_bits(pair[0].to_bits()) < key_of_bits(pair[1].to_bits()));
    }
}

#[test]
fn key_of_one_is_exact() {
    assert_eq!(key_of_bits(1.0f32.to_bits()), 0xBF80_0000);
    assert_eq!(key_of_bits((-1.0f32).to_bits()), 0x407F_FFFF);
}

#[test]
fn negative_zero_sorts_just_below_zero() {
    assert_eq!(key_of_bits((-0.0f32).to_bits()) + 1, key_of_bits(0.0f32.to_bits()));
    assert_eq!(key_of_bits((-0.0f32 + 0.0).to_bits()), key_of_bits(0.0f32.to_bits()));
}

#[test]
fn different_patterns_have_different_keys() {
    let patterns = [0u32, 1, 0x7FFF_FFFF, 0x8000_0000, 0x8000_0001, 0xFFFF_FFFF];
    for (i, a) in patterns.iter().enumerate() {
        for (j, b) in patterns.iter().enumerate() {
            assert_eq!(key_of_bits(*a) == key_of_bits(*b), i == j);
        }
    }
}
