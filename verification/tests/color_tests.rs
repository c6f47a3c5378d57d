use raytracer::color::Color;
use raytracer::shading::accumulate;
use raytracer::shading::clamp_color;

#[test]
fn add_saturates_at_white() {
    let sum = Color::new(250, 0, 0).add(&Color::new(20, 0, 0));
    assert_eq!(sum, Color::new(255, 0, 0));
}

#[test]
fn add_below_the_limit_is_exact() {
    let sum = Color::new(10, 20, 30).add(&Color::new(1, 2, 3));
    assert_eq!(sum, Color { r: 11, g: 22, b: 33 });
}

#[test]
fn add_saturates_each_channel_on_its_own() {
    let sum = Color::new(200, 100, 255).add(&Color::new(100, 100, 1));
    assert_eq!(sum, Color { r: 255, g: 200, b: 255 });
}

#[test]
fn plus_operator_agrees_with_add() {
    let a = Color::new(250, 3, 128);
    let b = Color::new(20, 4, 128);
    assert_eq!(a + b, a.add(&b));
    assert_eq!(a + b, Color { r: 255, g: 7, b: 255 });
}

#[test]
fn add_is_commutative_on_samples() {
    let a = Color::new(250, 3, 128);
    let b = Color::new(20, 4, 200);
    assert_eq!(a.add(&b), b.add(&a));
}

#[test]
fn black_is_neutral_for_add() {
    let a = Color::new(17, 0, 255);
    assert_eq!(a.add(&Color::black()), a);
    assert_eq!(Color::black().add(&a), a);
}

#[test]
fn new_clamps_negative_channels_to_zero() {
    assert_eq!(Color::new(-1, -300, i32::MIN), Color { r: 0, g: 0, b: 0 });
}

#[test]
fn new_clamps_large_channels_to_255() {
    assert_eq!(Color::new(256, 1000, i32::MAX), Color { r: 255, g: 255, b: 255 });
}

#[test]
fn new_keeps_channels_in_range() {
    assert_eq!(Color::new(0, 128, 255), Color { r: 0, g: 128, b: 255 });
}

#[test]
fn clamp_covers_both_ends() {
    assert_eq!(Color::clamp(-7), 0);
    assert_eq!(Color::clamp(0), 0);
    assert_eq!(Color::clamp(42), 42);
    assert_eq!(Color::clamp(255), 255);
    assert_eq!(Color::clamp(256), 255);
}

#[test]
fn black_has_zero_channels() {
    assert_eq!(Color::black(), Color { r: 0, g: 0, b: 0 });
}

#[test]
fn from_hex_splits_channels() {
    assert_eq!(Color::from_hex(0x123456), Color { r: 0x12, g: 0x34, b: 0x56 });
    assert_eq!(Color::from_hex(0xFF00FF), Color { r: 255, g: 0, b: 255 });
    assert_eq!(Color::from_hex(0), Color::black());
}

#[test]
fn from_hex_ignores_the_top_byte() {
    assert_eq!(Color::from_hex(0xAB123456), Color { r: 0x12, g: 0x34, b: 0x56 });
}

#[test]
fn to_u32_packs_channels() {
    assert_eq!(Color::new(0x12, 0x34, 0x56).to_u32(), 0x123456);
    assert_eq!(Color::new(255, 255, 255).to_u32(), 0xFFFFFF);
    assert_eq!(Color::black().to_u32(), 0);
}

#[test]
fn hex_round_trip() {
    for hex in [0u32, 1, 0xFF, 0x100, 0xFFFF, 0x10000, 0x87CEEB, 0xFFFFFF] {
        assert_eq!(Color::from_hex(hex).to_u32(), hex);
    }
}

#[test]
fn accumulate_is_the_clamped_sum() {
    let terms = vec![Color::new(200, 1, 0), Color::new(100, 1, 0), Color::new(0, 1, 5)];
    let total = accumulate(Color::new(10, 10, 10), &terms);
    assert_eq!(total, Color { r: 255, g: 13, b: 15 });
}

#[test]
fn accumulate_of_nothing_is_the_base() {
    let base = Color::new(15, 15, 15);
    assert_eq!(accumulate(base, &[]), base);
}

#[test]
fn accumulate_does_not_depend_on_order() {
    let a = Color::new(200, 1, 90);
    let b = Color::new(100, 2, 90);
    let c = Color::new(3, 3, 90);
    let base = Color::new(15, 15, 15);
    assert_eq!(accumulate(base, &[a, b, c]), accumulate(base, &[c, a, b]));
    assert_eq!(accumulate(base, &[a, b, c]), Color { r: 255, g: 21, b: 255 });
}

#[test]
fn clamp_color_changes_nothing() {
    let c = Color::new(0, 128, 255);
    assert_eq!(clamp_color(c), c);
}

#[test]
fn black_terms_leave_the_ambient_light() {
    let ambient = Color::new(15, 15, 15);
    assert_eq!(accumulate(ambient, &[Color::black(), Color::black()]), ambient);
}

#[test]
fn light_never_darkens() {
    let base = Color::new(15, 200, 255);
    let total = accumulate(base, &[Color::new(1, 100, 0), Color::new(0, 0, 9)]);
    assert_eq!(total, Color { r: 16, g: 255, b: 255 });
    assert!(total.r >= base.r && total.g >= base.g && total.b >= base.b);
}
