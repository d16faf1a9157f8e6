use kolibri_embedded_gui::slider::{lerp_fixed, snap_to_step, Slider};

#[test]
fn test_lerp_fixed_basic() {
    let start = 0;
    let end = 100;
    let t = 50;
    let min_t = 0;
    let max_t = 100;
    assert_eq!(lerp_fixed(start, end, t, min_t, max_t), 50);
}

#[test]
fn test_lerp_fixed_clamp_low() {
    let start = 0;
    let end = 100;
    let t = -10;
    let min_t = 0;
    let max_t = 100;
    assert_eq!(lerp_fixed(start, end, t, min_t, max_t), 0);
}

#[test]
fn test_lerp_fixed_clamp_high() {
    let start = 0;
    let end = 100;
    let t = 110;
    let min_t = 0;
    let max_t = 100;
    assert_eq!(lerp_fixed(start, end, t, min_t, max_t), 100);
}

#[test]
fn test_lerp_fixed_negative_range() {
    let start = -50;
    let end = 50;
    let t = 0;
    let min_t = -50;
    let max_t = 50;
    assert_eq!(lerp_fixed(start, end, t, min_t, max_t), 0);
}

#[test]
fn test_lerp_fixed_negative_t() {
    let start = 0;
    let end = 200;
    let t = -25;
    let min_t = -50;
    let max_t = 50;
    assert_eq!(lerp_fixed(start, end, t, min_t, max_t), 50);
}

#[test]
fn test_lerp_fixed_max_t_equals_min_t() {
    let start = 100;
    let end = 200;
    let t = 100;
    let min_t = 100;
    let max_t = 100;
    assert_eq!(lerp_fixed(start, end, t, min_t, max_t), 100);
}

#[test]
fn test_lerp_fixed_halfway_negative_range() {
    let start = -100;
    let end = 100;
    let t = 0;
    let min_t = -100;
    let max_t = 100;
    assert_eq!(lerp_fixed(start, end, t, min_t, max_t), 0);
}

#[test]
fn test_lerp_fixed_rounding() {
    let start = 0;
    let end = 100;
    let t = 33;
    let min_t = 0;
    let max_t = 100;
    // Expected: 0 + ((100 - 0) * 33 + 50) / 100 = (3300 + 50)/100 = 3350/100 = 33
    assert_eq!(lerp_fixed(start, end, t, min_t, max_t), 33);

    let t = 34;
    // Expected: (3400 + 50)/100 = 3450/100 = 34
    assert_eq!(lerp_fixed(start, end, t, min_t, max_t), 34);
}

#[test]
fn test_lerp_fixed_full_range() {
    let start = -32768;
    let end = 32767;
    let t = 0;
    let min_t = -32768;
    let max_t = 32767;
    assert_eq!(lerp_fixed(start, end, t, min_t, max_t), 0);
}

#[test]
fn lerp_fixed_over_the_full_range() {
    assert_eq!(lerp_fixed(-32768, 32767, 32767, -32768, 32767), 32767);
    assert_eq!(lerp_fixed(-32768, 32767, -32768, -32768, 32767), -32768);
    assert_eq!(lerp_fixed(-32768, 32767, 0, -32768, 32767), 0);
}

#[test]
fn lerp_fixed_decreasing_range() {
    assert_eq!(lerp_fixed(100, 0, 25, 0, 100), 76);
    assert_eq!(lerp_fixed(100, 0, 0, 0, 100), 100);
}

#[test]
fn lerp_fixed_inverted_input_range() {
    // with min_t above max_t the input is clamped to one of the two ends
    assert_eq!(lerp_fixed(0, 100, 0, 10, 0), 0);
    assert_eq!(lerp_fixed(0, 100, 20, 10, 0), 100);
}

#[test]
fn snap_to_step_moves_to_nearer_step() {
    assert_eq!(snap_to_step(42, 10, 0, 100), Some(40));
    assert_eq!(snap_to_step(45, 10, 0, 100), Some(50));
    assert_eq!(snap_to_step(-7, 5, -20, 20), Some(-5));
    assert_eq!(snap_to_step(98, 10, 0, 99), Some(99));
}

#[test]
fn snap_to_step_refuses_empty_or_huge_range() {
    assert_eq!(snap_to_step(5, 1, 5, 5), None);
    assert_eq!(snap_to_step(0, 1, -32768, 32767), None);
}

#[test]
fn slider_new_takes_range_ends() {
    let mut value: i16 = 3;
    let slider = Slider::new(&mut value, -10..=10).step_size(4).width(120);
    drop(slider);
    assert_eq!(value, 3);
}
