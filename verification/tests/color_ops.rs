//! Color algebra: blending endpoints, clamping, scaling.

use shading::color::Color;

#[test]
fn lerp_at_zero_returns_first_color_exactly() {
    let a = Color::new(130, 20, 0);
    let b = Color::new(255, 240, 0);
    assert_eq!(a.lerp(&b, 0), a);
}

#[test]
fn lerp_at_one_returns_second_color_exactly() {
    let a = Color::new(130, 20, 0);
    let b = Color::new(255, 240, 0);
    assert_eq!(a.lerp(&b, 1000), b);
}

#[test]
fn lerp_midpoint_blends_channels() {
    let a = Color::new(100, 0, 200);
    let b = Color::new(200, 100, 0);
    assert_eq!(a.lerp(&b, 500), Color::new(150, 50, 100));
}

#[test]
fn lerp_below_zero_clamps_at_black() {
    let a = Color::new(10, 0, 5);
    let b = Color::new(255, 255, 255);
    // t = -2: every channel heads far below zero and clamps to 0.
    assert_eq!(a.lerp(&b, -2000), Color::new(0, 0, 0));
}

#[test]
fn lerp_above_one_clamps_at_white_side() {
    let a = Color::new(100, 100, 100);
    let b = Color::new(200, 200, 200);
    // t = 3: 100 + 100 * 3 = 400, clamped to 255.
    assert_eq!(a.lerp(&b, 3000), Color::new(255, 255, 255));
}

#[test]
fn lerp_mild_negative_t_extrapolates_without_wrap() {
    let a = Color::new(100, 100, 100);
    let b = Color::new(200, 200, 200);
    // t = -0.5: 100 - 100 / 2 = 50, still in range.
    assert_eq!(a.lerp(&b, -500), Color::new(50, 50, 50));
}

#[test]
fn scale_by_one_is_identity() {
    let c = Color::new(0, 255, 128);
    assert_eq!(c.scale(1000), c);
}

#[test]
fn scale_by_half_truncates() {
    let c = Color::new(255, 100, 1);
    assert_eq!(c.scale(500), Color::new(127, 50, 0));
}

#[test]
fn scale_by_zero_is_black() {
    let c = Color::new(255, 255, 255);
    assert_eq!(c.scale(0), Color::new(0, 0, 0));
}

#[test]
fn scale_by_negative_clamps_to_black() {
    let c = Color::new(10, 200, 255);
    assert_eq!(c.scale(-700), Color::new(0, 0, 0));
}

#[test]
fn scale_above_one_clamps_at_255() {
    let c = Color::new(10, 20, 200);
    assert_eq!(c.scale(2000), Color::new(20, 40, 255));
}

#[test]
fn is_black_only_for_all_zero() {
    assert!(Color::new(0, 0, 0).is_black());
    assert!(!Color::new(1, 0, 0).is_black());
    assert!(!Color::new(0, 1, 0).is_black());
    assert!(!Color::new(0, 0, 1).is_black());
}
