//! The fragment dispatcher and the five material shaders.

use shading::color::Color;
use shading::fragment::Fragment;
use shading::linalg::{Mat4, Vec2};
use shading::shaders::{
    cloud_classify, cloud_shader, combined_shader, fragment_shader, gas_shader, lava_shader,
    moving_circles_shader, static_pattern_shader, terrain_shader,
};
use shading::uniforms::Uniforms;

fn mat4_identity() -> Mat4 {
    Mat4 {
        m11: 1000,
        m12: 0,
        m13: 0,
        m14: 0,
        m21: 0,
        m22: 1000,
        m23: 0,
        m24: 0,
        m31: 0,
        m32: 0,
        m33: 1000,
        m34: 0,
        m41: 0,
        m42: 0,
        m43: 0,
        m44: 1000,
    }
}

fn uniforms_at(time: i64) -> Uniforms {
    Uniforms {
        model_matrix: mat4_identity(),
        view_matrix: mat4_identity(),
        projection_matrix: mat4_identity(),
        viewport_matrix: mat4_identity(),
        time,
        noise_seed: 42,
    }
}

fn frag(x: i64, y: i64, depth: i64, intensity: i64) -> Fragment {
    Fragment::new(Vec2 { x, y }, depth, intensity)
}

#[test]
fn dispatch_routes_each_token_to_its_shader() {
    let f = frag(300, 700, 100, 1000);
    let u = uniforms_at(5);
    assert_eq!(fragment_shader(&f, &u, "cloud"), cloud_shader(&f, &u));
    assert_eq!(fragment_shader(&f, &u, "lava"), lava_shader(&f, &u));
    assert_eq!(fragment_shader(&f, &u, "terrain"), terrain_shader(&f));
    assert_eq!(fragment_shader(&f, &u, "gas"), gas_shader(&f, &u));
}

#[test]
fn dispatch_falls_back_to_combined_for_unknown_tokens() {
    let f = frag(300, 700, 100, 1000);
    let u = uniforms_at(5);
    let default = combined_shader(&f, &u);
    assert_eq!(fragment_shader(&f, &u, ""), default);
    assert_eq!(fragment_shader(&f, &u, "LAVA"), default);
    assert_eq!(fragment_shader(&f, &u, "unknown"), default);
    assert_eq!(fragment_shader(&f, &u, "terrain "), default);
}

#[test]
fn terrain_at_origin_is_the_warm_brown_example() {
    // sin(0) + cos(0) = 1, |1| maps to byte 255, then 127 and 63.
    let f = frag(0, 0, 0, 1000);
    assert_eq!(terrain_shader(&f), Color::new(255, 127, 63));
}

#[test]
fn terrain_ignores_time_intensity_and_depth() {
    let a = terrain_shader(&frag(123, -456, 0, 1000));
    let b = terrain_shader(&frag(123, -456, 999, -777));
    assert_eq!(a, b);
}

#[test]
fn gas_at_origin_and_time_zero_is_pure_blue() {
    // ripple = |sin(0)| = 0, so the green channel is zero.
    let f = frag(0, 0, 0, 1000);
    let u = uniforms_at(0);
    assert_eq!(gas_shader(&f, &u), Color::new(0, 0, 255));
}

#[test]
fn gas_scales_with_intensity() {
    let f = frag(0, 0, 0, 500);
    let u = uniforms_at(0);
    assert_eq!(gas_shader(&f, &u), Color::new(0, 0, 127));
}

#[test]
fn cloud_classify_at_half_is_cloud() {
    assert_eq!(cloud_classify(500), Color::new(255, 255, 255));
    assert_eq!(cloud_classify(501), Color::new(255, 255, 255));
}

#[test]
fn cloud_classify_at_one_thousandth_is_sky() {
    assert_eq!(cloud_classify(1), Color::new(30, 97, 145));
    assert_eq!(cloud_classify(0), Color::new(30, 97, 145));
    assert_eq!(cloud_classify(-800), Color::new(30, 97, 145));
}

#[test]
fn cloud_classify_between_thresholds_is_land() {
    assert_eq!(cloud_classify(2), Color::new(0, 100, 0));
    assert_eq!(cloud_classify(499), Color::new(0, 100, 0));
}

#[test]
fn cloud_shader_returns_a_scaled_band_color() {
    let f = frag(640, 360, 0, 1000);
    let u = uniforms_at(9);
    let c = cloud_shader(&f, &u);
    let bands = [Color::new(255, 255, 255), Color::new(0, 100, 0), Color::new(30, 97, 145)];
    assert!(bands.contains(&c));
}

#[test]
fn static_pattern_at_origin_is_green_over_half_blue() {
    // |sin(0) * sin(0)| = 0: red 0, green full, blue constant 128.
    let f = frag(0, 0, 0, 1000);
    assert_eq!(static_pattern_shader(&f), Color::new(0, 255, 128));
}

#[test]
fn circle_center_at_time_zero_is_white() {
    // At time zero the first circle sits at (0.5, 0.3).
    let f = frag(500, 300, 0, 1000);
    let u = uniforms_at(0);
    assert_eq!(moving_circles_shader(&f, &u), Color::new(255, 255, 255));
}

#[test]
fn point_outside_both_circles_is_black() {
    let f = frag(0, 0, 0, 1000);
    let u = uniforms_at(0);
    assert_eq!(moving_circles_shader(&f, &u), Color::new(0, 0, 0));
}

#[test]
fn point_just_inside_circle_edge_is_white() {
    // 0.099 below the center: squared distance 0.009801 < 0.01.
    let f = frag(500, 201, 0, 1000);
    let u = uniforms_at(0);
    assert_eq!(moving_circles_shader(&f, &u), Color::new(255, 255, 255));
}

#[test]
fn point_on_circle_edge_is_black() {
    // Exactly 0.1 below the center: squared distance 0.01 is not inside.
    let f = frag(500, 200, 0, 1000);
    let u = uniforms_at(0);
    assert_eq!(moving_circles_shader(&f, &u), Color::new(0, 0, 0));
}

#[test]
fn combined_prefers_circles_over_pattern() {
    let u = uniforms_at(0);
    let inside = frag(500, 300, 0, 1000);
    assert_eq!(combined_shader(&inside, &u), Color::new(255, 255, 255));
    let outside = frag(0, 0, 0, 1000);
    assert_eq!(combined_shader(&outside, &u), Color::new(0, 255, 128));
}

#[test]
fn combined_scales_with_intensity() {
    let u = uniforms_at(0);
    let inside = frag(500, 300, 0, 500);
    assert_eq!(combined_shader(&inside, &u), Color::new(127, 127, 127));
}

#[test]
fn lava_is_deterministic_and_intensity_zero_is_black() {
    let f = frag(250, 750, 333, 1000);
    let u = uniforms_at(12);
    assert_eq!(lava_shader(&f, &u), lava_shader(&f, &u));
    let dark = frag(250, 750, 333, 0);
    assert_eq!(lava_shader(&dark, &u), Color::new(0, 0, 0));
}

#[test]
fn lava_blends_between_its_two_reference_colors() {
    // The blend factor lies in [-1, 1]; every channel stays inside the
    // segment between dark (130, 20, 0) extrapolated and bright, clamped.
    let f = frag(111, 222, 40, 1000);
    let u = uniforms_at(3);
    let c = lava_shader(&f, &u);
    assert_eq!(c.b, 0);
}
