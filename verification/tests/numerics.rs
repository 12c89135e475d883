//! The fixed-point scalar algebra, the sine approximation, and the noise
//! sampler.

use shading::fixed::{byte_of_fx, fx_abs, fx_add, fx_div, fx_min, fx_mul, fx_rem1, fx_sub, FX_MAX};
use shading::noise::{noise2, noise3};
use shading::trig::{cos_fx, sin_fx};

#[test]
fn fixed_multiply_truncates_toward_zero() {
    assert_eq!(fx_mul(2000, 3000), 6000);
    assert_eq!(fx_mul(1, 1), 0);
    assert_eq!(fx_mul(-1500, 1000), -1500);
    assert_eq!(fx_mul(-999, 999), -998);
    assert_eq!(fx_mul(999, 999), 998);
}

#[test]
fn fixed_add_and_sub_saturate() {
    assert_eq!(fx_add(FX_MAX, FX_MAX), FX_MAX);
    assert_eq!(fx_sub(-FX_MAX, FX_MAX), -FX_MAX);
    assert_eq!(fx_add(1500, -2500), -1000);
}

#[test]
fn fixed_divide_by_zero_is_zero() {
    assert_eq!(fx_div(123456, 0), 0);
}

#[test]
fn fixed_divide_truncates() {
    assert_eq!(fx_div(1000, 2000), 500);
    assert_eq!(fx_div(1000, 3000), 333);
    assert_eq!(fx_div(-1000, 3000), -333);
}

#[test]
fn fixed_abs_min_and_remainder() {
    assert_eq!(fx_abs(-2500), 2500);
    assert_eq!(fx_min(2000, 1000), 1000);
    assert_eq!(fx_rem1(1500), 500);
    assert_eq!(fx_rem1(-1500), -500);
}

#[test]
fn byte_mapping_clamps_both_ends() {
    assert_eq!(byte_of_fx(-5), 0);
    assert_eq!(byte_of_fx(0), 0);
    assert_eq!(byte_of_fx(500), 127);
    assert_eq!(byte_of_fx(1000), 255);
    assert_eq!(byte_of_fx(2000), 255);
}

#[test]
fn sine_hits_the_exact_anchor_points() {
    assert_eq!(sin_fx(0), 0);
    assert_eq!(sin_fx(1571), 1000);
    assert_eq!(sin_fx(3142), 0);
    assert_eq!(sin_fx(4713), -1000);
    assert_eq!(sin_fx(-1571), -1000);
    assert_eq!(cos_fx(0), 1000);
    assert_eq!(cos_fx(3142), -1000);
}

#[test]
fn sine_stays_in_range_and_repeats_each_turn() {
    let mut x: i64 = -20000;
    while x <= 20000 {
        let s = sin_fx(x);
        assert!(-1000 <= s && s <= 1000);
        assert_eq!(s, sin_fx(x + 6284));
        x += 137;
    }
}

#[test]
fn noise_is_deterministic() {
    assert_eq!(noise2(42, 12345, -6789), noise2(42, 12345, -6789));
    assert_eq!(noise3(42, 1, 2, 3), noise3(42, 1, 2, 3));
}

#[test]
fn noise_stays_in_range() {
    let mut x: i64 = -5000;
    while x <= 5000 {
        let n2 = noise2(7, x, 3 * x + 11);
        let n3 = noise3(7, x, x - 999, 2 * x);
        assert!(-1000 <= n2 && n2 <= 1000);
        assert!(-1000 <= n3 && n3 <= 1000);
        x += 313;
    }
}

#[test]
fn noise_varies_with_seed_and_position() {
    let base = noise2(1, 100, 100);
    let mut differs = false;
    for seed in 2..20u64 {
        if noise2(seed, 100, 100) != base {
            differs = true;
        }
    }
    assert!(differs);
}
