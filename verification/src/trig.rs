//! Sine and cosine over fixed-point radians.
//!
//! Angles are raw thousandths of a radian; a full turn is `TAU_FX` with the
//! circle constant rounded to 3.142. On `[0, pi]` the sine is Bhaskara's
//! rational approximation `16 y (pi - y) / (5 pi^2 - 4 y (pi - y))`, scaled
//! to thousandths; it is exact at 0, at the peak, and at pi, and the second
//! half-turn is its mirror image. Both functions are total and return values
//! in `[-1000, 1000]`.

use vstd::prelude::*;

verus! {

/// Half a turn, in raw thousandths of a radian.
pub const PI_FX: i64 = 3142;

/// A full turn.
pub const TAU_FX: i64 = 6284;

/// A quarter turn.
pub const HALF_PI_FX: i64 = 1571;

/// Bhaskara's sine on the first half-turn, `0 <= y <= 3142`, in thousandths.
pub open spec fn spec_half_sin(y: int) -> int
    recommends
        0 <= y <= 3142,
{
    let p: int = y * (3142 - y);
    (16000 * p) / (49360820 - 4 * p)
}

/// The sine of a raw angle: reduce into one turn, mirror the second half.
pub open spec fn spec_sin_fx(x: int) -> int {
    let y: int = x % 6284;
    if y < 3142 {
        spec_half_sin(y)
    } else {
        -spec_half_sin(y - 3142)
    }
}

/// The cosine: the sine a quarter turn ahead.
pub open spec fn spec_cos_fx(x: int) -> int {
    spec_sin_fx(x + 1571)
}

/// The sine saturated into its `i64` range (it always lies in
/// `[-1000, 1000]`).
pub open spec fn spec_sin_fx64(x: i64) -> i64 {
    spec_sin_fx(x as int) as i64
}

pub open spec fn spec_cos_fx64(x: i64) -> i64 {
    spec_cos_fx(x as int) as i64
}

/// Euclidean remainder of a raw angle by one turn.
fn reduce_tau(x: i64) -> (y: u64)
    ensures
        y as int == (x as int) % 6284,
        y < 6284,
{
    if x >= 0 {
        (x as u64) % 6284
    } else {
        let n: u128 = (-(x as i128)) as u128;
        let m: u64 = (n % 6284) as u64;
        proof {
            let xi: int = x as int;
            let ni: int = n as int;
            vstd::arithmetic::div_mod::lemma_fundamental_div_mod(ni, 6284);
            let q: int = ni / 6284;
            if m == 0 {
                vstd::arithmetic::div_mod::lemma_fundamental_div_mod_converse(xi, 6284, -q, 0);
            } else {
                vstd::arithmetic::div_mod::lemma_fundamental_div_mod_converse(
                    xi,
                    6284,
                    -q - 1,
                    6284 - m,
                );
            }
        }
        if m == 0 {
            0
        } else {
            6284 - m
        }
    }
}

fn half_sin(y: u64) -> (r: u64)
    requires
        y <= 3142,
    ensures
        r as int == spec_half_sin(y as int),
        r <= 1000,
{
    let d: u64 = 3142 - y;
    proof {
        assert(y * d <= 2468041) by (nonlinear_arith)
            requires
                0 <= y <= 3142,
                d == 3142 - y,
        ;
    }
    let p: u64 = y * d;
    let num: u64 = 16000 * p;
    let den: u64 = 49360820 - 4 * p;
    let r: u64 = num / den;
    proof {
        assert(num <= 1000 * den);
        vstd::arithmetic::div_mod::lemma_div_is_ordered(num as int, 1000 * (den as int), den as int);
        vstd::arithmetic::div_mod::lemma_div_by_multiple(1000, den as int);
    }
    r
}

/// The sine of a raw fixed-point angle, in `[-1000, 1000]`.
pub fn sin_fx(x: i64) -> (r: i64)
    ensures
        r as int == spec_sin_fx(x as int),
        r == spec_sin_fx64(x),
        -1000 <= r <= 1000,
{
    let y: u64 = reduce_tau(x);
    if y < 3142 {
        half_sin(y) as i64
    } else {
        -(half_sin(y - 3142) as i64)
    }
}

/// The cosine of a raw fixed-point angle, in `[-1000, 1000]`.
pub fn cos_fx(x: i64) -> (r: i64)
    ensures
        r as int == spec_cos_fx(x as int),
        r == spec_cos_fx64(x),
        -1000 <= r <= 1000,
{
    let y: u64 = reduce_tau(x);
    let r: i64 = sin_fx((y + 1571) as i64);
    proof {
        vstd::arithmetic::div_mod::lemma_add_mod_noop(x as int, 1571, 6284);
        vstd::arithmetic::div_mod::lemma_small_mod(1571nat, 6284nat);
    }
    r
}

} // verus!
