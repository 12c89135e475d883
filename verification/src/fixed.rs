//! Fixed-point scalars in thousandths.
//!
//! A raw value `v: i64` stands for the real number `v / 1000`. Every
//! operation truncates toward zero and saturates into
//! `[-FX_MAX, FX_MAX]`, so all of them are total: no overflow, no panic,
//! and the result is a pure function of the arguments.

use vstd::prelude::*;

verus! {

/// Raw units per real unit.
pub const FX_SCALE: i64 = 1000;

/// The raw representation of the real number one.
pub const FX_ONE: i64 = 1000;

/// Largest raw magnitude a fixed-point operation returns (one billion in
/// real units); results beyond it saturate.
pub const FX_MAX: i64 = 1_000_000_000_000;

/// Magnitude of an integer.
pub open spec fn iabs(a: int) -> int {
    if a < 0 {
        -a
    } else {
        a
    }
}

/// Saturation of a non-negative magnitude into the fixed-point range.
pub open spec fn cap_mag(m: int) -> int {
    if m > FX_MAX {
        FX_MAX as int
    } else {
        m
    }
}

/// Saturating clamp of a signed value into `[-FX_MAX, FX_MAX]`.
pub open spec fn sat_fx(v: int) -> int {
    if v > FX_MAX {
        FX_MAX as int
    } else if v < -(FX_MAX as int) {
        -(FX_MAX as int)
    } else {
        v
    }
}

/// What fixed-point multiplication returns: the product of the two real
/// numbers, truncated toward zero at the third decimal, saturated.
pub open spec fn spec_fx_mul(a: int, b: int) -> int {
    let m: int = cap_mag((iabs(a) * iabs(b)) / (FX_SCALE as int));
    if (a < 0) != (b < 0) {
        -m
    } else {
        m
    }
}

/// What fixed-point division returns; a divisor of zero yields zero (the
/// library's defined degenerate value, in place of a non-finite result).
pub open spec fn spec_fx_div(a: int, b: int) -> int {
    if b == 0 {
        0
    } else {
        let m: int = cap_mag((iabs(a) * (FX_SCALE as int)) / iabs(b));
        if (a < 0) != (b < 0) {
            -m
        } else {
            m
        }
    }
}

pub open spec fn spec_fx_add(a: int, b: int) -> int {
    sat_fx(a + b)
}

pub open spec fn spec_fx_sub(a: int, b: int) -> int {
    sat_fx(a - b)
}

pub open spec fn spec_fx_abs(a: int) -> int {
    cap_mag(iabs(a))
}

pub open spec fn spec_fx_min(a: int, b: int) -> int {
    if a <= b {
        a
    } else {
        b
    }
}

/// Truncated remainder by one real unit, with the sign of the dividend
/// (the remainder convention of hardware division).
pub open spec fn spec_fx_rem1(v: int) -> int {
    if v < 0 {
        -(iabs(v) % 1000)
    } else {
        v % 1000
    }
}

/// A plain integer count lifted to a fixed-point value.
pub open spec fn spec_fx_from_int(t: int) -> int {
    sat_fx(t * 1000)
}

/// Fixed-point values saturated into range, as `i64` results.
pub open spec fn spec_fx_mul64(a: i64, b: i64) -> i64 {
    spec_fx_mul(a as int, b as int) as i64
}

pub open spec fn spec_fx_div64(a: i64, b: i64) -> i64 {
    spec_fx_div(a as int, b as int) as i64
}

pub open spec fn spec_fx_add64(a: i64, b: i64) -> i64 {
    spec_fx_add(a as int, b as int) as i64
}

pub open spec fn spec_fx_sub64(a: i64, b: i64) -> i64 {
    spec_fx_sub(a as int, b as int) as i64
}

pub open spec fn spec_fx_abs64(a: i64) -> i64 {
    spec_fx_abs(a as int) as i64
}

pub open spec fn spec_fx_min64(a: i64, b: i64) -> i64 {
    spec_fx_min(a as int, b as int) as i64
}

pub open spec fn spec_fx_rem164(v: i64) -> i64 {
    spec_fx_rem1(v as int) as i64
}

pub open spec fn spec_fx_from_int64(t: i64) -> i64 {
    spec_fx_from_int(t as int) as i64
}

pub open spec fn spec_fx_clamp64(a: i64) -> i64 {
    sat_fx(a as int) as i64
}

/// The byte that a non-negative fixed-point fraction `v` maps to:
/// `v * 255`, truncated, clamped into `[0, 255]` (the saturating narrowing
/// of a scaled fraction to an 8-bit channel).
pub open spec fn spec_byte_of_fx(v: int) -> u8 {
    if v <= 0 {
        0u8
    } else if (v * 255) / 1000 > 255 {
        255u8
    } else {
        ((v * 255) / 1000) as u8
    }
}

/// Multiplying by the fixed-point one changes nothing, for any in-range
/// value.
pub proof fn lemma_fx_mul_one(b: i64)
    requires
        -FX_MAX <= b <= FX_MAX,
    ensures
        spec_fx_mul64(1000, b) == b,
{
    vstd::arithmetic::div_mod::lemma_div_multiples_vanish(iabs(b as int), 1000);
}

/// Multiplying by zero gives zero.
pub proof fn lemma_fx_mul_zero_left(b: i64)
    ensures
        spec_fx_mul64(0, b) == 0,
{
    assert(iabs(0) == 0);
    assert(iabs(0) * iabs(b as int) == 0);
    vstd::arithmetic::div_mod::lemma_div_of0(1000);
    assert((iabs(0) * iabs(b as int)) / (FX_SCALE as int) == 0);
}

fn mag64(a: i64) -> (m: u64)
    ensures
        m == iabs(a as int),
{
    if a >= 0 {
        a as u64
    } else {
        (-(a as i128)) as u64
    }
}

fn cap_signed(neg: bool, m: u128) -> (r: i64)
    ensures
        r as int == if neg {
            -cap_mag(m as int)
        } else {
            cap_mag(m as int)
        },
{
    let c: u128 = if m > FX_MAX as u128 {
        FX_MAX as u128
    } else {
        m
    };
    if neg {
        -(c as i64)
    } else {
        c as i64
    }
}

/// Fixed-point multiplication, truncating toward zero, saturating.
pub fn fx_mul(a: i64, b: i64) -> (r: i64)
    ensures
        r == spec_fx_mul64(a, b),
        -FX_MAX <= r <= FX_MAX,
{
    let ma: u128 = mag64(a) as u128;
    let mb: u128 = mag64(b) as u128;
    proof {
        vstd::arithmetic::mul::lemma_mul_upper_bound(
            ma as int,
            0xFFFF_FFFF_FFFF_FFFFint,
            mb as int,
            0xFFFF_FFFF_FFFF_FFFFint,
        );
    }
    let p: u128 = ma * mb;
    let q: u128 = p / (FX_SCALE as u128);
    cap_signed((a < 0) != (b < 0), q)
}

/// Fixed-point division, truncating toward zero, saturating; division by
/// zero returns zero.
pub fn fx_div(a: i64, b: i64) -> (r: i64)
    ensures
        r == spec_fx_div64(a, b),
        -FX_MAX <= r <= FX_MAX,
{
    if b == 0 {
        0
    } else {
        let ma: u128 = mag64(a) as u128;
        let mb: u128 = mag64(b) as u128;
        let q: u128 = (ma * 1000) / mb;
        cap_signed((a < 0) != (b < 0), q)
    }
}

/// Saturating fixed-point addition.
pub fn fx_add(a: i64, b: i64) -> (r: i64)
    ensures
        r == spec_fx_add64(a, b),
        -FX_MAX <= r <= FX_MAX,
{
    let s: i128 = a as i128 + b as i128;
    if s > FX_MAX as i128 {
        FX_MAX
    } else if s < -(FX_MAX as i128) {
        -FX_MAX
    } else {
        s as i64
    }
}

/// Saturating fixed-point subtraction.
pub fn fx_sub(a: i64, b: i64) -> (r: i64)
    ensures
        r == spec_fx_sub64(a, b),
        -FX_MAX <= r <= FX_MAX,
{
    let s: i128 = a as i128 - b as i128;
    if s > FX_MAX as i128 {
        FX_MAX
    } else if s < -(FX_MAX as i128) {
        -FX_MAX
    } else {
        s as i64
    }
}

/// Magnitude of a fixed-point value, saturated.
pub fn fx_abs(a: i64) -> (r: i64)
    ensures
        r == spec_fx_abs64(a),
        0 <= r <= FX_MAX,
{
    cap_signed(false, mag64(a) as u128)
}

/// The smaller of two fixed-point values.
pub fn fx_min(a: i64, b: i64) -> (r: i64)
    ensures
        r == spec_fx_min64(a, b),
{
    if a <= b {
        a
    } else {
        b
    }
}

/// Truncated remainder by one real unit, keeping the dividend's sign.
pub fn fx_rem1(v: i64) -> (r: i64)
    ensures
        r == spec_fx_rem164(v),
        -1000 < r < 1000,
{
    if v >= 0 {
        ((v as u64) % 1000) as i64
    } else {
        -((((-(v as i128)) as u128) % 1000) as i64)
    }
}

/// A plain integer count as a fixed-point value, saturated.
pub fn fx_from_int(t: i64) -> (r: i64)
    ensures
        r == spec_fx_from_int64(t),
        -FX_MAX <= r <= FX_MAX,
{
    let s: i128 = (t as i128) * 1000;
    if s > FX_MAX as i128 {
        FX_MAX
    } else if s < -(FX_MAX as i128) {
        -FX_MAX
    } else {
        s as i64
    }
}

/// Clamp an arbitrary raw value into the fixed-point range.
pub fn fx_clamp(a: i64) -> (r: i64)
    ensures
        r == spec_fx_clamp64(a),
        -FX_MAX <= r <= FX_MAX,
{
    if a > FX_MAX {
        FX_MAX
    } else if a < -FX_MAX {
        -FX_MAX
    } else {
        a
    }
}

/// The byte a non-negative fixed-point fraction maps to.
pub fn byte_of_fx(v: i64) -> (r: u8)
    ensures
        r == spec_byte_of_fx(v as int),
{
    if v <= 0 {
        0
    } else {
        let m: u128 = ((v as u128) * 255) / 1000;
        if m > 255 {
            255
        } else {
            m as u8
        }
    }
}

} // verus!
