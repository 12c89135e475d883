//! A deterministic coherent-noise provider over fixed-point coordinates.
//!
//! The sampler hashes the corners of the unit lattice cell that contains the
//! sample point and interpolates the corner values with the fractional part
//! of each coordinate, so nearby points get nearby values. It is a pure
//! function of the seed and the coordinates — the same arguments always give
//! the same value — and every sample lies in `[-1000, 1000]` (the fixed-point
//! range for `[-1, 1]`).

use vstd::prelude::*;

verus! {

/// Lattice cell index of a raw coordinate (one cell per real unit).
pub open spec fn spec_cell(v: int) -> int {
    v / 1000
}

/// Position inside the cell, in `[0, 1000)`.
pub open spec fn spec_frac(v: int) -> int {
    v % 1000
}

/// The corner value in `[0, 1000]` that the seed assigns to a 2D lattice
/// point: a modular mix of the shifted coordinates.
pub open spec fn spec_corner2(seed: int, cx: int, cy: int) -> int {
    let a: int = (cx + 9223372036854775808) % 1000003;
    let b: int = (cy + 9223372036854775808) % 999983;
    let s: int = seed % 998651;
    let q: int = (a * 73856093 + b * 19349663 + s * 83492791) % 1000003;
    (q * q + q * 7919) % 1001
}

/// The corner value for a 3D lattice point.
pub open spec fn spec_corner3(seed: int, cx: int, cy: int, cz: int) -> int {
    let a: int = (cx + 9223372036854775808) % 1000003;
    let b: int = (cy + 9223372036854775808) % 999983;
    let c: int = (cz + 9223372036854775808) % 999979;
    let s: int = seed % 998651;
    let q: int = (a * 73856093 + b * 19349663 + c * 68476121 + s * 83492791) % 1000003;
    (q * q + q * 7919) % 1001
}

/// Linear interpolation between two corner values by a fraction in
/// thousandths.
pub open spec fn spec_lerp_n(a: int, b: int, t: int) -> int {
    (a * (1000 - t) + b * t) / 1000
}

/// A 2D noise sample: bilinear interpolation of the four cell corners,
/// mapped into `[-1000, 1000]`.
pub open spec fn spec_noise2(seed: int, x: int, y: int) -> int {
    let cx: int = spec_cell(x);
    let tx: int = spec_frac(x);
    let cy: int = spec_cell(y);
    let ty: int = spec_frac(y);
    let n0: int = spec_lerp_n(spec_corner2(seed, cx, cy), spec_corner2(seed, cx + 1, cy), tx);
    let n1: int = spec_lerp_n(
        spec_corner2(seed, cx, cy + 1),
        spec_corner2(seed, cx + 1, cy + 1),
        tx,
    );
    2 * spec_lerp_n(n0, n1, ty) - 1000
}

/// A 3D noise sample: trilinear interpolation of the eight cell corners,
/// mapped into `[-1000, 1000]`.
pub open spec fn spec_noise3(seed: int, x: int, y: int, z: int) -> int {
    let cx: int = spec_cell(x);
    let tx: int = spec_frac(x);
    let cy: int = spec_cell(y);
    let ty: int = spec_frac(y);
    let cz: int = spec_cell(z);
    let tz: int = spec_frac(z);
    let n00: int = spec_lerp_n(
        spec_corner3(seed, cx, cy, cz),
        spec_corner3(seed, cx + 1, cy, cz),
        tx,
    );
    let n10: int = spec_lerp_n(
        spec_corner3(seed, cx, cy + 1, cz),
        spec_corner3(seed, cx + 1, cy + 1, cz),
        tx,
    );
    let n01: int = spec_lerp_n(
        spec_corner3(seed, cx, cy, cz + 1),
        spec_corner3(seed, cx + 1, cy, cz + 1),
        tx,
    );
    let n11: int = spec_lerp_n(
        spec_corner3(seed, cx, cy + 1, cz + 1),
        spec_corner3(seed, cx + 1, cy + 1, cz + 1),
        tx,
    );
    let m0: int = spec_lerp_n(n00, n10, ty);
    let m1: int = spec_lerp_n(n01, n11, ty);
    2 * spec_lerp_n(m0, m1, tz) - 1000
}

/// The 2D sample saturated into its `i64` range (it always lies in
/// `[-1000, 1000]`).
pub open spec fn spec_noise2_64(seed: u64, x: i64, y: i64) -> i64 {
    spec_noise2(seed as int, x as int, y as int) as i64
}

pub open spec fn spec_noise3_64(seed: u64, x: i64, y: i64, z: i64) -> i64 {
    spec_noise3(seed as int, x as int, y as int, z as int) as i64
}

/// Euclidean cell index and in-cell fraction of a raw coordinate.
fn cell_frac(x: i64) -> (res: (i64, u64))
    ensures
        res.0 as int == spec_cell(x as int),
        res.1 as int == spec_frac(x as int),
        res.1 < 1000,
        -9223372036854776 <= res.0 <= 9223372036854775,
{
    if x >= 0 {
        let u: u64 = x as u64;
        ((u / 1000) as i64, u % 1000)
    } else {
        let n: u128 = (-(x as i128)) as u128;
        let q: u128 = n / 1000;
        let r: u128 = n % 1000;
        proof {
            let xi: int = x as int;
            let ni: int = n as int;
            vstd::arithmetic::div_mod::lemma_fundamental_div_mod(ni, 1000);
            if r == 0 {
                vstd::arithmetic::div_mod::lemma_fundamental_div_mod_converse(
                    xi,
                    1000,
                    -(ni / 1000),
                    0,
                );
            } else {
                vstd::arithmetic::div_mod::lemma_fundamental_div_mod_converse(
                    xi,
                    1000,
                    -(ni / 1000) - 1,
                    1000 - (r as int),
                );
            }
        }
        if r == 0 {
            (-(q as i64), 0)
        } else {
            ((-(q as i128) - 1) as i64, (1000 - r) as u64)
        }
    }
}

fn corner2(seed: u64, cx: i64, cy: i64) -> (h: u64)
    ensures
        h as int == spec_corner2(seed as int, cx as int, cy as int),
        h <= 1000,
{
    let ax: u128 = ((cx as i128) + 9223372036854775808) as u128;
    let ay: u128 = ((cy as i128) + 9223372036854775808) as u128;
    let a: u64 = (ax % 1000003) as u64;
    let b: u64 = (ay % 999983) as u64;
    let s: u64 = seed % 998651;
    let t: u64 = a * 73856093 + b * 19349663 + s * 83492791;
    let q: u64 = t % 1000003;
    proof {
        assert(q * q <= 1000002 * 1000002) by (nonlinear_arith)
            requires
                0 <= q <= 1000002,
        ;
    }
    (q * q + q * 7919) % 1001
}

fn corner3(seed: u64, cx: i64, cy: i64, cz: i64) -> (h: u64)
    ensures
        h as int == spec_corner3(seed as int, cx as int, cy as int, cz as int),
        h <= 1000,
{
    let ax: u128 = ((cx as i128) + 9223372036854775808) as u128;
    let ay: u128 = ((cy as i128) + 9223372036854775808) as u128;
    let az: u128 = ((cz as i128) + 9223372036854775808) as u128;
    let a: u64 = (ax % 1000003) as u64;
    let b: u64 = (ay % 999983) as u64;
    let c: u64 = (az % 999979) as u64;
    let s: u64 = seed % 998651;
    let t: u64 = a * 73856093 + b * 19349663 + c * 68476121 + s * 83492791;
    let q: u64 = t % 1000003;
    proof {
        assert(q * q <= 1000002 * 1000002) by (nonlinear_arith)
            requires
                0 <= q <= 1000002,
        ;
    }
    (q * q + q * 7919) % 1001
}

fn lerp_n(a: u64, b: u64, t: u64) -> (r: u64)
    requires
        a <= 1000,
        b <= 1000,
        t < 1000,
    ensures
        r as int == spec_lerp_n(a as int, b as int, t as int),
        r <= 1000,
{
    proof {
        assert(a * (1000 - t) <= 1000000) by (nonlinear_arith)
            requires
                0 <= a <= 1000,
                0 <= t < 1000,
        ;
        assert(b * t <= 1000000) by (nonlinear_arith)
            requires
                0 <= b <= 1000,
                0 <= t < 1000,
        ;
        assert(a * (1000 - t) + b * t <= 1000000) by (nonlinear_arith)
            requires
                0 <= a <= 1000,
                0 <= b <= 1000,
                0 <= t < 1000,
        ;
    }
    let num: u64 = a * (1000 - t) + b * t;
    num / 1000
}

/// A 2D noise sample in `[-1000, 1000]`, a pure function of seed and
/// coordinates.
pub fn noise2(seed: u64, x: i64, y: i64) -> (n: i64)
    ensures
        n as int == spec_noise2(seed as int, x as int, y as int),
        n == spec_noise2_64(seed, x, y),
        -1000 <= n <= 1000,
{
    let (cx, tx) = cell_frac(x);
    let (cy, ty) = cell_frac(y);
    let v00: u64 = corner2(seed, cx, cy);
    let v10: u64 = corner2(seed, cx + 1, cy);
    let v01: u64 = corner2(seed, cx, cy + 1);
    let v11: u64 = corner2(seed, cx + 1, cy + 1);
    let n0: u64 = lerp_n(v00, v10, tx);
    let n1: u64 = lerp_n(v01, v11, tx);
    let v: u64 = lerp_n(n0, n1, ty);
    2 * (v as i64) - 1000
}

/// A 3D noise sample in `[-1000, 1000]`, a pure function of seed and
/// coordinates.
pub fn noise3(seed: u64, x: i64, y: i64, z: i64) -> (n: i64)
    ensures
        n as int == spec_noise3(seed as int, x as int, y as int, z as int),
        n == spec_noise3_64(seed, x, y, z),
        -1000 <= n <= 1000,
{
    let (cx, tx) = cell_frac(x);
    let (cy, ty) = cell_frac(y);
    let (cz, tz) = cell_frac(z);
    let v000: u64 = corner3(seed, cx, cy, cz);
    let v100: u64 = corner3(seed, cx + 1, cy, cz);
    let v010: u64 = corner3(seed, cx, cy + 1, cz);
    let v110: u64 = corner3(seed, cx + 1, cy + 1, cz);
    let v001: u64 = corner3(seed, cx, cy, cz + 1);
    let v101: u64 = corner3(seed, cx + 1, cy, cz + 1);
    let v011: u64 = corner3(seed, cx, cy + 1, cz + 1);
    let v111: u64 = corner3(seed, cx + 1, cy + 1, cz + 1);
    let n00: u64 = lerp_n(v000, v100, tx);
    let n10: u64 = lerp_n(v010, v110, tx);
    let n01: u64 = lerp_n(v001, v101, tx);
    let n11: u64 = lerp_n(v011, v111, tx);
    let m0: u64 = lerp_n(n00, n10, ty);
    let m1: u64 = lerp_n(n01, n11, ty);
    let v: u64 = lerp_n(m0, m1, tz);
    2 * (v as i64) - 1000
}

} // verus!
