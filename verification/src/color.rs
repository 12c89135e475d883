//! 8-bit-per-channel RGB colors with a clamping algebra.
//!
//! Channel arithmetic takes fixed-point factors in thousandths. Scaling and
//! blending truncate toward zero and clamp every channel into `[0, 255]`, so
//! an out-of-range factor can never wrap a channel around.

use vstd::prelude::*;
use crate::fixed::iabs;

verus! {

#[derive(Clone, Copy, Debug, PartialEq, Eq, Structural)]
pub struct Color {
    pub r: u8,
    pub g: u8,
    pub b: u8,
}

/// A channel scaled by a fixed-point factor, truncated, clamped to a byte;
/// a factor of zero or less darkens the channel to zero.
pub open spec fn spec_scale_channel(ch: int, f: int) -> u8 {
    if f <= 0 {
        0u8
    } else if (ch * f) / 1000 > 255 {
        255u8
    } else {
        ((ch * f) / 1000) as u8
    }
}

/// The blend `ch + (other - ch) * t` of two channels, truncated toward zero
/// and clamped to a byte; `t` is in thousandths and need not lie in `[0, 1]`.
pub open spec fn spec_lerp_channel(a: int, b: int, t: int) -> u8 {
    let v: int = a * 1000 + (b - a) * t;
    if v < 0 {
        0u8
    } else if v / 1000 > 255 {
        255u8
    } else {
        (v / 1000) as u8
    }
}

pub open spec fn spec_scale(c: Color, f: int) -> Color {
    Color {
        r: spec_scale_channel(c.r as int, f),
        g: spec_scale_channel(c.g as int, f),
        b: spec_scale_channel(c.b as int, f),
    }
}

pub open spec fn spec_lerp(a: Color, b: Color, t: int) -> Color {
    Color {
        r: spec_lerp_channel(a.r as int, b.r as int, t),
        g: spec_lerp_channel(a.g as int, b.g as int, t),
        b: spec_lerp_channel(a.b as int, b.b as int, t),
    }
}

fn scale_channel(ch: u8, f: i64) -> (r: u8)
    ensures
        r == spec_scale_channel(ch as int, f as int),
{
    if f <= 0 {
        0
    } else {
        proof {
            vstd::arithmetic::mul::lemma_mul_upper_bound(
                ch as int,
                255,
                f as int,
                0x7FFF_FFFF_FFFF_FFFFint,
            );
        }
        let m: u128 = ((ch as u128) * (f as u128)) / 1000;
        if m > 255 {
            255
        } else {
            m as u8
        }
    }
}

fn lerp_channel(a: u8, b: u8, t: i64) -> (r: u8)
    ensures
        r == spec_lerp_channel(a as int, b as int, t as int),
{
    proof {
        assert(iabs((b as int - a as int) * (t as int)) <= 255 * 9223372036854775808) by (nonlinear_arith)
            requires
                -255 <= b as int - a as int <= 255,
                -9223372036854775808 <= t as int <= 9223372036854775807,
        ;
    }
    let v: i128 = (a as i128) * 1000 + ((b as i128) - (a as i128)) * (t as i128);
    if v < 0 {
        0
    } else {
        let q: u128 = (v as u128) / 1000;
        if q > 255 {
            255
        } else {
            q as u8
        }
    }
}

impl Color {
    pub fn new(r: u8, g: u8, b: u8) -> (c: Color)
        ensures
            c == (Color { r, g, b }),
    {
        Color { r, g, b }
    }

    pub open spec fn spec_is_black(self) -> bool {
        self.r == 0 && self.g == 0 && self.b == 0
    }

    /// Whether every channel is zero.
    pub fn is_black(&self) -> (res: bool)
        ensures
            res == self.spec_is_black(),
    {
        self.r == 0 && self.g == 0 && self.b == 0
    }

    /// Channel-wise scaling by a fixed-point factor, clamped into `[0, 255]`.
    pub fn scale(&self, f: i64) -> (c: Color)
        ensures
            c == spec_scale(*self, f as int),
    {
        Color {
            r: scale_channel(self.r, f),
            g: scale_channel(self.g, f),
            b: scale_channel(self.b, f),
        }
    }

    /// Channel-wise linear interpolation toward `other` by a fixed-point
    /// factor `t`: exactly `*self` at `t == 0` and exactly `*other` at
    /// `t == 1000`, clamped into `[0, 255]` for any `t` outside `[0, 1000]`.
    pub fn lerp(&self, other: &Color, t: i64) -> (c: Color)
        ensures
            c == spec_lerp(*self, *other, t as int),
    {
        Color {
            r: lerp_channel(self.r, other.r, t),
            g: lerp_channel(self.g, other.g, t),
            b: lerp_channel(self.b, other.b, t),
        }
    }
}

/// The blend of two colors at `t == 0` is exactly the first color, and at
/// `t == 1000` (the fixed-point one) exactly the second; for any `t`, every
/// channel is clamped into `[0, 255]` by construction.
pub proof fn lemma_lerp_endpoints(a: Color, b: Color)
    ensures
        spec_lerp(a, b, 0) == a,
        spec_lerp(a, b, 1000) == b,
{
    assert(spec_lerp_channel(a.r as int, b.r as int, 0) == a.r);
    assert(spec_lerp_channel(a.g as int, b.g as int, 0) == a.g);
    assert(spec_lerp_channel(a.b as int, b.b as int, 0) == a.b);
    assert(spec_lerp_channel(a.r as int, b.r as int, 1000) == b.r);
    assert(spec_lerp_channel(a.g as int, b.g as int, 1000) == b.g);
    assert(spec_lerp_channel(a.b as int, b.b as int, 1000) == b.b);
}

} // verus!
