//! A rasterizer-produced per-pixel sample.

use vstd::prelude::*;
use crate::linalg::Vec2;

verus! {

/// One candidate pixel: an interpolated screen-space position, the
/// interpolated depth (used only as an extra noise coordinate), and an
/// interpolated lighting factor in thousandths, conventionally in
/// `[0, 1000]` though every shader tolerates values outside that range.
#[derive(Clone, Copy, Debug, PartialEq, Eq, Structural)]
pub struct Fragment {
    pub vertex_position: Vec2,
    pub depth: i64,
    pub intensity: i64,
}

impl Fragment {
    pub fn new(vertex_position: Vec2, depth: i64, intensity: i64) -> (f: Fragment)
        ensures
            f == (Fragment { vertex_position, depth, intensity }),
    {
        Fragment { vertex_position, depth, intensity }
    }
}

} // verus!
