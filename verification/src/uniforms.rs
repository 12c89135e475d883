//! The per-frame read-only state shared by every shading call.

use vstd::prelude::*;
use crate::linalg::Mat4;

verus! {

/// One frame's transform matrices, elapsed time, and the seed that selects
/// the deterministic noise function. The snapshot is immutable for the
/// frame: every shader call reads it and none writes it, so calls for
/// disjoint vertices or fragments are independent.
#[derive(Clone, Copy, Debug, PartialEq, Eq, Structural)]
pub struct Uniforms {
    pub model_matrix: Mat4,
    pub view_matrix: Mat4,
    pub projection_matrix: Mat4,
    pub viewport_matrix: Mat4,
    pub time: i64,
    pub noise_seed: u64,
}

} // verus!
