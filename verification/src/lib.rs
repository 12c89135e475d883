//! A software 3D shading core: a vertex transform stage and a set of
//! procedural fragment shaders (lava, cloud, terrain, gas, and a combined
//! default), all evaluated in fixed-point arithmetic.
//!
//! Scalars are carried as `i64` values in thousandths (a raw value `v` stands
//! for the real number `v / 1000`), so every operation is exact, total and
//! deterministic: arithmetic truncates toward zero and saturates instead of
//! overflowing, and no function here panics.

pub mod color;
pub mod fixed;
pub mod fragment;
pub mod linalg;
pub mod noise;
pub mod shaders;
pub mod trig;
pub mod uniforms;
pub mod vertex;
