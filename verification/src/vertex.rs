//! A mesh vertex with its derived screen-space attributes.

use vstd::prelude::*;
use crate::color::Color;
use crate::linalg::{Vec2, Vec3};

verus! {

/// Object-space attributes (`position`, `normal`, `tex_coords`, `color`)
/// together with the attributes the transform stage derives from them
/// (`transformed_position`, `transformed_normal`). The transform stage
/// never edits a vertex in place: it returns a new value whose original
/// attributes are copied unchanged.
#[derive(Clone, Copy, Debug, PartialEq, Eq, Structural)]
pub struct Vertex {
    pub position: Vec3,
    pub normal: Vec3,
    pub tex_coords: Vec2,
    pub color: Color,
    pub transformed_position: Vec3,
    pub transformed_normal: Vec3,
}

impl Vertex {
    /// A fresh vertex whose derived attributes start at zero.
    pub fn new(position: Vec3, normal: Vec3, tex_coords: Vec2, color: Color) -> (v: Vertex)
        ensures
            v.position == position,
            v.normal == normal,
            v.tex_coords == tex_coords,
            v.color == color,
            v.transformed_position == (Vec3 { x: 0, y: 0, z: 0 }),
            v.transformed_normal == (Vec3 { x: 0, y: 0, z: 0 }),
    {
        Vertex {
            position,
            normal,
            tex_coords,
            color,
            transformed_position: Vec3 { x: 0, y: 0, z: 0 },
            transformed_normal: Vec3 { x: 0, y: 0, z: 0 },
        }
    }
}

} // verus!
