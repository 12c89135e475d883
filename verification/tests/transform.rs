//! The vertex transform stage: pass-through, determinism, the perspective
//! pipeline on simple matrices, and the singular-model fallback.

use shading::color::Color;
use shading::linalg::{Mat4, Vec2, Vec3};
use shading::shaders::vertex_shader;
use shading::uniforms::Uniforms;
use shading::vertex::Vertex;

fn mat4_identity() -> Mat4 {
    Mat4 {
        m11: 1000,
        m12: 0,
        m13: 0,
        m14: 0,
        m21: 0,
        m22: 1000,
        m23: 0,
        m24: 0,
        m31: 0,
        m32: 0,
        m33: 1000,
        m34: 0,
        m41: 0,
        m42: 0,
        m43: 0,
        m44: 1000,
    }
}

fn mat4_diag(d: i64) -> Mat4 {
    let mut m = mat4_identity();
    m.m11 = d;
    m.m22 = d;
    m.m33 = d;
    m
}

fn identity_uniforms() -> Uniforms {
    Uniforms {
        model_matrix: mat4_identity(),
        view_matrix: mat4_identity(),
        projection_matrix: mat4_identity(),
        viewport_matrix: mat4_identity(),
        time: 0,
        noise_seed: 0,
    }
}

fn sample_vertex() -> Vertex {
    Vertex::new(
        Vec3 { x: 1000, y: 2000, z: 3000 },
        Vec3 { x: 0, y: 0, z: 1000 },
        Vec2 { x: 250, y: 750 },
        Color::new(10, 20, 30),
    )
}

#[test]
fn transform_is_deterministic() {
    let v = sample_vertex();
    let u = identity_uniforms();
    assert_eq!(vertex_shader(&v, &u), vertex_shader(&v, &u));
}

#[test]
fn transform_passes_object_attributes_through() {
    let v = sample_vertex();
    let mut u = identity_uniforms();
    u.model_matrix = mat4_diag(3000);
    u.time = 77;
    let out = vertex_shader(&v, &u);
    assert_eq!(out.tex_coords, v.tex_coords);
    assert_eq!(out.color, v.color);
    assert_eq!(out.position, v.position);
    assert_eq!(out.normal, v.normal);
}

#[test]
fn identity_pipeline_keeps_position_and_normal() {
    let v = sample_vertex();
    let u = identity_uniforms();
    let out = vertex_shader(&v, &u);
    assert_eq!(out.transformed_position, v.position);
    assert_eq!(out.transformed_normal, v.normal);
}

#[test]
fn uniform_scale_model_scales_normal_by_inverse() {
    let v = Vertex::new(
        Vec3 { x: 0, y: 0, z: 0 },
        Vec3 { x: 1000, y: 0, z: 0 },
        Vec2 { x: 0, y: 0 },
        Color::new(0, 0, 0),
    );
    let mut u = identity_uniforms();
    // A uniform scale by two: the normal matrix is the scale by one half.
    u.model_matrix = mat4_diag(2000);
    let out = vertex_shader(&v, &u);
    assert_eq!(out.transformed_normal, Vec3 { x: 500, y: 0, z: 0 });
}

#[test]
fn singular_model_falls_back_to_identity_normal_matrix() {
    let v = Vertex::new(
        Vec3 { x: 1000, y: 1000, z: 1000 },
        Vec3 { x: 123, y: -456, z: 789 },
        Vec2 { x: 0, y: 0 },
        Color::new(0, 0, 0),
    );
    let mut u = identity_uniforms();
    // Zero-scale x axis: the upper-left 3x3 block is singular.
    u.model_matrix = mat4_diag(1000);
    u.model_matrix.m11 = 0;
    let out = vertex_shader(&v, &u);
    assert_eq!(out.transformed_normal, v.normal);
}

#[test]
fn zero_w_vertex_degenerates_to_zero_screen_position() {
    let v = sample_vertex();
    let mut u = identity_uniforms();
    // A projection row that zeroes w: the perspective divide is by zero,
    // and the stage substitutes the defined degenerate coordinate zero.
    u.projection_matrix.m41 = 0;
    u.projection_matrix.m42 = 0;
    u.projection_matrix.m43 = 0;
    u.projection_matrix.m44 = 0;
    let out = vertex_shader(&v, &u);
    assert_eq!(out.transformed_position, Vec3 { x: 0, y: 0, z: 0 });
}

#[test]
fn viewport_maps_normalized_to_screen() {
    let v = Vertex::new(
        Vec3 { x: 500, y: -500, z: 0 },
        Vec3 { x: 0, y: 0, z: 1000 },
        Vec2 { x: 0, y: 0 },
        Color::new(0, 0, 0),
    );
    let mut u = identity_uniforms();
    // Scale by 400 and offset by 400: x in [-1, 1] lands in [0, 800].
    u.viewport_matrix.m11 = 400_000;
    u.viewport_matrix.m22 = 400_000;
    u.viewport_matrix.m14 = 400_000;
    u.viewport_matrix.m24 = 400_000;
    let out = vertex_shader(&v, &u);
    assert_eq!(out.transformed_position.x, 600_000);
    assert_eq!(out.transformed_position.y, 200_000);
}
