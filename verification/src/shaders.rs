//! The two pipeline stages: the vertex transform stage and the fragment
//! shading dispatcher with its five procedural material shaders.
//!
//! Every function is a pure, total function of its arguments; the uniform
//! snapshot is read, never written. Scalars are fixed-point thousandths
//! throughout (`1000` is one).

use vstd::prelude::*;
use vstd::string::StrSliceExecFns;
use crate::color::{spec_lerp, spec_scale, Color};
use crate::fixed::{
    byte_of_fx, fx_abs, fx_add, fx_div, fx_from_int, fx_min, fx_mul, fx_rem1, fx_sub, spec_byte_of_fx,
    spec_fx_abs64, spec_fx_add64, spec_fx_div64, spec_fx_from_int64, spec_fx_min64, spec_fx_mul64,
    spec_fx_rem164, spec_fx_sub64, FX_MAX, FX_ONE,
};
use crate::fragment::Fragment;
use crate::linalg::{
    mat3_mul_vec3, mat4_mul_vec4, normal_matrix, spec_det3_raw, spec_mat3_identity,
    spec_mat3_mul_vec3, spec_mat4_mul_vec4, spec_normal_matrix, spec_upper3_t, Vec3, Vec4,
};
use crate::noise::{noise2, noise3, spec_noise2_64, spec_noise3_64};
use crate::trig::{cos_fx, sin_fx, spec_cos_fx64, spec_sin_fx64};
use crate::uniforms::Uniforms;
use crate::vertex::Vertex;

verus! {

/// What the vertex transform stage returns: the object-space attributes
/// unchanged, the position carried through model, view, projection, a
/// perspective divide and the viewport map, and the normal multiplied by
/// the normal matrix of the model matrix.
pub open spec fn spec_vertex_shader(vertex: Vertex, uniforms: Uniforms) -> Vertex {
    let p = Vec4 { x: vertex.position.x, y: vertex.position.y, z: vertex.position.z, w: FX_ONE };
    let world = spec_mat4_mul_vec4(uniforms.model_matrix, p);
    let viewed = spec_mat4_mul_vec4(uniforms.view_matrix, world);
    let clip = spec_mat4_mul_vec4(uniforms.projection_matrix, viewed);
    let ndc = Vec4 {
        x: spec_fx_div64(clip.x, clip.w),
        y: spec_fx_div64(clip.y, clip.w),
        z: spec_fx_div64(clip.z, clip.w),
        w: FX_ONE,
    };
    let screen = spec_mat4_mul_vec4(uniforms.viewport_matrix, ndc);
    Vertex {
        position: vertex.position,
        normal: vertex.normal,
        tex_coords: vertex.tex_coords,
        color: vertex.color,
        transformed_position: Vec3 { x: screen.x, y: screen.y, z: screen.z },
        transformed_normal: spec_mat3_mul_vec3(
            spec_normal_matrix(uniforms.model_matrix),
            vertex.normal,
        ),
    }
}

/// The vertex transform stage.
///
/// The perspective divide uses the fixed-point division whose divisor-zero
/// result is zero, the library's defined degenerate value for a vertex on
/// the camera plane (in place of a non-finite coordinate); such a vertex is
/// for the rasterizer to cull. A singular model matrix falls back to the
/// identity normal matrix instead of failing.
pub fn vertex_shader(vertex: &Vertex, uniforms: &Uniforms) -> (out: Vertex)
    ensures
        out == spec_vertex_shader(*vertex, *uniforms),
        out.position == vertex.position,
        out.normal == vertex.normal,
        out.tex_coords == vertex.tex_coords,
        out.color == vertex.color,
{
    let p = Vec4 { x: vertex.position.x, y: vertex.position.y, z: vertex.position.z, w: FX_ONE };
    let world = mat4_mul_vec4(&uniforms.model_matrix, &p);
    let viewed = mat4_mul_vec4(&uniforms.view_matrix, &world);
    let clip = mat4_mul_vec4(&uniforms.projection_matrix, &viewed);
    let ndc = Vec4 {
        x: fx_div(clip.x, clip.w),
        y: fx_div(clip.y, clip.w),
        z: fx_div(clip.z, clip.w),
        w: FX_ONE,
    };
    let screen = mat4_mul_vec4(&uniforms.viewport_matrix, &ndc);
    let nm = normal_matrix(&uniforms.model_matrix);
    let tn = mat3_mul_vec3(&nm, &vertex.normal);
    Vertex {
        position: vertex.position,
        normal: vertex.normal,
        tex_coords: vertex.tex_coords,
        color: vertex.color,
        transformed_position: Vec3 { x: screen.x, y: screen.y, z: screen.z },
        transformed_normal: tn,
    }
}

/// Verified string equality, character by character.
pub fn str_eq(a: &str, b: &str) -> (r: bool)
    ensures
        r == (a@ == b@),
{
    let n: usize = a.unicode_len();
    let m: usize = b.unicode_len();
    if n != m {
        return false;
    }
    let mut i: usize = 0;
    while i < n
        invariant
            i <= n,
            n == a@.len(),
            n == b@.len(),
            forall|j: int| 0 <= j < i ==> a@[j] == b@[j],
        decreases n - i,
    {
        let ca: char = a.get_char(i);
        let cb: char = b.get_char(i);
        if ca != cb {
            return false;
        }
        i = i + 1;
    }
    proof {
        assert(a@ =~= b@);
    }
    true
}

/// The static background pattern of the combined shader.
pub open spec fn spec_static_pattern_shader(f: Fragment) -> Color {
    let x: i64 = f.vertex_position.x;
    let y: i64 = f.vertex_position.y;
    let pattern: i64 = spec_fx_abs64(
        spec_fx_mul64(spec_sin_fx64(spec_fx_mul64(x, 10000)), spec_sin_fx64(spec_fx_mul64(y, 10000))),
    );
    Color {
        r: spec_byte_of_fx(pattern as int),
        g: spec_byte_of_fx(spec_fx_sub64(1000, pattern) as int),
        b: 128,
    }
}

/// A static interference pattern: red follows `|sin(10 x) sin(10 y)|`,
/// green its complement, blue is constant.
pub fn static_pattern_shader(fragment: &Fragment) -> (c: Color)
    ensures
        c == spec_static_pattern_shader(*fragment),
{
    let x: i64 = fragment.vertex_position.x;
    let y: i64 = fragment.vertex_position.y;
    let pattern: i64 = fx_abs(fx_mul(sin_fx(fx_mul(x, 10000)), sin_fx(fx_mul(y, 10000))));
    Color { r: byte_of_fx(pattern), g: byte_of_fx(fx_sub(1000, pattern)), b: 128 }
}

/// The averaged, time-pulsed double noise sample that drives the lava
/// blend.
pub open spec fn spec_lava_noise(f: Fragment, u: Uniforms) -> i64 {
    let t: i64 = spec_fx_mul64(spec_fx_from_int64(u.time), 10);
    let pulsate: i64 = spec_fx_mul64(spec_sin_fx64(spec_fx_mul64(t, 200)), 500);
    let x: i64 = f.vertex_position.x;
    let y: i64 = f.vertex_position.y;
    let n1: i64 = spec_noise3_64(
        u.noise_seed,
        spec_fx_mul64(x, 1000000),
        spec_fx_mul64(y, 1000000),
        spec_fx_mul64(spec_fx_add64(f.depth, pulsate), 1000000),
    );
    let n2: i64 = spec_noise3_64(
        u.noise_seed,
        spec_fx_mul64(spec_fx_add64(x, 1000000), 1000000),
        spec_fx_mul64(spec_fx_add64(y, 1000000), 1000000),
        spec_fx_mul64(spec_fx_add64(spec_fx_add64(f.depth, 1000000), pulsate), 1000000),
    );
    spec_fx_mul64(spec_fx_add64(n1, n2), 500)
}

pub open spec fn spec_lava_shader(f: Fragment, u: Uniforms) -> Color {
    spec_scale(
        spec_lerp(
            Color { r: 130, g: 20, b: 0 },
            Color { r: 255, g: 240, b: 0 },
            spec_lava_noise(f, u) as int,
        ),
        f.intensity as int,
    )
}

/// Pulsating molten rock: two decorrelated 3D noise samples at a large
/// zoom, with the z coordinate perturbed by a slow sine of time, averaged
/// and used to blend a dark red toward a bright orange, then scaled by the
/// fragment intensity.
pub fn lava_shader(fragment: &Fragment, uniforms: &Uniforms) -> (c: Color)
    ensures
        c == spec_lava_shader(*fragment, *uniforms),
{
    let bright_color = Color { r: 255, g: 240, b: 0 };
    let dark_color = Color { r: 130, g: 20, b: 0 };
    let t: i64 = fx_mul(fx_from_int(uniforms.time), 10);
    let pulsate: i64 = fx_mul(sin_fx(fx_mul(t, 200)), 500);
    let x: i64 = fragment.vertex_position.x;
    let y: i64 = fragment.vertex_position.y;
    let n1: i64 = noise3(
        uniforms.noise_seed,
        fx_mul(x, 1000000),
        fx_mul(y, 1000000),
        fx_mul(fx_add(fragment.depth, pulsate), 1000000),
    );
    let n2: i64 = noise3(
        uniforms.noise_seed,
        fx_mul(fx_add(x, 1000000), 1000000),
        fx_mul(fx_add(y, 1000000), 1000000),
        fx_mul(fx_add(fx_add(fragment.depth, 1000000), pulsate), 1000000),
    );
    let noise_value: i64 = fx_mul(fx_add(n1, n2), 500);
    let color = dark_color.lerp(&bright_color, noise_value);
    color.scale(fragment.intensity)
}

pub open spec fn spec_terrain_shader(f: Fragment) -> Color {
    let noise: i64 = spec_fx_abs64(
        spec_fx_add64(
            spec_sin_fx64(spec_fx_mul64(f.vertex_position.x, 5000)),
            spec_cos_fx64(spec_fx_mul64(f.vertex_position.y, 5000)),
        ),
    );
    let v: u8 = spec_byte_of_fx(noise as int);
    Color { r: v, g: (v / 2) as u8, b: (v / 4) as u8 }
}

/// Earthy banding from position alone: `|sin(5 x) + cos(5 y)|` mapped to a
/// warm brown gradient. No time and no intensity enter the result.
pub fn terrain_shader(fragment: &Fragment) -> (c: Color)
    ensures
        c == spec_terrain_shader(*fragment),
{
    let noise: i64 = fx_abs(
        fx_add(
            sin_fx(fx_mul(fragment.vertex_position.x, 5000)),
            cos_fx(fx_mul(fragment.vertex_position.y, 5000)),
        ),
    );
    let color_value: u8 = byte_of_fx(noise);
    Color { r: color_value, g: color_value / 2, b: color_value / 4 }
}

pub open spec fn spec_gas_shader(f: Fragment, u: Uniforms) -> Color {
    let ripple: i64 = spec_fx_abs64(
        spec_sin_fx64(
            spec_fx_add64(
                spec_fx_mul64(f.vertex_position.x, 8000),
                spec_fx_mul64(spec_fx_from_int64(u.time), 100),
            ),
        ),
    );
    spec_scale(
        Color { r: 0, g: spec_byte_of_fx(ripple as int), b: 255 },
        f.intensity as int,
    )
}

/// An animated horizontal ripple: `|sin(8 x + time / 10)|` drives the green
/// channel over a constant blue, scaled by intensity.
pub fn gas_shader(fragment: &Fragment, uniforms: &Uniforms) -> (c: Color)
    ensures
        c == spec_gas_shader(*fragment, *uniforms),
{
    let ripple: i64 = fx_abs(
        sin_fx(
            fx_add(
                fx_mul(fragment.vertex_position.x, 8000),
                fx_mul(fx_from_int(uniforms.time), 100),
            ),
        ),
    );
    let intensity: u8 = byte_of_fx(ripple);
    let color = Color { r: 0, g: intensity, b: 255 };
    color.scale(fragment.intensity)
}

/// The three-band cloud classification of a noise sample, in thousandths:
/// the half-point and above is cloud, above one thousandth is land, the
/// rest is sky.
pub open spec fn spec_cloud_classify(nv: int) -> Color {
    if nv >= 500 {
        Color { r: 255, g: 255, b: 255 }
    } else if nv > 1 {
        Color { r: 0, g: 100, b: 0 }
    } else {
        Color { r: 30, g: 97, b: 145 }
    }
}

/// Classify a noise sample as cloud, land or sky. A sample of exactly 500
/// (one half) is cloud, and a sample of exactly 1 (one thousandth) is sky.
pub fn cloud_classify(nv: i64) -> (c: Color)
    ensures
        c == spec_cloud_classify(nv as int),
        nv >= 500 <==> c == (Color { r: 255, g: 255, b: 255 }),
        1 < nv < 500 <==> c == (Color { r: 0, g: 100, b: 0 }),
        nv <= 1 <==> c == (Color { r: 30, g: 97, b: 145 }),
{
    if nv >= 500 {
        Color { r: 255, g: 255, b: 255 }
    } else if nv > 1 {
        Color { r: 0, g: 100, b: 0 }
    } else {
        Color { r: 30, g: 97, b: 145 }
    }
}

/// The scrolling 2D sample position and classification of the cloud
/// shader.
pub open spec fn spec_cloud_noise(f: Fragment, u: Uniforms) -> i64 {
    spec_noise2_64(
        u.noise_seed,
        spec_fx_add64(
            spec_fx_add64(spec_fx_mul64(f.vertex_position.x, 100000), 100000),
            spec_fx_mul64(spec_fx_from_int64(u.time), 500),
        ),
        spec_fx_add64(spec_fx_mul64(f.vertex_position.y, 100000), 100000),
    )
}

pub open spec fn spec_cloud_shader(f: Fragment, u: Uniforms) -> Color {
    spec_scale(spec_cloud_classify(spec_cloud_noise(f, u) as int), f.intensity as int)
}

/// Sky, land or cloud from scrolling 2D noise (zoom 100, fixed offset 100,
/// horizontal scroll at half the time), scaled by intensity.
pub fn cloud_shader(fragment: &Fragment, uniforms: &Uniforms) -> (c: Color)
    ensures
        c == spec_cloud_shader(*fragment, *uniforms),
{
    let noise_value: i64 = noise2(
        uniforms.noise_seed,
        fx_add(
            fx_add(fx_mul(fragment.vertex_position.x, 100000), 100000),
            fx_mul(fx_from_int(uniforms.time), 500),
        ),
        fx_add(fx_mul(fragment.vertex_position.y, 100000), 100000),
    );
    let noise_color = cloud_classify(noise_value);
    noise_color.scale(fragment.intensity)
}

/// The oscillating x position of the first circle at a given time.
pub open spec fn spec_circle1_x(u: Uniforms) -> i64 {
    let t: i64 = spec_fx_mul64(spec_fx_from_int64(u.time), 50);
    spec_fx_rem164(spec_fx_add64(spec_fx_mul64(spec_sin_fx64(t), 400), 500))
}

/// The oscillating x position of the second circle.
pub open spec fn spec_circle2_x(u: Uniforms) -> i64 {
    let t: i64 = spec_fx_mul64(spec_fx_from_int64(u.time), 50);
    spec_fx_rem164(spec_fx_add64(spec_fx_mul64(spec_cos_fx64(t), 400), 500))
}

/// The squared fixed-point distance from the fragment to the first circle
/// center (at height 0.3).
pub open spec fn spec_circle1_dist_sq(f: Fragment, u: Uniforms) -> i64 {
    let dx: i64 = spec_fx_sub64(f.vertex_position.x, spec_circle1_x(u));
    let dy: i64 = spec_fx_sub64(f.vertex_position.y, 300);
    spec_fx_add64(spec_fx_mul64(dx, dx), spec_fx_mul64(dy, dy))
}

/// The squared distance to the second circle center (at height 0.7).
pub open spec fn spec_circle2_dist_sq(f: Fragment, u: Uniforms) -> i64 {
    let dx: i64 = spec_fx_sub64(f.vertex_position.x, spec_circle2_x(u));
    let dy: i64 = spec_fx_sub64(f.vertex_position.y, 700);
    spec_fx_add64(spec_fx_mul64(dx, dx), spec_fx_mul64(dy, dy))
}

pub open spec fn spec_moving_circles_shader(f: Fragment, u: Uniforms) -> Color {
    let i1: i64 = if spec_circle1_dist_sq(f, u) < 10 { 1000i64 } else { 0i64 };
    let i2: i64 = if spec_circle2_dist_sq(f, u) < 10 { 1000i64 } else { 0i64 };
    let ci: i64 = spec_fx_min64(spec_fx_add64(i1, i2), 1000);
    let v: u8 = spec_byte_of_fx(ci as int);
    Color { r: v, g: v, b: v }
}

/// Two circles of radius 0.1 oscillate horizontally at fixed heights 0.3
/// and 0.7; a fragment inside a circle is lit at full intensity, and the
/// two indicators add but clamp at one, so overlap can never exceed white.
/// Membership compares the squared distance against the squared radius
/// (0.01, in raw thousandths 10), the same predicate as a root-then-compare
/// in exact arithmetic.
pub fn moving_circles_shader(fragment: &Fragment, uniforms: &Uniforms) -> (c: Color)
    ensures
        c == spec_moving_circles_shader(*fragment, *uniforms),
{
    let x: i64 = fragment.vertex_position.x;
    let y: i64 = fragment.vertex_position.y;
    let t: i64 = fx_mul(fx_from_int(uniforms.time), 50);
    let circle1_x: i64 = fx_rem1(fx_add(fx_mul(sin_fx(t), 400), 500));
    let circle2_x: i64 = fx_rem1(fx_add(fx_mul(cos_fx(t), 400), 500));
    let dx1: i64 = fx_sub(x, circle1_x);
    let dy1: i64 = fx_sub(y, 300);
    let dist1_sq: i64 = fx_add(fx_mul(dx1, dx1), fx_mul(dy1, dy1));
    let dx2: i64 = fx_sub(x, circle2_x);
    let dy2: i64 = fx_sub(y, 700);
    let dist2_sq: i64 = fx_add(fx_mul(dx2, dx2), fx_mul(dy2, dy2));
    let circle1: i64 = if dist1_sq < 10 { 1000 } else { 0 };
    let circle2: i64 = if dist2_sq < 10 { 1000 } else { 0 };
    let circle_intensity: i64 = fx_min(fx_add(circle1, circle2), 1000);
    let v: u8 = byte_of_fx(circle_intensity);
    Color { r: v, g: v, b: v }
}

pub open spec fn spec_combined_shader(f: Fragment, u: Uniforms) -> Color {
    let circle_color = spec_moving_circles_shader(f, u);
    if !circle_color.spec_is_black() {
        spec_scale(circle_color, f.intensity as int)
    } else {
        spec_scale(spec_static_pattern_shader(f), f.intensity as int)
    }
}

/// The default shader: the moving circles drawn over the static pattern.
/// Wherever the circle layer is not black it wins; elsewhere the pattern
/// shows. Either layer is scaled by the fragment intensity.
pub fn combined_shader(fragment: &Fragment, uniforms: &Uniforms) -> (c: Color)
    ensures
        c == spec_combined_shader(*fragment, *uniforms),
{
    let base_color = static_pattern_shader(fragment);
    let circle_color = moving_circles_shader(fragment, uniforms);
    if !circle_color.is_black() {
        circle_color.scale(fragment.intensity)
    } else {
        base_color.scale(fragment.intensity)
    }
}

/// What the dispatcher returns for a material token: an exact,
/// case-sensitive match chooses the named material shader, and every other
/// token — the empty string included — falls through to the combined
/// default.
pub open spec fn spec_fragment_shader(f: Fragment, u: Uniforms, token: Seq<char>) -> Color {
    if token == "cloud"@ {
        spec_cloud_shader(f, u)
    } else if token == "lava"@ {
        spec_lava_shader(f, u)
    } else if token == "terrain"@ {
        spec_terrain_shader(f)
    } else if token == "gas"@ {
        spec_gas_shader(f, u)
    } else {
        spec_combined_shader(f, u)
    }
}

/// The fragment shading dispatcher. Unknown tokens are not an error: they
/// select the combined default shader.
pub fn fragment_shader(fragment: &Fragment, uniforms: &Uniforms, shader_type: &str) -> (c: Color)
    ensures
        c == spec_fragment_shader(*fragment, *uniforms, shader_type@),
{
    if str_eq(shader_type, "cloud") {
        cloud_shader(fragment, uniforms)
    } else if str_eq(shader_type, "lava") {
        lava_shader(fragment, uniforms)
    } else if str_eq(shader_type, "terrain") {
        terrain_shader(fragment)
    } else if str_eq(shader_type, "gas") {
        gas_shader(fragment, uniforms)
    } else {
        combined_shader(fragment, uniforms)
    }
}

/// Transform determinism: the stage's contract pins its result to a pure
/// function of the vertex and the uniform snapshot, so any two calls on the
/// same inputs — in the same frame or across threads — return bit-identical
/// vertices.
pub proof fn lemma_transform_deterministic(v: Vertex, u: Uniforms, out1: Vertex, out2: Vertex)
    requires
        out1 == spec_vertex_shader(v, u),
        out2 == spec_vertex_shader(v, u),
    ensures
        out1 == out2,
{
}

/// The transform stage only derives: it copies `tex_coords` and `color`
/// (and the object-space `position` and `normal`) into the output
/// unchanged, for every vertex and every uniform snapshot.
pub proof fn lemma_transform_passes_inputs_through(v: Vertex, u: Uniforms)
    ensures
        spec_vertex_shader(v, u).tex_coords == v.tex_coords,
        spec_vertex_shader(v, u).color == v.color,
        spec_vertex_shader(v, u).position == v.position,
        spec_vertex_shader(v, u).normal == v.normal,
{
}

/// Multiplying an in-range vector by the identity matrix gives the vector
/// back exactly.
pub proof fn lemma_identity_mul_vec3(n: Vec3)
    requires
        -FX_MAX <= n.x <= FX_MAX,
        -FX_MAX <= n.y <= FX_MAX,
        -FX_MAX <= n.z <= FX_MAX,
    ensures
        spec_mat3_mul_vec3(spec_mat3_identity(), n) == n,
{
    crate::fixed::lemma_fx_mul_one(n.x);
    crate::fixed::lemma_fx_mul_one(n.y);
    crate::fixed::lemma_fx_mul_one(n.z);
    crate::fixed::lemma_fx_mul_zero_left(n.x);
    crate::fixed::lemma_fx_mul_zero_left(n.y);
    crate::fixed::lemma_fx_mul_zero_left(n.z);
}

/// The normal-matrix fallback: when the upper-left 3x3 block of the model
/// matrix is singular (its exact determinant is zero), the transform stage
/// substitutes the identity normal matrix, so the transformed normal equals
/// the original normal for every in-range normal.
pub proof fn lemma_singular_model_keeps_normal(v: Vertex, u: Uniforms)
    requires
        spec_det3_raw(spec_upper3_t(u.model_matrix)) == 0,
        -FX_MAX <= v.normal.x <= FX_MAX,
        -FX_MAX <= v.normal.y <= FX_MAX,
        -FX_MAX <= v.normal.z <= FX_MAX,
    ensures
        spec_vertex_shader(v, u).transformed_normal == v.normal,
{
    assert(spec_normal_matrix(u.model_matrix) == spec_mat3_identity());
    lemma_identity_mul_vec3(v.normal);
}

/// The four material tokens are pairwise distinct character sequences.
proof fn lemma_tokens_distinct()
    ensures
        "cloud"@ != "lava"@,
        "cloud"@ != "terrain"@,
        "cloud"@ != "gas"@,
        "lava"@ != "terrain"@,
        "lava"@ != "gas"@,
        "terrain"@ != "gas"@,
{
    reveal_strlit("cloud");
    reveal_strlit("lava");
    reveal_strlit("terrain");
    reveal_strlit("gas");
    assert("cloud"@.len() == 5);
    assert("lava"@.len() == 4);
    assert("terrain"@.len() == 7);
    assert("gas"@.len() == 3);
}

/// Dispatch-table completeness: each of the four named tokens routes to its
/// own material shader, and every other token routes to the combined
/// default.
#[verifier::rlimit(100)]
pub proof fn lemma_dispatch_table(f: Fragment, u: Uniforms, token: Seq<char>)
    ensures
        token == "cloud"@ ==> spec_fragment_shader(f, u, token) == spec_cloud_shader(f, u),
        token == "lava"@ ==> spec_fragment_shader(f, u, token) == spec_lava_shader(f, u),
        token == "terrain"@ ==> spec_fragment_shader(f, u, token) == spec_terrain_shader(f),
        token == "gas"@ ==> spec_fragment_shader(f, u, token) == spec_gas_shader(f, u),
        token != "cloud"@ && token != "lava"@ && token != "terrain"@ && token != "gas"@
            ==> spec_fragment_shader(f, u, token) == spec_combined_shader(f, u),
{
    lemma_tokens_distinct();
}

/// Terrain purity: the terrain color is a function of the fragment's
/// position alone — two fragments at the same position get the same color,
/// whatever their depth and intensity, and no uniform state enters at all.
pub proof fn lemma_terrain_depends_on_position_only(f1: Fragment, f2: Fragment)
    requires
        f1.vertex_position == f2.vertex_position,
    ensures
        spec_terrain_shader(f1) == spec_terrain_shader(f2),
{
}

/// The cloud bands partition every sample value: the half-point and above
/// is cloud, strictly between one thousandth and the half-point is land,
/// and one thousandth or below is sky.
pub proof fn lemma_cloud_bands(nv: int)
    ensures
        nv >= 500 ==> spec_cloud_classify(nv) == (Color { r: 255, g: 255, b: 255 }),
        1 < nv < 500 ==> spec_cloud_classify(nv) == (Color { r: 0, g: 100, b: 0 }),
        nv <= 1 ==> spec_cloud_classify(nv) == (Color { r: 30, g: 97, b: 145 }),
{
}

/// The circle-overlap clamp: a fragment inside both circles at once gets
/// exactly full white — the two full intensities add to two but clamp at
/// one.
pub proof fn lemma_circle_overlap_clamps(f: Fragment, u: Uniforms)
    requires
        spec_circle1_dist_sq(f, u) < 10,
        spec_circle2_dist_sq(f, u) < 10,
    ensures
        spec_moving_circles_shader(f, u) == (Color { r: 255, g: 255, b: 255 }),
{
    assert(spec_fx_add64(1000, 1000) == 2000);
    assert(spec_fx_min64(2000, 1000) == 1000);
    assert(spec_byte_of_fx(1000) == 255);
}

} // verus!
