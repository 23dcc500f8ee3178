//! The transform stage and the procedural shading stage.
//!
//! `vertex_shader` carries a vertex through model, view, projection and
//! viewport space with a guarded perspective divide and an inverse-transpose
//! normal matrix (identity when the matrix is singular). The fragment
//! shaders are pure functions of interpolated surface position, the frame
//! time and the diffuse intensity, each pinned down by a spec function.

use vstd::prelude::*;
use crate::color::{
    blend_add_val,
    blend_multiply_val,
    blend_normal_val,
    blend_subtract_val,
    lerp_val,
    scale_val,
    Color,
};
use crate::fixed::{
    fx_abs,
    fx_abs_val,
    fx_add,
    fx_add_val,
    fx_angle_mod,
    fx_clamp01,
    fx_clamp01_val,
    fx_cos,
    fx_cos_val,
    fx_div,
    fx_div_val,
    fx_len2,
    fx_len2_val,
    fx_mul,
    fx_mul_val,
    fx_sin,
    fx_sin_val,
    fx_sub,
    fx_sub_val,
    fx_valid,
    i64_div,
    lemma_div_range,
    FX_ONE,
    FX_TWO_PI,
};
use crate::fragment::{fragment_valid, Fragment};
use crate::triangle::{screen_ready, SCREEN_MAX};
use crate::vertex::{vertex_valid, Vec3Fx, Vertex};

verus! {

/// A 4 x 4 fixed-point matrix, row by row.
#[derive(Clone, Copy, PartialEq, Eq, Structural, Debug)]
pub struct Mat4Fx {
    pub m00: i64,
    pub m01: i64,
    pub m02: i64,
    pub m03: i64,
    pub m10: i64,
    pub m11: i64,
    pub m12: i64,
    pub m13: i64,
    pub m20: i64,
    pub m21: i64,
    pub m22: i64,
    pub m23: i64,
    pub m30: i64,
    pub m31: i64,
    pub m32: i64,
    pub m33: i64,
}

/// A 3 x 3 fixed-point matrix, row by row.
#[derive(Clone, Copy, PartialEq, Eq, Structural, Debug)]
pub struct Mat3Fx {
    pub m00: i64,
    pub m01: i64,
    pub m02: i64,
    pub m10: i64,
    pub m11: i64,
    pub m12: i64,
    pub m20: i64,
    pub m21: i64,
    pub m22: i64,
}

/// A homogeneous 4-vector of fixed-point scalars.
#[derive(Clone, Copy, PartialEq, Eq, Structural, Debug)]
pub struct Vec4Fx {
    pub x: i64,
    pub y: i64,
    pub z: i64,
    pub w: i64,
}

/// All entries in the fixed-point range.
pub open spec fn mat4_valid(m: Mat4Fx) -> bool {
    &&& fx_valid(m.m00) && fx_valid(m.m01) && fx_valid(m.m02) && fx_valid(m.m03)
    &&& fx_valid(m.m10) && fx_valid(m.m11) && fx_valid(m.m12) && fx_valid(m.m13)
    &&& fx_valid(m.m20) && fx_valid(m.m21) && fx_valid(m.m22) && fx_valid(m.m23)
    &&& fx_valid(m.m30) && fx_valid(m.m31) && fx_valid(m.m32) && fx_valid(m.m33)
}

/// All components in the fixed-point range.
pub open spec fn vec4_valid(v: Vec4Fx) -> bool {
    fx_valid(v.x) && fx_valid(v.y) && fx_valid(v.z) && fx_valid(v.w)
}

/// The per-render-pass parameter bundle: the four transform matrices and
/// the frame counter that animated shaders read as a time signal.
pub struct Uniforms {
    pub model_matrix: Mat4Fx,
    pub view_matrix: Mat4Fx,
    pub projection_matrix: Mat4Fx,
    pub viewport_matrix: Mat4Fx,
    pub time: u32,
}

/// All four matrices hold well-formed fixed-point entries.
pub open spec fn uniforms_valid(u: Uniforms) -> bool {
    &&& mat4_valid(u.model_matrix)
    &&& mat4_valid(u.view_matrix)
    &&& mat4_valid(u.projection_matrix)
    &&& mat4_valid(u.viewport_matrix)
}

/// One row of a matrix-vector product, over four saturating products.
pub open spec fn row4_val(a: int, b: int, c: int, d: int, x: int, y: int, z: int, w: int) -> int {
    fx_add_val(
        fx_add_val(fx_mul_val(a, x), fx_mul_val(b, y)),
        fx_add_val(fx_mul_val(c, z), fx_mul_val(d, w)),
    )
}

/// One row of a 3-vector product.
pub open spec fn row3_val(a: int, b: int, c: int, x: int, y: int, z: int) -> int {
    fx_add_val(fx_add_val(fx_mul_val(a, x), fx_mul_val(b, y)), fx_mul_val(c, z))
}

/// Value of a 4 x 4 matrix applied to a homogeneous vector.
pub open spec fn mat4_mul_vec4_val(m: Mat4Fx, v: Vec4Fx) -> Vec4Fx {
    Vec4Fx {
        x: row4_val(
            m.m00 as int,
            m.m01 as int,
            m.m02 as int,
            m.m03 as int,
            v.x as int,
            v.y as int,
            v.z as int,
            v.w as int,
        ) as i64,
        y: row4_val(
            m.m10 as int,
            m.m11 as int,
            m.m12 as int,
            m.m13 as int,
            v.x as int,
            v.y as int,
            v.z as int,
            v.w as int,
        ) as i64,
        z: row4_val(
            m.m20 as int,
            m.m21 as int,
            m.m22 as int,
            m.m23 as int,
            v.x as int,
            v.y as int,
            v.z as int,
            v.w as int,
        ) as i64,
        w: row4_val(
            m.m30 as int,
            m.m31 as int,
            m.m32 as int,
            m.m33 as int,
            v.x as int,
            v.y as int,
            v.z as int,
            v.w as int,
        ) as i64,
    }
}

/// One row of a matrix-vector product.
fn row4(a: i64, b: i64, c: i64, d: i64, x: i64, y: i64, z: i64, w: i64) -> (r: i64)
    requires
        fx_valid(a),
        fx_valid(b),
        fx_valid(c),
        fx_valid(d),
        fx_valid(x),
        fx_valid(y),
        fx_valid(z),
        fx_valid(w),
    ensures
        r == row4_val(a as int, b as int, c as int, d as int, x as int, y as int, z as int, w as int),
        fx_valid(r),
{
    fx_add(fx_add(fx_mul(a, x), fx_mul(b, y)), fx_add(fx_mul(c, z), fx_mul(d, w)))
}

/// One row of a 3-vector product.
fn row3(a: i64, b: i64, c: i64, x: i64, y: i64, z: i64) -> (r: i64)
    requires
        fx_valid(a),
        fx_valid(b),
        fx_valid(c),
        fx_valid(x),
        fx_valid(y),
        fx_valid(z),
    ensures
        r == row3_val(a as int, b as int, c as int, x as int, y as int, z as int),
        fx_valid(r),
{
    fx_add(fx_add(fx_mul(a, x), fx_mul(b, y)), fx_mul(c, z))
}

/// Apply a 4 x 4 matrix to a homogeneous vector.
fn mat4_mul_vec4(m: &Mat4Fx, v: Vec4Fx) -> (r: Vec4Fx)
    requires
        mat4_valid(*m),
        vec4_valid(v),
    ensures
        r == mat4_mul_vec4_val(*m, v),
        vec4_valid(r),
{
    Vec4Fx {
        x: row4(m.m00, m.m01, m.m02, m.m03, v.x, v.y, v.z, v.w),
        y: row4(m.m10, m.m11, m.m12, m.m13, v.x, v.y, v.z, v.w),
        z: row4(m.m20, m.m21, m.m22, m.m23, v.x, v.y, v.z, v.w),
        w: row4(m.m30, m.m31, m.m32, m.m33, v.x, v.y, v.z, v.w),
    }
}

/// Smallest magnitude the perspective divisor may keep; a clip-space w
/// nearer zero is treated as this epsilon with its sign, so a degenerate
/// vertex cannot poison the depth buffer.
pub const W_EPS: i64 = 16;

/// The guarded perspective divisor.
pub open spec fn w_guard_val(w: int) -> int {
    if -W_EPS < w < W_EPS {
        if w < 0 {
            -W_EPS as int
        } else {
            W_EPS as int
        }
    } else {
        w
    }
}

/// Clamp a screen coordinate into the raster range.
pub open spec fn screen_clamp_val(v: int) -> int {
    if v > SCREEN_MAX {
        SCREEN_MAX as int
    } else if v < -SCREEN_MAX {
        -SCREEN_MAX as int
    } else {
        v
    }
}

/// Clamp a screen coordinate into the raster range.
fn screen_clamp(v: i64) -> (r: i64)
    ensures
        r == screen_clamp_val(v as int),
        -SCREEN_MAX <= r <= SCREEN_MAX,
{
    if v > SCREEN_MAX {
        SCREEN_MAX
    } else if v < -SCREEN_MAX {
        -SCREEN_MAX
    } else {
        v
    }
}

/// The upper-left 3 x 3 block of a 4 x 4 matrix.
pub open spec fn mat3_of_mat4_val(m: Mat4Fx) -> Mat3Fx {
    Mat3Fx {
        m00: m.m00,
        m01: m.m01,
        m02: m.m02,
        m10: m.m10,
        m11: m.m11,
        m12: m.m12,
        m20: m.m20,
        m21: m.m21,
        m22: m.m22,
    }
}

/// The transpose of a 3 x 3 matrix.
pub open spec fn mat3_transpose_val(m: Mat3Fx) -> Mat3Fx {
    Mat3Fx {
        m00: m.m00,
        m01: m.m10,
        m02: m.m20,
        m10: m.m01,
        m11: m.m11,
        m12: m.m21,
        m20: m.m02,
        m21: m.m12,
        m22: m.m22,
    }
}

/// Determinant of a 3 x 3 matrix over the saturating fixed-point operations.
pub open spec fn det3_val(t: Mat3Fx) -> int {
    fx_add_val(
        fx_sub_val(
            fx_mul_val(
                t.m00 as int,
                fx_sub_val(
                    fx_mul_val(t.m11 as int, t.m22 as int),
                    fx_mul_val(t.m12 as int, t.m21 as int),
                ),
            ),
            fx_mul_val(
                t.m01 as int,
                fx_sub_val(
                    fx_mul_val(t.m10 as int, t.m22 as int),
                    fx_mul_val(t.m12 as int, t.m20 as int),
                ),
            ),
        ),
        fx_mul_val(
            t.m02 as int,
            fx_sub_val(
                fx_mul_val(t.m10 as int, t.m21 as int),
                fx_mul_val(t.m11 as int, t.m20 as int),
            ),
        ),
    )
}

/// The 3 x 3 identity.
pub open spec fn mat3_identity_val() -> Mat3Fx {
    Mat3Fx {
        m00: FX_ONE,
        m01: 0,
        m02: 0,
        m10: 0,
        m11: FX_ONE,
        m12: 0,
        m20: 0,
        m21: 0,
        m22: FX_ONE,
    }
}

/// One entry of the inverse: a 2 x 2 cofactor over the divided determinant.
pub open spec fn inv_entry_val(a: int, b: int, c: int, d: int, det: int) -> int {
    fx_div_val(fx_sub_val(fx_mul_val(a, b), fx_mul_val(c, d)), det)
}

/// Inverse of a 3 x 3 matrix over the saturating fixed-point operations;
/// a singular matrix (zero determinant) falls back to the identity, the
/// defined degenerate-case policy of the transform stage.
pub open spec fn inv3_or_identity_val(t: Mat3Fx) -> Mat3Fx {
    let det = det3_val(t);
    if det == 0 {
        mat3_identity_val()
    } else {
        Mat3Fx {
            m00: inv_entry_val(t.m11 as int, t.m22 as int, t.m12 as int, t.m21 as int, det) as i64,
            m01: inv_entry_val(t.m02 as int, t.m21 as int, t.m01 as int, t.m22 as int, det) as i64,
            m02: inv_entry_val(t.m01 as int, t.m12 as int, t.m02 as int, t.m11 as int, det) as i64,
            m10: inv_entry_val(t.m12 as int, t.m20 as int, t.m10 as int, t.m22 as int, det) as i64,
            m11: inv_entry_val(t.m00 as int, t.m22 as int, t.m02 as int, t.m20 as int, det) as i64,
            m12: inv_entry_val(t.m02 as int, t.m10 as int, t.m00 as int, t.m12 as int, det) as i64,
            m20: inv_entry_val(t.m10 as int, t.m21 as int, t.m11 as int, t.m20 as int, det) as i64,
            m21: inv_entry_val(t.m01 as int, t.m20 as int, t.m00 as int, t.m21 as int, det) as i64,
            m22: inv_entry_val(t.m00 as int, t.m11 as int, t.m01 as int, t.m10 as int, det) as i64,
        }
    }
}

/// One entry of the inverse.
fn inv_entry(a: i64, b: i64, c: i64, d: i64, det: i64) -> (r: i64)
    requires
        fx_valid(a),
        fx_valid(b),
        fx_valid(c),
        fx_valid(d),
        fx_valid(det),
    ensures
        r == inv_entry_val(a as int, b as int, c as int, d as int, det as int),
        fx_valid(r),
{
    fx_div(fx_sub(fx_mul(a, b), fx_mul(c, d)), det)
}

/// All entries in the fixed-point range.
pub open spec fn mat3_valid(m: Mat3Fx) -> bool {
    &&& fx_valid(m.m00) && fx_valid(m.m01) && fx_valid(m.m02)
    &&& fx_valid(m.m10) && fx_valid(m.m11) && fx_valid(m.m12)
    &&& fx_valid(m.m20) && fx_valid(m.m21) && fx_valid(m.m22)
}

/// Inverse of a 3 x 3 matrix, identity when singular.
fn inv3_or_identity(t: &Mat3Fx) -> (r: Mat3Fx)
    requires
        mat3_valid(*t),
    ensures
        r == inv3_or_identity_val(*t),
        mat3_valid(r),
{
    let det: i64 = fx_add(
        fx_sub(
            fx_mul(t.m00, fx_sub(fx_mul(t.m11, t.m22), fx_mul(t.m12, t.m21))),
            fx_mul(t.m01, fx_sub(fx_mul(t.m10, t.m22), fx_mul(t.m12, t.m20))),
        ),
        fx_mul(t.m02, fx_sub(fx_mul(t.m10, t.m21), fx_mul(t.m11, t.m20))),
    );
    if det == 0 {
        Mat3Fx {
            m00: FX_ONE,
            m01: 0,
            m02: 0,
            m10: 0,
            m11: FX_ONE,
            m12: 0,
            m20: 0,
            m21: 0,
            m22: FX_ONE,
        }
    } else {
        Mat3Fx {
            m00: inv_entry(t.m11, t.m22, t.m12, t.m21, det),
            m01: inv_entry(t.m02, t.m21, t.m01, t.m22, det),
            m02: inv_entry(t.m01, t.m12, t.m02, t.m11, det),
            m10: inv_entry(t.m12, t.m20, t.m10, t.m22, det),
            m11: inv_entry(t.m00, t.m22, t.m02, t.m20, det),
            m12: inv_entry(t.m02, t.m10, t.m00, t.m12, det),
            m20: inv_entry(t.m10, t.m21, t.m11, t.m20, det),
            m21: inv_entry(t.m01, t.m20, t.m00, t.m21, det),
            m22: inv_entry(t.m00, t.m11, t.m01, t.m10, det),
        }
    }
}

/// Value of a 3 x 3 matrix applied to a 3-vector.
pub open spec fn mat3_mul_vec3_val(m: Mat3Fx, v: Vec3Fx) -> Vec3Fx {
    Vec3Fx {
        x: row3_val(m.m00 as int, m.m01 as int, m.m02 as int, v.x as int, v.y as int, v.z as int)
            as i64,
        y: row3_val(m.m10 as int, m.m11 as int, m.m12 as int, v.x as int, v.y as int, v.z as int)
            as i64,
        z: row3_val(m.m20 as int, m.m21 as int, m.m22 as int, v.x as int, v.y as int, v.z as int)
            as i64,
    }
}

/// The transformed vertex that the transform stage produces: clip-space
/// position through model, view and projection, a guarded perspective
/// divide, the viewport mapping clamped into the raster range, and the
/// normal carried through the inverse-transpose of the model rotation.
pub open spec fn vertex_shader_val(v: Vertex, u: Uniforms) -> Vertex {
    let p = Vec4Fx { x: v.position.x, y: v.position.y, z: v.position.z, w: FX_ONE };
    let q = mat4_mul_vec4_val(u.model_matrix, p);
    let r = mat4_mul_vec4_val(u.view_matrix, q);
    let s = mat4_mul_vec4_val(u.projection_matrix, r);
    let wg = w_guard_val(s.w as int);
    let ndc = Vec4Fx {
        x: fx_div_val(s.x as int, wg) as i64,
        y: fx_div_val(s.y as int, wg) as i64,
        z: fx_div_val(s.z as int, wg) as i64,
        w: FX_ONE,
    };
    let sp = mat4_mul_vec4_val(u.viewport_matrix, ndc);
    let tp = Vec3Fx {
        x: screen_clamp_val(sp.x as int) as i64,
        y: screen_clamp_val(sp.y as int) as i64,
        z: sp.z,
    };
    let nmat = inv3_or_identity_val(mat3_transpose_val(mat3_of_mat4_val(u.model_matrix)));
    let tn = mat3_mul_vec3_val(nmat, v.normal);
    Vertex {
        position: v.position,
        normal: v.normal,
        tex_coords: v.tex_coords,
        color: v.color,
        transformed_position: tp,
        transformed_normal: tn,
    }
}

/// The transform stage: a pure function from an object-space vertex and
/// the uniforms to a screen-space vertex ready for the rasterizer.
pub fn vertex_shader(vertex: &Vertex, uniforms: &Uniforms) -> (out: Vertex)
    requires
        vertex_valid(*vertex),
        uniforms_valid(*uniforms),
    ensures
        out == vertex_shader_val(*vertex, *uniforms),
        screen_ready(out),
{
    let p = Vec4Fx { x: vertex.position.x, y: vertex.position.y, z: vertex.position.z, w: FX_ONE };
    let q = mat4_mul_vec4(&uniforms.model_matrix, p);
    let r = mat4_mul_vec4(&uniforms.view_matrix, q);
    let s = mat4_mul_vec4(&uniforms.projection_matrix, r);
    let wg: i64 = if -W_EPS < s.w && s.w < W_EPS {
        if s.w < 0 {
            -W_EPS
        } else {
            W_EPS
        }
    } else {
        s.w
    };
    let ndc = Vec4Fx { x: fx_div(s.x, wg), y: fx_div(s.y, wg), z: fx_div(s.z, wg), w: FX_ONE };
    let sp = mat4_mul_vec4(&uniforms.viewport_matrix, ndc);
    let tp = Vec3Fx { x: screen_clamp(sp.x), y: screen_clamp(sp.y), z: sp.z };
    let m3 = Mat3Fx {
        m00: uniforms.model_matrix.m00,
        m01: uniforms.model_matrix.m10,
        m02: uniforms.model_matrix.m20,
        m10: uniforms.model_matrix.m01,
        m11: uniforms.model_matrix.m11,
        m12: uniforms.model_matrix.m21,
        m20: uniforms.model_matrix.m02,
        m21: uniforms.model_matrix.m12,
        m22: uniforms.model_matrix.m22,
    };
    proof {
        assert(m3 == mat3_transpose_val(mat3_of_mat4_val(uniforms.model_matrix)));
    }
    let nmat = inv3_or_identity(&m3);
    let tn = Vec3Fx {
        x: row3(nmat.m00, nmat.m01, nmat.m02, vertex.normal.x, vertex.normal.y, vertex.normal.z),
        y: row3(nmat.m10, nmat.m11, nmat.m12, vertex.normal.x, vertex.normal.y, vertex.normal.z),
        z: row3(nmat.m20, nmat.m21, nmat.m22, vertex.normal.x, vertex.normal.y, vertex.normal.z),
    };
    Vertex {
        position: vertex.position,
        normal: vertex.normal,
        tex_coords: vertex.tex_coords,
        color: vertex.color,
        transformed_position: tp,
        transformed_normal: tn,
    }
}

/// The animation time signal: the frame counter scaled into fixed point by
/// the shader's rate and reduced to one period of the trigonometric wave.
pub open spec fn anim_time_val(time: u32, divisor: int) -> int {
    ((time * (FX_ONE as int)) / divisor) % (FX_TWO_PI as int)
}

/// The animation time signal for a shader's rate divisor.
fn anim_time(time: u32, divisor: i64) -> (t: i64)
    requires
        0 < divisor <= 100,
    ensures
        t == anim_time_val(time, divisor as int),
        0 <= t < FX_TWO_PI,
        fx_valid(t),
{
    proof {
        lemma_div_range(time as int * (FX_ONE as int), divisor as int, 0x1_0000_0000_0000);
        assert(0 <= time as int * (FX_ONE as int) <= 0x1_0000_0000_0000) by (nonlinear_arith)
            requires
                0 <= time as int <= 0xffff_ffff,
        ;
    }
    let p: i64 = time as i64 * FX_ONE;
    let q: i64 = i64_div(p, divisor);
    fx_angle_mod(q)
}

/// Fixed-point 10.0, the spatial frequency of the noise patterns.
pub const TEN_FX: i64 = 655360;

/// Fixed-point 5.0.
pub const FIVE_FX: i64 = 327680;

/// The static interference pattern: red follows |sin(10x) * sin(10y)|,
/// green its complement, blue stays at half.
pub open spec fn static_pattern_shader_val(f: Fragment) -> Color {
    let x = f.vertex_position.x as int;
    let y = f.vertex_position.y as int;
    let pattern = fx_clamp01_val(
        fx_abs_val(
            fx_mul_val(
                fx_sin_val(fx_mul_val(x, TEN_FX as int)),
                fx_sin_val(fx_mul_val(y, TEN_FX as int)),
            ),
        ),
    );
    Color {
        r: crate::color::scale_channel_val(255, pattern) as u8,
        g: crate::color::scale_channel_val(255, (FX_ONE as int) - pattern) as u8,
        b: 128,
    }
}

/// The static interference pattern over the fragment's surface position.
pub fn static_pattern_shader(fragment: &Fragment) -> (c: Color)
    requires
        fragment_valid(*fragment),
    ensures
        c == static_pattern_shader_val(*fragment),
{
    let x: i64 = fragment.vertex_position.x;
    let y: i64 = fragment.vertex_position.y;
    let pattern: i64 = fx_clamp01(
        fx_abs(fx_mul(fx_sin(fx_mul(x, TEN_FX)), fx_sin(fx_mul(y, TEN_FX)))),
    );
    let white = Color::new(255, 255, 255);
    let hi = white.scale(pattern);
    let lo = white.scale(FX_ONE - pattern);
    Color::new(hi.get_r(), lo.get_g(), 128)
}

/// A constant purple.
pub open spec fn purple_shader_val() -> Color {
    Color { r: 128, g: 0, b: 128 }
}

/// A constant purple, whatever the fragment.
pub fn purple_shader(_fragment: &Fragment) -> (c: Color)
    ensures
        c == purple_shader_val(),
{
    Color::new(128, 0, 128)
}

/// Squared fixed-point radius of the yellow disc (radius 1/4).
pub const CIRCLE_R2: i64 = 4096;

/// A yellow disc of radius 1/4 around the surface origin on black.
pub open spec fn circle_shader_val(f: Fragment) -> Color {
    let x = f.vertex_position.x as int;
    let y = f.vertex_position.y as int;
    let d2 = fx_add_val(fx_mul_val(x, x), fx_mul_val(y, y));
    if d2 < CIRCLE_R2 {
        Color { r: 255, g: 255, b: 0 }
    } else {
        Color { r: 0, g: 0, b: 0 }
    }
}

/// A yellow disc of radius 1/4 around the surface origin on black; the
/// comparison is made on squared distances, which needs no root.
pub fn circle_shader(fragment: &Fragment) -> (c: Color)
    requires
        fragment_valid(*fragment),
    ensures
        c == circle_shader_val(*fragment),
{
    let x: i64 = fragment.vertex_position.x;
    let y: i64 = fragment.vertex_position.y;
    let d2: i64 = fx_add(fx_mul(x, x), fx_mul(y, y));
    if d2 < CIRCLE_R2 {
        Color::new(255, 255, 0)
    } else {
        Color::new(0, 0, 0)
    }
}

/// Squared fixed-point radius of the moving circles (radius 1/10).
pub const MOVING_R2: i64 = 655;

/// Two white circles orbiting the surface with the frame time, on black.
pub open spec fn moving_circles_shader_val(f: Fragment, time: u32) -> Color {
    let x = f.vertex_position.x as int;
    let y = f.vertex_position.y as int;
    let t = anim_time_val(time, 20);
    let c1x = fx_add_val(fx_mul_val(fx_sin_val(t), 26214), 32768);
    let c2x = fx_add_val(fx_mul_val(fx_cos_val(t), 26214), 32768);
    let dx1 = fx_sub_val(x, c1x);
    let dy1 = fx_sub_val(y, 19661);
    let d1 = fx_add_val(fx_mul_val(dx1, dx1), fx_mul_val(dy1, dy1));
    let dx2 = fx_sub_val(x, c2x);
    let dy2 = fx_sub_val(y, 45875);
    let d2 = fx_add_val(fx_mul_val(dx2, dx2), fx_mul_val(dy2, dy2));
    let inten = if d1 < MOVING_R2 || d2 < MOVING_R2 {
        FX_ONE as int
    } else {
        0
    };
    scale_val(Color { r: 255, g: 255, b: 255 }, inten)
}

/// Two white circles orbiting the surface with the frame time, on black.
pub fn moving_circles_shader(fragment: &Fragment, uniforms: &Uniforms) -> (c: Color)
    requires
        fragment_valid(*fragment),
    ensures
        c == moving_circles_shader_val(*fragment, uniforms.time),
{
    let x: i64 = fragment.vertex_position.x;
    let y: i64 = fragment.vertex_position.y;
    let t: i64 = anim_time(uniforms.time, 20);
    let c1x: i64 = fx_add(fx_mul(fx_sin(t), 26214), 32768);
    let c2x: i64 = fx_add(fx_mul(fx_cos(t), 26214), 32768);
    let dx1: i64 = fx_sub(x, c1x);
    let dy1: i64 = fx_sub(y, 19661);
    let d1: i64 = fx_add(fx_mul(dx1, dx1), fx_mul(dy1, dy1));
    let dx2: i64 = fx_sub(x, c2x);
    let dy2: i64 = fx_sub(y, 45875);
    let d2: i64 = fx_add(fx_mul(dx2, dx2), fx_mul(dy2, dy2));
    let inten: i64 = if d1 < MOVING_R2 || d2 < MOVING_R2 {
        FX_ONE
    } else {
        0
    };
    Color::new(255, 255, 255).scale(inten)
}

/// The default surface shading: the moving circles where they are lit,
/// else the static pattern, both dimmed by the diffuse intensity.
pub open spec fn combined_shader_val(f: Fragment, time: u32) -> Color {
    let base = static_pattern_shader_val(f);
    let circle = moving_circles_shader_val(f, time);
    if !(circle.r == 0 && circle.g == 0 && circle.b == 0) {
        scale_val(circle, f.intensity as int)
    } else {
        scale_val(base, f.intensity as int)
    }
}

/// The default surface shading: moving circles over the static pattern.
pub fn combined_shader(fragment: &Fragment, uniforms: &Uniforms) -> (c: Color)
    requires
        fragment_valid(*fragment),
    ensures
        c == combined_shader_val(*fragment, uniforms.time),
{
    let base = static_pattern_shader(fragment);
    let circle_color = moving_circles_shader(fragment, uniforms);
    if !circle_color.is_black() {
        circle_color.scale(fragment.intensity)
    } else {
        base.scale(fragment.intensity)
    }
}

/// The per-fragment shading entry point of the pipeline.
pub fn fragment_shader(fragment: &Fragment, uniforms: &Uniforms) -> (c: Color)
    requires
        fragment_valid(*fragment),
    ensures
        c == combined_shader_val(*fragment, uniforms.time),
{
    combined_shader(fragment, uniforms)
}

/// The four blend operators a blended shader can compose with.
#[derive(Clone, Copy, PartialEq, Eq, Structural, Debug)]
pub enum BlendMode {
    Normal,
    Multiply,
    Add,
    Subtract,
}

/// The purple base blended with the yellow disc under the chosen operator,
/// dimmed by the diffuse intensity.
pub open spec fn combined_blend_shader_val(f: Fragment, blend_mode: BlendMode) -> Color {
    let base = purple_shader_val();
    let circle = circle_shader_val(f);
    let combined = match blend_mode {
        BlendMode::Normal => blend_normal_val(base, circle),
        BlendMode::Multiply => blend_multiply_val(base, circle),
        BlendMode::Add => blend_add_val(base, circle),
        BlendMode::Subtract => blend_subtract_val(base, circle),
    };
    scale_val(combined, f.intensity as int)
}

/// The purple base blended with the yellow disc under the chosen operator.
pub fn combined_blend_shader(fragment: &Fragment, blend_mode: BlendMode) -> (c: Color)
    requires
        fragment_valid(*fragment),
    ensures
        c == combined_blend_shader_val(*fragment, blend_mode),
{
    let base_color = purple_shader(fragment);
    let circle_color = circle_shader(fragment);
    let combined_color = match blend_mode {
        BlendMode::Normal => base_color.blend_normal(&circle_color),
        BlendMode::Multiply => base_color.blend_multiply(&circle_color),
        BlendMode::Add => base_color.blend_add(&circle_color),
        BlendMode::Subtract => base_color.blend_subtract(&circle_color),
    };
    combined_color.scale(fragment.intensity)
}

/// The sun: a yellow-to-orange radial gradient swirled by a time-animated
/// wave, modulated by trigonometric noise and brightened by an emission
/// factor of 3/2; self-luminous, so the diffuse term plays no part.
pub open spec fn sun_shader_val(f: Fragment, time: u32) -> Color {
    let x = f.vertex_position.x as int;
    let y = f.vertex_position.y as int;
    let t = anim_time_val(time, 50);
    let wave_x = fx_mul_val(fx_sin_val(fx_add_val(x, t)), 6554);
    let wave_y = fx_mul_val(fx_cos_val(fx_add_val(y, t)), 6554);
    let dist = fx_mul_val(fx_len2_val(fx_add_val(x, wave_x), fx_add_val(y, wave_y)), 32768);
    let gradient = lerp_val(
        Color { r: 255, g: 204, b: 0 },
        Color { r: 255, g: 140, b: 0 },
        dist,
    );
    let noise = fx_clamp01_val(
        fx_abs_val(
            fx_mul_val(
                fx_sin_val(fx_add_val(fx_mul_val(x, TEN_FX as int), t)),
                fx_cos_val(fx_add_val(fx_mul_val(y, TEN_FX as int), t)),
            ),
        ),
    );
    scale_val(scale_val(gradient, noise), 98304)
}

/// The sun's emissive procedural shading.
pub fn sun_shader(fragment: &Fragment, uniforms: &Uniforms) -> (c: Color)
    requires
        fragment_valid(*fragment),
    ensures
        c == sun_shader_val(*fragment, uniforms.time),
{
    let x: i64 = fragment.vertex_position.x;
    let y: i64 = fragment.vertex_position.y;
    let t: i64 = anim_time(uniforms.time, 50);
    let wave_x: i64 = fx_mul(fx_sin(fx_add(x, t)), 6554);
    let wave_y: i64 = fx_mul(fx_cos(fx_add(y, t)), 6554);
    let dist: i64 = fx_mul(fx_len2(fx_add(x, wave_x), fx_add(y, wave_y)), 32768);
    let color_yellow = Color::new(255, 204, 0);
    let color_orange = Color::new(255, 140, 0);
    let gradient_color = color_yellow.lerp(&color_orange, dist);
    let noise_intensity: i64 = fx_clamp01(
        fx_abs(
            fx_mul(fx_sin(fx_add(fx_mul(x, TEN_FX), t)), fx_cos(fx_add(fx_mul(y, TEN_FX), t))),
        ),
    );
    let noise_color = gradient_color.scale(noise_intensity);
    noise_color.scale(98304)
}

/// A rocky body: dark brown relief from |sin(10x) * cos(10y)|, roughened
/// by a coarser |5 * sin(5x) * cos(5y)| band, multiplied under dark gray.
pub open spec fn rocky_planet_shader_val(f: Fragment) -> Color {
    let x = f.vertex_position.x as int;
    let y = f.vertex_position.y as int;
    let pattern = fx_clamp01_val(
        fx_abs_val(
            fx_mul_val(
                fx_sin_val(fx_mul_val(x, TEN_FX as int)),
                fx_cos_val(fx_mul_val(y, TEN_FX as int)),
            ),
        ),
    );
    let base = scale_val(Color { r: 80, g: 65, b: 55 }, pattern);
    let noise = fx_abs_val(
        fx_mul_val(
            FIVE_FX as int,
            fx_mul_val(
                fx_sin_val(fx_mul_val(x, FIVE_FX as int)),
                fx_cos_val(fx_mul_val(y, FIVE_FX as int)),
            ),
        ),
    );
    let noise_color = scale_val(base, noise);
    blend_multiply_val(Color { r: 105, g: 105, b: 105 }, noise_color)
}

/// The rocky body's procedural shading.
pub fn rocky_planet_shader(fragment: &Fragment, _uniforms: &Uniforms) -> (c: Color)
    requires
        fragment_valid(*fragment),
    ensures
        c == rocky_planet_shader_val(*fragment),
{
    let x: i64 = fragment.vertex_position.x;
    let y: i64 = fragment.vertex_position.y;
    let color_dark_gray = Color::new(105, 105, 105);
    let color_dark_brown = Color::new(80, 65, 55);
    let pattern: i64 = fx_clamp01(
        fx_abs(fx_mul(fx_sin(fx_mul(x, TEN_FX)), fx_cos(fx_mul(y, TEN_FX)))),
    );
    let base_color = color_dark_brown.scale(pattern);
    let noise_intensity: i64 = fx_abs(
        fx_mul(FIVE_FX, fx_mul(fx_sin(fx_mul(x, FIVE_FX)), fx_cos(fx_mul(y, FIVE_FX)))),
    );
    let noise_color = base_color.scale(noise_intensity);
    color_dark_gray.blend_multiply(&noise_color)
}

} // verus!
