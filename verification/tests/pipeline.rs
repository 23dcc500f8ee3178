//! End-to-end checks of the rasterization pipeline on concrete values.

use softrender::color::Color;
use softrender::fixed::FX_ONE;
use softrender::fragment::Fragment;
use softrender::framebuffer::{Framebuffer, DEPTH_FAR};
use softrender::shaders::{
    circle_shader, combined_blend_shader, purple_shader, rocky_planet_shader,
    static_pattern_shader, sun_shader, vertex_shader, BlendMode, Mat4Fx, Uniforms,
};
use softrender::triangle::triangle;
use softrender::vertex::{Vec2Fx, Vec3Fx, Vertex};
use softrender::{render, ShaderKind};

fn px(v: i64) -> i64 {
    v * FX_ONE
}

fn screen_vertex(x: i64, y: i64, z: i64) -> Vertex {
    let mut v = Vertex::new(
        Vec3Fx::new(0, 0, 0),
        Vec3Fx::new(0, 0, FX_ONE),
        Vec2Fx::new(0, 0),
    );
    v.transformed_position = Vec3Fx::new(px(x), px(y), z);
    v.transformed_normal = Vec3Fx::new(0, 0, FX_ONE);
    v
}

fn frag_at_origin(intensity: i64) -> Fragment {
    Fragment::new(0, 0, 0, Vec3Fx::new(0, 0, 0), Vec3Fx::new(0, 0, FX_ONE), intensity)
}

fn identity_mat4() -> Mat4Fx {
    Mat4Fx {
        m00: FX_ONE,
        m01: 0,
        m02: 0,
        m03: 0,
        m10: 0,
        m11: FX_ONE,
        m12: 0,
        m13: 0,
        m20: 0,
        m21: 0,
        m22: FX_ONE,
        m23: 0,
        m30: 0,
        m31: 0,
        m32: 0,
        m33: FX_ONE,
    }
}

fn identity_uniforms(time: u32) -> Uniforms {
    Uniforms {
        model_matrix: identity_mat4(),
        view_matrix: identity_mat4(),
        projection_matrix: identity_mat4(),
        viewport_matrix: identity_mat4(),
        time,
    }
}

#[test]
fn multiply_by_white_is_identity() {
    let white = Color::new(255, 255, 255);
    let c = Color::new(17, 200, 99);
    assert_eq!(white.blend_multiply(&c), c);
}

#[test]
fn add_black_is_identity() {
    let black = Color::new(0, 0, 0);
    let c = Color::new(1, 128, 254);
    assert_eq!(black.blend_add(&c), c);
}

#[test]
fn lerp_between_equal_colors_is_identity() {
    let c = Color::new(10, 20, 30);
    for t in [-FX_ONE, 0, 1234, FX_ONE / 2, FX_ONE, 3 * FX_ONE] {
        assert_eq!(c.lerp(&c, t), c);
    }
}

#[test]
fn blend_operators_exact_values() {
    let a = Color::new(128, 0, 128);
    let b = Color::new(255, 255, 0);
    assert_eq!(a.blend_normal(&b), b);
    assert_eq!(a.blend_multiply(&b), Color::new(128, 0, 0));
    assert_eq!(a.blend_add(&b), Color::new(255, 255, 128));
    assert_eq!(a.blend_subtract(&b), Color::new(0, 0, 128));
}

#[test]
fn lerp_midpoint_rounds_down() {
    let a = Color::new(0, 0, 0);
    let b = Color::new(255, 255, 255);
    assert_eq!(a.lerp(&b, FX_ONE / 2), Color::new(127, 127, 127));
    assert_eq!(a.lerp(&b, 0), a);
    assert_eq!(a.lerp(&b, FX_ONE), b);
}

#[test]
fn to_hex_packs_channels() {
    assert_eq!(Color::new(0x12, 0x34, 0x56).to_hex(), 0x123456);
    assert_eq!(Color::new(255, 255, 255).to_hex(), 0xffffff);
    assert_eq!(Color::new(0, 0, 0).to_hex(), 0);
}

#[test]
fn scale_by_one_is_identity() {
    let c = Color::new(10, 128, 255);
    assert_eq!(c.scale(FX_ONE), c);
    assert_eq!(c.scale(0), Color::new(0, 0, 0));
}

#[test]
fn depth_test_write_is_idempotent() {
    let mut fb = Framebuffer::new(4, 4);
    fb.set_current_color(0xff0000);
    fb.point(1, 2, 1000);
    let colors = fb.buffer.clone();
    let depths = fb.zbuffer.clone();
    fb.point(1, 2, 1000);
    assert_eq!(fb.buffer, colors);
    assert_eq!(fb.zbuffer, depths);
}

#[test]
fn depth_test_keeps_nearer_fragment_either_order() {
    let mut fb1 = Framebuffer::new(4, 4);
    fb1.set_current_color(0x0000ff);
    fb1.point(2, 1, 100);
    fb1.set_current_color(0x00ff00);
    fb1.point(2, 1, 200);
    let mut fb2 = Framebuffer::new(4, 4);
    fb2.set_current_color(0x00ff00);
    fb2.point(2, 1, 200);
    fb2.set_current_color(0x0000ff);
    fb2.point(2, 1, 100);
    assert_eq!(fb1.buffer, fb2.buffer);
    assert_eq!(fb1.zbuffer, fb2.zbuffer);
    assert_eq!(fb1.buffer[1 * 4 + 2], 0x0000ff);
    assert_eq!(fb1.zbuffer[1 * 4 + 2], 100);
}

#[test]
fn clear_resets_buffers() {
    let mut fb = Framebuffer::new(3, 2);
    fb.set_background_color(0x101010);
    fb.set_current_color(0xffffff);
    fb.point(0, 0, 5);
    fb.clear();
    for i in 0..6 {
        assert_eq!(fb.buffer[i], 0x101010);
        assert_eq!(fb.zbuffer[i], DEPTH_FAR);
    }
}

#[test]
fn out_of_bounds_point_is_dropped() {
    let mut fb = Framebuffer::new(4, 4);
    fb.set_current_color(0xffffff);
    fb.point(4, 0, 0);
    fb.point(0, 4, 0);
    fb.point(100, 100, 0);
    for i in 0..16 {
        assert_eq!(fb.buffer[i], 0);
        assert_eq!(fb.zbuffer[i], DEPTH_FAR);
    }
}

#[test]
fn degenerate_triangle_emits_no_fragments() {
    let v0 = screen_vertex(10, 10, 0);
    let v1 = screen_vertex(20, 20, 0);
    let v2 = screen_vertex(30, 30, 0);
    let frags = triangle(&v0, &v1, &v2, 200, 200);
    assert_eq!(frags.len(), 0);
}

#[test]
fn fully_outside_triangle_emits_no_fragments() {
    let v0 = screen_vertex(-300, -300, 0);
    let v1 = screen_vertex(-200, -300, 0);
    let v2 = screen_vertex(-250, -200, 0);
    let frags = triangle(&v0, &v1, &v2, 200, 200);
    assert_eq!(frags.len(), 0);
    let v0 = screen_vertex(300, 10, 0);
    let v1 = screen_vertex(400, 10, 0);
    let v2 = screen_vertex(350, 80, 0);
    let frags = triangle(&v0, &v1, &v2, 200, 200);
    assert_eq!(frags.len(), 0);
}

#[test]
fn unit_triangle_covers_contiguous_region() {
    let v0 = screen_vertex(100, 100, 0);
    let v1 = screen_vertex(150, 100, 0);
    let v2 = screen_vertex(125, 50, 0);
    let frags = triangle(&v0, &v1, &v2, 200, 200);
    assert!(frags.len() > 1000);
    let mut rows: Vec<Vec<usize>> = vec![Vec::new(); 200];
    for f in frags.iter() {
        assert!(f.x >= 100 && f.x <= 150, "x outside bbox: {}", f.x);
        assert!(f.y >= 50 && f.y <= 100, "y outside bbox: {}", f.y);
        rows[f.y].push(f.x);
    }
    for xs in rows.iter_mut() {
        xs.sort();
        for w in xs.windows(2) {
            assert_eq!(w[1], w[0] + 1, "hole in a covered row");
        }
    }
}

#[test]
fn shared_edge_pixels_belong_to_exactly_one_triangle() {
    let a0 = screen_vertex(100, 100, 0);
    let a1 = screen_vertex(150, 100, 0);
    let a2 = screen_vertex(125, 50, 0);
    let b2 = screen_vertex(125, 150, 0);
    let up = triangle(&a0, &a1, &a2, 200, 200);
    let down = triangle(&a0, &a1, &b2, 200, 200);
    let mut seen = std::collections::HashSet::new();
    for f in up.iter() {
        seen.insert((f.x, f.y));
    }
    for f in down.iter() {
        assert!(
            !seen.contains(&(f.x, f.y)),
            "pixel ({}, {}) shaded by both triangles",
            f.x,
            f.y
        );
    }
}

#[test]
fn fragment_intensity_is_clamped_unit_for_front_normal() {
    let v0 = screen_vertex(10, 10, 0);
    let v1 = screen_vertex(30, 10, 0);
    let v2 = screen_vertex(20, 30, 0);
    let frags = triangle(&v0, &v1, &v2, 100, 100);
    assert!(!frags.is_empty());
    for f in frags.iter() {
        assert!(f.intensity >= 0 && f.intensity <= FX_ONE);
        assert!(f.intensity > FX_ONE - 64, "front-facing normal should be fully lit");
    }
}

#[test]
fn static_pattern_at_origin_is_green_and_half_blue() {
    let f = frag_at_origin(FX_ONE);
    assert_eq!(static_pattern_shader(&f), Color::new(0, 255, 128));
}

#[test]
fn purple_shader_is_constant() {
    let f = frag_at_origin(FX_ONE);
    assert_eq!(purple_shader(&f), Color::new(128, 0, 128));
}

#[test]
fn circle_shader_disc_and_background() {
    let inside = frag_at_origin(FX_ONE);
    assert_eq!(circle_shader(&inside), Color::new(255, 255, 0));
    let mut outside = frag_at_origin(FX_ONE);
    outside.vertex_position = Vec3Fx::new(FX_ONE, FX_ONE, 0);
    assert_eq!(circle_shader(&outside), Color::new(0, 0, 0));
}

#[test]
fn combined_blend_shader_all_modes_at_origin() {
    let f = frag_at_origin(FX_ONE);
    assert_eq!(combined_blend_shader(&f, BlendMode::Normal), Color::new(255, 255, 0));
    assert_eq!(combined_blend_shader(&f, BlendMode::Multiply), Color::new(128, 0, 0));
    assert_eq!(combined_blend_shader(&f, BlendMode::Add), Color::new(255, 255, 128));
    assert_eq!(combined_blend_shader(&f, BlendMode::Subtract), Color::new(0, 0, 128));
}

#[test]
fn combined_blend_shader_scales_with_intensity() {
    let f = frag_at_origin(FX_ONE / 2);
    assert_eq!(combined_blend_shader(&f, BlendMode::Normal), Color::new(127, 127, 0));
}

#[test]
fn sun_and_rocky_shaders_are_deterministic() {
    let u = identity_uniforms(42);
    let mut f = frag_at_origin(FX_ONE);
    f.vertex_position = Vec3Fx::new(FX_ONE / 3, -FX_ONE / 5, 0);
    assert_eq!(sun_shader(&f, &u), sun_shader(&f, &u));
    assert_eq!(rocky_planet_shader(&f, &u), rocky_planet_shader(&f, &u));
}

#[test]
fn vertex_shader_identity_transform_passes_position_through() {
    let v = Vertex::new(
        Vec3Fx::new(FX_ONE, 0, 0),
        Vec3Fx::new(0, 0, FX_ONE),
        Vec2Fx::new(0, 0),
    );
    let u = identity_uniforms(0);
    let out = vertex_shader(&v, &u);
    assert_eq!(out.transformed_position, Vec3Fx::new(FX_ONE, 0, 0));
    assert_eq!(out.transformed_normal, Vec3Fx::new(0, 0, FX_ONE));
    assert_eq!(out.position, v.position);
}

#[test]
fn rendering_twice_is_bit_identical() {
    let u = identity_uniforms(7);
    let mut mesh: Vec<Vertex> = Vec::new();
    for (x, y) in [(10i64, 10i64), (60, 10), (35, 60)] {
        let v = Vertex::new(
            Vec3Fx::new(px(x), px(y), 0),
            Vec3Fx::new(0, 0, FX_ONE),
            Vec2Fx::new(0, 0),
        );
        mesh.push(v);
    }
    let mut fb1 = Framebuffer::new(100, 100);
    let mut fb2 = Framebuffer::new(100, 100);
    render(&mut fb1, &u, &mesh, ShaderKind::Purple);
    render(&mut fb2, &u, &mesh, ShaderKind::Purple);
    assert_eq!(fb1.buffer, fb2.buffer);
    assert_eq!(fb1.zbuffer, fb2.zbuffer);
    assert!(fb1.buffer.iter().any(|&c| c != 0));
}

#[test]
fn render_drops_trailing_partial_triangle() {
    let u = identity_uniforms(0);
    let mut v = Vertex::new(Vec3Fx::new(0, 0, 0), Vec3Fx::new(0, 0, FX_ONE), Vec2Fx::new(0, 0));
    v.transformed_position = Vec3Fx::new(px(5), px(5), 0);
    let mesh = vec![v, v];
    let mut fb = Framebuffer::new(32, 32);
    render(&mut fb, &u, &mesh, ShaderKind::Purple);
    assert!(fb.buffer.iter().all(|&c| c == 0));
}
