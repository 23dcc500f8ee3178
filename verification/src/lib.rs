//! A CPU-side triangle rasterization pipeline over fixed-point arithmetic:
//! vertex transformation, barycentric scan-conversion into fragments,
//! procedural shading, and depth-tested compositing into a framebuffer.

pub mod color;
pub mod fixed;
pub mod fragment;
pub mod framebuffer;
pub mod shaders;
pub mod triangle;
pub mod vertex;

use vstd::prelude::*;
use crate::color::{hex_val, Color};
use crate::fragment::{fragment_valid, Fragment};
use crate::framebuffer::{write_colors, write_depths, Framebuffer};
use crate::shaders::{
    circle_shader,
    circle_shader_val,
    combined_blend_shader,
    combined_blend_shader_val,
    combined_shader,
    combined_shader_val,
    moving_circles_shader,
    moving_circles_shader_val,
    purple_shader,
    purple_shader_val,
    rocky_planet_shader,
    rocky_planet_shader_val,
    static_pattern_shader,
    static_pattern_shader_val,
    sun_shader,
    sun_shader_val,
    uniforms_valid,
    vertex_shader,
    vertex_shader_val,
    BlendMode,
    Uniforms,
};
use crate::triangle::{triangle, triangle_frags};
use crate::vertex::{vertex_valid, Vertex};

verus! {

/// Which procedural shader a render pass applies to its fragments.
#[derive(Clone, Copy, PartialEq, Eq, Structural, Debug)]
pub enum ShaderKind {
    Sun,
    RockyPlanet,
    Combined,
    Blend(BlendMode),
    StaticPattern,
    Purple,
    Circle,
    MovingCircles,
}

/// The color a shader kind computes for one fragment.
pub open spec fn spec_shade(kind: ShaderKind, f: Fragment, time: u32) -> Color {
    match kind {
        ShaderKind::Sun => sun_shader_val(f, time),
        ShaderKind::RockyPlanet => rocky_planet_shader_val(f),
        ShaderKind::Combined => combined_shader_val(f, time),
        ShaderKind::Blend(m) => combined_blend_shader_val(f, m),
        ShaderKind::StaticPattern => static_pattern_shader_val(f),
        ShaderKind::Purple => purple_shader_val(),
        ShaderKind::Circle => circle_shader_val(f),
        ShaderKind::MovingCircles => moving_circles_shader_val(f, time),
    }
}

/// Dispatch one fragment to the chosen shader.
pub fn shade(kind: ShaderKind, fragment: &Fragment, uniforms: &Uniforms) -> (c: Color)
    requires
        fragment_valid(*fragment),
    ensures
        c == spec_shade(kind, *fragment, uniforms.time),
{
    match kind {
        ShaderKind::Sun => sun_shader(fragment, uniforms),
        ShaderKind::RockyPlanet => rocky_planet_shader(fragment, uniforms),
        ShaderKind::Combined => combined_shader(fragment, uniforms),
        ShaderKind::Blend(m) => combined_blend_shader(fragment, m),
        ShaderKind::StaticPattern => static_pattern_shader(fragment),
        ShaderKind::Purple => purple_shader(fragment),
        ShaderKind::Circle => circle_shader(fragment),
        ShaderKind::MovingCircles => moving_circles_shader(fragment, uniforms),
    }
}

/// The state a render pass drives: the two pixel buffers and the current
/// color register.
pub struct RasterState {
    pub colors: Seq<u32>,
    pub depths: Seq<i64>,
    pub current: u32,
}

/// The state after compositing one shaded fragment: inside the buffer the
/// fragment's color is selected and depth-test-written; outside, nothing
/// happens.
pub open spec fn frag_step(
    st: RasterState,
    w: int,
    h: int,
    kind: ShaderKind,
    time: u32,
    f: Fragment,
) -> RasterState {
    if f.x < w && f.y < h {
        let c = hex_val(spec_shade(kind, f, time)) as u32;
        RasterState {
            colors: write_colors(st.colors, st.depths, w, h, f.x as int, f.y as int, f.depth, c),
            depths: write_depths(st.depths, w, h, f.x as int, f.y as int, f.depth),
            current: c,
        }
    } else {
        st
    }
}

/// The state after compositing a fragment sequence in order.
pub open spec fn frags_fold(
    st: RasterState,
    w: int,
    h: int,
    kind: ShaderKind,
    time: u32,
    frags: Seq<Fragment>,
) -> RasterState
    decreases frags.len(),
{
    if frags.len() == 0 {
        st
    } else {
        frag_step(
            frags_fold(st, w, h, kind, time, frags.take(frags.len() - 1)),
            w,
            h,
            kind,
            time,
            frags.last(),
        )
    }
}

/// The state after rendering the first `tcount` triangles of a vertex
/// array: each run of three vertices is transformed, rasterized and
/// composited in order.
pub open spec fn spec_render(
    st: RasterState,
    w: int,
    h: int,
    u: Uniforms,
    verts: Seq<Vertex>,
    kind: ShaderKind,
    tcount: int,
) -> RasterState
    decreases tcount,
{
    if tcount <= 0 {
        st
    } else {
        let prev = spec_render(st, w, h, u, verts, kind, tcount - 1);
        let i = (tcount - 1) * 3;
        let tv0 = vertex_shader_val(verts[i], u);
        let tv1 = vertex_shader_val(verts[i + 1], u);
        let tv2 = vertex_shader_val(verts[i + 2], u);
        frags_fold(prev, w, h, kind, u.time, triangle_frags(tv0, tv1, tv2, w, h))
    }
}

/// The raster state a framebuffer currently holds.
pub open spec fn state_of(fb: Framebuffer) -> RasterState {
    RasterState { colors: fb.buffer@, depths: fb.zbuffer@, current: fb.current_color }
}

/// One render pass: transform every vertex, assemble runs of three into
/// triangles (a trailing partial run is dropped), rasterize each triangle,
/// shade each fragment and composite it through the depth test. The final
/// buffers are exactly the fold that `spec_render` describes, so the pass
/// is a pure function of the starting state, the uniforms, the mesh and
/// the shader.
#[verifier::rlimit(100)]
pub fn render(
    framebuffer: &mut Framebuffer,
    uniforms: &Uniforms,
    vertex_array: &Vec<Vertex>,
    shader: ShaderKind,
)
    requires
        old(framebuffer).wf(),
        uniforms_valid(*uniforms),
        forall|i: int| 0 <= i < vertex_array@.len() ==> vertex_valid(#[trigger] vertex_array@[i]),
    ensures
        final(framebuffer).wf(),
        final(framebuffer).width == old(framebuffer).width,
        final(framebuffer).height == old(framebuffer).height,
        final(framebuffer).background_color == old(framebuffer).background_color,
        state_of(*final(framebuffer)) == spec_render(
            state_of(*old(framebuffer)),
            old(framebuffer).width as int,
            old(framebuffer).height as int,
            *uniforms,
            vertex_array@,
            shader,
            vertex_array@.len() as int / 3,
        ),
{
    let ghost init: RasterState = state_of(*old(framebuffer));
    let ghost w: int = old(framebuffer).width as int;
    let ghost h: int = old(framebuffer).height as int;
    let n: usize = vertex_array.len();
    let tcount: usize = n / 3;
    let mut t: usize = 0;
    while t < tcount
        invariant
            t <= tcount,
            tcount == n / 3,
            n == vertex_array@.len(),
            framebuffer.wf(),
            framebuffer.width == old(framebuffer).width,
            framebuffer.height == old(framebuffer).height,
            framebuffer.background_color == old(framebuffer).background_color,
            w == old(framebuffer).width as int,
            h == old(framebuffer).height as int,
            init == state_of(*old(framebuffer)),
            uniforms_valid(*uniforms),
            forall|i: int|
                0 <= i < vertex_array@.len() ==> vertex_valid(#[trigger] vertex_array@[i]),
            state_of(*framebuffer) == spec_render(
                init,
                w,
                h,
                *uniforms,
                vertex_array@,
                shader,
                t as int,
            ),
        decreases tcount - t,
    {
        proof {
            vstd::arithmetic::div_mod::lemma_fundamental_div_mod(n as int, 3);
            vstd::arithmetic::div_mod::lemma_mod_division_less_than_divisor(n as int, 3);
            assert(3 * (t as int) + 2 < n as int) by (nonlinear_arith)
                requires
                    t < n as int / 3,
                    n as int == 3 * (n as int / 3) + (n as int % 3),
                    0 <= n as int % 3 < 3,
            ;
        }
        let tv0: Vertex = vertex_shader(&vertex_array[3 * t], uniforms);
        let tv1: Vertex = vertex_shader(&vertex_array[3 * t + 1], uniforms);
        let tv2: Vertex = vertex_shader(&vertex_array[3 * t + 2], uniforms);
        let frags: Vec<Fragment> = triangle(
            &tv0,
            &tv1,
            &tv2,
            framebuffer.width,
            framebuffer.height,
        );
        let ghost prev: RasterState = state_of(*framebuffer);
        let fcount: usize = frags.len();
        let mut j: usize = 0;
        while j < fcount
            invariant
                j <= fcount,
                fcount == frags@.len(),
                framebuffer.wf(),
                framebuffer.width == old(framebuffer).width,
                framebuffer.height == old(framebuffer).height,
                framebuffer.background_color == old(framebuffer).background_color,
                w == old(framebuffer).width as int,
                h == old(framebuffer).height as int,
                uniforms_valid(*uniforms),
                forall|i: int| 0 <= i < frags@.len() ==> fragment_valid(#[trigger] frags@[i]),
                state_of(*framebuffer) == frags_fold(
                    prev,
                    w,
                    h,
                    shader,
                    uniforms.time,
                    frags@.take(j as int),
                ),
            decreases fcount - j,
        {
            let f: Fragment = frags[j];
            let shaded: Color = shade(shader, &f, uniforms);
            let hex: u32 = shaded.to_hex();
            if f.x < framebuffer.width && f.y < framebuffer.height {
                framebuffer.set_current_color(hex);
                framebuffer.point(f.x, f.y, f.depth);
            }
            proof {
                assert(frags@.take(j as int + 1).take(j as int) =~= frags@.take(j as int));
                assert(frags@.take(j as int + 1).last() == frags@[j as int]);
            }
            j = j + 1;
        }
        proof {
            assert(frags@.take(fcount as int) =~= frags@);
            assert(state_of(*framebuffer) == frags_fold(
                prev,
                w,
                h,
                shader,
                uniforms.time,
                frags@,
            ));
        }
        t = t + 1;
    }
}

/// Rendering is deterministic: from equal starting buffers, the same mesh,
/// uniforms and shader produce bit-identical buffers, because the whole
/// pass is the pure fold `spec_render` of its inputs.
pub proof fn lemma_render_deterministic(
    st1: RasterState,
    st2: RasterState,
    w: int,
    h: int,
    u: Uniforms,
    verts: Seq<Vertex>,
    kind: ShaderKind,
    tcount: int,
)
    requires
        st1 == st2,
    ensures
        spec_render(st1, w, h, u, verts, kind, tcount) == spec_render(
            st2,
            w,
            h,
            u,
            verts,
            kind,
            tcount,
        ),
{
}

} // verus!
