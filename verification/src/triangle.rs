//! The rasterizer: scan-conversion of one screen-space triangle into the
//! exact sequence of covered-pixel fragments with interpolated attributes.
//!
//! Screen positions are snapped to a 1/16-pixel grid and pixels are sampled
//! at their centers. A pixel is covered when every edge function is
//! positive, or zero on a top-left edge: the fixed tie-break that assigns a
//! pixel exactly on an edge shared by two triangles to exactly one of them.
//! Attributes are interpolated linearly in screen space by barycentric
//! weights; that is a deliberate design choice, not perspective-correct
//! interpolation.

use vstd::prelude::*;
use vstd::arithmetic::div_mod::{
    lemma_div_is_ordered,
    lemma_div_multiples_vanish,
    lemma_div_multiples_vanish_fancy,
    lemma_div_pos_is_pos,
    lemma_fundamental_div_mod,
    lemma_mod_division_less_than_divisor,
};
use vstd::arithmetic::mul::lemma_mul_inequality;
use crate::fixed::{
    fx_clamp01_val,
    fx_clamp_raw,
    fx_len3,
    fx_len3_val,
    fx_sat,
    fx_valid,
    i64_div,
    lemma_div_range,
    normal_valid,
    FX_MAX,
    FX_ONE,
    NORMAL_MAX,
};
use crate::fragment::{fragment_valid, Fragment};
use crate::vertex::{vertex_valid, Vec3Fx, Vertex};

verus! {

/// Subpixel grid positions per pixel.
pub const SUBPIX: i64 = 16;

/// Fixed-point units per subpixel grid step.
pub const FX_PER_SUBPIX: i64 = 4096;

/// Largest screen coordinate (fixed-point) the rasterizer accepts: 2048
/// pixels on either side of the origin.
pub const SCREEN_MAX: i64 = 0x800_0000;

/// Largest snapped (subpixel-grid) coordinate.
pub const SNAP_MAX: i64 = 0x8000;

/// Bound on any point handed to the edge function.
pub const COORD_LIM: i64 = 0x2_0000;

/// Bound on an edge-function value over such points.
pub const EDGE_LIM: i64 = 0x20_0000_0000;

/// Snapped screen x of a transformed vertex, in 1/16-pixel units.
pub open spec fn sv_x(v: Vertex) -> int {
    v.transformed_position.x as int / (FX_PER_SUBPIX as int)
}

/// Snapped screen y of a transformed vertex, in 1/16-pixel units.
pub open spec fn sv_y(v: Vertex) -> int {
    v.transformed_position.y as int / (FX_PER_SUBPIX as int)
}

/// A vertex the rasterizer accepts: well-formed, with its screen position
/// inside the raster range.
pub open spec fn screen_ready(v: Vertex) -> bool {
    &&& vertex_valid(v)
    &&& -SCREEN_MAX <= v.transformed_position.x <= SCREEN_MAX
    &&& -SCREEN_MAX <= v.transformed_position.y <= SCREEN_MAX
}

/// Twice the signed area of the triangle a-b-p, positive when p lies to
/// the left of the directed edge a-b in the y-down screen frame.
pub open spec fn orient_val(ax: int, ay: int, bx: int, by: int, px: int, py: int) -> int {
    (bx - ax) * (py - ay) - (by - ay) * (px - ax)
}

/// Twice the signed area of a triangle in snapped coordinates.
pub open spec fn tri_area_val(v0: Vertex, v1: Vertex, v2: Vertex) -> int {
    orient_val(sv_x(v0), sv_y(v0), sv_x(v1), sv_y(v1), sv_x(v2), sv_y(v2))
}

/// Whether the directed edge a-b is a top or left edge of a
/// positively-oriented triangle in the y-down screen frame.
pub open spec fn top_left_val(ax: int, ay: int, bx: int, by: int) -> bool {
    by > ay || (by == ay && bx < ax)
}

/// The edge-inclusion rule: strictly inside, or exactly on a top-left edge.
pub open spec fn edge_admits(e: int, ax: int, ay: int, bx: int, by: int) -> bool {
    e > 0 || (e == 0 && top_left_val(ax, ay, bx, by))
}

/// Subpixel x of the center of pixel column px.
pub open spec fn center_of(p: int) -> int {
    SUBPIX * p + 8
}

/// Edge function of edge v1-v2 (opposite v0) at the center of pixel (px, py).
pub open spec fn edge0_val(v0: Vertex, v1: Vertex, v2: Vertex, px: int, py: int) -> int {
    orient_val(sv_x(v1), sv_y(v1), sv_x(v2), sv_y(v2), center_of(px), center_of(py))
}

/// Edge function of edge v2-v0 (opposite v1).
pub open spec fn edge1_val(v0: Vertex, v1: Vertex, v2: Vertex, px: int, py: int) -> int {
    orient_val(sv_x(v2), sv_y(v2), sv_x(v0), sv_y(v0), center_of(px), center_of(py))
}

/// Edge function of edge v0-v1 (opposite v2).
pub open spec fn edge2_val(v0: Vertex, v1: Vertex, v2: Vertex, px: int, py: int) -> int {
    orient_val(sv_x(v0), sv_y(v0), sv_x(v1), sv_y(v1), center_of(px), center_of(py))
}

/// Whether the center of pixel (px, py) is covered by the
/// positively-oriented triangle v0-v1-v2 under the top-left rule.
pub open spec fn covered_val(v0: Vertex, v1: Vertex, v2: Vertex, px: int, py: int) -> bool {
    &&& edge_admits(edge0_val(v0, v1, v2, px, py), sv_x(v1), sv_y(v1), sv_x(v2), sv_y(v2))
    &&& edge_admits(edge1_val(v0, v1, v2, px, py), sv_x(v2), sv_y(v2), sv_x(v0), sv_y(v0))
    &&& edge_admits(edge2_val(v0, v1, v2, px, py), sv_x(v0), sv_y(v0), sv_x(v1), sv_y(v1))
}

/// Normalized barycentric weight of an edge value, in fixed point.
pub open spec fn bary_val(e: int, area: int) -> int {
    (e * (FX_ONE as int)) / area
}

/// Barycentric interpolation of one attribute, saturated into the
/// fixed-point range.
pub open spec fn interp_val(
    w0: int,
    w1: int,
    w2: int,
    area: int,
    a0: int,
    a1: int,
    a2: int,
) -> int {
    fx_sat(
        (bary_val(w0, area) * a0 + bary_val(w1, area) * a1 + bary_val(w2, area) * a2) / (
        FX_ONE as int),
    )
}

/// Clamp an interpolated scalar into the normal-component range.
pub open spec fn nclamp_val(v: int) -> int {
    if v > NORMAL_MAX {
        NORMAL_MAX as int
    } else if v < -NORMAL_MAX {
        -NORMAL_MAX as int
    } else {
        v
    }
}

/// Diffuse intensity of a normal vector against the fixed light direction
/// (0, 0, 1): the normalized z component, clamped into [0, 1].
pub open spec fn intensity_val(nx: int, ny: int, nz: int) -> int {
    let mag = fx_len3_val(nx, ny, nz);
    if mag == 0 {
        0
    } else {
        fx_clamp01_val((nz * (FX_ONE as int)) / mag)
    }
}

/// The fragment emitted for covered pixel (px, py) of the
/// positively-oriented triangle v0-v1-v2.
pub open spec fn frag_at(v0: Vertex, v1: Vertex, v2: Vertex, px: int, py: int) -> Fragment {
    let area = tri_area_val(v0, v1, v2);
    let w0 = edge0_val(v0, v1, v2, px, py);
    let w1 = edge1_val(v0, v1, v2, px, py);
    let w2 = edge2_val(v0, v1, v2, px, py);
    let depth = interp_val(
        w0,
        w1,
        w2,
        area,
        v0.transformed_position.z as int,
        v1.transformed_position.z as int,
        v2.transformed_position.z as int,
    );
    let vpx = interp_val(
        w0,
        w1,
        w2,
        area,
        v0.position.x as int,
        v1.position.x as int,
        v2.position.x as int,
    );
    let vpy = interp_val(
        w0,
        w1,
        w2,
        area,
        v0.position.y as int,
        v1.position.y as int,
        v2.position.y as int,
    );
    let vpz = interp_val(
        w0,
        w1,
        w2,
        area,
        v0.position.z as int,
        v1.position.z as int,
        v2.position.z as int,
    );
    let nx = nclamp_val(
        interp_val(
            w0,
            w1,
            w2,
            area,
            v0.transformed_normal.x as int,
            v1.transformed_normal.x as int,
            v2.transformed_normal.x as int,
        ),
    );
    let ny = nclamp_val(
        interp_val(
            w0,
            w1,
            w2,
            area,
            v0.transformed_normal.y as int,
            v1.transformed_normal.y as int,
            v2.transformed_normal.y as int,
        ),
    );
    let nz = nclamp_val(
        interp_val(
            w0,
            w1,
            w2,
            area,
            v0.transformed_normal.z as int,
            v1.transformed_normal.z as int,
            v2.transformed_normal.z as int,
        ),
    );
    Fragment {
        x: px as usize,
        y: py as usize,
        depth: depth as i64,
        vertex_position: Vec3Fx { x: vpx as i64, y: vpy as i64, z: vpz as i64 },
        normal: Vec3Fx { x: nx as i64, y: ny as i64, z: nz as i64 },
        intensity: intensity_val(nx, ny, nz) as i64,
    }
}

/// Fragments of one pixel row, columns x0 (inclusive) to x1 (exclusive),
/// in ascending column order.
pub open spec fn row_frags(
    v0: Vertex,
    v1: Vertex,
    v2: Vertex,
    py: int,
    x0: int,
    x1: int,
) -> Seq<Fragment>
    decreases x1 - x0,
{
    if x1 <= x0 {
        Seq::empty()
    } else {
        let rest = row_frags(v0, v1, v2, py, x0, x1 - 1);
        if covered_val(v0, v1, v2, x1 - 1, py) {
            rest.push(frag_at(v0, v1, v2, x1 - 1, py))
        } else {
            rest
        }
    }
}

/// Fragments of the pixel rows y0 (inclusive) to y1 (exclusive), row-major.
pub open spec fn box_frags(
    v0: Vertex,
    v1: Vertex,
    v2: Vertex,
    y0: int,
    y1: int,
    x0: int,
    x1: int,
) -> Seq<Fragment>
    decreases y1 - y0,
{
    if y1 <= y0 {
        Seq::empty()
    } else {
        box_frags(v0, v1, v2, y0, y1 - 1, x0, x1) + row_frags(v0, v1, v2, y1 - 1, x0, x1)
    }
}

/// Smallest of three integers.
pub open spec fn min3(a: int, b: int, c: int) -> int {
    if a <= b && a <= c {
        a
    } else if b <= c {
        b
    } else {
        c
    }
}

/// Largest of three integers.
pub open spec fn max3(a: int, b: int, c: int) -> int {
    if a >= b && a >= c {
        a
    } else if b >= c {
        b
    } else {
        c
    }
}

/// First pixel column whose center is not left of the triangle.
pub open spec fn px_lo_val(v0: Vertex, v1: Vertex, v2: Vertex) -> int {
    (min3(sv_x(v0), sv_x(v1), sv_x(v2)) + 7) / (SUBPIX as int)
}

/// One past the last pixel column whose center is not right of the triangle.
pub open spec fn px_hi_val(v0: Vertex, v1: Vertex, v2: Vertex) -> int {
    (max3(sv_x(v0), sv_x(v1), sv_x(v2)) - 8) / (SUBPIX as int) + 1
}

/// First pixel row whose center is not above the triangle.
pub open spec fn py_lo_val(v0: Vertex, v1: Vertex, v2: Vertex) -> int {
    (min3(sv_y(v0), sv_y(v1), sv_y(v2)) + 7) / (SUBPIX as int)
}

/// One past the last pixel row whose center is not below the triangle.
pub open spec fn py_hi_val(v0: Vertex, v1: Vertex, v2: Vertex) -> int {
    (max3(sv_y(v0), sv_y(v1), sv_y(v2)) - 8) / (SUBPIX as int) + 1
}

/// Clamp a lower bbox bound into the framebuffer.
pub open spec fn clamp_lo(a: int) -> int {
    if a < 0 {
        0
    } else {
        a
    }
}

/// Clamp an upper (exclusive) bbox bound into the framebuffer.
pub open spec fn clamp_hi(a: int, lim: int) -> int {
    if a > lim {
        lim
    } else {
        a
    }
}

/// The exact fragment sequence of one triangle against a w x h framebuffer:
/// winding is normalized by swapping the last two vertices, a degenerate
/// (zero-area) triangle yields nothing, and the covered pixels of the
/// clamped bounding box are emitted in row-major order.
pub open spec fn triangle_frags(v0: Vertex, v1: Vertex, v2: Vertex, w: int, h: int) -> Seq<
    Fragment,
> {
    let a0 = tri_area_val(v0, v1, v2);
    if a0 == 0 {
        Seq::empty()
    } else {
        let va = v0;
        let vb = if a0 < 0 {
            v2
        } else {
            v1
        };
        let vc = if a0 < 0 {
            v1
        } else {
            v2
        };
        box_frags(
            va,
            vb,
            vc,
            clamp_lo(py_lo_val(va, vb, vc)),
            clamp_hi(py_hi_val(va, vb, vc), h),
            clamp_lo(px_lo_val(va, vb, vc)),
            clamp_hi(px_hi_val(va, vb, vc), w),
        )
    }
}

/// Swapping the last two vertices negates the signed area.
pub proof fn lemma_area_swap(v0: Vertex, v1: Vertex, v2: Vertex)
    ensures
        tri_area_val(v0, v2, v1) == -tri_area_val(v0, v1, v2),
{
    let x0 = sv_x(v0);
    let y0 = sv_y(v0);
    let x1 = sv_x(v1);
    let y1 = sv_y(v1);
    let x2 = sv_x(v2);
    let y2 = sv_y(v2);
    assert(orient_val(x0, y0, x2, y2, x1, y1) == -orient_val(x0, y0, x1, y1, x2, y2))
        by (nonlinear_arith);
}

/// The ring identity behind `lemma_edge_sum`, over arbitrary coordinates.
#[verifier::rlimit(100)]
proof fn lemma_orient_sum_poly(
    x0: int,
    y0: int,
    x1: int,
    y1: int,
    x2: int,
    y2: int,
    cx: int,
    cy: int,
)
    ensures
        orient_val(x1, y1, x2, y2, cx, cy) + orient_val(x2, y2, x0, y0, cx, cy) + orient_val(
            x0,
            y0,
            x1,
            y1,
            cx,
            cy,
        ) == orient_val(x0, y0, x1, y1, x2, y2),
{
    assert((x2 - x1) * (cy - y1) - (y2 - y1) * (cx - x1) + ((x0 - x2) * (cy - y2) - (y0 - y2) * (cx
        - x2)) + ((x1 - x0) * (cy - y0) - (y1 - y0) * (cx - x0)) == (x1 - x0) * (y2 - y0) - (y1
        - y0) * (x2 - x0)) by (nonlinear_arith);
}

/// The three edge functions of a point against a triangle sum to the
/// triangle's signed area: the discrete form of barycentric weights
/// summing to one.
pub proof fn lemma_edge_sum(v0: Vertex, v1: Vertex, v2: Vertex, px: int, py: int)
    ensures
        edge0_val(v0, v1, v2, px, py) + edge1_val(v0, v1, v2, px, py) + edge2_val(
            v0,
            v1,
            v2,
            px,
            py,
        ) == tri_area_val(v0, v1, v2),
{
    let x0 = sv_x(v0);
    let y0 = sv_y(v0);
    let x1 = sv_x(v1);
    let y1 = sv_y(v1);
    let x2 = sv_x(v2);
    let y2 = sv_y(v2);
    let cx = center_of(px);
    let cy = center_of(py);
    lemma_orient_sum_poly(x0, y0, x1, y1, x2, y2, cx, cy);
}

/// A degenerate triangle — zero signed area, all three vertices collinear —
/// contributes no fragments at all.
pub proof fn lemma_degenerate_empty(v0: Vertex, v1: Vertex, v2: Vertex, w: int, h: int)
    requires
        tri_area_val(v0, v1, v2) == 0,
    ensures
        triangle_frags(v0, v1, v2, w, h) == Seq::<Fragment>::empty(),
{
}

/// A column range that is empty makes the whole box empty, row by row.
proof fn lemma_box_empty_cols(
    v0: Vertex,
    v1: Vertex,
    v2: Vertex,
    y0: int,
    y1: int,
    x0: int,
    x1: int,
)
    requires
        x1 <= x0,
    ensures
        box_frags(v0, v1, v2, y0, y1, x0, x1) == Seq::<Fragment>::empty(),
    decreases y1 - y0,
{
    if y1 > y0 {
        lemma_box_empty_cols(v0, v1, v2, y0, y1 - 1, x0, x1);
        assert(row_frags(v0, v1, v2, y1 - 1, x0, x1) == Seq::<Fragment>::empty());
        assert(box_frags(v0, v1, v2, y0, y1, x0, x1) =~= Seq::<Fragment>::empty());
    }
}

/// A triangle that lies fully outside the framebuffer — beyond any of its
/// four edges in snapped coordinates — rasterizes to an empty fragment
/// sequence.
pub proof fn lemma_outside_empty(v0: Vertex, v1: Vertex, v2: Vertex, w: int, h: int)
    requires
        0 <= w,
        0 <= h,
        max3(sv_x(v0), sv_x(v1), sv_x(v2)) < 0 || min3(sv_x(v0), sv_x(v1), sv_x(v2)) >= SUBPIX * w
            || max3(sv_y(v0), sv_y(v1), sv_y(v2)) < 0 || min3(sv_y(v0), sv_y(v1), sv_y(v2))
            >= SUBPIX * h,
    ensures
        triangle_frags(v0, v1, v2, w, h) == Seq::<Fragment>::empty(),
{
    let a0 = tri_area_val(v0, v1, v2);
    if a0 != 0 {
        let va = v0;
        let vb = if a0 < 0 { v2 } else { v1 };
        let vc = if a0 < 0 { v1 } else { v2 };
        let minx = min3(sv_x(va), sv_x(vb), sv_x(vc));
        let maxx = max3(sv_x(va), sv_x(vb), sv_x(vc));
        let miny = min3(sv_y(va), sv_y(vb), sv_y(vc));
        let maxy = max3(sv_y(va), sv_y(vb), sv_y(vc));
        assert(minx == min3(sv_x(v0), sv_x(v1), sv_x(v2)));
        assert(maxx == max3(sv_x(v0), sv_x(v1), sv_x(v2)));
        assert(miny == min3(sv_y(v0), sv_y(v1), sv_y(v2)));
        assert(maxy == max3(sv_y(v0), sv_y(v1), sv_y(v2)));
        let x0 = clamp_lo(px_lo_val(va, vb, vc));
        let x1 = clamp_hi(px_hi_val(va, vb, vc), w);
        let y0 = clamp_lo(py_lo_val(va, vb, vc));
        let y1 = clamp_hi(py_hi_val(va, vb, vc), h);
        if maxx < 0 {
            lemma_div_is_ordered(maxx - 8, -9, SUBPIX as int);
            assert((-9) / (SUBPIX as int) == -1) by {
                lemma_fundamental_div_mod(-9, SUBPIX as int);
                lemma_mod_division_less_than_divisor(-9, SUBPIX as int);
                assert((-9) / (SUBPIX as int) == -1) by (nonlinear_arith)
                    requires
                        -9 == (SUBPIX as int) * ((-9) / (SUBPIX as int)) + (-9) % (
                        SUBPIX as int),
                        0 <= (-9) % (SUBPIX as int) < SUBPIX,
                ;
            }
            assert(x1 <= 0 && 0 <= x0);
            lemma_box_empty_cols(va, vb, vc, y0, y1, x0, x1);
        } else if minx >= SUBPIX * w {
            lemma_div_is_ordered(SUBPIX * w + 7, minx + 7, SUBPIX as int);
            lemma_div_multiples_vanish_fancy(w, 7, SUBPIX as int);
            assert(px_lo_val(va, vb, vc) >= w);
            assert(x1 <= w <= x0);
            lemma_box_empty_cols(va, vb, vc, y0, y1, x0, x1);
        } else if maxy < 0 {
            lemma_div_is_ordered(maxy - 8, -9, SUBPIX as int);
            assert((-9) / (SUBPIX as int) == -1) by {
                lemma_fundamental_div_mod(-9, SUBPIX as int);
                lemma_mod_division_less_than_divisor(-9, SUBPIX as int);
                assert((-9) / (SUBPIX as int) == -1) by (nonlinear_arith)
                    requires
                        -9 == (SUBPIX as int) * ((-9) / (SUBPIX as int)) + (-9) % (
                        SUBPIX as int),
                        0 <= (-9) % (SUBPIX as int) < SUBPIX,
                ;
            }
            assert(y1 <= 0 && 0 <= y0);
        } else {
            lemma_div_is_ordered(SUBPIX * h + 7, miny + 7, SUBPIX as int);
            lemma_div_multiples_vanish_fancy(h, 7, SUBPIX as int);
            assert(py_lo_val(va, vb, vc) >= h);
            assert(y1 <= h <= y0);
        }
    }
}

/// For a pixel center strictly inside a positively-oriented triangle, all
/// three barycentric weights are strictly positive and sum exactly to the
/// signed area; the normalized fixed-point weights lie in [0, 1] and sum to
/// 1 up to the rounding of the three floors.
pub proof fn lemma_barycentric_inside(v0: Vertex, v1: Vertex, v2: Vertex, px: int, py: int)
    requires
        tri_area_val(v0, v1, v2) > 0,
        edge0_val(v0, v1, v2, px, py) > 0,
        edge1_val(v0, v1, v2, px, py) > 0,
        edge2_val(v0, v1, v2, px, py) > 0,
    ensures
        edge0_val(v0, v1, v2, px, py) + edge1_val(v0, v1, v2, px, py) + edge2_val(
            v0,
            v1,
            v2,
            px,
            py,
        ) == tri_area_val(v0, v1, v2),
        0 <= bary_val(edge0_val(v0, v1, v2, px, py), tri_area_val(v0, v1, v2)) <= FX_ONE,
        0 <= bary_val(edge1_val(v0, v1, v2, px, py), tri_area_val(v0, v1, v2)) <= FX_ONE,
        0 <= bary_val(edge2_val(v0, v1, v2, px, py), tri_area_val(v0, v1, v2)) <= FX_ONE,
        FX_ONE - 2 <= bary_val(edge0_val(v0, v1, v2, px, py), tri_area_val(v0, v1, v2))
            + bary_val(edge1_val(v0, v1, v2, px, py), tri_area_val(v0, v1, v2)) + bary_val(
            edge2_val(v0, v1, v2, px, py),
            tri_area_val(v0, v1, v2),
        ) <= FX_ONE,
{
    let a = tri_area_val(v0, v1, v2);
    let w0 = edge0_val(v0, v1, v2, px, py);
    let w1 = edge1_val(v0, v1, v2, px, py);
    let w2 = edge2_val(v0, v1, v2, px, py);
    lemma_edge_sum(v0, v1, v2, px, py);
    lemma_bary_in_unit(w0, a);
    lemma_bary_in_unit(w1, a);
    lemma_bary_in_unit(w2, a);
    let f = FX_ONE as int;
    lemma_fundamental_div_mod(w0 * f, a);
    lemma_fundamental_div_mod(w1 * f, a);
    lemma_fundamental_div_mod(w2 * f, a);
    lemma_mod_division_less_than_divisor(w0 * f, a);
    lemma_mod_division_less_than_divisor(w1 * f, a);
    lemma_mod_division_less_than_divisor(w2 * f, a);
    let b0 = bary_val(w0, a);
    let b1 = bary_val(w1, a);
    let b2 = bary_val(w2, a);
    let r0 = (w0 * f) % a;
    let r1 = (w1 * f) % a;
    let r2 = (w2 * f) % a;
    assert(f - 2 <= b0 + b1 + b2 <= f) by (nonlinear_arith)
        requires
            w0 * f == a * b0 + r0,
            w1 * f == a * b1 + r1,
            w2 * f == a * b2 + r2,
            0 <= r0 < a,
            0 <= r1 < a,
            0 <= r2 < a,
            w0 + w1 + w2 == a,
            0 < a,
    ;
}

/// A weight between zero and the area has a normalized value in [0, 1].
proof fn lemma_bary_in_unit(w: int, a: int)
    requires
        0 <= w <= a,
        0 < a,
    ensures
        0 <= bary_val(w, a) <= FX_ONE,
{
    let f = FX_ONE as int;
    lemma_mul_inequality(w, a, f);
    lemma_div_is_ordered(w * f, a * f, a);
    lemma_div_multiples_vanish(f, a);
    assert(a * f == a * f);
    lemma_div_pos_is_pos(w * f, a);
}

/// Snap a fixed-point screen coordinate to the subpixel grid.
fn snap(c: i64) -> (s: i64)
    requires
        -SCREEN_MAX <= c <= SCREEN_MAX,
    ensures
        s == c as int / (FX_PER_SUBPIX as int),
        -SNAP_MAX <= s <= SNAP_MAX,
{
    proof {
        lemma_div_range(c as int, FX_PER_SUBPIX as int, SCREEN_MAX as int);
        lemma_div_is_ordered(c as int, SCREEN_MAX as int, FX_PER_SUBPIX as int);
        lemma_div_is_ordered(-SCREEN_MAX as int, c as int, FX_PER_SUBPIX as int);
        lemma_div_multiples_vanish(SNAP_MAX as int, FX_PER_SUBPIX as int);
        lemma_div_multiples_vanish(-SNAP_MAX as int, FX_PER_SUBPIX as int);
        assert((FX_PER_SUBPIX as int) * (SNAP_MAX as int) == SCREEN_MAX as int);
        assert((FX_PER_SUBPIX as int) * (-SNAP_MAX as int) == -SCREEN_MAX as int);
    }
    i64_div(c, FX_PER_SUBPIX)
}

/// The edge function, evaluated exactly.
fn orient2d(ax: i64, ay: i64, bx: i64, by: i64, px: i64, py: i64) -> (r: i64)
    requires
        -COORD_LIM <= ax <= COORD_LIM,
        -COORD_LIM <= ay <= COORD_LIM,
        -COORD_LIM <= bx <= COORD_LIM,
        -COORD_LIM <= by <= COORD_LIM,
        -COORD_LIM <= px <= COORD_LIM,
        -COORD_LIM <= py <= COORD_LIM,
    ensures
        r == orient_val(ax as int, ay as int, bx as int, by as int, px as int, py as int),
        -EDGE_LIM <= r <= EDGE_LIM,
{
    let dx1: i64 = bx - ax;
    let dy1: i64 = by - ay;
    let dx2: i64 = px - ax;
    let dy2: i64 = py - ay;
    proof {
        assert(-0x10_0000_0000 <= dx1 as int * dy2 as int <= 0x10_0000_0000
            && -0x10_0000_0000 <= dy1 as int * dx2 as int <= 0x10_0000_0000)
            by (nonlinear_arith)
            requires
                -0x4_0000 <= dx1 <= 0x4_0000,
                -0x4_0000 <= dy1 <= 0x4_0000,
                -0x4_0000 <= dx2 <= 0x4_0000,
                -0x4_0000 <= dy2 <= 0x4_0000,
        ;
    }
    dx1 * dy2 - dy1 * dx2
}

/// Barycentric interpolation of one attribute across the triangle.
fn interp_attr(w0: i64, w1: i64, w2: i64, area: i64, a0: i64, a1: i64, a2: i64) -> (r: i64)
    requires
        0 <= w0,
        0 <= w1,
        0 <= w2,
        w0 + w1 + w2 == area,
        0 < area <= EDGE_LIM,
        fx_valid(a0),
        fx_valid(a1),
        fx_valid(a2),
    ensures
        r == interp_val(w0 as int, w1 as int, w2 as int, area as int, a0 as int, a1 as int, a2 as int),
        fx_valid(r),
{
    let b0: i64 = bary(w0, area);
    let b1: i64 = bary(w1, area);
    let b2: i64 = bary(w2, area);
    proof {
        assert(-0x8000_0000_0000 <= b0 as int * a0 as int <= 0x8000_0000_0000
            && -0x8000_0000_0000 <= b1 as int * a1 as int <= 0x8000_0000_0000
            && -0x8000_0000_0000 <= b2 as int * a2 as int <= 0x8000_0000_0000)
            by (nonlinear_arith)
            requires
                0 <= b0 <= FX_ONE,
                0 <= b1 <= FX_ONE,
                0 <= b2 <= FX_ONE,
                -FX_MAX <= a0 <= FX_MAX,
                -FX_MAX <= a1 <= FX_MAX,
                -FX_MAX <= a2 <= FX_MAX,
        ;
    }
    let num: i64 = b0 * a0 + b1 * a1 + b2 * a2;
    proof {
        lemma_div_range(num as int, FX_ONE as int, 0x1_8000_0000_0000);
    }
    let q: i64 = i64_div(num, FX_ONE);
    fx_clamp_raw(q)
}

/// One normalized barycentric weight in fixed point, in [0, 1].
fn bary(w: i64, area: i64) -> (b: i64)
    requires
        0 <= w <= area,
        0 < area <= EDGE_LIM,
    ensures
        b == bary_val(w as int, area as int),
        0 <= b <= FX_ONE,
{
    proof {
        assert(0 <= w as int * (FX_ONE as int) <= 0x2000_0000_0000_0000) by (nonlinear_arith)
            requires
                0 <= w <= EDGE_LIM,
        ;
        lemma_mul_inequality(w as int, area as int, FX_ONE as int);
        lemma_div_is_ordered(
            w as int * (FX_ONE as int),
            area as int * (FX_ONE as int),
            area as int,
        );
        lemma_div_multiples_vanish(FX_ONE as int, area as int);
        assert(area as int * (FX_ONE as int) == (area as int) * (FX_ONE as int));
        lemma_div_pos_is_pos(w as int * (FX_ONE as int), area as int);
    }
    let p: i64 = w * FX_ONE;
    i64_div(p, area)
}

/// Clamp an interpolated component into the normal range.
fn nclamp(v: i64) -> (r: i64)
    ensures
        r == nclamp_val(v as int),
        normal_valid(r),
{
    if v > NORMAL_MAX {
        NORMAL_MAX
    } else if v < -NORMAL_MAX {
        -NORMAL_MAX
    } else {
        v
    }
}

/// Smallest of three machine integers.
fn imin3(a: i64, b: i64, c: i64) -> (r: i64)
    ensures
        r == min3(a as int, b as int, c as int),
{
    if a <= b && a <= c {
        a
    } else if b <= c {
        b
    } else {
        c
    }
}

/// Largest of three machine integers.
fn imax3(a: i64, b: i64, c: i64) -> (r: i64)
    ensures
        r == max3(a as int, b as int, c as int),
{
    if a >= b && a >= c {
        a
    } else if b >= c {
        b
    } else {
        c
    }
}

/// The top-left test on a directed edge.
fn top_left(ax: i64, ay: i64, bx: i64, by: i64) -> (r: bool)
    ensures
        r == top_left_val(ax as int, ay as int, bx as int, by as int),
{
    by > ay || (by == ay && bx < ax)
}

/// Diffuse intensity of a clamped normal against the fixed light (0, 0, 1).
fn intensity_of(nx: i64, ny: i64, nz: i64) -> (r: i64)
    requires
        normal_valid(nx),
        normal_valid(ny),
        normal_valid(nz),
    ensures
        r == intensity_val(nx as int, ny as int, nz as int),
        0 <= r <= FX_ONE,
{
    let mag: i64 = fx_len3(nx, ny, nz);
    if mag == 0 {
        0
    } else {
        proof {
            assert(-0x400_0000_0000 <= nz as int * (FX_ONE as int) <= 0x400_0000_0000)
                by (nonlinear_arith)
                requires
                    -NORMAL_MAX <= nz <= NORMAL_MAX,
            ;
            lemma_div_range(nz as int * (FX_ONE as int), mag as int, 0x400_0000_0000);
        }
        let p: i64 = nz * FX_ONE;
        let q: i64 = i64_div(p, mag);
        crate::fixed::fx_clamp01(q)
    }
}

/// Rasterize one screen-space triangle against a width x height
/// framebuffer: the result is exactly the fragment sequence that
/// `triangle_frags` describes, and every fragment lies inside the
/// framebuffer with all attributes in range.
pub fn triangle(v0: &Vertex, v1: &Vertex, v2: &Vertex, width: usize, height: usize) -> (res: Vec<
    Fragment,
>)
    requires
        screen_ready(*v0),
        screen_ready(*v1),
        screen_ready(*v2),
        width <= 4096,
        height <= 4096,
    ensures
        res@ == triangle_frags(*v0, *v1, *v2, width as int, height as int),
        forall|i: int|
            0 <= i < res@.len() ==> (#[trigger] res@[i]).x < width && res@[i].y < height
                && fragment_valid(res@[i]),
{
    let sx0: i64 = snap(v0.transformed_position.x);
    let sy0: i64 = snap(v0.transformed_position.y);
    let sx1: i64 = snap(v1.transformed_position.x);
    let sy1: i64 = snap(v1.transformed_position.y);
    let sx2: i64 = snap(v2.transformed_position.x);
    let sy2: i64 = snap(v2.transformed_position.y);
    let a0: i64 = orient2d(sx0, sy0, sx1, sy1, sx2, sy2);
    proof {
        assert(a0 == tri_area_val(*v0, *v1, *v2));
    }
    if a0 == 0 {
        let res: Vec<Fragment> = Vec::new();
        return res;
    }
    let va: Vertex = *v0;
    let vb: Vertex = if a0 < 0 { *v2 } else { *v1 };
    let vc: Vertex = if a0 < 0 { *v1 } else { *v2 };
    let sxb: i64 = if a0 < 0 { sx2 } else { sx1 };
    let syb: i64 = if a0 < 0 { sy2 } else { sy1 };
    let sxc: i64 = if a0 < 0 { sx1 } else { sx2 };
    let syc: i64 = if a0 < 0 { sy1 } else { sy2 };
    let area: i64 = orient2d(sx0, sy0, sxb, syb, sxc, syc);
    proof {
        if a0 < 0 {
            lemma_area_swap(*v0, *v1, *v2);
        }
        assert(area == tri_area_val(va, vb, vc));
        assert(area > 0);
    }
    let minx: i64 = imin3(sx0, sxb, sxc);
    let maxx: i64 = imax3(sx0, sxb, sxc);
    let miny: i64 = imin3(sy0, syb, syc);
    let maxy: i64 = imax3(sy0, syb, syc);
    proof {
        lemma_div_range(minx as int + 7, SUBPIX as int, 0x9000);
        lemma_div_range(maxx as int - 8, SUBPIX as int, 0x9000);
        lemma_div_range(miny as int + 7, SUBPIX as int, 0x9000);
        lemma_div_range(maxy as int - 8, SUBPIX as int, 0x9000);
    }
    let pxlo: i64 = i64_div(minx + 7, SUBPIX);
    let pxhi: i64 = i64_div(maxx - 8, SUBPIX) + 1;
    let pylo: i64 = i64_div(miny + 7, SUBPIX);
    let pyhi: i64 = i64_div(maxy - 8, SUBPIX) + 1;
    let px0: i64 = if pxlo < 0 { 0 } else { pxlo };
    let px1: i64 = if pxhi > width as i64 { width as i64 } else { pxhi };
    let py0: i64 = if pylo < 0 { 0 } else { pylo };
    let py1: i64 = if pyhi > height as i64 { height as i64 } else { pyhi };
    let py1c: i64 = if py1 < py0 { py0 } else { py1 };
    let px1c: i64 = if px1 < px0 { px0 } else { px1 };
    proof {
        assert(px0 == clamp_lo(px_lo_val(va, vb, vc)));
        assert(px1 == clamp_hi(px_hi_val(va, vb, vc), width as int));
        assert(py0 == clamp_lo(py_lo_val(va, vb, vc)));
        assert(py1 == clamp_hi(py_hi_val(va, vb, vc), height as int));
    }
    let mut res: Vec<Fragment> = Vec::new();
    let mut py: i64 = py0;
    while py < py1c
        invariant
            py0 <= py <= py1c,
            py1c == if py1 < py0 { py0 } else { py1 },
            px1c == if px1 < px0 { px0 } else { px1 },
            0 <= py0 <= 0x9000,
            py1 <= height,
            0 <= px0 <= 0x9000,
            px1 <= width,
            width <= 4096,
            height <= 4096,
            area == tri_area_val(va, vb, vc),
            0 < area <= EDGE_LIM,
            vertex_valid(va),
            vertex_valid(vb),
            vertex_valid(vc),
            sx0 == sv_x(va),
            sy0 == sv_y(va),
            sxb == sv_x(vb),
            syb == sv_y(vb),
            sxc == sv_x(vc),
            syc == sv_y(vc),
            -SNAP_MAX <= sx0 <= SNAP_MAX,
            -SNAP_MAX <= sy0 <= SNAP_MAX,
            -SNAP_MAX <= sxb <= SNAP_MAX,
            -SNAP_MAX <= syb <= SNAP_MAX,
            -SNAP_MAX <= sxc <= SNAP_MAX,
            -SNAP_MAX <= syc <= SNAP_MAX,
            res@ == box_frags(va, vb, vc, py0 as int, py as int, px0 as int, px1 as int),
            forall|i: int|
                0 <= i < res@.len() ==> (#[trigger] res@[i]).x < width && res@[i].y < height
                    && fragment_valid(res@[i]),
        decreases py1c - py,
    {
        let mut px: i64 = px0;
        while px < px1c
            invariant
                px0 <= px <= px1c,
                px1c == if px1 < px0 { px0 } else { px1 },
                py1c == if py1 < py0 { py0 } else { py1 },
                py0 <= py < py1c,
                py1 <= height,
                0 <= py0 <= 0x9000,
                0 <= px0 <= 0x9000,
                px1 <= width,
                width <= 4096,
                height <= 4096,
                area == tri_area_val(va, vb, vc),
                0 < area <= EDGE_LIM,
                vertex_valid(va),
                vertex_valid(vb),
                vertex_valid(vc),
                sx0 == sv_x(va),
                sy0 == sv_y(va),
                sxb == sv_x(vb),
                syb == sv_y(vb),
                sxc == sv_x(vc),
                syc == sv_y(vc),
                -SNAP_MAX <= sx0 <= SNAP_MAX,
                -SNAP_MAX <= sy0 <= SNAP_MAX,
                -SNAP_MAX <= sxb <= SNAP_MAX,
                -SNAP_MAX <= syb <= SNAP_MAX,
                -SNAP_MAX <= sxc <= SNAP_MAX,
                -SNAP_MAX <= syc <= SNAP_MAX,
                res@ == box_frags(va, vb, vc, py0 as int, py as int, px0 as int, px1 as int)
                    + row_frags(va, vb, vc, py as int, px0 as int, px as int),
                forall|i: int|
                    0 <= i < res@.len() ==> (#[trigger] res@[i]).x < width && res@[i].y < height
                        && fragment_valid(res@[i]),
            decreases px1c - px,
        {
            let cx: i64 = SUBPIX * px + 8;
            let cy: i64 = SUBPIX * py + 8;
            let e0: i64 = orient2d(sxb, syb, sxc, syc, cx, cy);
            let e1: i64 = orient2d(sxc, syc, sx0, sy0, cx, cy);
            let e2: i64 = orient2d(sx0, sy0, sxb, syb, cx, cy);
            let adm0: bool = e0 > 0 || (e0 == 0 && top_left(sxb, syb, sxc, syc));
            let adm1: bool = e1 > 0 || (e1 == 0 && top_left(sxc, syc, sx0, sy0));
            let adm2: bool = e2 > 0 || (e2 == 0 && top_left(sx0, sy0, sxb, syb));
            if adm0 && adm1 && adm2 {
                proof {
                    assert(e0 == edge0_val(va, vb, vc, px as int, py as int));
                    assert(e1 == edge1_val(va, vb, vc, px as int, py as int));
                    assert(e2 == edge2_val(va, vb, vc, px as int, py as int));
                    assert(covered_val(va, vb, vc, px as int, py as int));
                    lemma_edge_sum(va, vb, vc, px as int, py as int);
                }
                let depth: i64 = interp_attr(
                    e0,
                    e1,
                    e2,
                    area,
                    va.transformed_position.z,
                    vb.transformed_position.z,
                    vc.transformed_position.z,
                );
                let vpx: i64 = interp_attr(
                    e0,
                    e1,
                    e2,
                    area,
                    va.position.x,
                    vb.position.x,
                    vc.position.x,
                );
                let vpy: i64 = interp_attr(
                    e0,
                    e1,
                    e2,
                    area,
                    va.position.y,
                    vb.position.y,
                    vc.position.y,
                );
                let vpz: i64 = interp_attr(
                    e0,
                    e1,
                    e2,
                    area,
                    va.position.z,
                    vb.position.z,
                    vc.position.z,
                );
                let nx: i64 = nclamp(
                    interp_attr(
                        e0,
                        e1,
                        e2,
                        area,
                        va.transformed_normal.x,
                        vb.transformed_normal.x,
                        vc.transformed_normal.x,
                    ),
                );
                let ny: i64 = nclamp(
                    interp_attr(
                        e0,
                        e1,
                        e2,
                        area,
                        va.transformed_normal.y,
                        vb.transformed_normal.y,
                        vc.transformed_normal.y,
                    ),
                );
                let nz: i64 = nclamp(
                    interp_attr(
                        e0,
                        e1,
                        e2,
                        area,
                        va.transformed_normal.z,
                        vb.transformed_normal.z,
                        vc.transformed_normal.z,
                    ),
                );
                let inten: i64 = intensity_of(nx, ny, nz);
                let f = Fragment {
                    x: px as usize,
                    y: py as usize,
                    depth,
                    vertex_position: Vec3Fx { x: vpx, y: vpy, z: vpz },
                    normal: Vec3Fx { x: nx, y: ny, z: nz },
                    intensity: inten,
                };
                proof {
                    assert(f == frag_at(va, vb, vc, px as int, py as int));
                }
                res.push(f);
            }
            proof {
                assert(row_frags(va, vb, vc, py as int, px0 as int, px as int + 1)
                    == if covered_val(va, vb, vc, px as int, py as int) {
                    row_frags(va, vb, vc, py as int, px0 as int, px as int).push(
                        frag_at(va, vb, vc, px as int, py as int),
                    )
                } else {
                    row_frags(va, vb, vc, py as int, px0 as int, px as int)
                });
            }
            px = px + 1;
        }
        proof {
            assert(row_frags(va, vb, vc, py as int, px0 as int, px as int) == row_frags(
                va,
                vb,
                vc,
                py as int,
                px0 as int,
                px1 as int,
            ));
            assert(box_frags(va, vb, vc, py0 as int, py as int + 1, px0 as int, px1 as int)
                == box_frags(va, vb, vc, py0 as int, py as int, px0 as int, px1 as int)
                + row_frags(va, vb, vc, py as int, px0 as int, px1 as int));
        }
        py = py + 1;
    }
    proof {
        assert(res@ == box_frags(va, vb, vc, py0 as int, py1 as int, px0 as int, px1 as int));
        assert(res@ == triangle_frags(*v0, *v1, *v2, width as int, height as int));
    }
    res
}

} // verus!
