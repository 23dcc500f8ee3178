//! 8-bit-per-channel RGB color values with clamping arithmetic: scaling,
//! linear interpolation, the four blend operators, and hex packing.

use vstd::prelude::*;
use vstd::arithmetic::div_mod::lemma_div_multiples_vanish;
use crate::fixed::{fx_clamp01, fx_clamp01_val, FX_ONE, FX_MAX, i64_div};

verus! {

/// An RGB value; every channel always lies in [0, 255] by construction.
#[derive(Clone, Copy, PartialEq, Eq, Structural, Debug)]
pub struct Color {
    pub r: u8,
    pub g: u8,
    pub b: u8,
}

/// Clamp an integer into the channel range [0, 255].
pub open spec fn clamp255(x: int) -> int {
    if x < 0 {
        0
    } else if x > 255 {
        255
    } else {
        x
    }
}

/// Channel value of the multiply blend: the product rescaled by 255.
pub open spec fn mult_channel_val(a: int, b: int) -> int {
    (a * b) / 255
}

/// Channel value of a linear interpolation from `a` toward `b` by the
/// fixed-point factor `t`, which is clamped into [0, 1].
pub open spec fn lerp_channel_val(a: int, b: int, t: int) -> int {
    clamp255(a + ((b - a) * fx_clamp01_val(t)) / (FX_ONE as int))
}

/// Channel value of scaling by a non-negative fixed-point factor.
pub open spec fn scale_channel_val(a: int, t: int) -> int {
    clamp255((a * t) / (FX_ONE as int))
}

/// Value of the normal blend: the top color overwrites.
pub open spec fn blend_normal_val(bottom: Color, top: Color) -> Color {
    top
}

/// Value of the multiply blend, per channel.
pub open spec fn blend_multiply_val(a: Color, b: Color) -> Color {
    Color {
        r: mult_channel_val(a.r as int, b.r as int) as u8,
        g: mult_channel_val(a.g as int, b.g as int) as u8,
        b: mult_channel_val(a.b as int, b.b as int) as u8,
    }
}

/// Value of the additive blend: channel sums clamped at 255.
pub open spec fn blend_add_val(a: Color, b: Color) -> Color {
    Color {
        r: clamp255(a.r + b.r) as u8,
        g: clamp255(a.g + b.g) as u8,
        b: clamp255(a.b + b.b) as u8,
    }
}

/// Value of the subtractive blend: channel differences clamped at 0.
pub open spec fn blend_subtract_val(a: Color, b: Color) -> Color {
    Color {
        r: clamp255(a.r - b.r) as u8,
        g: clamp255(a.g - b.g) as u8,
        b: clamp255(a.b - b.b) as u8,
    }
}

/// Value of a linear interpolation between two colors.
pub open spec fn lerp_val(a: Color, b: Color, t: int) -> Color {
    Color {
        r: lerp_channel_val(a.r as int, b.r as int, t) as u8,
        g: lerp_channel_val(a.g as int, b.g as int, t) as u8,
        b: lerp_channel_val(a.b as int, b.b as int, t) as u8,
    }
}

/// Value of scaling a color by a non-negative fixed-point factor.
pub open spec fn scale_val(c: Color, t: int) -> Color {
    Color {
        r: scale_channel_val(c.r as int, t) as u8,
        g: scale_channel_val(c.g as int, t) as u8,
        b: scale_channel_val(c.b as int, t) as u8,
    }
}

/// Packed 24-bit value of a color, red in the highest byte.
pub open spec fn hex_val(c: Color) -> int {
    c.r * 0x1_0000 + c.g * 0x100 + c.b
}

/// Multiply-blend of one channel pair.
fn mult_channel(a: u8, b: u8) -> (r: u8)
    ensures
        r == mult_channel_val(a as int, b as int),
{
    proof {
        assert(0 <= a as int * b as int <= 65025) by (nonlinear_arith)
            requires
                0 <= a <= 255,
                0 <= b <= 255,
        ;
    }
    let p: u32 = a as u32 * b as u32;
    let q: u32 = p / 255;
    proof {
        assert(q <= 255) by (nonlinear_arith)
            requires
                q == p as int / 255,
                0 <= p <= 65025,
        ;
    }
    q as u8
}

/// Linear interpolation of one channel pair by a fixed-point factor.
fn lerp_channel(a: u8, b: u8, t: i64) -> (r: u8)
    ensures
        r == lerp_channel_val(a as int, b as int, t as int),
{
    let tc: i64 = fx_clamp01(t);
    let d: i64 = b as i64 - a as i64;
    proof {
        assert(-0x1000_0000 <= d as int * tc as int <= 0x1000_0000
            && -0x1000_0000 <= (d as int * tc as int) / (FX_ONE as int) <= 0x1000_0000)
            by (nonlinear_arith)
            requires
                -255 <= d <= 255,
                0 <= tc <= FX_ONE,
        ;
    }
    let q: i64 = i64_div(d * tc, FX_ONE);
    let v: i64 = a as i64 + q;
    if v < 0 {
        0
    } else if v > 255 {
        255
    } else {
        v as u8
    }
}

/// Scaling of one channel by a non-negative fixed-point factor.
fn scale_channel(a: u8, t: i64) -> (r: u8)
    requires
        0 <= t <= FX_MAX,
    ensures
        r == scale_channel_val(a as int, t as int),
{
    proof {
        assert(0 <= a as int * t as int <= 0x7f_ffff_ff01
            && 0 <= (a as int * t as int) / (FX_ONE as int) <= 0x7f_ffff_ff01)
            by (nonlinear_arith)
            requires
                0 <= a <= 255,
                0 <= t <= FX_MAX,
        ;
    }
    let p: i64 = a as i64 * t;
    let q: i64 = i64_div(p, FX_ONE);
    if q > 255 {
        255
    } else {
        q as u8
    }
}

impl Color {
    /// A color from its three channels.
    pub fn new(r: u8, g: u8, b: u8) -> (c: Color)
        ensures
            c == (Color { r, g, b }),
    {
        Color { r, g, b }
    }

    /// The red channel.
    pub fn get_r(&self) -> (r: u8)
        ensures
            r == self.r,
    {
        self.r
    }

    /// The green channel.
    pub fn get_g(&self) -> (r: u8)
        ensures
            r == self.g,
    {
        self.g
    }

    /// The blue channel.
    pub fn get_b(&self) -> (r: u8)
        ensures
            r == self.b,
    {
        self.b
    }

    /// Whether the color is pure black.
    pub fn is_black(&self) -> (r: bool)
        ensures
            r == (self.r == 0 && self.g == 0 && self.b == 0),
    {
        self.r == 0 && self.g == 0 && self.b == 0
    }

    /// The packed 24-bit representation, red in the highest byte.
    pub fn to_hex(&self) -> (h: u32)
        ensures
            h == hex_val(*self),
    {
        self.r as u32 * 0x1_0000 + self.g as u32 * 0x100 + self.b as u32
    }

    /// Normal blend: the other color, composited on top, overwrites.
    pub fn blend_normal(&self, other: &Color) -> (c: Color)
        ensures
            c == blend_normal_val(*self, *other),
    {
        *other
    }

    /// Multiply blend: channel products rescaled by 255.
    pub fn blend_multiply(&self, other: &Color) -> (c: Color)
        ensures
            c == blend_multiply_val(*self, *other),
    {
        Color {
            r: mult_channel(self.r, other.r),
            g: mult_channel(self.g, other.g),
            b: mult_channel(self.b, other.b),
        }
    }

    /// Additive blend: channel sums clamped at 255.
    pub fn blend_add(&self, other: &Color) -> (c: Color)
        ensures
            c == blend_add_val(*self, *other),
    {
        let r: u32 = self.r as u32 + other.r as u32;
        let g: u32 = self.g as u32 + other.g as u32;
        let b: u32 = self.b as u32 + other.b as u32;
        Color {
            r: if r > 255 { 255 } else { r as u8 },
            g: if g > 255 { 255 } else { g as u8 },
            b: if b > 255 { 255 } else { b as u8 },
        }
    }

    /// Subtractive blend: channel differences clamped at 0.
    pub fn blend_subtract(&self, other: &Color) -> (c: Color)
        ensures
            c == blend_subtract_val(*self, *other),
    {
        Color {
            r: if self.r >= other.r { self.r - other.r } else { 0 },
            g: if self.g >= other.g { self.g - other.g } else { 0 },
            b: if self.b >= other.b { self.b - other.b } else { 0 },
        }
    }

    /// Linear interpolation toward `other` by a fixed-point factor in [0, 1].
    pub fn lerp(&self, other: &Color, t: i64) -> (c: Color)
        ensures
            c == lerp_val(*self, *other, t as int),
    {
        Color {
            r: lerp_channel(self.r, other.r, t),
            g: lerp_channel(self.g, other.g, t),
            b: lerp_channel(self.b, other.b, t),
        }
    }

    /// Scale every channel by a non-negative fixed-point factor, clamping
    /// at 255; factors above 1 brighten, as an emission multiplier does.
    pub fn scale(&self, t: i64) -> (c: Color)
        requires
            0 <= t <= FX_MAX,
        ensures
            c == scale_val(*self, t as int),
    {
        Color {
            r: scale_channel(self.r, t),
            g: scale_channel(self.g, t),
            b: scale_channel(self.b, t),
        }
    }
}

/// Multiplying by white leaves any color unchanged.
pub proof fn lemma_blend_multiply_white(c: Color)
    ensures
        blend_multiply_val(Color { r: 255, g: 255, b: 255 }, c) == c,
{
    lemma_div_multiples_vanish(c.r as int, 255);
    lemma_div_multiples_vanish(c.g as int, 255);
    lemma_div_multiples_vanish(c.b as int, 255);
}

/// Adding black leaves any color unchanged.
pub proof fn lemma_blend_add_black(c: Color)
    ensures
        blend_add_val(Color { r: 0, g: 0, b: 0 }, c) == c,
{
}

/// Interpolating a color toward itself gives it back, whatever the factor.
pub proof fn lemma_lerp_self(c: Color, t: int)
    ensures
        lerp_val(c, c, t) == c,
{
    assert(((c.r - c.r) * fx_clamp01_val(t)) / (FX_ONE as int) == 0) by (nonlinear_arith);
    assert(((c.g - c.g) * fx_clamp01_val(t)) / (FX_ONE as int) == 0) by (nonlinear_arith);
    assert(((c.b - c.b) * fx_clamp01_val(t)) / (FX_ONE as int) == 0) by (nonlinear_arith);
}

/// Every blend channel stays in the 8-bit range before the cast: the clamped
/// operators by `clamp255`, and the multiply blend because the rescaled
/// product of two channels never exceeds 255.
pub proof fn lemma_mult_channel_in_range(a: u8, b: u8)
    ensures
        0 <= mult_channel_val(a as int, b as int) <= 255,
{
    assert(0 <= (a as int * b as int) / 255 <= 255) by (nonlinear_arith)
        requires
            0 <= a <= 255,
            0 <= b <= 255,
    ;
}

} // verus!
