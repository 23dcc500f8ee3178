//! Fixed-point scalar arithmetic for the rendering pipeline.
//!
//! A scalar is an `i64` holding a signed 16.16 fixed-point value: the raw
//! integer is the real value scaled by `FX_ONE`. All operations saturate at
//! `FX_MAX`, so every function here is total and panic-free, and each result
//! is pinned down exactly by a spec function that the contract names.

use vstd::prelude::*;

verus! {

/// The fixed-point representation of 1.0.
pub const FX_ONE: i64 = 65536;

/// Largest magnitude a fixed-point scalar may hold (about 32768.0).
pub const FX_MAX: i64 = 0x7fff_ffff;

/// A raw value is a well-formed fixed-point scalar when it lies in the
/// saturation range.
pub open spec fn fx_valid(v: i64) -> bool {
    -FX_MAX <= v <= FX_MAX
}

/// Saturation of an unbounded integer into the fixed-point range.
pub open spec fn fx_sat(x: int) -> int {
    if x > FX_MAX {
        FX_MAX as int
    } else if x < -FX_MAX {
        -FX_MAX as int
    } else {
        x
    }
}

/// Value of a saturating fixed-point addition.
pub open spec fn fx_add_val(a: int, b: int) -> int {
    fx_sat(a + b)
}

/// Value of a saturating fixed-point subtraction.
pub open spec fn fx_sub_val(a: int, b: int) -> int {
    fx_sat(a - b)
}

/// Value of a saturating fixed-point product: the raw product rescaled by
/// `FX_ONE` with floor rounding.
pub open spec fn fx_mul_val(a: int, b: int) -> int {
    fx_sat((a * b) / (FX_ONE as int))
}

/// Value of a saturating fixed-point quotient; division by zero yields zero.
pub open spec fn fx_div_val(a: int, b: int) -> int {
    if b == 0 {
        0
    } else {
        fx_sat((a * FX_ONE) / b)
    }
}

/// Clamp an arbitrary `i64` into the fixed-point range.
pub fn fx_clamp_raw(q: i64) -> (r: i64)
    ensures
        r == fx_sat(q as int),
        fx_valid(r),
{
    if q > FX_MAX {
        FX_MAX
    } else if q < -FX_MAX {
        -FX_MAX
    } else {
        q
    }
}

/// Euclidean division on `i64`, with the quotient known to fit.
pub(crate) fn i64_div(a: i64, b: i64) -> (r: i64)
    requires
        b != 0,
        i64::MIN <= a as int / b as int <= i64::MAX,
    ensures
        r == a as int / b as int,
{
    match a.checked_div_euclid(b) {
        Some(q) => q,
        None => {
            proof {
                assert(false);
            }
            0
        },
    }
}

/// A quotient by a positive divisor keeps the magnitude bound of its
/// numerator.
pub proof fn lemma_div_range(a: int, d: int, m: int)
    requires
        0 < d,
        0 <= m,
        -m <= a <= m,
    ensures
        -m <= a / d <= m,
{
    vstd::arithmetic::div_mod::lemma_div_is_ordered(a, m, d);
    vstd::arithmetic::div_mod::lemma_div_is_ordered(-m, a, d);
    vstd::arithmetic::div_mod::lemma_div_pos_is_pos(m, d);
    vstd::arithmetic::div_mod::lemma_div_nonincreasing(m, d);
    vstd::arithmetic::div_mod::lemma_fundamental_div_mod(-m, d);
    let q = (-m) / d;
    let r = (-m) % d;
    vstd::arithmetic::div_mod::lemma_mod_division_less_than_divisor(-m, d);
    assert(q >= -m) by (nonlinear_arith)
        requires
            -m == d * q + r,
            0 <= r < d,
            0 <= m,
            1 <= d,
    ;
}

/// Saturating fixed-point addition.
pub fn fx_add(a: i64, b: i64) -> (r: i64)
    requires
        fx_valid(a),
        fx_valid(b),
    ensures
        r == fx_add_val(a as int, b as int),
        fx_valid(r),
{
    fx_clamp_raw(a + b)
}

/// Saturating fixed-point subtraction.
pub fn fx_sub(a: i64, b: i64) -> (r: i64)
    requires
        fx_valid(a),
        fx_valid(b),
    ensures
        r == fx_sub_val(a as int, b as int),
        fx_valid(r),
{
    fx_clamp_raw(a - b)
}

/// Saturating fixed-point multiplication.
pub fn fx_mul(a: i64, b: i64) -> (r: i64)
    requires
        fx_valid(a),
        fx_valid(b),
    ensures
        r == fx_mul_val(a as int, b as int),
        fx_valid(r),
{
    proof {
        assert(-0x3fff_ffff_0000_0001 <= a as int * b as int <= 0x3fff_ffff_0000_0001)
            by (nonlinear_arith)
            requires
                -0x7fff_ffff <= a as int <= 0x7fff_ffff,
                -0x7fff_ffff <= b as int <= 0x7fff_ffff,
        ;
        assert(-0x3fff_ffff_0000_0001 <= (a as int * b as int) / (FX_ONE as int)
            <= 0x3fff_ffff_0000_0001) by (nonlinear_arith)
            requires
                -0x3fff_ffff_0000_0001 <= a as int * b as int <= 0x3fff_ffff_0000_0001,
        ;
    }
    let p: i64 = a * b;
    let q: i64 = i64_div(p, FX_ONE);
    fx_clamp_raw(q)
}

/// Saturating fixed-point division; a zero divisor yields zero.
pub fn fx_div(a: i64, b: i64) -> (r: i64)
    requires
        fx_valid(a),
        fx_valid(b),
    ensures
        r == fx_div_val(a as int, b as int),
        fx_valid(r),
{
    if b == 0 {
        0
    } else {
        proof {
            assert(-0x8000_0000_0000_0000 <= (a as int * FX_ONE) / (b as int)
                <= 0x7fff_ffff_ffff_ffff) by (nonlinear_arith)
                requires
                    -0x7fff_ffff <= a as int <= 0x7fff_ffff,
                    b != 0,
                    -0x7fff_ffff <= b as int <= 0x7fff_ffff,
            ;
        }
        let p: i64 = a * FX_ONE;
        let q: i64 = i64_div(p, b);
        fx_clamp_raw(q)
    }
}

/// Value of the absolute-value operation.
pub open spec fn fx_abs_val(a: int) -> int {
    if a < 0 {
        -a
    } else {
        a
    }
}

/// Absolute value in the fixed-point range.
pub fn fx_abs(a: i64) -> (r: i64)
    requires
        fx_valid(a),
    ensures
        r == fx_abs_val(a as int),
        0 <= r,
        fx_valid(r),
{
    if a < 0 {
        -a
    } else {
        a
    }
}

/// Clamp a fixed-point scalar into the closed interval [0, 1].
pub open spec fn fx_clamp01_val(a: int) -> int {
    if a < 0 {
        0
    } else if a > FX_ONE {
        FX_ONE as int
    } else {
        a
    }
}

/// Clamp into [0, 1], the range of pattern scalars and light intensities.
pub fn fx_clamp01(a: i64) -> (r: i64)
    ensures
        r == fx_clamp01_val(a as int),
        0 <= r <= FX_ONE,
{
    if a < 0 {
        0
    } else if a > FX_ONE {
        FX_ONE
    } else {
        a
    }
}

/// Floor of the real square root of a natural number.
pub open spec fn isqrt_val(n: nat) -> nat
    decreases n,
{
    if n == 0 {
        0
    } else {
        let r = isqrt_val((n - 1) as nat);
        if (r + 1) * (r + 1) <= n {
            r + 1
        } else {
            r
        }
    }
}

/// The defining property of `isqrt_val`: it is the floor of the square root.
pub proof fn lemma_isqrt_bounds(n: nat)
    ensures
        isqrt_val(n) * isqrt_val(n) <= n,
        n < (isqrt_val(n) + 1) * (isqrt_val(n) + 1),
    decreases n,
{
    if n == 0 {
        assert(isqrt_val(0) == 0);
        assert(n < (isqrt_val(n) + 1) * (isqrt_val(n) + 1)) by (nonlinear_arith)
            requires
                n == 0,
                isqrt_val(n) == 0,
        ;
    } else {
        let r = isqrt_val((n - 1) as nat);
        lemma_isqrt_bounds((n - 1) as nat);
        assert(r * r <= n - 1);
        assert(n - 1 < (r + 1) * (r + 1));
        if (r + 1) * (r + 1) <= n {
            assert(isqrt_val(n) == r + 1);
            assert(n < (r + 2) * (r + 2)) by (nonlinear_arith)
                requires
                    n <= (r + 1) * (r + 1),
            ;
            assert((r + 2) * (r + 2) == (isqrt_val(n) + 1) * (isqrt_val(n) + 1));
        } else {
            assert(isqrt_val(n) == r);
            assert(n < (r + 1) * (r + 1));
            assert((r + 1) * (r + 1) == (isqrt_val(n) + 1) * (isqrt_val(n) + 1));
        }
        assert(n < (isqrt_val(n) + 1) * (isqrt_val(n) + 1));
    }
}

/// Any number with the floor-square-root property is `isqrt_val`.
pub proof fn lemma_isqrt_unique(n: nat, r: nat)
    requires
        r * r <= n,
        n < (r + 1) * (r + 1),
    ensures
        r == isqrt_val(n),
{
    let s = isqrt_val(n);
    lemma_isqrt_bounds(n);
    if r < s {
        assert((r + 1) * (r + 1) <= s * s) by (nonlinear_arith)
            requires
                r + 1 <= s,
        ;
    }
    if s < r {
        assert((s + 1) * (s + 1) <= r * r) by (nonlinear_arith)
            requires
                s + 1 <= r,
        ;
    }
}

/// Integer square root by bisection.
pub fn isqrt64(n: u64) -> (r: u64)
    ensures
        r == isqrt_val(n as nat),
        r * r <= n,
{
    let mut lo: u64 = 0;
    let mut hi: u64 = 0x1_0000_0000;
    proof {
        assert((0x1_0000_0000 as int) * (0x1_0000_0000 as int) > u64::MAX as int)
            by (nonlinear_arith);
    }
    while hi - lo > 1
        invariant
            lo < hi <= 0x1_0000_0000,
            lo * lo <= n,
            (n as int) < (hi as int) * (hi as int),
        decreases hi - lo,
    {
        let mid: u64 = lo + (hi - lo) / 2;
        proof {
            assert((mid as int) * (mid as int) <= 0xffff_ffff * 0xffff_ffff)
                by (nonlinear_arith)
                requires
                    0 <= mid as int <= 0xffff_ffff,
            ;
        }
        let sq: u64 = mid * mid;
        if sq <= n {
            lo = mid;
        } else {
            hi = mid;
        }
    }
    proof {
        lemma_isqrt_unique(n as nat, lo as nat);
    }
    lo
}

/// Fixed-point length of a 2-vector: the saturated square root of the sum of
/// raw squares (for 16.16 operands the raw root is again a 16.16 scalar).
pub open spec fn fx_len2_val(a: int, b: int) -> int {
    fx_sat(isqrt_val((a * a + b * b) as nat) as int)
}

/// Length of a 2-vector of fixed-point scalars.
pub fn fx_len2(a: i64, b: i64) -> (r: i64)
    requires
        fx_valid(a),
        fx_valid(b),
    ensures
        r == fx_len2_val(a as int, b as int),
        0 <= r,
        fx_valid(r),
{
    let ua: u64 = fx_abs(a) as u64;
    let ub: u64 = fx_abs(b) as u64;
    proof {
        assert(ua * ua <= 0x7fff_ffff * 0x7fff_ffff && ub * ub <= 0x7fff_ffff * 0x7fff_ffff)
            by (nonlinear_arith)
            requires
                0 <= ua <= 0x7fff_ffff,
                0 <= ub <= 0x7fff_ffff,
        ;
        assert(ua * ua == a as int * a as int && ub * ub == b as int * b as int)
            by (nonlinear_arith)
            requires
                ua == if a < 0 { -(a as int) } else { a as int },
                ub == if b < 0 { -(b as int) } else { b as int },
        ;
    }
    let s: u64 = ua * ua + ub * ub;
    let root: u64 = isqrt64(s);
    proof {
        assert(root as int * root as int <= s as int);
        assert(root <= 0xffff_ffff_f) by (nonlinear_arith)
            requires
                root as int * root as int <= u64::MAX as int,
        ;
    }
    fx_clamp_raw(root as i64)
}

/// Fixed-point magnitude of a 3-vector with components bounded by
/// `NORMAL_MAX`, as used for normal vectors.
pub const NORMAL_MAX: i64 = 0x3ff_ffff;

/// A scalar small enough to be a normal-vector component.
pub open spec fn normal_valid(v: i64) -> bool {
    -NORMAL_MAX <= v <= NORMAL_MAX
}

/// Length of a 3-vector of bounded fixed-point scalars.
pub open spec fn fx_len3_val(a: int, b: int, c: int) -> int {
    fx_sat(isqrt_val((a * a + b * b + c * c) as nat) as int)
}

/// Magnitude of a normal vector.
pub fn fx_len3(a: i64, b: i64, c: i64) -> (r: i64)
    requires
        normal_valid(a),
        normal_valid(b),
        normal_valid(c),
    ensures
        r == fx_len3_val(a as int, b as int, c as int),
        0 <= r,
        fx_valid(r),
{
    let ua: u64 = if a < 0 { (-a) as u64 } else { a as u64 };
    let ub: u64 = if b < 0 { (-b) as u64 } else { b as u64 };
    let uc: u64 = if c < 0 { (-c) as u64 } else { c as u64 };
    proof {
        assert(ua * ua <= 0x3ff_ffff * 0x3ff_ffff && ub * ub <= 0x3ff_ffff * 0x3ff_ffff
            && uc * uc <= 0x3ff_ffff * 0x3ff_ffff) by (nonlinear_arith)
            requires
                0 <= ua <= 0x3ff_ffff,
                0 <= ub <= 0x3ff_ffff,
                0 <= uc <= 0x3ff_ffff,
        ;
        assert(ua * ua == a as int * a as int && ub * ub == b as int * b as int
            && uc * uc == c as int * c as int) by (nonlinear_arith)
            requires
                ua == if a < 0 { -(a as int) } else { a as int },
                ub == if b < 0 { -(b as int) } else { b as int },
                uc == if c < 0 { -(c as int) } else { c as int },
        ;
    }
    let s: u64 = ua * ua + ub * ub + uc * uc;
    let root: u64 = isqrt64(s);
    proof {
        assert(root <= 0xffff_ffff_f) by (nonlinear_arith)
            requires
                root as int * root as int <= u64::MAX as int,
        ;
    }
    fx_clamp_raw(root as i64)
}

/// Fixed-point pi and related constants.
pub const FX_PI: i64 = 205887;

/// Fixed-point 2*pi.
pub const FX_TWO_PI: i64 = 411775;

/// Fixed-point pi/2.
pub const FX_HALF_PI: i64 = 102944;

/// Fixed-point 5*pi*pi, the constant of the sine approximation.
pub const FX_FIVE_PI_SQ: i64 = 3234075;

/// Half-wave sine approximation (Bhaskara I) on [0, pi], mirrored by
/// `fx_sin_val`; the result is clamped into [0, 1].
pub open spec fn fx_half_sin_val(t: int) -> int {
    let s = (t * (FX_PI - t)) / (FX_ONE as int);
    let den = FX_FIVE_PI_SQ - 4 * s;
    if den <= 0 {
        FX_ONE as int
    } else {
        fx_clamp01_val((16 * s * FX_ONE) / den)
    }
}

/// Value of the sine approximation: the angle is reduced modulo 2*pi and the
/// half-wave formula is applied with the sign of the half.
pub open spec fn fx_sin_val(x: int) -> int {
    let m = x % (FX_TWO_PI as int);
    if m < FX_PI {
        fx_half_sin_val(m)
    } else {
        -fx_half_sin_val(m - FX_PI)
    }
}

/// Value of the cosine approximation: sine shifted by a quarter turn.
pub open spec fn fx_cos_val(x: int) -> int {
    fx_sin_val(x % (FX_TWO_PI as int) + FX_HALF_PI)
}

/// Sine approximation on [0, pi] scaled by `FX_ONE`.
fn fx_half_sin(t: i64) -> (r: i64)
    requires
        0 <= t <= FX_PI,
    ensures
        r == fx_half_sin_val(t as int),
        0 <= r <= FX_ONE,
{
    proof {
        assert(0 <= t as int * (FX_PI - t as int) <= 0x40_0000_0000)
            by (nonlinear_arith)
            requires
                0 <= t <= FX_PI,
        ;
    }
    let p: i64 = t * (FX_PI - t);
    proof {
        assert(0 <= p as int / (FX_ONE as int) <= 0x40_0000) by (nonlinear_arith)
            requires
                0 <= p <= 0x40_0000_0000,
        ;
    }
    let s: i64 = i64_div(p, FX_ONE);
    let den: i64 = FX_FIVE_PI_SQ - 4 * s;
    if den <= 0 {
        FX_ONE
    } else {
        let num: i64 = 16 * s * FX_ONE;
        proof {
            assert(0 <= num as int / den as int <= num) by (nonlinear_arith)
                requires
                    num >= 0,
                    den >= 1,
            ;
        }
        let q: i64 = i64_div(num, den);
        fx_clamp01(q)
    }
}

/// Reduce an angle modulo 2*pi into [0, 2*pi).
pub fn fx_angle_mod(x: i64) -> (m: i64)
    ensures
        m == x as int % (FX_TWO_PI as int),
        0 <= m < FX_TWO_PI,
{
    match x.checked_rem_euclid(FX_TWO_PI) {
        Some(m) => m,
        None => {
            proof {
                assert(false);
            }
            0
        },
    }
}

/// Sine approximation for any fixed-point angle (radians scaled by `FX_ONE`).
pub fn fx_sin(x: i64) -> (r: i64)
    ensures
        r == fx_sin_val(x as int),
        -FX_ONE <= r <= FX_ONE,
{
    let m: i64 = fx_angle_mod(x);
    if m < FX_PI {
        fx_half_sin(m)
    } else {
        -fx_half_sin(m - FX_PI)
    }
}

/// Cosine approximation for any fixed-point angle.
pub fn fx_cos(x: i64) -> (r: i64)
    ensures
        r == fx_cos_val(x as int),
        -FX_ONE <= r <= FX_ONE,
{
    let m: i64 = fx_angle_mod(x);
    let shifted: i64 = m + FX_HALF_PI;
    fx_sin(shifted)
}

} // verus!

