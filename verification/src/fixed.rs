//! Fixed-point arithmetic with sixteen fractional bits.
//!
//! A channel value `v` stands for the real number `v / ONE`. Products and
//! quotients are rounded toward zero, so every operation is odd in its
//! operands: negating an input negates the result.

use vstd::prelude::*;

verus! {

/// The fixed-point encoding of the real number one.
pub const ONE: i32 = 65536;

/// The quotient of `a` by `d`, rounded toward zero.
pub open spec fn trunc_div(a: int, d: int) -> int
    recommends
        d > 0,
{
    if a >= 0 {
        a / d
    } else {
        -((-a) / d)
    }
}

/// The product of two fixed-point numbers.
pub open spec fn fx_mul(a: int, b: int) -> int {
    trunc_div(a * b, ONE as int)
}

/// `v` limited to the interval from `lo` to `hi`.
pub open spec fn clamp_int(v: int, lo: int, hi: int) -> int {
    if v < lo {
        lo
    } else if v > hi {
        hi
    } else {
        v
    }
}

/// The value between `a` (at `t == 0`) and `b` (at `t == ONE`) that lies the
/// fraction `t` of the way from `a` to `b`.
pub open spec fn fx_lerp(a: int, b: int, t: int) -> int {
    a + trunc_div((b - a) * t, ONE as int)
}

/// The fixed-point value of an eight-bit normalised channel: `0` is zero and
/// `255` is one.
pub open spec fn unorm8_to_fixed(byte: int) -> int {
    (byte * ONE) / 255
}

/// The eight-bit normalised channel nearest to a fixed-point value, after
/// limiting the value to the interval from zero to one.
pub open spec fn fixed_to_unorm8(v: int) -> int {
    (clamp_int(v, 0, ONE as int) * 255 + ONE / 2) / (ONE as int)
}

/// `r` is the largest integer whose square does not exceed `n`.
pub open spec fn is_floor_sqrt(n: int, r: int) -> bool {
    0 <= r && r * r <= n < (r + 1) * (r + 1)
}

/// The integer part of the square root of `n`.
pub open spec fn floor_sqrt(n: int) -> int {
    choose|r: int| is_floor_sqrt(n, r)
}

/// The nearest value to `v` that an `i32` channel can hold.
pub open spec fn saturate(v: int) -> int {
    if v < i32::MIN {
        i32::MIN as int
    } else if v > i32::MAX {
        i32::MAX as int
    } else {
        v
    }
}

/// Divides by a positive divisor, rounding toward zero.
pub fn div_toward_zero(a: i64, d: i64) -> (q: i64)
    requires
        d > 0,
    ensures
        q == trunc_div(a as int, d as int),
{
    if a >= 0 {
        a / d
    } else {
        let n: i128 = -(a as i128);
        let m: i128 = n / (d as i128);
        proof {
            assert(0 <= (n as int) / (d as int) <= n) by (nonlinear_arith)
                requires
                    n >= 0,
                    d >= 1,
            ;
        }
        (-m) as i64
    }
}

/// Brings a wide intermediate result back into the range of a channel.
pub fn clamp_to_channel(v: i64) -> (r: i32)
    ensures
        r == saturate(v as int),
{
    if v < -2147483648 {
        -2147483648
    } else if v > 2147483647 {
        2147483647
    } else {
        v as i32
    }
}

/// Multiplies two fixed-point numbers.
pub fn mul_fixed(a: i32, b: i32) -> (p: i64)
    ensures
        p == fx_mul(a as int, b as int),
        -0x4000_0000_0000 <= p <= 0x4000_0000_0000,
{
    proof {
        lemma_product_bound(a as int, b as int, 0x8000_0000, 0x8000_0000);
    }
    let wide: i64 = (a as i64) * (b as i64);
    div_toward_zero(wide, 65536)
}

/// Multiplies two wide fixed-point numbers and brings the product back into
/// the range of a channel.
pub fn mul_to_channel(a: i64, b: i64) -> (r: i32)
    ensures
        r == saturate(fx_mul(a as int, b as int)),
{
    proof {
        lemma_product_bound(
            a as int,
            b as int,
            0x8000_0000_0000_0000,
            0x8000_0000_0000_0000,
        );
    }
    let wide: i128 = (a as i128) * (b as i128);
    let quotient: i128 = if wide >= 0 {
        wide / 65536
    } else {
        -((-wide) / 65536)
    };
    if quotient < -2147483648 {
        -2147483648
    } else if quotient > 2147483647 {
        2147483647
    } else {
        quotient as i32
    }
}

/// A product is bounded by the product of the bounds of its factors.
pub proof fn lemma_product_bound(a: int, b: int, ma: int, mb: int)
    by (nonlinear_arith)
    requires
        -ma <= a <= ma,
        -mb <= b <= mb,
    ensures
        -(ma * mb) <= a * b <= ma * mb,
{
}

/// Interpolates between two channel values.
pub fn lerp(a: i32, b: i32, t: i32) -> (r: i32)
    requires
        0 <= t <= ONE,
    ensures
        r == fx_lerp(a as int, b as int, t as int),
{
    let span: i64 = (b as i64) - (a as i64);
    proof {
        lemma_product_bound(span as int, t as int, 0x1_0000_0000, 0x1_0000);
        lemma_lerp_between(a as int, b as int, t as int);
    }
    let step: i64 = div_toward_zero(span * (t as i64), 65536);
    ((a as i64) + step) as i32
}

/// An interpolated value lies between its two end points.
pub proof fn lemma_lerp_between(a: int, b: int, t: int)
    requires
        0 <= t <= ONE,
    ensures
        a <= b ==> a <= fx_lerp(a, b, t) <= b,
        b <= a ==> b <= fx_lerp(a, b, t) <= a,
        t == 0 ==> fx_lerp(a, b, t) == a,
        a == b ==> fx_lerp(a, b, t) == a,
{
    let one = ONE as int;
    if a <= b {
        let d = b - a;
        assert(0 <= d * t <= d * one) by (nonlinear_arith)
            requires
                0 <= d,
                0 <= t <= one,
        ;
        assert((d * t) / one <= d) by (nonlinear_arith)
            requires
                0 <= d * t <= d * one,
                one > 0,
        ;
        assert(0 <= (d * t) / one) by (nonlinear_arith)
            requires
                0 <= d * t,
                one > 0,
        ;
    } else {
        let d = a - b;
        assert(0 <= d * t <= d * one && (b - a) * t == -(d * t)) by (nonlinear_arith)
            requires
                d == a - b,
                0 <= d,
                0 <= t <= one,
        ;
        assert((d * t) / one <= d) by (nonlinear_arith)
            requires
                0 <= d * t <= d * one,
                one > 0,
        ;
        assert(0 <= (d * t) / one) by (nonlinear_arith)
            requires
                0 <= d * t,
                one > 0,
        ;
    }
    if t == 0 {
        assert((b - a) * t == 0) by (nonlinear_arith)
            requires
                t == 0,
        ;
    }
}

/// Decodes an eight-bit normalised channel.
pub fn from_unorm8(byte: u8) -> (v: i32)
    ensures
        v == unorm8_to_fixed(byte as int),
        0 <= v <= ONE,
{
    (((byte as i64) * 65536) / 255) as i32
}

/// Encodes a channel as eight normalised bits, rounding to nearest.
pub fn to_unorm8(v: i32) -> (byte: u8)
    ensures
        byte == fixed_to_unorm8(v as int),
{
    let limited: i64 = if v < 0 {
        0
    } else if v > 65536 {
        65536
    } else {
        v as i64
    };
    ((limited * 255 + 32768) / 65536) as u8
}

/// Encoding what was decoded gives the byte back.
pub proof fn lemma_unorm8_round_trip(byte: int)
    requires
        0 <= byte <= 255,
    ensures
        fixed_to_unorm8(unorm8_to_fixed(byte)) == byte,
{
}

/// No two integers are both the integer square root of one number.
pub proof fn lemma_floor_sqrt_unique(n: int, r: int)
    requires
        is_floor_sqrt(n, r),
    ensures
        floor_sqrt(n) == r,
{
    let s = floor_sqrt(n);
    assert(is_floor_sqrt(n, s));
    assert(s == r) by (nonlinear_arith)
        requires
            0 <= r,
            0 <= s,
            r * r <= n < (r + 1) * (r + 1),
            s * s <= n < (s + 1) * (s + 1),
    ;
}

/// The integer part of a square root.
pub fn isqrt(n: u128) -> (r: u128)
    ensures
        r == floor_sqrt(n as int),
        is_floor_sqrt(n as int, r as int),
        r < 0x1_0000_0000_0000_0000,
{
    let mut lo: u128 = 0;
    let mut hi: u128 = 0x1_0000_0000_0000_0000;
    assert(n < hi * hi) by (nonlinear_arith)
        requires
            hi == 0x1_0000_0000_0000_0000,
            n <= u128::MAX,
    ;
    while hi - lo > 1
        invariant
            lo < hi <= 0x1_0000_0000_0000_0000,
            lo * lo <= n < hi * hi,
        decreases hi - lo,
    {
        let mid: u128 = lo + (hi - lo) / 2;
        assert(mid * mid <= u128::MAX) by (nonlinear_arith)
            requires
                0 <= mid < 0x1_0000_0000_0000_0000,
        ;
        if mid * mid <= n {
            lo = mid;
        } else {
            hi = mid;
        }
    }
    proof {
        lemma_floor_sqrt_unique(n as int, lo as int);
    }
    lo
}

} // verus!
