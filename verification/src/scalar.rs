//! Fixed-point scalar arithmetic.
//!
//! Every geometric quantity in this crate is a fixed-point number: an `i64`
//! holding the real value scaled by `ONE` (2^32). Products and quotients are
//! computed through 128-bit intermediates and saturate to `[-MAXF, MAXF]`, so
//! every operation is total: degenerate inputs (division by zero, overflow)
//! yield the saturated extreme instead of failing, mirroring how IEEE
//! arithmetic propagates infinities through a geometry pipeline.

use vstd::prelude::*;

verus! {

/// The fixed-point representation of 1.0: 2^32.
pub const ONE: i64 = 4294967296;

/// Largest representable magnitude; the range is kept symmetric so that
/// negation is total and exact.
pub const MAXF: i64 = 9223372036854775807;

/// Comparison tolerance used throughout the geometry stack:
/// the fixed-point image of 1e-5.
pub const EPSILON: i64 = 42950;

/// The fixed-point representation of 2.0.
pub const TWO: i64 = 8589934592;

/// Saturate a mathematical integer into the symmetric representable range.
pub open spec fn clip(v: int) -> int {
    if v > MAXF as int {
        MAXF as int
    } else if v < -(MAXF as int) {
        -(MAXF as int)
    } else {
        v
    }
}

/// A value lies in the representable (saturation-closed) range.
pub open spec fn fx_ok(v: int) -> bool {
    -(MAXF as int) <= v <= MAXF as int
}

pub open spec fn abs_int(v: int) -> int {
    if v >= 0 {
        v
    } else {
        -v
    }
}

/// Division that truncates toward zero (the rounding of the 128-bit
/// integer division the executable code performs). Division by zero is 0
/// here; the callers that can meet it saturate instead before consulting it.
pub open spec fn tdiv(n: int, d: int) -> int {
    if d == 0 {
        0
    } else if (n < 0) == (d < 0) {
        abs_int(n) / abs_int(d)
    } else {
        -(abs_int(n) / abs_int(d))
    }
}

pub open spec fn fx_add(a: int, b: int) -> int {
    clip(a + b)
}

pub open spec fn fx_sub(a: int, b: int) -> int {
    clip(a - b)
}

pub open spec fn fx_neg(a: int) -> int {
    clip(-a)
}

pub open spec fn fx_abs(a: int) -> int {
    clip(abs_int(a))
}

pub open spec fn fx_mul(a: int, b: int) -> int {
    clip(tdiv(a * b, ONE as int))
}

/// Fixed-point division. A zero divisor saturates to the signed extreme,
/// standing in for the infinity a float implementation would produce.
pub open spec fn fx_div(a: int, b: int) -> int {
    if b == 0 {
        if a >= 0 {
            MAXF as int
        } else {
            -(MAXF as int)
        }
    } else {
        clip(tdiv(a * (ONE as int), b))
    }
}

/// The fixed-point image of the integer `n`.
pub open spec fn fx_of_int(n: int) -> int {
    clip(n * (ONE as int))
}

/// The fixed-point image of the rational `n / d`.
pub open spec fn fx_of_ratio(n: int, d: int) -> int {
    if d == 0 {
        if n >= 0 {
            MAXF as int
        } else {
            -(MAXF as int)
        }
    } else {
        clip(tdiv(n * (ONE as int), d))
    }
}

/// Two scalars agree within the fixed tolerance.
pub open spec fn fx_fuzzy(a: int, b: int) -> bool {
    abs_int(a - b) < EPSILON as int
}

/// `r` is the integer square root (floor) of `n`.
pub open spec fn is_isqrt(n: int, r: int) -> bool {
    0 <= r && r * r <= n && n < (r + 1) * (r + 1)
}

/// The integer square root, as a function.
pub open spec fn isqrt(n: int) -> int {
    choose|r: int| is_isqrt(n, r)
}

/// Fixed-point square root: the floor square root of the value rescaled so
/// the result is again a fixed-point scalar.
pub open spec fn fx_sqrt(a: int) -> int {
    isqrt(a * (ONE as int))
}

proof fn lemma_isqrt_unique(n: int, r1: int, r2: int)
    requires
        is_isqrt(n, r1),
        is_isqrt(n, r2),
    ensures
        r1 == r2,
{
    assert(r1 == r2) by (nonlinear_arith)
        requires
            0 <= r1 && r1 * r1 <= n && n < (r1 + 1) * (r1 + 1),
            0 <= r2 && r2 * r2 <= n && n < (r2 + 1) * (r2 + 1),
    ;
}

/// Saturate a 128-bit intermediate back into the scalar range.
fn clamp128(v: i128) -> (r: i64)
    ensures
        r as int == clip(v as int),
{
    if v > MAXF as i128 {
        MAXF
    } else if v < -(MAXF as i128) {
        -MAXF
    } else {
        v as i64
    }
}

/// 128-bit division truncating toward zero.
fn tdiv128(n: i128, d: i128) -> (r: i128)
    requires
        n != i128::MIN,
        d != i128::MIN,
    ensures
        r as int == tdiv(n as int, d as int),
{
    if d == 0 {
        return 0;
    }
    let nn: u128 = if n >= 0 {
        n as u128
    } else {
        (-n) as u128
    };
    let dd: u128 = if d >= 0 {
        d as u128
    } else {
        (-d) as u128
    };
    let q: u128 = nn / dd;
    assert(q <= nn) by (nonlinear_arith)
        requires
            dd > 0,
            q == nn as int / dd as int,
            nn >= 0,
    ;
    if (n < 0) == (d < 0) {
        q as i128
    } else {
        -(q as i128)
    }
}

pub fn fadd(a: i64, b: i64) -> (r: i64)
    ensures
        r as int == fx_add(a as int, b as int),
{
    clamp128(a as i128 + b as i128)
}

pub fn fsub(a: i64, b: i64) -> (r: i64)
    ensures
        r as int == fx_sub(a as int, b as int),
{
    clamp128(a as i128 - b as i128)
}

pub fn fneg(a: i64) -> (r: i64)
    ensures
        r as int == fx_neg(a as int),
{
    if a < -MAXF {
        MAXF
    } else {
        -a
    }
}

pub fn fabs(a: i64) -> (r: i64)
    ensures
        r as int == fx_abs(a as int),
{
    if a >= 0 {
        a
    } else {
        fneg(a)
    }
}

pub fn fmul(a: i64, b: i64) -> (r: i64)
    ensures
        r as int == fx_mul(a as int, b as int),
{
    assert(-(170141183460469231731687303715884105727int) <= (a as int) * (b as int)
        <= 170141183460469231731687303715884105727int) by (nonlinear_arith)
        requires
            -9223372036854775808 <= a as int <= 9223372036854775807,
            -9223372036854775808 <= b as int <= 9223372036854775807,
    ;
    let p: i128 = (a as i128) * (b as i128);
    clamp128(tdiv128(p, ONE as i128))
}

pub fn fdiv(a: i64, b: i64) -> (r: i64)
    ensures
        r as int == fx_div(a as int, b as int),
{
    if b == 0 {
        if a >= 0 {
            MAXF
        } else {
            -MAXF
        }
    } else {
        assert(-(170141183460469231731687303715884105727int) <= (a as int) * (ONE as int)
            <= 170141183460469231731687303715884105727int) by (nonlinear_arith)
            requires
                -9223372036854775808 <= a as int <= 9223372036854775807,
        ;
        let p: i128 = (a as i128) * (ONE as i128);
        clamp128(tdiv128(p, b as i128))
    }
}

/// The scalar holding the integer `n`.
pub fn fx(n: i64) -> (r: i64)
    ensures
        r as int == fx_of_int(n as int),
{
    assert(-(170141183460469231731687303715884105727int) <= (n as int) * (ONE as int)
        <= 170141183460469231731687303715884105727int) by (nonlinear_arith)
        requires
            -9223372036854775808 <= n as int <= 9223372036854775807,
    ;
    let p: i128 = (n as i128) * (ONE as i128);
    clamp128(p)
}

/// The scalar holding the rational `n / d`.
pub fn fx_ratio(n: i64, d: i64) -> (r: i64)
    ensures
        r as int == fx_of_ratio(n as int, d as int),
{
    if d == 0 {
        if n >= 0 {
            MAXF
        } else {
            -MAXF
        }
    } else {
        assert(-(170141183460469231731687303715884105727int) <= (n as int) * (ONE as int)
            <= 170141183460469231731687303715884105727int) by (nonlinear_arith)
            requires
                -9223372036854775808 <= n as int <= 9223372036854775807,
        ;
        let p: i128 = (n as i128) * (ONE as i128);
        clamp128(tdiv128(p, d as i128))
    }
}

pub fn ffuzzy(a: i64, b: i64) -> (r: bool)
    ensures
        r == fx_fuzzy(a as int, b as int),
{
    let d: i128 = a as i128 - b as i128;
    let m: i128 = if d >= 0 {
        d
    } else {
        -d
    };
    m < EPSILON as i128
}

/// Floor square root by bisection on 128-bit integers.
fn isqrt128(n: u128) -> (r: u128)
    requires
        n < 79228162514264337593543950336,  // 2^96
    ensures
        r as int == isqrt(n as int),
        is_isqrt(n as int, r as int),
{
    let mut lo: u128 = 0;
    let mut hi: u128 = 281474976710656;  // 2^48
    assert(hi * hi > n) by (nonlinear_arith)
        requires
            hi == 281474976710656,
            n < 79228162514264337593543950336,
    ;
    while hi - lo > 1
        invariant
            lo < hi,
            hi <= 281474976710656,
            lo * lo <= n,
            n < hi * hi,
        decreases hi - lo,
    {
        let mid: u128 = lo + (hi - lo) / 2;
        assert(mid * mid <= 170141183460469231731687303715884105727) by (nonlinear_arith)
            requires
                mid <= 281474976710656,
        ;
        if mid * mid <= n {
            lo = mid;
        } else {
            hi = mid;
        }
    }
    proof {
        assert(is_isqrt(n as int, lo as int));
        assert(is_isqrt(n as int, isqrt(n as int))) by {
            assert(exists|r: int| is_isqrt(n as int, r));
        }
        lemma_isqrt_unique(n as int, lo as int, isqrt(n as int));
    }
    lo
}

/// Fixed-point square root of a nonnegative scalar.
pub fn fsqrt(a: i64) -> (r: i64)
    requires
        a >= 0,
    ensures
        r as int == fx_sqrt(a as int),
        r >= 0,
{
    assert(((a as int) * (ONE as int)) < 79228162514264337593543950336) by (nonlinear_arith)
        requires
            0 <= a as int <= 9223372036854775807,
            ONE as int == 4294967296,
    ;
    let n: u128 = (a as u128) * (ONE as u128);
    let r: u128 = isqrt128(n);
    assert((r as int) * (r as int) <= n as int);
    assert((n as int) < 79228162514264337593543950336);
    assert(r < 281474976710656) by (nonlinear_arith)
        requires
            0 <= r as int,
            ((r as int) * (r as int)) < 79228162514264337593543950336,
    ;
    r as i64
}

/// Fixed-point power with a natural exponent, the inner loop of specular
/// highlights.
pub open spec fn fx_pow(b: int, e: nat) -> int
    decreases e,
{
    if e == 0 {
        ONE as int
    } else {
        fx_mul(fx_pow(b, (e - 1) as nat), b)
    }
}

pub fn fpow(b: i64, e: u32) -> (r: i64)
    ensures
        r as int == fx_pow(b as int, e as nat),
{
    let mut acc: i64 = ONE;
    let mut i: u32 = 0;
    while i < e
        invariant
            i <= e,
            acc as int == fx_pow(b as int, i as nat),
        decreases e - i,
    {
        acc = fmul(acc, b);
        i = i + 1;
    }
    acc
}

} // verus!
