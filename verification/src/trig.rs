//! Fixed-point sine, cosine and tangent.
//!
//! Angles are fixed-point radians. The implementation reduces the angle to
//! `[-pi/2, pi/2]` with the period and mirror identities and evaluates a
//! degree-11 Taylor polynomial in Horner form; the contracts state exactly
//! that computation, so callers reason about a single well-defined value.

use vstd::prelude::*;
use crate::scalar::{
    fadd, fsub, fmul, fdiv, fx_add, fx_sub, fx_mul, fx_div, tdiv, abs_int, ONE,
};
use vstd::arithmetic::div_mod::lemma_fundamental_div_mod;

verus! {

/// Fixed-point pi.
pub const PI_FX: i64 = 13493037705;

/// Fixed-point 2*pi.
pub const TWO_PI_FX: i64 = 26986075409;

/// Fixed-point pi/2.
pub const HALF_PI_FX: i64 = 6746518852;

/// Taylor coefficient 1/3!.
pub const SIN_C3: i64 = 715827883;

/// Taylor coefficient 1/5!.
pub const SIN_C5: i64 = 35791394;

/// Taylor coefficient 1/7!.
pub const SIN_C7: i64 = 852176;

/// Taylor coefficient 1/9!.
pub const SIN_C9: i64 = 11836;

/// Taylor coefficient 1/11!.
pub const SIN_C11: i64 = 108;

/// The angle shifted by whole periods into `(-2pi, 2pi)`, rounding the
/// period count toward zero.
pub open spec fn reduce_period(r: int) -> int {
    r - tdiv(r, TWO_PI_FX as int) * (TWO_PI_FX as int)
}

/// The angle folded into `[-pi, pi]`.
pub open spec fn reduce_pi(r: int) -> int {
    let m = reduce_period(r);
    if m > PI_FX as int {
        m - TWO_PI_FX as int
    } else if m < -(PI_FX as int) {
        m + TWO_PI_FX as int
    } else {
        m
    }
}

/// The angle mirrored into `[-pi/2, pi/2]` using `sin(x) = sin(pi - x)`.
pub open spec fn reduce_half(r: int) -> int {
    let m = reduce_pi(r);
    if m > HALF_PI_FX as int {
        PI_FX as int - m
    } else if m < -(HALF_PI_FX as int) {
        -(PI_FX as int) - m
    } else {
        m
    }
}

/// Degree-11 Taylor polynomial for sine, in Horner form.
pub open spec fn sin_poly(x: int) -> int {
    let x2 = fx_mul(x, x);
    fx_mul(
        x,
        fx_sub(
            ONE as int,
            fx_mul(
                x2,
                fx_sub(
                    SIN_C3 as int,
                    fx_mul(
                        x2,
                        fx_sub(
                            SIN_C5 as int,
                            fx_mul(
                                x2,
                                fx_sub(
                                    SIN_C7 as int,
                                    fx_mul(
                                        x2,
                                        fx_sub(SIN_C9 as int, fx_mul(x2, SIN_C11 as int)),
                                    ),
                                ),
                            ),
                        ),
                    ),
                ),
            ),
        ),
    )
}

pub open spec fn sin_spec(r: int) -> int {
    sin_poly(reduce_half(r))
}

/// Cosine through the shift identity `cos(x) = sin(x + pi/2)`.
pub open spec fn cos_spec(r: int) -> int {
    sin_spec(fx_add(r, HALF_PI_FX as int))
}

pub open spec fn tan_spec(r: int) -> int {
    fx_div(sin_spec(r), cos_spec(r))
}

/// Shift the angle by whole periods into `(-2pi, 2pi)`.
fn reduce_period_exec(r: i64) -> (m: i64)
    ensures
        m as int == reduce_period(r as int),
        -(TWO_PI_FX as int) < (m as int),
        (m as int) < TWO_PI_FX as int,
{
    let rm: u64 = if r >= 0 {
        r as u64
    } else {
        (-(r as i128)) as u64
    };
    let tp: u64 = TWO_PI_FX as u64;
    let q: u64 = rm / tp;
    let rem: u64 = rm % tp;
    proof {
        lemma_fundamental_div_mod(rm as int, tp as int);
        assert(rem as int == rm as int - (rm as int / tp as int) * (tp as int));
        assert(abs_int(r as int) == rm as int);
    }
    if r >= 0 {
        rem as i64
    } else {
        -(rem as i64)
    }
}

pub fn fsin(r: i64) -> (s: i64)
    ensures
        s as int == sin_spec(r as int),
{
    let m0 = reduce_period_exec(r);
    let m1: i64 = if m0 > PI_FX {
        m0 - TWO_PI_FX
    } else if m0 < -PI_FX {
        m0 + TWO_PI_FX
    } else {
        m0
    };
    let x: i64 = if m1 > HALF_PI_FX {
        PI_FX - m1
    } else if m1 < -HALF_PI_FX {
        -PI_FX - m1
    } else {
        m1
    };
    let x2 = fmul(x, x);
    fmul(
        x,
        fsub(
            ONE,
            fmul(
                x2,
                fsub(
                    SIN_C3,
                    fmul(
                        x2,
                        fsub(SIN_C5, fmul(x2, fsub(SIN_C7, fmul(x2, fsub(SIN_C9, fmul(x2, SIN_C11)))))),
                    ),
                ),
            ),
        ),
    )
}

pub fn fcos(r: i64) -> (c: i64)
    ensures
        c as int == cos_spec(r as int),
{
    fsin(fadd(r, HALF_PI_FX))
}

pub fn ftan(r: i64) -> (t: i64)
    ensures
        t as int == tan_spec(r as int),
{
    fdiv(fsin(r), fcos(r))
}

} // verus!
