//! RGB colors in fixed-point scalars.
//!
//! Color arithmetic is componentwise; nothing here clamps to a displayable
//! range except the explicit [`Color::clamp`], which the canvas uses when it
//! quantizes for output.

use vstd::prelude::*;
use crate::fuzzy_eq::FuzzyEq;
use crate::scalar::{fadd, fsub, fmul, ffuzzy, fx_add, fx_sub, fx_mul, fx_fuzzy, ONE};

verus! {

/// The mathematical image of a `Color`: its three channels as integers.
pub type Trip = (int, int, int);

#[derive(Clone, Copy, Debug)]
pub struct Color {
    pub red: i64,
    pub green: i64,
    pub blue: i64,
}

pub open spec fn col(c: Color) -> Trip {
    (c.red as int, c.green as int, c.blue as int)
}

pub open spec fn cadd(a: Trip, b: Trip) -> Trip {
    (fx_add(a.0, b.0), fx_add(a.1, b.1), fx_add(a.2, b.2))
}

pub open spec fn csub(a: Trip, b: Trip) -> Trip {
    (fx_sub(a.0, b.0), fx_sub(a.1, b.1), fx_sub(a.2, b.2))
}

/// Scaling by a scalar.
pub open spec fn cscale(a: Trip, s: int) -> Trip {
    (fx_mul(a.0, s), fx_mul(a.1, s), fx_mul(a.2, s))
}

/// The Hadamard (componentwise) product.
pub open spec fn cmul(a: Trip, b: Trip) -> Trip {
    (fx_mul(a.0, b.0), fx_mul(a.1, b.1), fx_mul(a.2, b.2))
}

pub open spec fn smin(a: int, b: int) -> int {
    if a <= b {
        a
    } else {
        b
    }
}

pub open spec fn smax(a: int, b: int) -> int {
    if a >= b {
        a
    } else {
        b
    }
}

/// One channel clamped into `[lo, hi]`: the upper bound is applied
/// first, then the lower.
pub open spec fn clamp1(v: int, lo: int, hi: int) -> int {
    smax(smin(v, hi), lo)
}

pub open spec fn cclamp(a: Trip, lo: int, hi: int) -> Trip {
    (clamp1(a.0, lo, hi), clamp1(a.1, lo, hi), clamp1(a.2, lo, hi))
}

pub open spec fn cfuzzy(a: Trip, b: Trip) -> bool {
    fx_fuzzy(a.0, b.0) && fx_fuzzy(a.1, b.1) && fx_fuzzy(a.2, b.2)
}

pub open spec fn black_spec() -> Trip {
    (0, 0, 0)
}

fn clamp_channel(v: i64, lo: i64, hi: i64) -> (r: i64)
    ensures
        r as int == clamp1(v as int, lo as int, hi as int),
{
    let m = if v <= hi {
        v
    } else {
        hi
    };
    if m >= lo {
        m
    } else {
        lo
    }
}

impl Color {
    pub fn new(red: i64, green: i64, blue: i64) -> (r: Self)
        ensures
            r.red == red && r.green == green && r.blue == blue,
    {
        Color { red, green, blue }
    }

    pub fn black() -> (r: Self)
        ensures
            col(r) == black_spec(),
    {
        Color { red: 0, green: 0, blue: 0 }
    }

    pub fn white() -> (r: Self)
        ensures
            r.red == ONE && r.green == ONE && r.blue == ONE,
    {
        Color { red: ONE, green: ONE, blue: ONE }
    }

    pub fn add(&self, other: &Color) -> (r: Color)
        ensures
            col(r) == cadd(col(*self), col(*other)),
    {
        Color {
            red: fadd(self.red, other.red),
            green: fadd(self.green, other.green),
            blue: fadd(self.blue, other.blue),
        }
    }

    pub fn sub(&self, other: &Color) -> (r: Color)
        ensures
            col(r) == csub(col(*self), col(*other)),
    {
        Color {
            red: fsub(self.red, other.red),
            green: fsub(self.green, other.green),
            blue: fsub(self.blue, other.blue),
        }
    }

    /// Scaling by a scalar.
    pub fn scale(&self, s: i64) -> (r: Color)
        ensures
            col(r) == cscale(col(*self), s as int),
    {
        Color {
            red: fmul(self.red, s),
            green: fmul(self.green, s),
            blue: fmul(self.blue, s),
        }
    }

    /// The Hadamard (componentwise) product.
    pub fn mul(&self, other: &Color) -> (r: Color)
        ensures
            col(r) == cmul(col(*self), col(*other)),
    {
        Color {
            red: fmul(self.red, other.red),
            green: fmul(self.green, other.green),
            blue: fmul(self.blue, other.blue),
        }
    }

    pub fn clamp(&self, lower_bound: i64, upper_bound: i64) -> (r: Color)
        ensures
            col(r) == cclamp(col(*self), lower_bound as int, upper_bound as int),
    {
        Color {
            red: clamp_channel(self.red, lower_bound, upper_bound),
            green: clamp_channel(self.green, lower_bound, upper_bound),
            blue: clamp_channel(self.blue, lower_bound, upper_bound),
        }
    }
}

impl FuzzyEq<Color> for Color {
    open spec fn fuzzy_spec(&self, other: &Color) -> bool {
        cfuzzy(col(*self), col(*other))
    }

    fn fuzzy_eq(&self, other: &Color) -> (r: bool) {
        ffuzzy(self.red, other.red) && ffuzzy(self.green, other.green)
            && ffuzzy(self.blue, other.blue)
    }
}

} // verus!
