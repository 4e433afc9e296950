//! Homogeneous-coordinate 4-vectors.
//!
//! A `Tuple` is a point when `w == ONE` and a vector when `w == 0`; the
//! arithmetic preserves that convention (point − point = vector, point +
//! vector = point) but does not enforce it statically. Every operation's
//! contract states the exact fixed-point value of each component through the
//! `Quad` spec functions, so downstream proofs can compose them.

use vstd::prelude::*;
use crate::fuzzy_eq::FuzzyEq;
use crate::scalar::{
    fadd, fsub, fneg, fmul, fdiv, fsqrt, ffuzzy, fx_add, fx_sub, fx_neg, fx_mul, fx_div, fx_sqrt,
    fx_fuzzy, ONE, TWO};

verus! {

/// The mathematical image of a `Tuple`: its four components as integers.
pub type Quad = (int, int, int, int);

#[derive(Clone, Copy, Debug)]
pub struct Tuple {
    pub x: i64,
    pub y: i64,
    pub z: i64,
    pub w: i64}

pub open spec fn tup(t: Tuple) -> Quad {
    (t.x as int, t.y as int, t.z as int, t.w as int)
}

/// The tuple holding the (in-range) components of a quad.
pub open spec fn qtup(q: Quad) -> Tuple {
    Tuple { x: q.0 as i64, y: q.1 as i64, z: q.2 as i64, w: q.3 as i64 }
}

/// Rebuilding a tuple from its own image is the identity.
pub proof fn lemma_qtup_tup(t: Tuple)
    ensures
        qtup(tup(t)) == t,
{
}

pub open spec fn qadd(a: Quad, b: Quad) -> Quad {
    (fx_add(a.0, b.0), fx_add(a.1, b.1), fx_add(a.2, b.2), fx_add(a.3, b.3))
}

pub open spec fn qsub(a: Quad, b: Quad) -> Quad {
    (fx_sub(a.0, b.0), fx_sub(a.1, b.1), fx_sub(a.2, b.2), fx_sub(a.3, b.3))
}

pub open spec fn qneg(a: Quad) -> Quad {
    (fx_neg(a.0), fx_neg(a.1), fx_neg(a.2), fx_neg(a.3))
}

pub open spec fn qscale(a: Quad, s: int) -> Quad {
    (fx_mul(a.0, s), fx_mul(a.1, s), fx_mul(a.2, s), fx_mul(a.3, s))
}

pub open spec fn qdiv(a: Quad, s: int) -> Quad {
    (fx_div(a.0, s), fx_div(a.1, s), fx_div(a.2, s), fx_div(a.3, s))
}

pub open spec fn qdot(a: Quad, b: Quad) -> int {
    fx_add(
        fx_add(fx_add(fx_mul(a.0, b.0), fx_mul(a.1, b.1)), fx_mul(a.2, b.2)),
        fx_mul(a.3, b.3),
    )
}

pub open spec fn qcross(a: Quad, b: Quad) -> Quad {
    (
        fx_sub(fx_mul(a.1, b.2), fx_mul(a.2, b.1)),
        fx_sub(fx_mul(a.2, b.0), fx_mul(a.0, b.2)),
        fx_sub(fx_mul(a.0, b.1), fx_mul(a.1, b.0)),
        0,
    )
}

/// The squared length of a tuple, always nonnegative.
pub open spec fn qlen2(a: Quad) -> int {
    qdot(a, a)
}

/// The length of a tuple.
pub open spec fn qmag(a: Quad) -> int {
    fx_sqrt(qlen2(a))
}

/// The tuple rescaled to (approximately) unit length. A zero tuple
/// saturates componentwise, the fixed-point image of the IEEE infinities a
/// float implementation would propagate.
pub open spec fn qnormalize(a: Quad) -> Quad {
    qdiv(a, qmag(a))
}

/// Reflection of `v` about the normal `n`: `v - n * 2 * dot(v, n)`.
pub open spec fn qreflect(v: Quad, n: Quad) -> Quad {
    qsub(v, qscale(qscale(n, TWO as int), qdot(v, n)))
}

pub open spec fn qfuzzy(a: Quad, b: Quad) -> bool {
    fx_fuzzy(a.0, b.0) && fx_fuzzy(a.1, b.1) && fx_fuzzy(a.2, b.2) && fx_fuzzy(a.3, b.3)
}

/// The square of any scalar is nonnegative.
pub proof fn lemma_sq_nonneg(v: int)
    ensures
        fx_mul(v, v) >= 0,
{
    assert(v * v >= 0) by (nonlinear_arith);
}

/// A tuple's squared length is nonnegative.
pub proof fn lemma_len2_nonneg(a: Quad)
    ensures
        qlen2(a) >= 0,
{
    lemma_sq_nonneg(a.0);
    lemma_sq_nonneg(a.1);
    lemma_sq_nonneg(a.2);
    lemma_sq_nonneg(a.3);
}

impl Tuple {
    pub fn new(x: i64, y: i64, z: i64, w: i64) -> (r: Self)
        ensures
            r.x == x && r.y == y && r.z == z && r.w == w,
    {
        Tuple { x, y, z, w }
    }

    /// A point: `w` is 1.
    pub fn point(x: i64, y: i64, z: i64) -> (r: Self)
        ensures
            r.x == x && r.y == y && r.z == z && r.w == ONE,
    {
        Tuple { x, y, z, w: ONE }
    }

    /// A vector: `w` is 0.
    pub fn vector(x: i64, y: i64, z: i64) -> (r: Self)
        ensures
            r.x == x && r.y == y && r.z == z && r.w == 0,
    {
        Tuple { x, y, z, w: 0 }
    }

    pub fn is_point(&self) -> (r: bool)
        ensures
            r == (self.w == ONE),
    {
        self.w == ONE
    }

    pub fn is_vector(&self) -> (r: bool)
        ensures
            r == (self.w == 0),
    {
        self.w == 0
    }

    pub fn add(&self, other: &Tuple) -> (r: Tuple)
        ensures
            tup(r) == qadd(tup(*self), tup(*other)),
    {
        Tuple {
            x: fadd(self.x, other.x),
            y: fadd(self.y, other.y),
            z: fadd(self.z, other.z),
            w: fadd(self.w, other.w)}
    }

    pub fn sub(&self, other: &Tuple) -> (r: Tuple)
        ensures
            tup(r) == qsub(tup(*self), tup(*other)),
    {
        Tuple {
            x: fsub(self.x, other.x),
            y: fsub(self.y, other.y),
            z: fsub(self.z, other.z),
            w: fsub(self.w, other.w)}
    }

    pub fn neg(&self) -> (r: Tuple)
        ensures
            tup(r) == qneg(tup(*self)),
    {
        Tuple { x: fneg(self.x), y: fneg(self.y), z: fneg(self.z), w: fneg(self.w) }
    }

    /// Componentwise scaling by a scalar.
    pub fn scale(&self, s: i64) -> (r: Tuple)
        ensures
            tup(r) == qscale(tup(*self), s as int),
    {
        Tuple {
            x: fmul(self.x, s),
            y: fmul(self.y, s),
            z: fmul(self.z, s),
            w: fmul(self.w, s)}
    }

    /// Componentwise division by a scalar.
    pub fn div(&self, s: i64) -> (r: Tuple)
        ensures
            tup(r) == qdiv(tup(*self), s as int),
    {
        Tuple {
            x: fdiv(self.x, s),
            y: fdiv(self.y, s),
            z: fdiv(self.z, s),
            w: fdiv(self.w, s)}
    }

    pub fn dot(&self, other: &Tuple) -> (r: i64)
        ensures
            r as int == qdot(tup(*self), tup(*other)),
    {
        fadd(
            fadd(
                fadd(fmul(self.x, other.x), fmul(self.y, other.y)),
                fmul(self.z, other.z),
            ),
            fmul(self.w, other.w),
        )
    }

    pub fn magnitude(&self) -> (r: i64)
        ensures
            r as int == qmag(tup(*self)),
            r >= 0,
    {
        let d = self.dot(self);
        proof {
            lemma_len2_nonneg(tup(*self));
        }
        fsqrt(d)
    }

    pub fn normalize(&self) -> (r: Tuple)
        ensures
            tup(r) == qnormalize(tup(*self)),
    {
        let m = self.magnitude();
        self.div(m)
    }

    /// Cross product, defined for vectors only: a non-vector operand is a
    /// geometry bug in the caller, excluded here by precondition.
    pub fn cross(&self, other: &Tuple) -> (r: Tuple)
        requires
            self.w == 0,
            other.w == 0,
        ensures
            tup(r) == qcross(tup(*self), tup(*other)),
    {
        Tuple {
            x: fsub(fmul(self.y, other.z), fmul(self.z, other.y)),
            y: fsub(fmul(self.z, other.x), fmul(self.x, other.z)),
            z: fsub(fmul(self.x, other.y), fmul(self.y, other.x)),
            w: 0}
    }

    /// `v - n * 2 * dot(v, n)`: the reflection of `self` about `other`.
    pub fn reflect(&self, other: &Tuple) -> (r: Tuple)
        ensures
            tup(r) == qreflect(tup(*self), tup(*other)),
    {
        let d = self.dot(other);
        self.sub(&other.scale(TWO).scale(d))
    }
}

impl FuzzyEq<Tuple> for Tuple {
    open spec fn fuzzy_spec(&self, other: &Tuple) -> bool {
        qfuzzy(tup(*self), tup(*other))
    }

    fn fuzzy_eq(&self, other: &Tuple) -> (r: bool) {
        ffuzzy(self.x, other.x) && ffuzzy(self.y, other.y) && ffuzzy(self.z, other.z)
            && ffuzzy(self.w, other.w)
    }
}

/// The cross product is antisymmetric: `cross(a, b)` is exactly the negation
/// of `cross(b, a)` — the fixed-point rounding of both sides coincides, so
/// this holds with equality, not merely within tolerance.
pub proof fn lemma_cross_antisymmetric(a: Tuple, b: Tuple)
    ensures
        qcross(tup(a), tup(b)) == qneg(qcross(tup(b), tup(a))),
{
    let ax = a.x as int;
    let ay = a.y as int;
    let az = a.z as int;
    let bx = b.x as int;
    let by = b.y as int;
    let bz = b.z as int;
    assert(ay * bz == bz * ay) by (nonlinear_arith);
    assert(az * by == by * az) by (nonlinear_arith);
    assert(az * bx == bx * az) by (nonlinear_arith);
    assert(ax * bz == bz * ax) by (nonlinear_arith);
    assert(ax * by == by * ax) by (nonlinear_arith);
    assert(ay * bx == bx * ay) by (nonlinear_arith);
}

} // verus!
