//! Procedural color patterns.
//!
//! A pattern answers one question: the color at a position, looked up first
//! through the owning body's object space and then through the pattern's own
//! space. The four variants (stripes, gradient, rings, checkers) all key on
//! integer floors of fixed-point coordinates.

use vstd::prelude::*;
use vstd::arithmetic::div_mod::lemma_fundamental_div_mod;
use crate::body::{Body, body_transform, Intersectable};
use crate::color::{Color, Trip, col, cadd, csub, cscale};
use crate::fuzzy_eq::FuzzyEq;
use crate::matrix::{Matrix, mwf, is_identity, qapply_inv};
use crate::scalar::{fadd, fsub, fmul, fsqrt, fx_add, fx_sub, fx_mul, fx_sqrt, ONE};
use crate::tuple::{Tuple, Quad, tup};

verus! {

/// The whole-unit floor of a fixed-point scalar (`v / ONE` rounded toward
/// negative infinity).
pub open spec fn floor_units(v: int) -> int {
    v / (ONE as int)
}

/// Whether the integer is even; the parity that alternates stripe, ring and
/// checker cells.
pub open spec fn is_even(v: int) -> bool {
    v % 2 == 0
}

/// Floor division of a scalar by `ONE`, toward negative infinity.
fn ffloor_units(v: i64) -> (r: i64)
    ensures
        r as int == floor_units(v as int),
        -2147483648 <= r <= 2147483647,
{
    if v >= 0 {
        let q: u64 = (v as u64) / (ONE as u64);
        q as i64
    } else {
        let m: u64 = (-(v as i128)) as u64;
        let q: u64 = m / (ONE as u64);
        let rem: u64 = m % (ONE as u64);
        proof {
            lemma_fundamental_div_mod(v as int, ONE as int);
            lemma_fundamental_div_mod(m as int, ONE as int);
        }
        if rem == 0 {
            -(q as i64)
        } else {
            -(q as i64) - 1
        }
    }
}

/// Whether a (small) integer is even.
fn even(v: i64) -> (r: bool)
    requires
        -4611686018427387904 <= v <= 4611686018427387903,
    ensures
        r == is_even(v as int),
{
    let m: u64 = if v >= 0 {
        v as u64
    } else {
        (-v) as u64
    };
    proof {
        lemma_fundamental_div_mod(v as int, 2);
        lemma_fundamental_div_mod(m as int, 2);
    }
    m % 2 == 0
}

#[derive(Clone, Copy, Debug)]
pub enum Pattern {
    Striped(Striped),
    Gradient(Gradient),
    Ring(Ring),
    Checker(Checker)}

#[derive(Clone, Copy, Debug)]
pub struct Striped {
    pub color_a: Color,
    pub color_b: Color,
    pub transform: Matrix<4>}

#[derive(Clone, Copy, Debug)]
pub struct Gradient {
    pub color_a: Color,
    pub color_b: Color,
    pub transform: Matrix<4>}

#[derive(Clone, Copy, Debug)]
pub struct Ring {
    pub color_a: Color,
    pub color_b: Color,
    pub transform: Matrix<4>}

#[derive(Clone, Copy, Debug)]
pub struct Checker {
    pub color_a: Color,
    pub color_b: Color,
    pub transform: Matrix<4>}

/// The transform a pattern applies on top of its body's.
pub open spec fn pattern_transform(p: Pattern) -> Matrix<4> {
    match p {
        Pattern::Striped(s) => s.transform,
        Pattern::Gradient(g) => g.transform,
        Pattern::Ring(r) => r.transform,
        Pattern::Checker(c) => c.transform}
}

/// Stripes alternate with the floor of the x coordinate.
pub open spec fn striped_color(s: Striped, pos: Quad) -> Trip {
    if is_even(floor_units(pos.0)) {
        col(s.color_a)
    } else {
        col(s.color_b)
    }
}

/// A linear blend along x: `a + (b - a) * frac(x)`, where `frac` subtracts
/// the fixed-point image of the coordinate's floor.
pub open spec fn gradient_color(g: Gradient, pos: Quad) -> Trip {
    cadd(
        col(g.color_a),
        cscale(
            csub(col(g.color_b), col(g.color_a)),
            fx_sub(pos.0, floor_units(pos.0) * (ONE as int)),
        ),
    )
}

/// Rings alternate with the floor of the planar distance from the origin.
pub open spec fn ring_color(r: Ring, pos: Quad) -> Trip {
    if is_even(floor_units(fx_sqrt(fx_add(fx_mul(pos.0, pos.0), fx_mul(pos.2, pos.2))))) {
        col(r.color_a)
    } else {
        col(r.color_b)
    }
}

/// Checkers alternate with the parity of the summed coordinate floors.
pub open spec fn checker_color(c: Checker, pos: Quad) -> Trip {
    if is_even(floor_units(pos.0) + floor_units(pos.1) + floor_units(pos.2)) {
        col(c.color_a)
    } else {
        col(c.color_b)
    }
}

/// The color a pattern shows at a position in its own space.
pub open spec fn pattern_space_color(p: Pattern, pos: Quad) -> Trip {
    match p {
        Pattern::Striped(s) => striped_color(s, pos),
        Pattern::Gradient(g) => gradient_color(g, pos),
        Pattern::Ring(r) => ring_color(r, pos),
        Pattern::Checker(c) => checker_color(c, pos)}
}

/// The color a pattern shows at a world position on a body: the position is
/// pulled into the body's object space, then into pattern space.
pub open spec fn pattern_color_at(p: Pattern, pos: Quad, b: Body) -> Trip {
    pattern_space_color(
        p,
        qapply_inv(pattern_transform(p), qapply_inv(body_transform(b), pos)),
    )
}

/// The capability every pattern variant offers: a color in pattern space, a
/// transform, and the composed world-space lookup.
pub trait Stencil {
    fn color_at_in_pattern_space(&self, position: Tuple) -> Color;

    fn transform(&self) -> Matrix<4>;

    fn color_at(&self, position: Tuple, body: &Body) -> Color;
}

impl Pattern {
    pub fn color_at_in_pattern_space(&self, position: Tuple) -> (r: Color)
        ensures
            col(r) == pattern_space_color(*self, tup(position)),
    {
        match *self {
            Pattern::Striped(ref s) => s.color_at_in_pattern_space(position),
            Pattern::Gradient(ref g) => g.color_at_in_pattern_space(position),
            Pattern::Ring(ref r) => r.color_at_in_pattern_space(position),
            Pattern::Checker(ref c) => c.color_at_in_pattern_space(position)}
    }

    pub fn transform(&self) -> (r: Matrix<4>)
        ensures
            r == pattern_transform(*self),
    {
        match *self {
            Pattern::Striped(ref s) => s.transform,
            Pattern::Gradient(ref g) => g.transform,
            Pattern::Ring(ref r) => r.transform,
            Pattern::Checker(ref c) => c.transform}
    }

    pub fn color_at(&self, position: Tuple, body: &Body) -> (r: Color)
        requires
            mwf(pattern_transform(*self)),
            mwf(body_transform(*body)),
        ensures
            col(r) == pattern_color_at(*self, tup(position), *body),
    {
        let object_position = body.transform().inverse().mul_tuple(&position);
        let pattern_position = self.transform().inverse().mul_tuple(&object_position);
        self.color_at_in_pattern_space(pattern_position)
    }
}

impl Stencil for Pattern {
    fn color_at_in_pattern_space(&self, position: Tuple) -> Color {
        Pattern::color_at_in_pattern_space(self, position)
    }

    fn transform(&self) -> Matrix<4> {
        Pattern::transform(self)
    }

    /// The facade checks the transform ranges the verified lookup demands;
    /// a degenerate pattern shows black.
    fn color_at(&self, position: Tuple, body: &Body) -> Color {
        if Pattern::transform(self).is_wf() && body.transform().is_wf() {
            Pattern::color_at(self, position, body)
        } else {
            Color::black()
        }
    }
}

impl Stencil for Striped {
    fn color_at_in_pattern_space(&self, position: Tuple) -> Color {
        Striped::color_at_in_pattern_space(self, position)
    }

    fn transform(&self) -> Matrix<4> {
        self.transform
    }

    fn color_at(&self, position: Tuple, body: &Body) -> Color {
        Stencil::color_at(&Pattern::Striped(*self), position, body)
    }
}

impl Stencil for Gradient {
    fn color_at_in_pattern_space(&self, position: Tuple) -> Color {
        Gradient::color_at_in_pattern_space(self, position)
    }

    fn transform(&self) -> Matrix<4> {
        self.transform
    }

    fn color_at(&self, position: Tuple, body: &Body) -> Color {
        Stencil::color_at(&Pattern::Gradient(*self), position, body)
    }
}

impl Stencil for Ring {
    fn color_at_in_pattern_space(&self, position: Tuple) -> Color {
        Ring::color_at_in_pattern_space(self, position)
    }

    fn transform(&self) -> Matrix<4> {
        self.transform
    }

    fn color_at(&self, position: Tuple, body: &Body) -> Color {
        Stencil::color_at(&Pattern::Ring(*self), position, body)
    }
}

impl Stencil for Checker {
    fn color_at_in_pattern_space(&self, position: Tuple) -> Color {
        Checker::color_at_in_pattern_space(self, position)
    }

    fn transform(&self) -> Matrix<4> {
        self.transform
    }

    fn color_at(&self, position: Tuple, body: &Body) -> Color {
        Stencil::color_at(&Pattern::Checker(*self), position, body)
    }
}

impl Striped {
    pub fn with_colors(self, color_a: Color, color_b: Color) -> (r: Self)
        ensures
            r.color_a == color_a,
            r.color_b == color_b,
            r.transform == self.transform,
    {
        Striped { color_a, color_b, ..self }
    }

    pub fn with_transform(self, transform: Matrix<4>) -> (r: Self)
        ensures
            r.transform == transform,
            r.color_a == self.color_a,
            r.color_b == self.color_b,
    {
        Striped { transform, ..self }
    }

    pub fn color_at_in_pattern_space(&self, position: Tuple) -> (r: Color)
        ensures
            col(r) == striped_color(*self, tup(position)),
    {
        let fl = ffloor_units(position.x);
        if even(fl) {
            self.color_a
        } else {
            self.color_b
        }
    }
}

impl Default for Striped {
    fn default() -> (r: Self)
        ensures
            col(r.color_a) == (0int, 0int, 0int),
            col(r.color_b) == (ONE as int, ONE as int, ONE as int),
            is_identity(r.transform),
    {
        Striped {
            color_a: Color::black(),
            color_b: Color::white(),
            transform: Matrix::<4>::identity()}
    }
}

impl Gradient {
    pub fn with_colors(self, color_a: Color, color_b: Color) -> (r: Self)
        ensures
            r.color_a == color_a,
            r.color_b == color_b,
            r.transform == self.transform,
    {
        Gradient { color_a, color_b, ..self }
    }

    pub fn with_transform(self, transform: Matrix<4>) -> (r: Self)
        ensures
            r.transform == transform,
            r.color_a == self.color_a,
            r.color_b == self.color_b,
    {
        Gradient { transform, ..self }
    }

    pub fn color_at_in_pattern_space(&self, position: Tuple) -> (r: Color)
        ensures
            col(r) == gradient_color(*self, tup(position)),
    {
        let distance = self.color_b.sub(&self.color_a);
        let fl = ffloor_units(position.x);
        let fraction = fsub(position.x, fmul_one_units(fl));
        self.color_a.add(&distance.scale(fraction))
    }
}

/// `fl` whole units as a fixed-point scalar.
fn fmul_one_units(fl: i64) -> (r: i64)
    requires
        -2147483648 <= fl <= 2147483647,
    ensures
        r as int == fl as int * (ONE as int),
{
    proof {
        assert(-9223372036854775808 <= (fl as int) * (ONE as int)
            && (fl as int) * (ONE as int) <= 9223372036854775807) by (nonlinear_arith)
            requires
                -2147483648 <= fl as int <= 2147483647,
                ONE as int == 4294967296,
        ;
    }
    let p: i128 = (fl as i128) * (ONE as i128);
    p as i64
}

impl Default for Gradient {
    fn default() -> (r: Self)
        ensures
            col(r.color_a) == (0int, 0int, 0int),
            col(r.color_b) == (ONE as int, ONE as int, ONE as int),
            is_identity(r.transform),
    {
        Gradient {
            color_a: Color::black(),
            color_b: Color::white(),
            transform: Matrix::<4>::identity()}
    }
}

impl Ring {
    pub fn with_colors(self, color_a: Color, color_b: Color) -> (r: Self)
        ensures
            r.color_a == color_a,
            r.color_b == color_b,
            r.transform == self.transform,
    {
        Ring { color_a, color_b, ..self }
    }

    pub fn with_transform(self, transform: Matrix<4>) -> (r: Self)
        ensures
            r.transform == transform,
            r.color_a == self.color_a,
            r.color_b == self.color_b,
    {
        Ring { transform, ..self }
    }

    pub fn color_at_in_pattern_space(&self, position: Tuple) -> (r: Color)
        ensures
            col(r) == ring_color(*self, tup(position)),
    {
        let d2 = fadd(fmul(position.x, position.x), fmul(position.z, position.z));
        proof {
            crate::tuple::lemma_sq_nonneg(position.x as int);
            crate::tuple::lemma_sq_nonneg(position.z as int);
        }
        let fl = ffloor_units(fsqrt(d2));
        if even(fl) {
            self.color_a
        } else {
            self.color_b
        }
    }
}

impl Default for Ring {
    fn default() -> (r: Self)
        ensures
            col(r.color_a) == (0int, 0int, 0int),
            col(r.color_b) == (ONE as int, ONE as int, ONE as int),
            is_identity(r.transform),
    {
        Ring {
            color_a: Color::black(),
            color_b: Color::white(),
            transform: Matrix::<4>::identity()}
    }
}

impl Checker {
    pub fn with_colors(self, color_a: Color, color_b: Color) -> (r: Self)
        ensures
            r.color_a == color_a,
            r.color_b == color_b,
            r.transform == self.transform,
    {
        Checker { color_a, color_b, ..self }
    }

    pub fn with_transform(self, transform: Matrix<4>) -> (r: Self)
        ensures
            r.transform == transform,
            r.color_a == self.color_a,
            r.color_b == self.color_b,
    {
        Checker { transform, ..self }
    }

    pub fn color_at_in_pattern_space(&self, position: Tuple) -> (r: Color)
        ensures
            col(r) == checker_color(*self, tup(position)),
    {
        let fx2 = ffloor_units(position.x);
        let fy = ffloor_units(position.y);
        let fz = ffloor_units(position.z);
        if even(fx2 + fy + fz) {
            self.color_a
        } else {
            self.color_b
        }
    }
}

impl Default for Checker {
    fn default() -> (r: Self)
        ensures
            col(r.color_a) == (ONE as int, ONE as int, ONE as int),
            col(r.color_b) == (0int, 0int, 0int),
            is_identity(r.transform),
    {
        Checker {
            color_a: Color::white(),
            color_b: Color::black(),
            transform: Matrix::<4>::identity()}
    }
}

impl FuzzyEq<Pattern> for Pattern {
    open spec fn fuzzy_spec(&self, other: &Pattern) -> bool {
        match (*self, *other) {
            (Pattern::Striped(a), Pattern::Striped(b)) => pattern_pair_fuzzy(
                a.color_a,
                a.color_b,
                b.color_a,
                b.color_b,
            ),
            (Pattern::Gradient(a), Pattern::Gradient(b)) => pattern_pair_fuzzy(
                a.color_a,
                a.color_b,
                b.color_a,
                b.color_b,
            ),
            (Pattern::Ring(a), Pattern::Ring(b)) => pattern_pair_fuzzy(
                a.color_a,
                a.color_b,
                b.color_a,
                b.color_b,
            ),
            (Pattern::Checker(a), Pattern::Checker(b)) => pattern_pair_fuzzy(
                a.color_a,
                a.color_b,
                b.color_a,
                b.color_b,
            ),
            _ => false}
    }

    fn fuzzy_eq(&self, other: &Pattern) -> (r: bool) {
        match (self, other) {
            (Pattern::Striped(a), Pattern::Striped(b)) => a.color_a.fuzzy_eq(&b.color_a)
                && a.color_b.fuzzy_eq(&b.color_b),
            (Pattern::Gradient(a), Pattern::Gradient(b)) => a.color_a.fuzzy_eq(&b.color_a)
                && a.color_b.fuzzy_eq(&b.color_b),
            (Pattern::Ring(a), Pattern::Ring(b)) => a.color_a.fuzzy_eq(&b.color_a)
                && a.color_b.fuzzy_eq(&b.color_b),
            (Pattern::Checker(a), Pattern::Checker(b)) => a.color_a.fuzzy_eq(&b.color_a)
                && a.color_b.fuzzy_eq(&b.color_b),
            _ => false}
    }
}

impl From<Striped> for Pattern {
    fn from(striped: Striped) -> (r: Self) {
        Pattern::Striped(striped)
    }
}

impl vstd::std_specs::convert::FromSpecImpl<Striped> for Pattern {
    open spec fn obeys_from_spec() -> bool {
        true
    }

    open spec fn from_spec(striped: Striped) -> Pattern {
        Pattern::Striped(striped)
    }
}

impl From<Gradient> for Pattern {
    fn from(gradient: Gradient) -> (r: Self) {
        Pattern::Gradient(gradient)
    }
}

impl vstd::std_specs::convert::FromSpecImpl<Gradient> for Pattern {
    open spec fn obeys_from_spec() -> bool {
        true
    }

    open spec fn from_spec(gradient: Gradient) -> Pattern {
        Pattern::Gradient(gradient)
    }
}

impl From<Ring> for Pattern {
    fn from(ring: Ring) -> (r: Self) {
        Pattern::Ring(ring)
    }
}

impl vstd::std_specs::convert::FromSpecImpl<Ring> for Pattern {
    open spec fn obeys_from_spec() -> bool {
        true
    }

    open spec fn from_spec(ring: Ring) -> Pattern {
        Pattern::Ring(ring)
    }
}

impl From<Checker> for Pattern {
    fn from(checker: Checker) -> (r: Self) {
        Pattern::Checker(checker)
    }
}

impl vstd::std_specs::convert::FromSpecImpl<Checker> for Pattern {
    open spec fn obeys_from_spec() -> bool {
        true
    }

    open spec fn from_spec(checker: Checker) -> Pattern {
        Pattern::Checker(checker)
    }
}

/// Both color pairs agree within tolerance.
pub open spec fn pattern_pair_fuzzy(a1: Color, a2: Color, b1: Color, b2: Color) -> bool {
    crate::color::cfuzzy(col(a1), col(b1)) && crate::color::cfuzzy(col(a2), col(b2))
}

} // verus!
