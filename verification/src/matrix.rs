//! Square matrices of fixed-point scalars.
//!
//! A `Matrix<D>` is a row-major `D x D` grid (`D` at most 4, the dimensions
//! the geometry uses) stored in a fixed 4x4 block so that matrices are plain
//! copyable values. The generic operations (identity, transpose, multiply)
//! work for any such dimension; the determinant/cofactor chain is given for
//! the 2, 3 and 4 sizes, with the 4x4 inverse by the adjugate method. As in
//! the rest of the crate, a singular matrix does not fail: dividing by a
//! zero determinant saturates, producing the degenerate entries the
//! contracts describe, and `invertible` lets callers test first.

use vstd::prelude::*;
use vstd::array::ArrayAdditionalExecFns;
use crate::fuzzy_eq::FuzzyEq;
use crate::scalar::{
    fadd, fsub, fneg, fmul, fdiv, ffuzzy, fx_add, fx_sub, fx_neg, fx_mul, fx_div, fx_fuzzy, fx_ok,
    clip, ONE, MAXF,
};
use crate::trig::{fsin, fcos, sin_spec, cos_spec};
use crate::tuple::{Tuple, Quad, tup};

verus! {

#[derive(Clone, Copy, Debug)]
pub struct Matrix<const D: usize> {
    pub data: [[i64; 4]; 4],
}

/// Well-formed: every stored scalar is in the saturation-closed range.
pub open spec fn mwf<const D: usize>(m: Matrix<D>) -> bool {
    forall|r: int, c: int| 0 <= r < 4 && 0 <= c < 4 ==> fx_ok(#[trigger] m.data@[r]@[c] as int)
}

/// The entry in row `r`, column `c`.
pub open spec fn ment<const D: usize>(m: Matrix<D>, r: int, c: int) -> int {
    m.data@[r]@[c] as int
}

/// The index that survives when `removed` is deleted: entries at or past it
/// shift up by one.
pub open spec fn skipi(i: int, removed: int) -> int {
    if i < removed {
        i
    } else {
        i + 1
    }
}

/// Accumulated row-by-column product of the first `k` terms, exactly as the
/// multiplication loop folds it.
pub open spec fn dotrow<const D: usize>(a: Matrix<D>, b: Matrix<D>, r: int, c: int, k: nat) -> int
    decreases k,
{
    if k == 0 {
        0
    } else {
        fx_add(
            dotrow(a, b, r, c, (k - 1) as nat),
            fx_mul(ment(a, r, k - 1), ment(b, k - 1, c)),
        )
    }
}

pub open spec fn det2_of(a00: int, a01: int, a10: int, a11: int) -> int {
    fx_sub(fx_mul(a00, a11), fx_mul(a01, a10))
}

pub open spec fn det3_of(
    a00: int, a01: int, a02: int,
    a10: int, a11: int, a12: int,
    a20: int, a21: int, a22: int,
) -> int {
    fx_add(
        fx_add(
            fx_mul(a00, det2_of(a11, a12, a21, a22)),
            fx_mul(a01, fx_neg(det2_of(a10, a12, a20, a22))),
        ),
        fx_mul(a02, det2_of(a10, a11, a20, a21)),
    )
}

pub open spec fn det2s(m: Matrix<2>) -> int {
    det2_of(ment(m, 0, 0), ment(m, 0, 1), ment(m, 1, 0), ment(m, 1, 1))
}

pub open spec fn minor3s(m: Matrix<3>, r: int, c: int) -> int {
    det2_of(
        ment(m, skipi(0, r), skipi(0, c)),
        ment(m, skipi(0, r), skipi(1, c)),
        ment(m, skipi(1, r), skipi(0, c)),
        ment(m, skipi(1, r), skipi(1, c)),
    )
}

pub open spec fn cof3s(m: Matrix<3>, r: int, c: int) -> int {
    if (r + c) % 2 != 0 {
        fx_neg(minor3s(m, r, c))
    } else {
        minor3s(m, r, c)
    }
}

pub open spec fn det3s(m: Matrix<3>) -> int {
    fx_add(
        fx_add(
            fx_mul(ment(m, 0, 0), cof3s(m, 0, 0)),
            fx_mul(ment(m, 0, 1), cof3s(m, 0, 1)),
        ),
        fx_mul(ment(m, 0, 2), cof3s(m, 0, 2)),
    )
}

pub open spec fn minor4s(m: Matrix<4>, r: int, c: int) -> int {
    det3_of(
        ment(m, skipi(0, r), skipi(0, c)),
        ment(m, skipi(0, r), skipi(1, c)),
        ment(m, skipi(0, r), skipi(2, c)),
        ment(m, skipi(1, r), skipi(0, c)),
        ment(m, skipi(1, r), skipi(1, c)),
        ment(m, skipi(1, r), skipi(2, c)),
        ment(m, skipi(2, r), skipi(0, c)),
        ment(m, skipi(2, r), skipi(1, c)),
        ment(m, skipi(2, r), skipi(2, c)),
    )
}

pub open spec fn cof4s(m: Matrix<4>, r: int, c: int) -> int {
    if (r + c) % 2 != 0 {
        fx_neg(minor4s(m, r, c))
    } else {
        minor4s(m, r, c)
    }
}

pub open spec fn det4s(m: Matrix<4>) -> int {
    fx_add(
        fx_add(
            fx_add(
                fx_mul(ment(m, 0, 0), cof4s(m, 0, 0)),
                fx_mul(ment(m, 0, 1), cof4s(m, 0, 1)),
            ),
            fx_mul(ment(m, 0, 2), cof4s(m, 0, 2)),
        ),
        fx_mul(ment(m, 0, 3), cof4s(m, 0, 3)),
    )
}

/// The entry of the adjugate-method inverse in row `r`, column `c`.
pub open spec fn inv_ent(m: Matrix<4>, r: int, c: int) -> int {
    fx_div(cof4s(m, c, r), det4s(m))
}

/// One row of a matrix applied to a homogeneous tuple.
pub open spec fn mrow(m: Matrix<4>, i: int, q: Quad) -> int {
    fx_add(
        fx_add(
            fx_add(fx_mul(ment(m, i, 0), q.0), fx_mul(ment(m, i, 1), q.1)),
            fx_mul(ment(m, i, 2), q.2),
        ),
        fx_mul(ment(m, i, 3), q.3),
    )
}

/// The affine transform a 4x4 matrix applies to a tuple.
pub open spec fn qapply(m: Matrix<4>, q: Quad) -> Quad {
    (mrow(m, 0, q), mrow(m, 1, q), mrow(m, 2, q), mrow(m, 3, q))
}

/// One row of the inverse of `m` applied to a tuple.
pub open spec fn invrow(m: Matrix<4>, i: int, q: Quad) -> int {
    fx_add(
        fx_add(
            fx_add(fx_mul(inv_ent(m, i, 0), q.0), fx_mul(inv_ent(m, i, 1), q.1)),
            fx_mul(inv_ent(m, i, 2), q.2),
        ),
        fx_mul(inv_ent(m, i, 3), q.3),
    )
}

/// The transform the inverse of `m` applies to a tuple.
pub open spec fn qapply_inv(m: Matrix<4>, q: Quad) -> Quad {
    (invrow(m, 0, q), invrow(m, 1, q), invrow(m, 2, q), invrow(m, 3, q))
}

/// One row of the transposed inverse of `m` applied to a tuple — the
/// correct transform for surface normals.
pub open spec fn invtrow(m: Matrix<4>, i: int, q: Quad) -> int {
    fx_add(
        fx_add(
            fx_add(fx_mul(inv_ent(m, 0, i), q.0), fx_mul(inv_ent(m, 1, i), q.1)),
            fx_mul(inv_ent(m, 2, i), q.2),
        ),
        fx_mul(inv_ent(m, 3, i), q.3),
    )
}

/// The transform the transposed inverse of `m` applies to a tuple.
pub open spec fn qapply_inv_t(m: Matrix<4>, q: Quad) -> Quad {
    (invtrow(m, 0, q), invtrow(m, 1, q), invtrow(m, 2, q), invtrow(m, 3, q))
}

pub open spec fn is_identity<const D: usize>(m: Matrix<D>) -> bool {
    mwf(m) && forall|r: int, c: int|
        0 <= r < D && 0 <= c < D ==> ment(m, r, c) == (if r == c {
            ONE as int
        } else {
            0
        })
}

/// Saturate the one unrepresentable `i64` into the symmetric scalar range.
fn san(v: i64) -> (r: i64)
    ensures
        r as int == clip(v as int),
        fx_ok(r as int),
{
    if v < -MAXF {
        -MAXF
    } else {
        v
    }
}

impl<const D: usize> Matrix<D> {
    /// The zero matrix.
    pub fn new() -> (r: Matrix<D>)
        ensures
            mwf(r),
            forall|i: int, j: int| 0 <= i < 4 && 0 <= j < 4 ==> ment(r, i, j) == 0,
    {
        Matrix {
            data: [
                [0i64, 0i64, 0i64, 0i64],
                [0i64, 0i64, 0i64, 0i64],
                [0i64, 0i64, 0i64, 0i64],
                [0i64, 0i64, 0i64, 0i64],
            ],
        }
    }

    /// Whether every entry is in the saturation-closed range; the
    /// decidable check behind the `mwf` precondition of the verified
    /// operations.
    pub fn is_wf(&self) -> (r: bool)
        ensures
            r == mwf(*self),
    {
        let mut i: usize = 0;
        while i < 4
            invariant
                i <= 4,
                forall|r2: int, c2: int|
                    0 <= r2 < 4 && 0 <= c2 < 4 && r2 < i ==> fx_ok(ment(*self, r2, c2)),
            decreases 4 - i,
        {
            let mut j: usize = 0;
            while j < 4
                invariant
                    i < 4,
                    j <= 4,
                    forall|r2: int, c2: int|
                        0 <= r2 < 4 && 0 <= c2 < 4 && (r2 < i || (r2 == i && c2 < j)) ==> fx_ok(
                            ment(*self, r2, c2),
                        ),
                decreases 4 - j,
            {
                if self.at(i, j) < -MAXF {
                    return false;
                }
                j = j + 1;
            }
            i = i + 1;
        }
        proof {
            assert forall|r2: int, c2: int| 0 <= r2 < 4 && 0 <= c2 < 4 implies fx_ok(
                #[trigger] self.data@[r2]@[c2] as int,
            ) by {
                assert(fx_ok(ment(*self, r2, c2)));
            }
        }
        true
    }

    pub fn at(&self, r: usize, c: usize) -> (v: i64)
        requires
            r < 4,
            c < 4,
        ensures
            v as int == ment(*self, r as int, c as int),
    {
        let row: [i64; 4] = self.data[r];
        row[c]
    }

    fn set_ent(&mut self, r: usize, c: usize, v: i64)
        requires
            r < 4,
            c < 4,
        ensures
            forall|i: int, j: int|
                0 <= i < 4 && 0 <= j < 4 ==> ment(*final(self), i, j) == (if i == r && j == c {
                    v as int
                } else {
                    ment(*old(self), i, j)
                }),
            mwf(*old(self)) && fx_ok(v as int) ==> mwf(*final(self)),
    {
        let mut row: [i64; 4] = self.data[r];
        row[c] = v;
        self.data[r] = row;
    }

    /// Build from `D * D` entries in row-major order; each entry is
    /// saturated into the scalar range, the block outside the logical
    /// dimension stays zero.
    pub fn from_entries(entries: Vec<i64>) -> (r: Matrix<D>)
        requires
            D <= 4,
            entries@.len() == D * D,
        ensures
            mwf(r),
            forall|i: int, j: int|
                0 <= i < D && 0 <= j < D ==> ment(r, i, j) == clip(
                    entries@[i * (D as int) + j] as int,
                ),
    {
        let mut m = Matrix::<D>::new();
        let mut i: usize = 0;
        while i < D
            invariant
                D <= 4,
                mwf(m),
                i <= D,
                entries@.len() == D * D,
                forall|r2: int, c2: int|
                    0 <= r2 < D && 0 <= c2 < D && r2 < i ==> ment(m, r2, c2) == clip(
                        entries@[r2 * (D as int) + c2] as int,
                    ),
            decreases D - i,
        {
            let mut j: usize = 0;
            while j < D
                invariant
                    D <= 4,
                    mwf(m),
                    i < D,
                    j <= D,
                    entries@.len() == D * D,
                    forall|r2: int, c2: int|
                        0 <= r2 < D && 0 <= c2 < D && (r2 < i || (r2 == i && c2 < j)) ==> ment(
                            m,
                            r2,
                            c2,
                        ) == clip(entries@[r2 * (D as int) + c2] as int),
                decreases D - j,
            {
                proof {
                    assert((i as int) * (D as int) + (j as int) < D * D
                        && (D as int) * (D as int) <= 16) by (nonlinear_arith)
                        requires
                            0 <= (i as int) && (i as int) < (D as int),
                            0 <= (j as int) && (j as int) < (D as int),
                            (D as int) <= 4,
                    ;
                }
                let v = san(entries[i * D + j]);
                m.set_ent(i, j, v);
                j = j + 1;
            }
            i = i + 1;
        }
        m
    }

    /// A matrix with `value` on the logical diagonal and zeros elsewhere.
    pub fn diagonal(value: i64) -> (r: Matrix<D>)
        requires
            D <= 4,
        ensures
            mwf(r),
            forall|i: int, j: int|
                0 <= i < 4 && 0 <= j < 4 ==> ment(r, i, j) == (if i == j && i < D {
                    clip(value as int)
                } else {
                    0
                }),
    {
        let v = san(value);
        let mut m = Matrix::<D>::new();
        let mut i: usize = 0;
        while i < D
            invariant
                D <= 4,
                mwf(m),
                i <= D,
                fx_ok(v as int),
                v as int == clip(value as int),
                forall|r2: int, c2: int|
                    0 <= r2 < 4 && 0 <= c2 < 4 ==> ment(m, r2, c2) == (if r2 == c2 && r2 < i {
                        clip(value as int)
                    } else {
                        0
                    }),
            decreases D - i,
        {
            m.set_ent(i, i, v);
            i = i + 1;
        }
        m
    }

    /// The multiplicative identity.
    pub fn identity() -> (r: Matrix<D>)
        requires
            D <= 4,
        ensures
            is_identity(r),
            mwf(r),
            forall|i: int, j: int|
                0 <= i < 4 && 0 <= j < 4 ==> ment(r, i, j) == (if i == j && i < D {
                    ONE as int
                } else {
                    0
                }),
    {
        Self::diagonal(ONE)
    }

    pub fn transpose(&self) -> (r: Matrix<D>)
        requires
            D <= 4,
            mwf(*self),
        ensures
            mwf(r),
            forall|i: int, j: int|
                0 <= i < D && 0 <= j < D ==> ment(r, i, j) == ment(*self, j, i),
    {
        let mut m = Matrix::<D>::new();
        let mut i: usize = 0;
        while i < D
            invariant
                D <= 4,
                mwf(m),
                mwf(*self),
                i <= D,
                forall|r2: int, c2: int|
                    0 <= r2 < D && 0 <= c2 < D && r2 < i ==> ment(m, r2, c2) == ment(
                        *self,
                        c2,
                        r2,
                    ),
            decreases D - i,
        {
            let mut j: usize = 0;
            while j < D
                invariant
                    D <= 4,
                    mwf(m),
                    mwf(*self),
                    i < D,
                    j <= D,
                    forall|r2: int, c2: int|
                        0 <= r2 < D && 0 <= c2 < D && (r2 < i || (r2 == i && c2 < j)) ==> ment(
                            m,
                            r2,
                            c2,
                        ) == ment(*self, c2, r2),
                decreases D - j,
            {
                let v = self.at(j, i);
                m.set_ent(i, j, v);
                j = j + 1;
            }
            i = i + 1;
        }
        m
    }

    /// Row-by-column product; each resulting entry is the folded sum
    /// `dotrow(self, other, r, c, D)`.
    pub fn mul(&self, other: &Matrix<D>) -> (r: Matrix<D>)
        requires
            D <= 4,
            mwf(*self),
            mwf(*other),
        ensures
            mwf(r),
            forall|i: int, j: int|
                0 <= i < D && 0 <= j < D ==> ment(r, i, j) == dotrow(
                    *self,
                    *other,
                    i,
                    j,
                    D as nat,
                ),
    {
        let mut m = Matrix::<D>::new();
        let mut i: usize = 0;
        while i < D
            invariant
                D <= 4,
                mwf(m),
                mwf(*self),
                mwf(*other),
                i <= D,
                forall|r2: int, c2: int|
                    0 <= r2 < D && 0 <= c2 < D && r2 < i ==> ment(m, r2, c2) == dotrow(
                        *self,
                        *other,
                        r2,
                        c2,
                        D as nat,
                    ),
            decreases D - i,
        {
            let mut j: usize = 0;
            while j < D
                invariant
                    D <= 4,
                    mwf(m),
                    mwf(*self),
                    mwf(*other),
                    i < D,
                    j <= D,
                    forall|r2: int, c2: int|
                        0 <= r2 < D && 0 <= c2 < D && (r2 < i || (r2 == i && c2 < j)) ==> ment(
                            m,
                            r2,
                            c2,
                        ) == dotrow(*self, *other, r2, c2, D as nat),
                decreases D - j,
            {
                let mut acc: i64 = 0;
                let mut k: usize = 0;
                while k < D
                    invariant
                        D <= 4,
                        mwf(*self),
                        mwf(*other),
                        i < D,
                        j < D,
                        k <= D,
                        acc as int == dotrow(*self, *other, i as int, j as int, k as nat),
                    decreases D - k,
                {
                    acc = fadd(acc, fmul(self.at(i, k), other.at(k, j)));
                    k = k + 1;
                }
                proof {
                    if D > 0 {
                        assert(dotrow(*self, *other, i as int, j as int, D as nat) == fx_add(
                            dotrow(*self, *other, i as int, j as int, (D - 1) as nat),
                            fx_mul(ment(*self, i as int, D - 1), ment(*other, D - 1, j as int)),
                        ));
                    }
                }
                m.set_ent(i, j, acc);
                j = j + 1;
            }
            i = i + 1;
        }
        m
    }
}

impl<const D: usize> FuzzyEq<Matrix<D>> for Matrix<D> {
    open spec fn fuzzy_spec(&self, other: &Matrix<D>) -> bool {
        forall|r: int, c: int|
            0 <= r < 4 && 0 <= c < 4 ==> fx_fuzzy(ment(*self, r, c), ment(*other, r, c))
    }

    fn fuzzy_eq(&self, other: &Matrix<D>) -> (r: bool) {
        let mut i: usize = 0;
        while i < 4
            invariant
                i <= 4,
                forall|r2: int, c2: int|
                    0 <= r2 < 4 && 0 <= c2 < 4 && r2 < i ==> fx_fuzzy(
                        ment(*self, r2, c2),
                        ment(*other, r2, c2),
                    ),
            decreases 4 - i,
        {
            let mut j: usize = 0;
            while j < 4
                invariant
                    i < 4,
                    j <= 4,
                    forall|r2: int, c2: int|
                        0 <= r2 < 4 && 0 <= c2 < 4 && (r2 < i || (r2 == i && c2 < j)) ==> fx_fuzzy(
                            ment(*self, r2, c2),
                            ment(*other, r2, c2),
                        ),
                decreases 4 - j,
            {
                if !ffuzzy(self.at(i, j), other.at(i, j)) {
                    return false;
                }
                j = j + 1;
            }
            i = i + 1;
        }
        true
    }
}

impl Matrix<2> {
    /// The closed-form 2x2 determinant.
    pub fn determinant(&self) -> (r: i64)
        ensures
            r as int == det2s(*self),
    {
        fsub(fmul(self.at(0, 0), self.at(1, 1)), fmul(self.at(0, 1), self.at(1, 0)))
    }
}

impl Matrix<3> {
    /// The 2x2 matrix left after removing `row` and `column`.
    pub fn submatrix(&self, row: usize, column: usize) -> (r: Matrix<2>)
        requires
            mwf(*self),
            row < 3,
            column < 3,
        ensures
            mwf(r),
            forall|i: int, j: int|
                0 <= i < 2 && 0 <= j < 2 ==> ment(r, i, j) == ment(
                    *self,
                    skipi(i, row as int),
                    skipi(j, column as int),
                ),
    {
        let mut m = Matrix::<2>::new();
        let mut i: usize = 0;
        while i < 2
            invariant
                mwf(m),
                mwf(*self),
                row < 3,
                column < 3,
                i <= 2,
                forall|r2: int, c2: int|
                    0 <= r2 < 2 && 0 <= c2 < 2 && r2 < i ==> ment(m, r2, c2) == ment(
                        *self,
                        skipi(r2, row as int),
                        skipi(c2, column as int),
                    ),
            decreases 2 - i,
        {
            let si: usize = if i < row {
                i
            } else {
                i + 1
            };
            let mut j: usize = 0;
            while j < 2
                invariant
                    mwf(m),
                    mwf(*self),
                    row < 3,
                    column < 3,
                    i < 2,
                    j <= 2,
                    si as int == skipi(i as int, row as int),
                    si < 3,
                    forall|r2: int, c2: int|
                        0 <= r2 < 2 && 0 <= c2 < 2 && (r2 < i || (r2 == i && c2 < j)) ==> ment(
                            m,
                            r2,
                            c2,
                        ) == ment(*self, skipi(r2, row as int), skipi(c2, column as int)),
                decreases 2 - j,
            {
                let sj: usize = if j < column {
                    j
                } else {
                    j + 1
                };
                let v = self.at(si, sj);
                m.set_ent(i, j, v);
                j = j + 1;
            }
            i = i + 1;
        }
        m
    }

    /// The determinant of the submatrix with `row` and `column` removed.
    pub fn minor(&self, row: usize, column: usize) -> (r: i64)
        requires
            mwf(*self),
            row < 3,
            column < 3,
        ensures
            r as int == minor3s(*self, row as int, column as int),
    {
        self.submatrix(row, column).determinant()
    }

    /// The minor with the checkerboard sign `(-1)^(row+column)`.
    pub fn cofactor(&self, row: usize, column: usize) -> (r: i64)
        requires
            mwf(*self),
            row < 3,
            column < 3,
        ensures
            r as int == cof3s(*self, row as int, column as int),
    {
        let m = self.minor(row, column);
        if (row + column) % 2 != 0 {
            fneg(m)
        } else {
            m
        }
    }

    /// Cofactor expansion along the first row.
    pub fn determinant(&self) -> (r: i64)
        requires
            mwf(*self),
        ensures
            r as int == det3s(*self),
    {
        fadd(
            fadd(
                fmul(self.at(0, 0), self.cofactor(0, 0)),
                fmul(self.at(0, 1), self.cofactor(0, 1)),
            ),
            fmul(self.at(0, 2), self.cofactor(0, 2)),
        )
    }
}

impl Matrix<4> {
    /// The 3x3 matrix left after removing `row` and `column`.
    pub fn submatrix(&self, row: usize, column: usize) -> (r: Matrix<3>)
        requires
            mwf(*self),
            row < 4,
            column < 4,
        ensures
            mwf(r),
            forall|i: int, j: int|
                0 <= i < 3 && 0 <= j < 3 ==> ment(r, i, j) == ment(
                    *self,
                    skipi(i, row as int),
                    skipi(j, column as int),
                ),
    {
        let mut m = Matrix::<3>::new();
        let mut i: usize = 0;
        while i < 3
            invariant
                mwf(m),
                mwf(*self),
                row < 4,
                column < 4,
                i <= 3,
                forall|r2: int, c2: int|
                    0 <= r2 < 3 && 0 <= c2 < 3 && r2 < i ==> ment(m, r2, c2) == ment(
                        *self,
                        skipi(r2, row as int),
                        skipi(c2, column as int),
                    ),
            decreases 3 - i,
        {
            let si: usize = if i < row {
                i
            } else {
                i + 1
            };
            let mut j: usize = 0;
            while j < 3
                invariant
                    mwf(m),
                    mwf(*self),
                    row < 4,
                    column < 4,
                    i < 3,
                    j <= 3,
                    si as int == skipi(i as int, row as int),
                    si < 4,
                    forall|r2: int, c2: int|
                        0 <= r2 < 3 && 0 <= c2 < 3 && (r2 < i || (r2 == i && c2 < j)) ==> ment(
                            m,
                            r2,
                            c2,
                        ) == ment(*self, skipi(r2, row as int), skipi(c2, column as int)),
                decreases 3 - j,
            {
                let sj: usize = if j < column {
                    j
                } else {
                    j + 1
                };
                let v = self.at(si, sj);
                m.set_ent(i, j, v);
                j = j + 1;
            }
            i = i + 1;
        }
        m
    }

    /// The determinant of the submatrix with `row` and `column` removed.
    pub fn minor(&self, row: usize, column: usize) -> (r: i64)
        requires
            mwf(*self),
            row < 4,
            column < 4,
        ensures
            r as int == minor4s(*self, row as int, column as int),
    {
        self.submatrix(row, column).determinant()
    }

    /// The minor with the checkerboard sign `(-1)^(row+column)`.
    pub fn cofactor(&self, row: usize, column: usize) -> (r: i64)
        requires
            mwf(*self),
            row < 4,
            column < 4,
        ensures
            r as int == cof4s(*self, row as int, column as int),
    {
        let m = self.minor(row, column);
        if (row + column) % 2 != 0 {
            fneg(m)
        } else {
            m
        }
    }

    /// Cofactor expansion along the first row.
    pub fn determinant(&self) -> (r: i64)
        requires
            mwf(*self),
        ensures
            r as int == det4s(*self),
    {
        fadd(
            fadd(
                fadd(
                    fmul(self.at(0, 0), self.cofactor(0, 0)),
                    fmul(self.at(0, 1), self.cofactor(0, 1)),
                ),
                fmul(self.at(0, 2), self.cofactor(0, 2)),
            ),
            fmul(self.at(0, 3), self.cofactor(0, 3)),
        )
    }

    /// Whether the determinant is nonzero; only then does `inverse` return a
    /// true inverse rather than the saturated degenerate matrix.
    pub fn invertible(&self) -> (r: bool)
        requires
            mwf(*self),
        ensures
            r == (det4s(*self) != 0),
    {
        self.determinant() != 0
    }

    /// The adjugate-method inverse: entry `(c, r)` is `cofactor(r, c)`
    /// divided by the determinant. When the determinant is zero the entries
    /// saturate instead of failing, as the contract states through `fx_div`.
    pub fn inverse(&self) -> (r: Matrix<4>)
        requires
            mwf(*self),
        ensures
            mwf(r),
            forall|i: int, j: int|
                0 <= i < 4 && 0 <= j < 4 ==> ment(r, i, j) == inv_ent(*self, i, j),
    {
        let det = self.determinant();
        let mut m = Matrix::<4>::new();
        let mut row: usize = 0;
        while row < 4
            invariant
                mwf(m),
                mwf(*self),
                row <= 4,
                det as int == det4s(*self),
                forall|i: int, j: int|
                    0 <= i < 4 && 0 <= j < 4 && i < row ==> ment(m, j, i) == fx_div(
                        cof4s(*self, i, j),
                        det4s(*self),
                    ),
            decreases 4 - row,
        {
            let mut col: usize = 0;
            while col < 4
                invariant
                    mwf(m),
                    mwf(*self),
                    row < 4,
                    col <= 4,
                    det as int == det4s(*self),
                    forall|i: int, j: int|
                        0 <= i < 4 && 0 <= j < 4 && (i < row || (i == row && j < col)) ==> ment(
                            m,
                            j,
                            i,
                        ) == fx_div(cof4s(*self, i, j), det4s(*self)),
                decreases 4 - col,
            {
                let cf = self.cofactor(row, col);
                m.set_ent(col, row, fdiv(cf, det));
                col = col + 1;
            }
            row = row + 1;
        }
        m
    }

    /// A tuple transformed by this matrix (standard row-by-component
    /// products).
    pub fn mul_tuple(&self, other: &Tuple) -> (r: Tuple)
        ensures
            tup(r) == qapply(*self, tup(*other)),
    {
        Tuple {
            x: fadd(
                fadd(
                    fadd(fmul(self.at(0, 0), other.x), fmul(self.at(0, 1), other.y)),
                    fmul(self.at(0, 2), other.z),
                ),
                fmul(self.at(0, 3), other.w),
            ),
            y: fadd(
                fadd(
                    fadd(fmul(self.at(1, 0), other.x), fmul(self.at(1, 1), other.y)),
                    fmul(self.at(1, 2), other.z),
                ),
                fmul(self.at(1, 3), other.w),
            ),
            z: fadd(
                fadd(
                    fadd(fmul(self.at(2, 0), other.x), fmul(self.at(2, 1), other.y)),
                    fmul(self.at(2, 2), other.z),
                ),
                fmul(self.at(2, 3), other.w),
            ),
            w: fadd(
                fadd(
                    fadd(fmul(self.at(3, 0), other.x), fmul(self.at(3, 1), other.y)),
                    fmul(self.at(3, 2), other.z),
                ),
                fmul(self.at(3, 3), other.w),
            ),
        }
    }

    /// Translation by `(x, y, z)`: identity plus a last column.
    pub fn translation(x: i64, y: i64, z: i64) -> (r: Matrix<4>)
        ensures
            mwf(r),
            forall|i: int, j: int|
                0 <= i < 4 && 0 <= j < 4 ==> ment(r, i, j) == (if i == 0 && j == 3 {
                    clip(x as int)
                } else if i == 1 && j == 3 {
                    clip(y as int)
                } else if i == 2 && j == 3 {
                    clip(z as int)
                } else if i == j {
                    ONE as int
                } else {
                    0
                }),
    {
        let mut m = Matrix::<4>::identity();
        m.set_ent(0, 3, san(x));
        m.set_ent(1, 3, san(y));
        m.set_ent(2, 3, san(z));
        m
    }

    /// Scaling by `(x, y, z)` on the diagonal.
    pub fn scaling(x: i64, y: i64, z: i64) -> (r: Matrix<4>)
        ensures
            mwf(r),
            forall|i: int, j: int|
                0 <= i < 4 && 0 <= j < 4 ==> ment(r, i, j) == (if i == 0 && j == 0 {
                    clip(x as int)
                } else if i == 1 && j == 1 {
                    clip(y as int)
                } else if i == 2 && j == 2 {
                    clip(z as int)
                } else if i == 3 && j == 3 {
                    ONE as int
                } else {
                    0
                }),
    {
        let mut m = Matrix::<4>::identity();
        m.set_ent(0, 0, san(x));
        m.set_ent(1, 1, san(y));
        m.set_ent(2, 2, san(z));
        m
    }

    /// Right-handed rotation about the X axis by `angle` fixed-point
    /// radians.
    pub fn rotation_x(angle: i64) -> (r: Matrix<4>)
        ensures
            mwf(r),
            forall|i: int, j: int|
                0 <= i < 4 && 0 <= j < 4 ==> ment(r, i, j) == (if i == 1 && j == 1 {
                    cos_spec(angle as int)
                } else if i == 1 && j == 2 {
                    fx_neg(sin_spec(angle as int))
                } else if i == 2 && j == 1 {
                    sin_spec(angle as int)
                } else if i == 2 && j == 2 {
                    cos_spec(angle as int)
                } else if i == j {
                    ONE as int
                } else {
                    0
                }),
    {
        let s = fsin(angle);
        let c = fcos(angle);
        let mut m = Matrix::<4>::identity();
        m.set_ent(1, 1, c);
        m.set_ent(1, 2, fneg(s));
        m.set_ent(2, 1, s);
        m.set_ent(2, 2, c);
        m
    }

    /// Right-handed rotation about the Y axis by `angle` fixed-point
    /// radians.
    pub fn rotation_y(angle: i64) -> (r: Matrix<4>)
        ensures
            mwf(r),
            forall|i: int, j: int|
                0 <= i < 4 && 0 <= j < 4 ==> ment(r, i, j) == (if i == 0 && j == 0 {
                    cos_spec(angle as int)
                } else if i == 0 && j == 2 {
                    sin_spec(angle as int)
                } else if i == 2 && j == 0 {
                    fx_neg(sin_spec(angle as int))
                } else if i == 2 && j == 2 {
                    cos_spec(angle as int)
                } else if i == j {
                    ONE as int
                } else {
                    0
                }),
    {
        let s = fsin(angle);
        let c = fcos(angle);
        let mut m = Matrix::<4>::identity();
        m.set_ent(0, 0, c);
        m.set_ent(0, 2, s);
        m.set_ent(2, 0, fneg(s));
        m.set_ent(2, 2, c);
        m
    }

    /// Right-handed rotation about the Z axis by `angle` fixed-point
    /// radians.
    pub fn rotation_z(angle: i64) -> (r: Matrix<4>)
        ensures
            mwf(r),
            forall|i: int, j: int|
                0 <= i < 4 && 0 <= j < 4 ==> ment(r, i, j) == (if i == 0 && j == 0 {
                    cos_spec(angle as int)
                } else if i == 0 && j == 1 {
                    fx_neg(sin_spec(angle as int))
                } else if i == 1 && j == 0 {
                    sin_spec(angle as int)
                } else if i == 1 && j == 1 {
                    cos_spec(angle as int)
                } else if i == j {
                    ONE as int
                } else {
                    0
                }),
    {
        let s = fsin(angle);
        let c = fcos(angle);
        let mut m = Matrix::<4>::identity();
        m.set_ent(0, 0, c);
        m.set_ent(0, 1, fneg(s));
        m.set_ent(1, 0, s);
        m.set_ent(1, 1, c);
        m
    }

    /// Shearing with the six independent coefficients.
    pub fn shearing(xy: i64, xz: i64, yx: i64, yz: i64, zx: i64, zy: i64) -> (r: Matrix<4>)
        ensures
            mwf(r),
            forall|i: int, j: int|
                0 <= i < 4 && 0 <= j < 4 ==> ment(r, i, j) == (if i == 0 && j == 1 {
                    clip(xy as int)
                } else if i == 0 && j == 2 {
                    clip(xz as int)
                } else if i == 1 && j == 0 {
                    clip(yx as int)
                } else if i == 1 && j == 2 {
                    clip(yz as int)
                } else if i == 2 && j == 0 {
                    clip(zx as int)
                } else if i == 2 && j == 1 {
                    clip(zy as int)
                } else if i == j {
                    ONE as int
                } else {
                    0
                }),
    {
        let mut m = Matrix::<4>::identity();
        m.set_ent(0, 1, san(xy));
        m.set_ent(0, 2, san(xz));
        m.set_ent(1, 0, san(yx));
        m.set_ent(1, 2, san(yz));
        m.set_ent(2, 0, san(zx));
        m.set_ent(2, 1, san(zy));
        m
    }
}

/// `identity * M` leaves every entry of `M` exactly unchanged — the
/// fixed-point fold of a row of the identity against a column of `M`
/// reproduces the entry with no rounding at all.
pub proof fn lemma_identity_mul(idm: Matrix<4>, m: Matrix<4>)
    requires
        is_identity(idm),
        mwf(m),
    ensures
        forall|r: int, c: int|
            0 <= r < 4 && 0 <= c < 4 ==> dotrow(idm, m, r, c, 4) == ment(m, r, c),
{
    assert forall|r: int, c: int| 0 <= r < 4 && 0 <= c < 4 implies dotrow(idm, m, r, c, 4)
        == ment(m, r, c) by {
        reveal_with_fuel(dotrow, 5);
        lemma_fx_mul_one(ment(m, r, c));
        lemma_fx_mul_zero(ment(m, 0, c));
        lemma_fx_mul_zero(ment(m, 1, c));
        lemma_fx_mul_zero(ment(m, 2, c));
        lemma_fx_mul_zero(ment(m, 3, c));
    }
}

/// Multiplying a scalar by the fixed-point one is exact.
proof fn lemma_fx_mul_one(x: int)
    requires
        fx_ok(x),
    ensures
        fx_mul(ONE as int, x) == x,
        fx_mul(x, ONE as int) == x,
{
    vstd::arithmetic::div_mod::lemma_div_multiples_vanish(x, ONE as int);
    if x < 0 {
        vstd::arithmetic::div_mod::lemma_div_multiples_vanish(-x, ONE as int);
        assert((ONE as int) * x == -((-x) * (ONE as int))) by (nonlinear_arith);
        assert(x * (ONE as int) == -((-x) * (ONE as int))) by (nonlinear_arith);
    } else {
        assert((ONE as int) * x == x * (ONE as int)) by (nonlinear_arith);
    }
}

/// Multiplying a scalar by zero is exactly zero.
proof fn lemma_fx_mul_zero(x: int)
    ensures
        fx_mul(0, x) == 0,
{
    assert(0 * x == 0) by (nonlinear_arith);
}

/// Transposing twice restores every entry exactly.
pub proof fn lemma_transpose_involution<const D: usize>(a: Matrix<D>, b: Matrix<D>, c: Matrix<D>)
    requires
        mwf(a),
        mwf(b),
        mwf(c),
        forall|i: int, j: int| 0 <= i < D && 0 <= j < D ==> ment(b, i, j) == ment(a, j, i),
        forall|i: int, j: int| 0 <= i < D && 0 <= j < D ==> ment(c, i, j) == ment(b, j, i),
    ensures
        forall|i: int, j: int| 0 <= i < D && 0 <= j < D ==> ment(c, i, j) == ment(a, i, j),
{
}

} // verus!
