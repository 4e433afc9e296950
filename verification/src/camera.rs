//! The camera: pixel coordinates to world-space rays.
//!
//! Construction derives the half extents of the view plane from the field
//! of view and the aspect ratio (the narrower half-extent equals
//! `tan(fov/2)`), and the pixel size from the horizontal extent.
//! `view_transform` builds the world-to-camera matrix from an eye point, a
//! target and an up hint; `ray_for_pixel` sends the center of a pixel
//! through the inverse of that transform.

use vstd::prelude::*;
use crate::fuzzy_eq::FuzzyEq;
use crate::matrix::{Matrix, mwf, is_identity, dotrow, ment, qapply_inv};
use crate::ray::Ray;
use crate::scalar::{fadd, fsub, fneg, fmul, fdiv, fx, ffuzzy, fx_add, fx_sub, fx_neg, fx_mul,
    fx_div, fx_of_int, fx_fuzzy, clip, ONE, TWO};
use crate::trig::{ftan, tan_spec};
use crate::tuple::{Tuple, Quad, tup, qsub, qcross, qmag, qnormalize};

verus! {

/// The fixed-point representation of 0.5, the pixel-center offset.
pub const HALF: i64 = 2147483648;

#[derive(Clone, Copy, Debug)]
pub struct Camera {
    pub transform: Matrix<4>,
    pub hsize: usize,
    pub vsize: usize,
    pub field_of_view: i64,
    pub half_width: i64,
    pub half_height: i64,
    pub pixel_size: i64}

/// The derived view-plane extents and pixel size: `tan(fov/2)` spread over
/// the wider axis by the aspect ratio.
pub open spec fn camera_derived(hsize: int, vsize: int, fov: int) -> (int, int, int) {
    let half_size = tan_spec(fx_div(fov, TWO as int));
    let aspect = fx_div(fx_of_int(hsize), fx_of_int(vsize));
    let half_width = if aspect >= ONE as int {
        half_size
    } else {
        fx_mul(half_size, aspect)
    };
    let half_height = if aspect >= ONE as int {
        fx_div(half_size, aspect)
    } else {
        half_size
    };
    (half_width, half_height, fx_div(fx_mul(half_width, TWO as int), fx_of_int(hsize)))
}

/// The forward basis vector of the view transform.
pub open spec fn vt_forward(from: Tuple, to: Tuple) -> Quad {
    qnormalize(qsub(tup(to), tup(from)))
}

/// The left basis vector of the view transform.
pub open spec fn vt_left(from: Tuple, to: Tuple, up: Tuple) -> Quad {
    qcross(vt_forward(from, to), qnormalize(tup(up)))
}

/// The recomputed up basis vector of the view transform.
pub open spec fn vt_true_up(from: Tuple, to: Tuple, up: Tuple) -> Quad {
    qcross(vt_left(from, to, up), vt_forward(from, to))
}

/// The orientation entries: rows are `left`, `true_up`, `-forward`, and the
/// homogeneous row.
pub open spec fn ori_ent(from: Tuple, to: Tuple, up: Tuple, i: int, j: int) -> int {
    clip(
        if i == 0 && j == 0 {
            vt_left(from, to, up).0
        } else if i == 0 && j == 1 {
            vt_left(from, to, up).1
        } else if i == 0 && j == 2 {
            vt_left(from, to, up).2
        } else if i == 1 && j == 0 {
            vt_true_up(from, to, up).0
        } else if i == 1 && j == 1 {
            vt_true_up(from, to, up).1
        } else if i == 1 && j == 2 {
            vt_true_up(from, to, up).2
        } else if i == 2 && j == 0 {
            fx_neg(vt_forward(from, to).0)
        } else if i == 2 && j == 1 {
            fx_neg(vt_forward(from, to).1)
        } else if i == 2 && j == 2 {
            fx_neg(vt_forward(from, to).2)
        } else if i == 3 && j == 3 {
            ONE as int
        } else {
            0
        },
    )
}

/// The entries of the translation by the negated eye point.
pub open spec fn vt_tra_ent(from: Tuple, i: int, j: int) -> int {
    if i == 0 && j == 3 {
        clip(fx_neg(from.x as int))
    } else if i == 1 && j == 3 {
        clip(fx_neg(from.y as int))
    } else if i == 2 && j == 3 {
        clip(fx_neg(from.z as int))
    } else if i == j {
        ONE as int
    } else {
        0
    }
}

/// One entry of `orientation * translation(-from)`, folded exactly as the
/// matrix product folds it.
pub open spec fn view_transform_ent(from: Tuple, to: Tuple, up: Tuple, i: int, j: int) -> int {
    fx_add(
        fx_add(
            fx_add(
                fx_add(0, fx_mul(ori_ent(from, to, up, i, 0), vt_tra_ent(from, 0, j))),
                fx_mul(ori_ent(from, to, up, i, 1), vt_tra_ent(from, 1, j)),
            ),
            fx_mul(ori_ent(from, to, up, i, 2), vt_tra_ent(from, 2, j)),
        ),
        fx_mul(ori_ent(from, to, up, i, 3), vt_tra_ent(from, 3, j)),
    )
}

/// The camera-space x coordinate on the view plane for pixel column `x`.
pub open spec fn rfp_world_x(c: Camera, x: int) -> int {
    fx_sub(c.half_width as int, fx_mul(fx_add(HALF as int, fx_of_int(x)), c.pixel_size as int))
}

/// The camera-space y coordinate on the view plane for pixel row `y`.
pub open spec fn rfp_world_y(c: Camera, y: int) -> int {
    fx_sub(c.half_height as int, fx_mul(fx_add(HALF as int, fx_of_int(y)), c.pixel_size as int))
}

/// The world-space camera origin: the inverse view transform applied to
/// the camera-space origin.
pub open spec fn rfp_origin(c: Camera) -> Quad {
    qapply_inv(c.transform, (0, 0, 0, ONE as int))
}

/// The normalized world-space direction through the center of pixel
/// `(x, y)` on the view plane at `z = -1`.
pub open spec fn rfp_direction(c: Camera, x: int, y: int) -> Quad {
    qnormalize(
        qsub(
            qapply_inv(
                c.transform,
                (rfp_world_x(c, x), rfp_world_y(c, y), -(ONE as int), ONE as int),
            ),
            rfp_origin(c),
        ),
    )
}

impl Camera {
    pub fn new(hsize: usize, vsize: usize, field_of_view: i64) -> (r: Self)
        requires
            hsize as int <= 9223372036854775807,
            vsize as int <= 9223372036854775807,
        ensures
            r.hsize == hsize,
            r.vsize == vsize,
            r.field_of_view == field_of_view,
            is_identity(r.transform),
            mwf(r.transform),
            (r.half_width as int, r.half_height as int, r.pixel_size as int) == camera_derived(
                hsize as int,
                vsize as int,
                field_of_view as int,
            ),
    {
        let half_size = ftan(fdiv(field_of_view, TWO));
        let aspect_ratio = fdiv(fx(hsize as i64), fx(vsize as i64));
        let half_width: i64;
        let half_height: i64;
        if aspect_ratio >= ONE {
            half_width = half_size;
            half_height = fdiv(half_size, aspect_ratio);
        } else {
            half_height = half_size;
            half_width = fmul(half_size, aspect_ratio);
        }
        let pixel_size = fdiv(fmul(half_width, TWO), fx(hsize as i64));
        Camera {
            hsize,
            vsize,
            field_of_view,
            transform: Matrix::<4>::identity(),
            half_height,
            half_width,
            pixel_size}
    }

    pub fn with_transform(self, transform: Matrix<4>) -> (r: Self)
        ensures
            r == (Camera { transform, ..self }),
    {
        Camera { transform, ..self }
    }

    /// Replaces the transform with `orientation * translation(-from)`,
    /// where the orientation rows are the `left`, `true_up` and `-forward`
    /// basis vectors; afterwards the camera sits at the origin looking down
    /// `-Z` with `+Y` up. Degenerate inputs (a zero view direction or up
    /// hint, or mixing points and vectors) are geometry bugs in the caller,
    /// excluded by precondition.
    pub fn view_transform(self, from: Tuple, to: Tuple, up: Tuple) -> (r: Self)
        requires
            to.w == from.w,
            up.w == 0,
            qmag(qsub(tup(to), tup(from))) != 0,
            qmag(tup(up)) != 0,
        ensures
            r.hsize == self.hsize,
            r.vsize == self.vsize,
            r.field_of_view == self.field_of_view,
            r.half_width == self.half_width,
            r.half_height == self.half_height,
            r.pixel_size == self.pixel_size,
            mwf(r.transform),
            forall|i: int, j: int|
                0 <= i < 4 && 0 <= j < 4 ==> ment(r.transform, i, j) == view_transform_ent(
                    from,
                    to,
                    up,
                    i,
                    j,
                ),
    {
        let forward = to.sub(&from).normalize();
        let upn = up.normalize();
        let left = forward.cross(&upn);
        let true_up = left.cross(&forward);
        let entries: Vec<i64> = vec![
            left.x, left.y, left.z, 0,
            true_up.x, true_up.y, true_up.z, 0,
            fneg(forward.x), fneg(forward.y), fneg(forward.z), 0,
            0, 0, 0, ONE,
        ];
        let orientation = Matrix::<4>::from_entries(entries);
        let translation = Matrix::<4>::translation(fneg(from.x), fneg(from.y), fneg(from.z));
        let transform = orientation.mul(&translation);
        proof {
            assert forall|i: int, j: int| 0 <= i < 4 && 0 <= j < 4 implies ment(transform, i, j)
                == view_transform_ent(from, to, up, i, j) by {
                reveal_with_fuel(dotrow, 5);
                assert(forall|i2: int, j2: int|
                    0 <= i2 < 4 && 0 <= j2 < 4 ==> #[trigger] ment(orientation, i2, j2)
                        == ori_ent(from, to, up, i2, j2));
                assert(forall|i2: int, j2: int|
                    0 <= i2 < 4 && 0 <= j2 < 4 ==> #[trigger] ment(translation, i2, j2)
                        == vt_tra_ent(from, i2, j2));
            }
        }
        Camera { transform, ..self }
    }

    /// The world-space ray through the center of pixel `(x, y)`.
    pub fn ray_for_pixel(&self, x: usize, y: usize) -> (r: Ray)
        requires
            mwf(self.transform),
            x as int <= 9223372036854775807,
            y as int <= 9223372036854775807,
        ensures
            tup(r.origin) == rfp_origin(*self),
            tup(r.direction) == rfp_direction(*self, x as int, y as int),
    {
        let offset_x = fmul(fadd(HALF, fx(x as i64)), self.pixel_size);
        let offset_y = fmul(fadd(HALF, fx(y as i64)), self.pixel_size);
        let world_x = fsub(self.half_width, offset_x);
        let world_y = fsub(self.half_height, offset_y);

        let inverse_view_transform = self.transform.inverse();

        let wall_point = inverse_view_transform.mul_tuple(&Tuple::point(world_x, world_y, -ONE));
        let ray_origin = inverse_view_transform.mul_tuple(&Tuple::point(0, 0, 0));
        let ray_direction = wall_point.sub(&ray_origin).normalize();
        Ray::new(ray_origin, ray_direction)
    }
}

impl FuzzyEq<Camera> for Camera {
    open spec fn fuzzy_spec(&self, other: &Camera) -> bool {
        self.transform.fuzzy_spec(&other.transform) && self.vsize == other.vsize && self.hsize
            == other.hsize && fx_fuzzy(self.field_of_view as int, other.field_of_view as int)
    }

    fn fuzzy_eq(&self, other: &Camera) -> (r: bool) {
        self.transform.fuzzy_eq(&other.transform) && self.vsize == other.vsize && self.hsize
            == other.hsize && ffuzzy(self.field_of_view, other.field_of_view)
    }
}

} // verus!
