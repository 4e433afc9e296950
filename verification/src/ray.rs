//! Rays: an origin point and a direction vector.

use vstd::prelude::*;
use crate::matrix::{Matrix, qapply};
use crate::tuple::{Tuple, Quad, tup, qadd, qscale};

verus! {

#[derive(Clone, Copy, Debug)]
pub struct Ray {
    pub origin: Tuple,
    pub direction: Tuple,
}

/// The point at parameter `t` along the ray: `origin + direction * t`.
pub open spec fn ray_pos(r: Ray, t: int) -> Quad {
    qadd(tup(r.origin), qscale(tup(r.direction), t))
}

impl Ray {
    pub fn new(origin: Tuple, direction: Tuple) -> (r: Self)
        ensures
            r.origin == origin,
            r.direction == direction,
    {
        Ray { origin, direction }
    }

    pub fn position(&self, t: i64) -> (r: Tuple)
        ensures
            tup(r) == ray_pos(*self, t as int),
    {
        self.origin.add(&self.direction.scale(t))
    }

    /// A new ray with both origin and direction mapped through `m`; the
    /// original ray is unchanged.
    pub fn transform(&self, m: &Matrix<4>) -> (r: Self)
        ensures
            tup(r.origin) == qapply(*m, tup(self.origin)),
            tup(r.direction) == qapply(*m, tup(self.direction)),
    {
        Ray { origin: m.mul_tuple(&self.origin), direction: m.mul_tuple(&self.direction) }
    }
}

} // verus!
