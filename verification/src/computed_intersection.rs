//! The read-only shading snapshot derived from one hit record.

use vstd::prelude::*;
use crate::body::normal_at_s;
use crate::intersections::Intersection;
use crate::ray::ray_pos;
use crate::scalar::EPSILON;
use crate::tuple::{Tuple, Quad, tup, qtup, qadd, qdot, qneg, qreflect, qscale};

verus! {

#[derive(Clone, Copy, Debug)]
pub struct ComputedIntersection {
    pub intersection: Intersection,
    pub point: Tuple,
    pub over_point: Tuple,
    pub normalv: Tuple,
    pub eyev: Tuple,
    pub inside: bool,
    pub reflectv: Tuple,
}

/// The hit point: the ray evaluated at the record's parameter.
pub open spec fn comp_point(i: Intersection) -> Quad {
    ray_pos(i.ray, i.t as int)
}

/// The eye vector: the reversed ray direction.
pub open spec fn comp_eyev(i: Intersection) -> Quad {
    qneg(tup(i.ray.direction))
}

/// Whether the hit is on the inside of the body: the raw surface normal
/// faces away from the eye.
pub open spec fn comp_inside(i: Intersection) -> bool {
    qdot(normal_at_s(i.body, comp_point(i)), comp_eyev(i)) < 0
}

/// The shading normal, flipped toward the eye for inside hits.
pub open spec fn comp_normalv(i: Intersection) -> Quad {
    if comp_inside(i) {
        qneg(normal_at_s(i.body, comp_point(i)))
    } else {
        normal_at_s(i.body, comp_point(i))
    }
}

/// The reflection of the ray direction about the shading normal.
pub open spec fn comp_reflectv(i: Intersection) -> Quad {
    qreflect(tup(i.ray.direction), comp_normalv(i))
}

/// The hit point nudged along the shading normal by the fixed bias, the
/// origin for shadow and reflection rays.
pub open spec fn comp_over_point(i: Intersection) -> Quad {
    qadd(comp_point(i), qscale(comp_normalv(i), EPSILON as int))
}

/// The whole snapshot as a function of the hit record.
pub open spec fn computed_of(i: Intersection) -> ComputedIntersection {
    ComputedIntersection {
        intersection: i,
        point: qtup(comp_point(i)),
        over_point: qtup(comp_over_point(i)),
        normalv: qtup(comp_normalv(i)),
        eyev: qtup(comp_eyev(i)),
        inside: comp_inside(i),
        reflectv: qtup(comp_reflectv(i)),
    }
}

impl ComputedIntersection {
    pub fn new(
        intersection: Intersection,
        point: Tuple,
        over_point: Tuple,
        normalv: Tuple,
        eyev: Tuple,
        inside: bool,
        reflectv: Tuple,
    ) -> (r: Self)
        ensures
            r == (ComputedIntersection { intersection, point, over_point, normalv, eyev, inside, reflectv }),
    {
        ComputedIntersection { intersection, point, over_point, normalv, eyev, inside, reflectv }
    }
}

} // verus!
