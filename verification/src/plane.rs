//! The object-space XZ plane, with constant normal +Y.

use vstd::prelude::*;
use crate::body::{Body, Intersectable, body_wf, mk_xs};
use crate::fuzzy_eq::FuzzyEq;
use crate::intersections::{Intersections, sort_by_t, sorted_by_t};
use crate::material::Material;
use crate::matrix::{Matrix, is_identity, mwf};
use crate::ray::Ray;
use crate::scalar::{fabs, fneg, fdiv, EPSILON};
use crate::tuple::{Tuple, tup};

verus! {

#[derive(Clone, Copy, Debug)]
pub struct Plane {
    pub transform: Matrix<4>,
    pub material: Material}

impl Plane {
    pub fn new(material: Material, transform: Matrix<4>) -> (r: Self)
        ensures
            r.material == material,
            r.transform == transform,
    {
        Plane { material, transform }
    }

    pub fn with_material(self, material: Material) -> (r: Self)
        ensures
            r.material == material,
            r.transform == self.transform,
    {
        Plane { material, ..self }
    }

    pub fn with_transform(self, transform: Matrix<4>) -> (r: Self)
        ensures
            r.transform == transform,
            r.material == self.material,
    {
        Plane { transform, ..self }
    }

    /// The sorted world-space intersections of a ray with this plane.
    pub fn intersect(&self, ray: Ray) -> (r: Intersections)
        requires
            body_wf(Body::Plane(*self)),
        ensures
            r.data@ == sort_by_t(mk_xs(Body::Plane(*self), ray)),
            sorted_by_t(r.data@),
    {
        Body::Plane(*self).intersect(ray)
    }

    /// The world-space surface normal at a world-space point.
    pub fn normal_at(&self, point: Tuple) -> (r: Tuple)
        requires
            mwf(self.transform),
        ensures
            tup(r) == crate::body::normal_at_s(Body::Plane(*self), tup(point)),
    {
        Body::Plane(*self).normal_at(point)
    }
}

impl Default for Plane {
    fn default() -> (r: Self)
        ensures
            is_identity(r.transform),
            r.material == Material::Phong(crate::material::default_phong()),
    {
        Plane { transform: Matrix::<4>::identity(), material: Material::default() }
    }
}

impl Intersectable for Plane {
    open spec fn as_body(&self) -> Body {
        Body::Plane(*self)
    }

    /// No hits when the ray runs parallel to (or inside) the plane;
    /// otherwise the single solution of `origin.y + t * direction.y = 0`.
    fn intersect_in_object_space(&self, object_space_ray: Ray) -> (r: Vec<(i64, Body)>) {
        proof {
            reveal(crate::body::object_ts);
        }
        let mut out: Vec<(i64, Body)> = Vec::new();
        if fabs(object_space_ray.direction.y) < EPSILON {
            out
        } else {
            let t = fdiv(fneg(object_space_ray.origin.y), object_space_ray.direction.y);
            out.push((t, Body::Plane(*self)));
            out
        }
    }

    /// The constant object-space normal `(0, 1, 0)`.
    fn normal_at_in_object_space(&self, object_space_point: Tuple) -> (r: Tuple) {
        let _ = object_space_point;
        Tuple::vector(0, crate::scalar::ONE, 0)
    }

    fn material(&self) -> (r: Material) {
        self.material
    }

    fn transform(&self) -> (r: Matrix<4>) {
        self.transform
    }
}

impl FuzzyEq<Plane> for Plane {
    open spec fn fuzzy_spec(&self, other: &Plane) -> bool {
        self.transform.fuzzy_spec(&other.transform) && self.material.fuzzy_spec(&other.material)
    }

    fn fuzzy_eq(&self, other: &Plane) -> (r: bool) {
        self.transform.fuzzy_eq(&other.transform) && self.material.fuzzy_eq(&other.material)
    }
}

} // verus!
