//! The unit sphere, centered at the object-space origin.

use vstd::prelude::*;
use crate::body::{Body, Intersectable, body_wf, mk_xs};
use crate::fuzzy_eq::FuzzyEq;
use crate::intersections::{Intersections, sort_by_t, sorted_by_t};
use crate::material::Material;
use crate::matrix::{Matrix, is_identity, mwf};
use crate::ray::Ray;
use crate::scalar::{fadd, fsub, fneg, fmul, fdiv, fsqrt, ONE, TWO};
use crate::tuple::{Tuple, tup};

verus! {

/// The fixed-point representation of 4.0, the discriminant coefficient.
pub const FOUR: i64 = 17179869184;

#[derive(Clone, Copy, Debug)]
pub struct Sphere {
    pub transform: Matrix<4>,
    pub material: Material}

impl Sphere {
    pub fn new(material: Material, transform: Matrix<4>) -> (r: Self)
        ensures
            r.material == material,
            r.transform == transform,
    {
        Sphere { material, transform }
    }

    pub fn with_material(self, material: Material) -> (r: Self)
        ensures
            r.material == material,
            r.transform == self.transform,
    {
        Sphere { material, ..self }
    }

    pub fn with_transform(self, transform: Matrix<4>) -> (r: Self)
        ensures
            r.transform == transform,
            r.material == self.material,
    {
        Sphere { transform, ..self }
    }

    /// The sorted world-space intersections of a ray with this sphere.
    pub fn intersect(&self, ray: Ray) -> (r: Intersections)
        requires
            body_wf(Body::Sphere(*self)),
        ensures
            r.data@ == sort_by_t(mk_xs(Body::Sphere(*self), ray)),
            sorted_by_t(r.data@),
    {
        Body::Sphere(*self).intersect(ray)
    }

    /// The world-space surface normal at a world-space point.
    pub fn normal_at(&self, point: Tuple) -> (r: Tuple)
        requires
            mwf(self.transform),
        ensures
            tup(r) == crate::body::normal_at_s(Body::Sphere(*self), tup(point)),
    {
        Body::Sphere(*self).normal_at(point)
    }
}

impl Default for Sphere {
    fn default() -> (r: Self)
        ensures
            is_identity(r.transform),
            r.material == Material::Phong(crate::material::default_phong()),
    {
        Sphere { transform: Matrix::<4>::identity(), material: Material::default() }
    }
}

impl Intersectable for Sphere {
    open spec fn as_body(&self) -> Body {
        Body::Sphere(*self)
    }

    /// Solves `|O + tD|^2 = 1` in object space: no roots for a negative
    /// discriminant, otherwise the two (possibly equal) quadratic roots,
    /// each tagged with this body.
    fn intersect_in_object_space(&self, object_space_ray: Ray) -> (r: Vec<(i64, Body)>) {
        proof {
            reveal(crate::body::object_ts);
        }
        let sphere_to_ray = object_space_ray.origin.sub(&Tuple::point(0, 0, 0));
        let a = object_space_ray.direction.dot(&object_space_ray.direction);
        let b = fmul(TWO, object_space_ray.direction.dot(&sphere_to_ray));
        let c = fsub(sphere_to_ray.dot(&sphere_to_ray), ONE);
        let discriminant = fsub(fmul(b, b), fmul(fmul(FOUR, a), c));
        let mut out: Vec<(i64, Body)> = Vec::new();
        if discriminant < 0 {
            out
        } else {
            let sq = fsqrt(discriminant);
            let t1 = fdiv(fsub(fneg(b), sq), fmul(TWO, a));
            let t2 = fdiv(fadd(fneg(b), sq), fmul(TWO, a));
            out.push((t1, Body::Sphere(*self)));
            out.push((t2, Body::Sphere(*self)));
            out
        }
    }

    /// The outward normal of the unit sphere: the point minus the center,
    /// normalized.
    fn normal_at_in_object_space(&self, object_space_point: Tuple) -> (r: Tuple) {
        object_space_point.sub(&Tuple::new(0, 0, 0, ONE)).normalize()
    }

    fn material(&self) -> (r: Material) {
        self.material
    }

    fn transform(&self) -> (r: Matrix<4>) {
        self.transform
    }
}

impl FuzzyEq<Sphere> for Sphere {
    open spec fn fuzzy_spec(&self, other: &Sphere) -> bool {
        self.transform.fuzzy_spec(&other.transform) && self.material.fuzzy_spec(&other.material)
    }

    fn fuzzy_eq(&self, other: &Sphere) -> (r: bool) {
        self.transform.fuzzy_eq(&other.transform) && self.material.fuzzy_eq(&other.material)
    }
}

} // verus!
