//! Bodies: the closed union of intersectable primitives.
//!
//! Every variant supplies its material, its object-to-world transform, an
//! object-space normal and object-space intersection parameters; the
//! world-space `intersect` and `normal_at` defined here layer the transform
//! discipline on top once, for all variants: rays are pulled into object
//! space by the inverse transform, and normals are pushed back through the
//! transposed inverse with their `w` forced back to zero.

use vstd::prelude::*;
use crate::fuzzy_eq::FuzzyEq;
use crate::intersections::{Intersection, Intersections, sort_by_t, sorted_by_t};
use crate::material::{Material, lighting_wf, phong_of};
use crate::matrix::{Matrix, mwf, qapply_inv, qapply_inv_t};
use crate::plane::Plane;
use crate::ray::Ray;
use crate::scalar::{fx_abs, fx_add, fx_sub, fx_neg, fx_mul, fx_div, fx_sqrt, EPSILON, ONE, TWO};
use crate::sphere::{Sphere, FOUR};
use crate::tuple::{Tuple, Quad, tup, qsub, qdot, qnormalize};

verus! {

#[derive(Clone, Copy, Debug)]
pub enum Body {
    Sphere(Sphere),
    Plane(Plane)}

pub open spec fn body_transform(b: Body) -> Matrix<4> {
    match b {
        Body::Sphere(s) => s.transform,
        Body::Plane(p) => p.transform}
}

pub open spec fn body_material(b: Body) -> Material {
    match b {
        Body::Sphere(s) => s.material,
        Body::Plane(p) => p.material}
}

/// The transforms that shading this body reads are all well-formed.
pub open spec fn body_wf(b: Body) -> bool {
    lighting_wf(phong_of(body_material(b)), b)
}

/// The quadratic-root parameters of a ray against the unit sphere, in
/// object space: none for a negative discriminant, else the two roots in
/// ascending order of the formula.
pub open spec fn sphere_ts(o: Quad, d: Quad) -> Seq<int> {
    let s2r = qsub(o, (0, 0, 0, ONE as int));
    let a = qdot(d, d);
    let b = fx_mul(TWO as int, qdot(d, s2r));
    let c = fx_sub(qdot(s2r, s2r), ONE as int);
    let disc = fx_sub(fx_mul(b, b), fx_mul(fx_mul(FOUR as int, a), c));
    if disc < 0 {
        Seq::empty()
    } else {
        let sq = fx_sqrt(disc);
        seq![
            fx_div(fx_sub(fx_neg(b), sq), fx_mul(TWO as int, a)),
            fx_div(fx_add(fx_neg(b), sq), fx_mul(TWO as int, a)),
        ]
    }
}

/// The single parameter of a ray against the XZ plane, in object space;
/// none when the direction's y is within tolerance of zero (parallel or
/// coplanar rays deliberately produce no hits).
pub open spec fn plane_ts(o: Quad, d: Quad) -> Seq<int> {
    if fx_abs(d.1) < EPSILON as int {
        Seq::empty()
    } else {
        seq![fx_div(fx_neg(o.1), d.1)]
    }
}

/// Object-space intersection parameters, dispatched over the union.
#[verifier::opaque]
pub open spec fn object_ts(b: Body, o: Quad, d: Quad) -> Seq<int> {
    match b {
        Body::Sphere(_) => sphere_ts(o, d),
        Body::Plane(_) => plane_ts(o, d)}
}

/// The object-space normal of the variant: the sphere's radial direction,
/// the plane's constant +Y.
pub open spec fn object_normal(b: Body, p: Quad) -> Quad {
    match b {
        Body::Sphere(_) => qnormalize(qsub(p, (0, 0, 0, ONE as int))),
        Body::Plane(_) => (0, ONE as int, 0, 0)}
}

/// The world-space normal at a world-space point: the point is pulled into
/// object space, the variant's normal is pushed back through the transposed
/// inverse, its `w` is forced to zero, and the result is normalized.
#[verifier::opaque]
pub open spec fn normal_at_s(b: Body, p: Quad) -> Quad {
    let object_point = qapply_inv(body_transform(b), p);
    let n = object_normal(b, object_point);
    let wn = qapply_inv_t(body_transform(b), n);
    qnormalize((wn.0, wn.1, wn.2, 0))
}

/// An intersection record for parameter `t` of a world-space ray on a body.
pub open spec fn mk_ix(t: int, r: Ray, b: Body) -> Intersection {
    Intersection { t: t as i64, ray: r, body: b }
}

/// The unsorted world-space intersection records of a ray with one body:
/// the ray is pulled into object space by the inverse transform and each
/// resulting parameter keeps the original world-space ray.
#[verifier::opaque]
pub open spec fn mk_xs(b: Body, r: Ray) -> Seq<Intersection> {
    object_ts(
        b,
        qapply_inv(body_transform(b), tup(r.origin)),
        qapply_inv(body_transform(b), tup(r.direction)),
    ).map_values(|t: int| mk_ix(t, r, b))
}

/// Every record of a body's query is tagged with that body.
pub proof fn lemma_mk_xs_body(b: Body, r: Ray)
    ensures
        forall|i: int| 0 <= i < mk_xs(b, r).len() ==> (#[trigger] mk_xs(b, r)[i]).body == b,
{
    reveal(mk_xs);
}

/// The capability contract every body variant implements.
pub trait Intersectable {
    /// The tagged union value this variant stands for.
    spec fn as_body(&self) -> Body;

    fn material(&self) -> (r: Material)
        ensures
            r == body_material(self.as_body()),
    ;

    fn transform(&self) -> (r: Matrix<4>)
        ensures
            r == body_transform(self.as_body()),
    ;

    fn normal_at_in_object_space(&self, point: Tuple) -> (r: Tuple)
        ensures
            tup(r) == object_normal(self.as_body(), tup(point)),
    ;

    fn intersect_in_object_space(&self, object_space_ray: Ray) -> (r: Vec<(i64, Body)>)
        ensures
            r@.len() == object_ts(
                self.as_body(),
                tup(object_space_ray.origin),
                tup(object_space_ray.direction),
            ).len(),
            forall|k: int|
                0 <= k < r@.len() ==> #[trigger] r@[k].0 as int == object_ts(
                    self.as_body(),
                    tup(object_space_ray.origin),
                    tup(object_space_ray.direction),
                )[k] && r@[k].1 == self.as_body(),
    ;
}

impl Intersectable for Body {
    open spec fn as_body(&self) -> Body {
        *self
    }

    fn material(&self) -> (r: Material) {
        match *self {
            Body::Sphere(ref sphere) => sphere.material,
            Body::Plane(ref plane) => plane.material}
    }

    fn transform(&self) -> (r: Matrix<4>) {
        match *self {
            Body::Sphere(ref sphere) => sphere.transform,
            Body::Plane(ref plane) => plane.transform}
    }

    fn normal_at_in_object_space(&self, point: Tuple) -> (r: Tuple) {
        match *self {
            Body::Sphere(ref sphere) => sphere.normal_at_in_object_space(point),
            Body::Plane(ref plane) => plane.normal_at_in_object_space(point)}
    }

    fn intersect_in_object_space(&self, object_space_ray: Ray) -> (r: Vec<(i64, Body)>) {
        match *self {
            Body::Sphere(ref sphere) => sphere.intersect_in_object_space(object_space_ray),
            Body::Plane(ref plane) => plane.intersect_in_object_space(object_space_ray)}
    }
}

impl Body {
    /// The sorted world-space intersections of a ray with this body, each
    /// record carrying the original world-space ray.
    pub fn intersect(&self, ray: Ray) -> (r: Intersections)
        requires
            mwf(body_transform(*self)),
        ensures
            r.data@ == sort_by_t(mk_xs(*self, ray)),
            sorted_by_t(r.data@),
    {
        let object_space_ray = ray.transform(&self.transform().inverse());
        let ts = self.intersect_in_object_space(object_space_ray);
        let n = ts.len();
        let mut v: Vec<Intersection> = Vec::new();
        let mut k: usize = 0;
        while k < n
            invariant
                v@.len() == k,
                k <= n,
                n == ts@.len(),
                forall|i: int|
                    0 <= i < k ==> #[trigger] v@[i] == (Intersection {
                        t: ts@[i].0,
                        ray,
                        body: ts@[i].1}),
            decreases n - k,
        {
            let pair = ts[k];
            v.push(Intersection { t: pair.0, ray, body: pair.1 });
            k = k + 1;
        }
        proof {
            reveal(mk_xs);
            assert(v@ =~= mk_xs(*self, ray));
        }
        Intersections::new(v)
    }

    /// The decidable check behind `body_wf`: every transform shading this
    /// body reads is in range.
    pub fn wf_check(&self) -> (r: bool)
        ensures
            r == body_wf(*self),
    {
        match self.material() {
            Material::Phong(ph) => crate::material::lighting_wf_check(&ph, self)}
    }

    /// The world-space surface normal at a world-space point.
    pub fn normal_at(&self, point: Tuple) -> (r: Tuple)
        requires
            mwf(body_transform(*self)),
        ensures
            tup(r) == normal_at_s(*self, tup(point)),
    {
        proof {
            reveal(normal_at_s);
        }
        let inv = self.transform().inverse();
        let object_point = inv.mul_tuple(&point);
        let object_normal = self.normal_at_in_object_space(object_point);
        let mut world_normal = inv.transpose().mul_tuple(&object_normal);
        world_normal.w = 0;
        world_normal.normalize()
    }
}

impl From<Sphere> for Body {
    fn from(sphere: Sphere) -> (r: Self) {
        Body::Sphere(sphere)
    }
}

impl vstd::std_specs::convert::FromSpecImpl<Sphere> for Body {
    open spec fn obeys_from_spec() -> bool {
        true
    }

    open spec fn from_spec(sphere: Sphere) -> Body {
        Body::Sphere(sphere)
    }
}

impl From<Plane> for Body {
    fn from(plane: Plane) -> (r: Self) {
        Body::Plane(plane)
    }
}

impl vstd::std_specs::convert::FromSpecImpl<Plane> for Body {
    open spec fn obeys_from_spec() -> bool {
        true
    }

    open spec fn from_spec(plane: Plane) -> Body {
        Body::Plane(plane)
    }
}

impl FuzzyEq<Body> for Body {
    open spec fn fuzzy_spec(&self, other: &Body) -> bool {
        match (*self, *other) {
            (Body::Sphere(a), Body::Sphere(b)) => a.fuzzy_spec(&b),
            (Body::Plane(a), Body::Plane(b)) => a.fuzzy_spec(&b),
            _ => false}
    }

    fn fuzzy_eq(&self, other: &Body) -> (r: bool) {
        match (self, other) {
            (Body::Sphere(a), Body::Sphere(b)) => a.fuzzy_eq(b),
            (Body::Plane(a), Body::Plane(b)) => a.fuzzy_eq(b),
            _ => false}
    }
}

} // verus!
