//! The scene aggregate: bodies, lights, and the recursive color trace.
//!
//! `color_at` intersects a ray with every body, shades the nearest positive
//! hit with the Phong model and a shadow test against the first light, and
//! adds the reflected contribution by tracing a bounce ray recursively; the
//! `reflection_limit` budget decreases on every bounce, so the recursion
//! provably terminates. Shadowing and shading consult only the first
//! light, even when more are present.

use vstd::prelude::*;
use crate::body::{Body, Intersectable, body_material, body_wf, mk_xs};
use crate::color::{Color, Trip, col, cadd, cscale, black_spec};
use crate::computed_intersection::{ComputedIntersection, computed_of};
use crate::fuzzy_eq::FuzzyEq;
use crate::intersections::{Intersection, Intersections, first_hit, sort_by_t, sorted_by_t,
    lemma_first_hit_min};
use crate::lights::PointLight;
use crate::material::{Material, material_lighting_spec, reflectiveness_of};
use crate::ray::Ray;
use crate::tuple::{Tuple, tup, qtup, qsub, qmag, qnormalize, lemma_qtup_tup};

verus! {

#[derive(Clone, Debug)]
pub struct World {
    pub bodies: Vec<Body>,
    pub lights: Vec<PointLight>,
    pub reflection_limit: usize}

/// Every body's transforms (and its pattern's, if any) are well-formed.
pub open spec fn world_wf(w: World) -> bool {
    forall|i: int| 0 <= i < w.bodies@.len() ==> body_wf(#[trigger] w.bodies@[i])
}

/// The unsorted union of every body's sorted intersections, in body order.
pub open spec fn bodies_xs(bs: Seq<Body>, r: Ray) -> Seq<Intersection>
    decreases bs.len(),
{
    if bs.len() == 0 {
        Seq::empty()
    } else {
        bodies_xs(bs.drop_last(), r) + sort_by_t(mk_xs(bs.last(), r))
    }
}

/// The one sorted collection a world query returns.
pub open spec fn world_xs(w: World, r: Ray) -> Seq<Intersection> {
    sort_by_t(bodies_xs(w.bodies@, r))
}

/// Stable insertion keeps length and preserves any elementwise property.
proof fn lemma_insert_sorted_all(
    s: Seq<Intersection>,
    x: Intersection,
    p: spec_fn(Intersection) -> bool,
)
    requires
        forall|i: int| 0 <= i < s.len() ==> p(#[trigger] s[i]),
        p(x),
    ensures
        crate::intersections::insert_sorted(s, x).len() == s.len() + 1,
        forall|i: int|
            0 <= i < s.len() + 1 ==> p(#[trigger] crate::intersections::insert_sorted(s, x)[i]),
    decreases s.len(),
{
    let out = crate::intersections::insert_sorted(s, x);
    if s.len() == 0 {
    } else if s[0].t <= x.t {
        let rest = s.drop_first();
        assert(forall|i: int| 0 <= i < rest.len() ==> p(#[trigger] rest[i]));
        lemma_insert_sorted_all(rest, x, p);
        let inner = crate::intersections::insert_sorted(rest, x);
        assert(out == seq![s[0]] + inner);
        assert(forall|i: int| 0 < i < out.len() ==> out[i] == #[trigger] inner[i - 1]);
    } else {
        assert(out == seq![x] + s);
        assert(forall|i: int| 0 < i < out.len() ==> out[i] == #[trigger] s[i - 1]);
    }
}

/// Sorting keeps length and preserves any elementwise property.
proof fn lemma_sort_all(s: Seq<Intersection>, p: spec_fn(Intersection) -> bool)
    requires
        forall|i: int| 0 <= i < s.len() ==> p(#[trigger] s[i]),
    ensures
        sort_by_t(s).len() == s.len(),
        forall|i: int| 0 <= i < s.len() ==> p(#[trigger] sort_by_t(s)[i]),
    decreases s.len(),
{
    if s.len() > 0 {
        let rest = s.drop_last();
        assert(forall|i: int| 0 <= i < rest.len() ==> p(#[trigger] rest[i]));
        lemma_sort_all(rest, p);
        lemma_insert_sorted_all(sort_by_t(rest), s.last(), p);
    }
}

/// Every record a body query produces is tagged with a body of the list.
proof fn lemma_bodies_xs_body(bs: Seq<Body>, r: Ray)
    ensures
        forall|i: int|
            0 <= i < bodies_xs(bs, r).len() ==> bs.contains(#[trigger] bodies_xs(bs, r)[i].body),
    decreases bs.len(),
{
    if bs.len() > 0 {
        let front = bs.drop_last();
        let b = bs.last();
        lemma_bodies_xs_body(front, r);
        let raw = mk_xs(b, r);
        crate::body::lemma_mk_xs_body(b, r);
        assert(forall|i: int| 0 <= i < raw.len() ==> (#[trigger] raw[i]).body == b);
        lemma_sort_all(raw, |ix: Intersection| ix.body == b);
        let tail = sort_by_t(raw);
        let out = bodies_xs(bs, r);
        assert(out == bodies_xs(front, r) + tail);
        assert forall|i: int| 0 <= i < out.len() implies bs.contains(#[trigger] out[i].body) by {
            if i < bodies_xs(front, r).len() {
                assert(out[i] == bodies_xs(front, r)[i]);
                assert(front.contains(out[i].body));
                let j = choose|j: int| 0 <= j < front.len() && front[j] == out[i].body;
                assert(bs[j] == out[i].body);
            } else {
                assert(out[i] == tail[i - bodies_xs(front, r).len()]);
                assert(out[i].body == b);
                assert(bs[bs.len() - 1] == b);
            }
        }
    }
}

/// The body of every record of a world query is one of the world's bodies;
/// in a well-formed world its transforms are thus well-formed.
proof fn lemma_world_xs_body(w: World, r: Ray)
    ensures
        forall|i: int|
            0 <= i < world_xs(w, r).len() ==> w.bodies@.contains(
                #[trigger] world_xs(w, r)[i].body,
            ),
{
    lemma_bodies_xs_body(w.bodies@, r);
    lemma_sort_all(
        bodies_xs(w.bodies@, r),
        |ix: Intersection| w.bodies@.contains(ix.body),
    );
}

/// Whether the first light is blocked: a ray from the position toward the
/// light hits something strictly nearer than the light.
pub open spec fn is_shadowed_s(w: World, position: Tuple) -> bool {
    let v = qsub(tup(w.lights@[0].position), tup(position));
    let r = Ray { origin: position, direction: qtup(qnormalize(v)) };
    match first_hit(world_xs(w, r)) {
        Some(h) => (h.t as int) < qmag(v),
        None => false}
}

/// The reflected contribution: black once the material stops reflecting or
/// the bounce budget is exhausted, otherwise the recursive color along the
/// reflection ray scaled by the reflectivity.
pub open spec fn reflect_color_s(
    w: World,
    m: Material,
    c: ComputedIntersection,
    remaining: nat,
) -> Trip
    decreases remaining, 0int,
{
    if reflectiveness_of(m) == 0 || remaining == 0 {
        black_spec()
    } else {
        cscale(
            color_at_s(
                w,
                Ray { origin: c.over_point, direction: c.reflectv },
                (remaining - 1) as nat,
            ),
            reflectiveness_of(m),
        )
    }
}

/// The color a ray reports: black on a miss; otherwise the Phong surface
/// color of the nearest positive hit (with the shadow test) plus the
/// reflected contribution.
pub open spec fn color_at_s(w: World, ray: Ray, remaining: nat) -> Trip
    decreases remaining, 1int,
{
    match first_hit(world_xs(w, ray)) {
        Some(hit) => {
            let c = computed_of(hit);
            let material = body_material(hit.body);
            let surface = material_lighting_spec(
                material,
                hit.body,
                w.lights@[0],
                tup(c.over_point),
                tup(c.eyev),
                tup(c.normalv),
                is_shadowed_s(w, c.over_point),
            );
            cadd(surface, reflect_color_s(w, material, c, remaining))
        },
        None => black_spec()}
}

/// An exhausted bounce budget reflects nothing: the trace's floor, which
/// makes every recursive reflection terminate after at most the world's
/// `reflection_limit` bounces.
pub proof fn lemma_reflection_budget_floor(w: World, m: Material, c: ComputedIntersection)
    ensures
        reflect_color_s(w, m, c, 0) == black_spec(),
{
}

impl World {
    /// A world with the given bodies and lights and the default bounce
    /// budget of five reflections.
    pub fn new(bodies: Vec<Body>, lights: Vec<PointLight>) -> (r: Self)
        ensures
            r.bodies == bodies,
            r.lights == lights,
            r.reflection_limit == 5,
    {
        World { bodies, lights, reflection_limit: 5 }
    }

    /// The sorted union of every body's intersections with the ray.
    #[verifier::rlimit(100)]
    pub fn intersect(&self, ray: Ray) -> (r: Intersections)
        requires
            world_wf(*self),
        ensures
            r.data@ == world_xs(*self, ray),
            sorted_by_t(r.data@),
    {
        let n = self.bodies.len();
        let mut all: Vec<Intersection> = Vec::new();
        let mut bi: usize = 0;
        while bi < n
            invariant
                bi <= n,
                n == self.bodies@.len(),
                world_wf(*self),
                all@ == bodies_xs(self.bodies@.take(bi as int), ray),
            decreases n - bi,
        {
            let xs = self.bodies[bi].intersect(ray);
            let m = xs.len();
            let mut k: usize = 0;
            while k < m
                invariant
                    k <= m,
                    m == xs.data@.len(),
                    xs.data@ == sort_by_t(mk_xs(self.bodies@[bi as int], ray)),
                    bi < n,
                    n == self.bodies@.len(),
                    all@ == bodies_xs(self.bodies@.take(bi as int), ray) + xs.data@.take(k as int),
                decreases m - k,
            {
                all.push(xs.get(k));
                proof {
                    assert(xs.data@.take(k as int + 1) =~= xs.data@.take(k as int).push(
                        xs.data@[k as int],
                    ));
                    assert(all@ =~= bodies_xs(self.bodies@.take(bi as int), ray) + xs.data@.take(
                        k as int + 1,
                    ));
                }
                k = k + 1;
            }
            proof {
                assert(xs.data@.take(m as int) =~= xs.data@);
                let taken = self.bodies@.take(bi as int + 1);
                assert(taken.drop_last() =~= self.bodies@.take(bi as int));
                assert(taken.last() == self.bodies@[bi as int]);
                assert(all@ == bodies_xs(taken, ray));
            }
            bi = bi + 1;
        }
        proof {
            assert(self.bodies@.take(n as int) =~= self.bodies@);
        }
        Intersections::new(all)
    }

    /// Whether the first light is blocked at a position.
    pub fn is_shadowed(&self, position: Tuple) -> (r: bool)
        requires
            world_wf(*self),
            self.lights@.len() > 0,
        ensures
            r == is_shadowed_s(*self, position),
    {
        let v = self.lights[0].position.sub(&position);
        let distance = v.magnitude();
        let direction = v.normalize();
        proof {
            lemma_qtup_tup(direction);
        }
        let r = Ray::new(position, direction);
        let xs = self.intersect(r);
        if let Some(hit) = xs.hit() {
            if hit.t < distance {
                return true;
            }
        }
        false
    }

    /// The color the ray reports, with the world's full bounce budget.
    pub fn color_at(&self, ray: Ray) -> (r: Color)
        requires
            world_wf(*self),
            self.lights@.len() > 0,
        ensures
            col(r) == color_at_s(*self, ray, self.reflection_limit as nat),
    {
        self.color_at_with_reflection_limit(ray, self.reflection_limit)
    }

    fn color_at_with_reflection_limit(&self, ray: Ray, remaining_reflections: usize) -> (r: Color)
        requires
            world_wf(*self),
            self.lights@.len() > 0,
        ensures
            col(r) == color_at_s(*self, ray, remaining_reflections as nat),
        decreases remaining_reflections, 1int,
    {
        let xs = self.intersect(ray);
        let hit = xs.hit();
        if let Some(hit) = hit {
            proof {
                lemma_first_hit_min(xs.data@);
                lemma_world_xs_body(*self, ray);
                let i = choose|i: int| 0 <= i < xs.data@.len() && xs.data@[i] == hit;
                assert(self.bodies@.contains(hit.body));
                let bi = choose|bi: int|
                    0 <= bi < self.bodies@.len() && self.bodies@[bi] == hit.body;
                assert(body_wf(hit.body));
            }
            let c = hit.get_computed();
            let material = hit.body.material();
            let is_in_shadow = self.is_shadowed(c.over_point);
            let surface_color = material.lighting(
                &hit.body,
                self.lights[0],
                c.over_point,
                c.eyev,
                c.normalv,
                is_in_shadow,
            );
            let reflected_color = self.reflect_color_at(&material, &c, remaining_reflections);
            surface_color.add(&reflected_color)
        } else {
            Color::black()
        }
    }

    /// The reflected contribution at a computed hit; black for matte
    /// materials or once the bounce budget runs out, so the trace always
    /// ends after at most `reflection_limit` bounces.
    pub fn reflect_color_at(
        &self,
        material: &Material,
        computed_intersection: &ComputedIntersection,
        remaining_reflections: usize,
    ) -> (r: Color)
        requires
            world_wf(*self),
            self.lights@.len() > 0,
        ensures
            col(r) == reflect_color_s(
                *self,
                *material,
                *computed_intersection,
                remaining_reflections as nat,
            ),
        decreases remaining_reflections, 0int,
    {
        if material.reflectiveness() == 0 || remaining_reflections == 0 {
            return Color::black();
        }
        let reflected_ray = Ray::new(
            computed_intersection.over_point,
            computed_intersection.reflectv,
        );
        let reflected_color = self.color_at_with_reflection_limit(
            reflected_ray,
            remaining_reflections - 1,
        );
        reflected_color.scale(material.reflectiveness())
    }
}

impl Default for World {
    fn default() -> (r: Self)
        ensures
            r.bodies@.len() == 0,
            r.lights@.len() == 0,
            r.reflection_limit == 5,
    {
        World { bodies: Vec::new(), lights: Vec::new(), reflection_limit: 5 }
    }
}

impl FuzzyEq<World> for World {
    open spec fn fuzzy_spec(&self, other: &World) -> bool {
        &&& self.bodies@.len() == other.bodies@.len()
        &&& self.lights@.len() == other.lights@.len()
        &&& forall|i: int|
            0 <= i < self.bodies@.len() ==> (#[trigger] self.bodies@[i]).fuzzy_spec(
                &other.bodies@[i],
            )
        &&& forall|i: int|
            0 <= i < self.lights@.len() ==> (#[trigger] self.lights@[i]).fuzzy_spec(
                &other.lights@[i],
            )
    }

    fn fuzzy_eq(&self, other: &World) -> (r: bool) {
        if self.bodies.len() != other.bodies.len() || self.lights.len() != other.lights.len() {
            return false;
        }
        let n = self.bodies.len();
        let mut i: usize = 0;
        while i < n
            invariant
                i <= n,
                n == self.bodies@.len(),
                n == other.bodies@.len(),
                forall|k: int|
                    0 <= k < i ==> (#[trigger] self.bodies@[k]).fuzzy_spec(&other.bodies@[k]),
            decreases n - i,
        {
            if !self.bodies[i].fuzzy_eq(&other.bodies[i]) {
                return false;
            }
            i = i + 1;
        }
        let m = self.lights.len();
        let mut j: usize = 0;
        while j < m
            invariant
                j <= m,
                m == self.lights@.len(),
                m == other.lights@.len(),
                forall|k: int|
                    0 <= k < j ==> (#[trigger] self.lights@[k]).fuzzy_spec(&other.lights@[k]),
            decreases m - j,
        {
            if !self.lights[j].fuzzy_eq(&other.lights[j]) {
                return false;
            }
            j = j + 1;
        }
        true
    }
}

} // verus!
