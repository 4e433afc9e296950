//! Hit records and the ordered collection that selects the visible hit.
//!
//! `Intersections::new` sorts ascending by the ray parameter `t`; the
//! contract gives the sorted sequence as a function of the input, so callers
//! know exactly which records sit where. `hit` returns the first record with
//! `t > 0` — the only selection rule — and `lemma_first_hit_min` states
//! that, of a sorted collection, this is the minimal positive parameter.

use vstd::prelude::*;
use crate::body::{Body, body_transform};
use crate::computed_intersection::{ComputedIntersection, computed_of, comp_point, comp_eyev,
    comp_inside, comp_normalv, comp_reflectv, comp_over_point};
use crate::matrix::mwf;
use crate::ray::Ray;
use crate::scalar::EPSILON;
use crate::tuple::{tup, lemma_qtup_tup};

verus! {

#[derive(Clone, Copy, Debug)]
pub struct Intersection {
    pub t: i64,
    pub ray: Ray,
    pub body: Body}

impl Intersection {
    pub fn new(t: i64, ray: Ray, body: Body) -> (r: Self)
        ensures
            r.t == t,
            r.ray == ray,
            r.body == body,
    {
        Intersection { t, ray, body }
    }

    /// The shading state at this hit: the point, the eye vector, the
    /// normal (flipped toward the eye when the hit is on the inside), the
    /// reflection vector, and the bias-offset point that shadow and
    /// reflection rays start from.
    pub fn get_computed(&self) -> (c: ComputedIntersection)
        requires
            mwf(body_transform(self.body)),
        ensures
            c == computed_of(*self),
    {
        let position = self.ray.position(self.t);
        let mut normalv = self.body.normal_at(position);
        let eyev = self.ray.direction.neg();
        let inside = normalv.dot(&eyev) < 0;
        if inside {
            normalv = normalv.neg();
        }
        let reflectv = self.ray.direction.reflect(&normalv);
        let over_point = position.add(&normalv.scale(EPSILON));
        proof {
            lemma_qtup_tup(position);
            lemma_qtup_tup(normalv);
            lemma_qtup_tup(eyev);
            lemma_qtup_tup(reflectv);
            lemma_qtup_tup(over_point);
            assert(tup(position) == comp_point(*self));
            assert(tup(eyev) == comp_eyev(*self));
            assert(inside == comp_inside(*self));
            assert(tup(normalv) == comp_normalv(*self));
            assert(tup(reflectv) == comp_reflectv(*self));
            assert(tup(over_point) == comp_over_point(*self));
        }
        ComputedIntersection::new(*self, position, over_point, normalv, eyev, inside, reflectv)
    }
}

/// Ascending by `t`.
pub open spec fn sorted_by_t(s: Seq<Intersection>) -> bool {
    forall|i: int, j: int| 0 <= i < j < s.len() ==> s[i].t <= s[j].t
}

/// Stable insertion into a sorted sequence: the record goes after every
/// element with a parameter at most its own.
pub open spec fn insert_sorted(s: Seq<Intersection>, x: Intersection) -> Seq<Intersection>
    decreases s.len(),
{
    if s.len() == 0 {
        seq![x]
    } else if s[0].t <= x.t {
        seq![s[0]] + insert_sorted(s.drop_first(), x)
    } else {
        seq![x] + s
    }
}

/// Stable insertion sort, folded left to right.
pub open spec fn sort_by_t(s: Seq<Intersection>) -> Seq<Intersection>
    decreases s.len(),
{
    if s.len() == 0 {
        Seq::empty()
    } else {
        insert_sorted(sort_by_t(s.drop_last()), s.last())
    }
}

/// Where the scan in the collection constructor stops is exactly where the
/// recursive insertion places the record.
proof fn lemma_insert_split(s: Seq<Intersection>, x: Intersection, k: int)
    requires
        0 <= k <= s.len(),
        forall|i: int| 0 <= i < k ==> s[i].t <= x.t,
        k < s.len() ==> s[k].t > x.t,
    ensures
        insert_sorted(s, x) == s.take(k) + seq![x] + s.skip(k),
    decreases s.len(),
{
    if s.len() == 0 {
        assert(insert_sorted(s, x) =~= s.take(k) + seq![x] + s.skip(k));
    } else if k == 0 {
        assert(insert_sorted(s, x) == seq![x] + s);
        assert(seq![x] + s =~= s.take(0) + seq![x] + s.skip(0));
    } else {
        assert(s[0].t <= x.t);
        let rest = s.drop_first();
        assert(forall|i: int| 0 <= i < k - 1 ==> #[trigger] rest[i].t <= x.t);
        assert(k - 1 < rest.len() ==> rest[k - 1].t > x.t);
        lemma_insert_split(rest, x, k - 1);
        assert(insert_sorted(s, x) == seq![s[0]] + (rest.take(k - 1) + seq![x] + rest.skip(k - 1)));
        assert(seq![s[0]] + (rest.take(k - 1) + seq![x] + rest.skip(k - 1)) =~= s.take(k) + seq![x]
            + s.skip(k));
    }
}

/// Stable insertion adds exactly the inserted record to the collection's
/// contents.
proof fn lemma_insert_sorted_multiset(s: Seq<Intersection>, x: Intersection)
    ensures
        insert_sorted(s, x).to_multiset() =~= s.to_multiset().insert(x),
    decreases s.len(),
{
    broadcast use vstd::seq_lib::group_to_multiset_ensures;
    broadcast use vstd::multiset::group_multiset_axioms;

    if s.len() == 0 {
        assert(seq![x] =~= Seq::<Intersection>::empty().push(x));
    } else if s[0].t <= x.t {
        let rest = s.drop_first();
        lemma_insert_sorted_multiset(rest, x);
        vstd::seq_lib::lemma_multiset_commutative(seq![s[0]], insert_sorted(rest, x));
        vstd::seq_lib::lemma_multiset_commutative(seq![s[0]], rest);
        assert(s =~= seq![s[0]] + rest);
        assert(seq![s[0]] =~= Seq::<Intersection>::empty().push(s[0]));
    } else {
        vstd::seq_lib::lemma_multiset_commutative(seq![x], s);
        assert(seq![x] =~= Seq::<Intersection>::empty().push(x));
    }
}

/// Sorting a query's records rearranges them and nothing more: the sorted
/// collection holds exactly the records of the input, with multiplicity.
pub proof fn lemma_sort_preserves_records(s: Seq<Intersection>)
    ensures
        sort_by_t(s).to_multiset() == s.to_multiset(),
        sort_by_t(s).len() == s.len(),
    decreases s.len(),
{
    broadcast use vstd::seq_lib::group_to_multiset_ensures;

    if s.len() > 0 {
        let rest = s.drop_last();
        lemma_sort_preserves_records(rest);
        lemma_insert_sorted_multiset(sort_by_t(rest), s.last());
        assert(s =~= rest.push(s.last()));
        assert(sort_by_t(s).to_multiset() =~= s.to_multiset());
        assert(sort_by_t(s).to_multiset().len() == s.to_multiset().len());
    }
}

/// The first record with `t > 0`, scanning in order.
pub open spec fn first_hit(s: Seq<Intersection>) -> Option<Intersection>
    decreases s.len(),
{
    if s.len() == 0 {
        None
    } else if s[0].t > 0 {
        Some(s[0])
    } else {
        first_hit(s.drop_first())
    }
}

/// Of a sorted collection, the first positive record is the minimal
/// positive one: `None` means no record is positive, and a hit bounds every
/// positive parameter from below.
pub proof fn lemma_first_hit_min(s: Seq<Intersection>)
    requires
        sorted_by_t(s),
    ensures
        first_hit(s) is None ==> forall|k: int| 0 <= k < s.len() ==> #[trigger] s[k].t <= 0,
        first_hit(s) is Some ==> {
            let h = first_hit(s)->Some_0;
            h.t > 0 && s.contains(h) && forall|k: int|
                0 <= k < s.len() && #[trigger] s[k].t > 0 ==> h.t <= s[k].t
        },
    decreases s.len(),
{
    if s.len() == 0 {
    } else if s[0].t > 0 {
        assert(first_hit(s) == Some(s[0]));
        assert(s.contains(s[0]));
        assert forall|k: int| 0 <= k < s.len() && #[trigger] s[k].t > 0 implies s[0].t
            <= s[k].t by {
            if k > 0 {
                assert(s[0].t <= s[k].t);
            }
        }
    } else {
        let rest = s.drop_first();
        assert(forall|k: int| 0 < k < s.len() ==> #[trigger] s[k] == rest[k - 1]);
        assert(sorted_by_t(rest));
        lemma_first_hit_min(rest);
        assert(first_hit(s) == first_hit(rest));
        if first_hit(s) is Some {
            let h = first_hit(s)->Some_0;
            assert(rest.contains(h));
            let i = choose|i: int| 0 <= i < rest.len() && rest[i] == h;
            assert(s[i + 1] == h);
            assert(s.contains(h));
            assert forall|k: int| 0 <= k < s.len() && #[trigger] s[k].t > 0 implies h.t
                <= s[k].t by {
                if k > 0 {
                    assert(rest[k - 1].t > 0);
                }
            }
        } else {
            assert forall|k: int| 0 <= k < s.len() implies #[trigger] s[k].t <= 0 by {
                if k > 0 {
                    assert(rest[k - 1].t <= 0);
                }
            }
        }
    }
}

/// The ordered collection of a query's hit records.
#[derive(Clone, Debug)]
pub struct Intersections {
    pub data: Vec<Intersection>}

impl Intersections {
    /// Sorts the records ascending by `t` (stably); the result is exactly
    /// the insertion sort of the input.
    pub fn new(intersections: Vec<Intersection>) -> (r: Self)
        ensures
            r.data@ == sort_by_t(intersections@),
            sorted_by_t(r.data@),
    {
        let n = intersections.len();
        let mut data: Vec<Intersection> = Vec::new();
        let mut idx: usize = 0;
        while idx < n
            invariant
                idx <= n,
                n == intersections@.len(),
                data@ == sort_by_t(intersections@.take(idx as int)),
                sorted_by_t(data@),
            decreases n - idx,
        {
            let x = intersections[idx];
            let dlen = data.len();
            let mut pos: usize = 0;
            while pos < dlen && data[pos].t <= x.t
                invariant
                    pos <= dlen,
                    dlen == data@.len(),
                    forall|i: int| 0 <= i < pos ==> #[trigger] data@[i].t <= x.t,
                decreases dlen - pos,
            {
                pos = pos + 1;
            }
            proof {
                lemma_insert_split(data@, x, pos as int);
                assert(intersections@.take(idx as int + 1).drop_last() =~= intersections@.take(
                    idx as int,
                ));
                assert(intersections@.take(idx as int + 1).last() == x);
            }
            let ghost old_data = data@;
            data.insert(pos, x);
            proof {
                assert(data@ =~= old_data.take(pos as int) + seq![x] + old_data.skip(pos as int));
                assert(data@ == sort_by_t(intersections@.take(idx as int + 1)));
                assert forall|i: int, j: int| 0 <= i < j < data@.len() implies data@[i].t
                    <= data@[j].t by {
                    assert((pos as int) < old_data.len() ==> old_data[pos as int].t > x.t);
                }
            }
            idx = idx + 1;
        }
        proof {
            assert(intersections@.take(n as int) =~= intersections@);
        }
        Intersections { data }
    }

    pub fn len(&self) -> (r: usize)
        ensures
            r == self.data@.len(),
    {
        self.data.len()
    }

    pub fn is_empty(self) -> (r: bool)
        ensures
            r == (self.data@.len() == 0),
    {
        self.data.len() == 0
    }

    /// The record at an index of the sorted order.
    pub fn get(&self, i: usize) -> (r: Intersection)
        requires
            i < self.data@.len(),
        ensures
            r == self.data@[i as int],
    {
        self.data[i]
    }

    /// The visible hit: the first record with `t > 0`, or none. Negative
    /// parameters (hits behind the ray origin) are never chosen.
    pub fn hit(&self) -> (r: Option<Intersection>)
        ensures
            r == first_hit(self.data@),
    {
        let n = self.data.len();
        proof {
            assert(self.data@.skip(0) =~= self.data@);
        }
        let mut i: usize = 0;
        while i < n
            invariant
                i <= n,
                n == self.data@.len(),
                first_hit(self.data@) == first_hit(self.data@.skip(i as int)),
            decreases n - i,
        {
            let x = self.data[i];
            proof {
                assert(self.data@.skip(i as int).len() > 0);
                assert(self.data@.skip(i as int)[0] == self.data@[i as int]);
                assert(self.data@.skip(i as int).drop_first() =~= self.data@.skip(i as int + 1));
            }
            if x.t > 0 {
                return Some(x);
            }
            i = i + 1;
        }
        proof {
            assert(self.data@.skip(n as int) =~= Seq::<Intersection>::empty());
        }
        None
    }
}

} // verus!
