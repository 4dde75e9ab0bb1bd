//! Intersections and the selection of the visible one.
use crate::param::{is_eligible, order_key, param_key, INFINITY_BITS};
use vstd::prelude::*;

verus! {

broadcast use vstd::seq_lib::group_to_multiset_ensures;

/// A crossing of a ray with a primitive's surface.
///
/// `t` is the signed parametric distance along the ray, as its binary32
/// encoding (negative means behind the ray origin). `obj` identifies the
/// primitive that was crossed, as a handle into a table of objects owned by
/// the caller.
#[derive(Clone, Copy, Debug, PartialEq, Eq, Structural)]
pub struct Intersection {
    pub t: u32,
    pub obj: usize,
}

/// Some intersection of `s` may be picked as a hit.
pub open spec fn has_visible(s: Seq<Intersection>) -> bool {
    exists|k: int| 0 <= k < s.len() && is_eligible(#[trigger] s[k].t)
}

/// `s[j]` is eligible and no eligible intersection of `s` lies nearer.
pub open spec fn is_nearest(s: Seq<Intersection>, j: int) -> bool {
    &&& 0 <= j < s.len()
    &&& is_eligible(s[j].t)
    &&& forall|k: int|
        0 <= k < s.len() && is_eligible(#[trigger] s[k].t) ==> param_key(s[j].t) <= param_key(
            s[k].t,
        )
}

/// `s[j]` is nearest, and every eligible intersection before it lies
/// strictly farther: the first of the nearest ones.
pub open spec fn is_first_nearest(s: Seq<Intersection>, j: int) -> bool {
    &&& is_nearest(s, j)
    &&& forall|k: int|
        0 <= k < j && is_eligible(#[trigger] s[k].t) ==> param_key(s[j].t) < param_key(s[k].t)
}

impl Intersection {
    /// An intersection at encoded distance `t` with the object `object`.
    pub fn build(t: u32, object: usize) -> (r: Intersection)
        ensures
            r.t == t,
            r.obj == object,
    {
        Intersection { t, obj: object }
    }

    /// The encoded parametric distance.
    pub fn t(&self) -> (r: u32)
        ensures
            r == self.t,
    {
        self.t
    }

    /// The handle of the object crossed.
    pub fn obj(&self) -> (r: usize)
        ensures
            r == self.obj,
    {
        self.obj
    }

    /// The visible intersection: among those with a finite `t > 0`, the one
    /// with the smallest `t`, the first of them in input order on a tie.
    /// `None` when no intersection qualifies, an empty input included.
    pub fn hit(intersections: &Vec<Intersection>) -> (r: Option<Intersection>)
        ensures
            match r {
                None => !has_visible(intersections@),
                Some(h) => exists|j: int|
                    is_first_nearest(intersections@, j) && #[trigger] intersections@[j] == h,
            },
    {
        let mut t_min: i32 = INFINITY_BITS as i32;
        let mut hit: Option<Intersection> = None;
        let ghost mut hit_at: int = -1;
        let mut i: usize = 0;
        while i < intersections.len()
            invariant
                0 <= i <= intersections.len(),
                match hit {
                    None => {
                        &&& t_min == INFINITY_BITS
                        &&& forall|k: int|
                            0 <= k < i ==> !is_eligible(#[trigger] intersections@[k].t)
                    },
                    Some(h) => {
                        &&& 0 <= hit_at < i
                        &&& intersections@[hit_at] == h
                        &&& is_eligible(h.t)
                        &&& t_min == param_key(h.t)
                        &&& forall|k: int|
                            0 <= k < i && is_eligible(#[trigger] intersections@[k].t)
                                ==> param_key(h.t) <= param_key(intersections@[k].t)
                        &&& forall|k: int|
                            0 <= k < hit_at && is_eligible(#[trigger] intersections@[k].t)
                                ==> param_key(h.t) < param_key(intersections@[k].t)
                    },
                },
            decreases intersections.len() - i,
        {
            let x: Intersection = intersections[i];
            let k: i32 = order_key(x.t);
            if k < t_min && k > 0 {
                t_min = k;
                hit = Some(x);
                proof {
                    hit_at = i as int;
                }
            }
            i += 1;
        }
        proof {
            if hit.is_some() {
                assert(is_first_nearest(intersections@, hit_at));
            }
        }
        hit
    }
}

/// Hit selection does not depend on the order of its input: two collections
/// that hold the same intersections, in whatever order, either both have no
/// visible intersection, or the first nearest of each lies at the same
/// distance.
pub proof fn lemma_hit_order_independent(xs: Seq<Intersection>, ys: Seq<Intersection>)
    requires
        xs.to_multiset() == ys.to_multiset(),
    ensures
        has_visible(xs) == has_visible(ys),
        forall|i: int, j: int|
            is_first_nearest(xs, i) && is_first_nearest(ys, j) ==> #[trigger] xs[i].t
                == #[trigger] ys[j].t,
{
    assert forall|e: Intersection| xs.contains(e) <==> ys.contains(e) by {
        assert(xs.contains(e) <==> xs.to_multiset().count(e) > 0);
        assert(ys.contains(e) <==> ys.to_multiset().count(e) > 0);
    }
    if has_visible(xs) {
        let k = choose|k: int| 0 <= k < xs.len() && is_eligible(#[trigger] xs[k].t);
        assert(xs.contains(xs[k]));
        assert(ys.contains(xs[k]));
    }
    if has_visible(ys) {
        let k = choose|k: int| 0 <= k < ys.len() && is_eligible(#[trigger] ys[k].t);
        assert(ys.contains(ys[k]));
        assert(xs.contains(ys[k]));
    }
    assert forall|i: int, j: int|
        is_first_nearest(xs, i) && is_first_nearest(ys, j) implies #[trigger] xs[i].t
            == #[trigger] ys[j].t by {
        assert(xs.contains(xs[i]));
        assert(ys.contains(xs[i]));
        assert(ys.contains(ys[j]));
        assert(xs.contains(ys[j]));
        let a = choose|a: int| 0 <= a < ys.len() && ys[a] == xs[i];
        let b = choose|b: int| 0 <= b < xs.len() && xs[b] == ys[j];
        assert(param_key(xs[i].t) <= param_key(xs[b].t));
        assert(param_key(ys[j].t) <= param_key(ys[a].t));
    }
}

} // verus!
