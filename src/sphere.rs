//! The decision that ends a ray–sphere intersection.
use crate::intersection::Intersection;
use crate::param::{is_negative, order_key, INFINITY_BITS};
use vstd::prelude::*;

verus! {

/// The intersections of a ray with a sphere, from the quadratic that the ray
/// gives in the sphere's local space.
///
/// `discriminant` is the encoding of `b^2 - 4ac`; `t1` and `t2` encode the
/// roots `(-b - sqrt(disc)) / 2a` and `(-b + sqrt(disc)) / 2a`, in that order.
/// A negative discriminant is a miss and gives no intersection; otherwise
/// both roots come back, in order, tagged with the sphere's handle `obj` (a
/// tangent ray gives two equal roots).
pub fn sphere_crossings(discriminant: u32, t1: u32, t2: u32, obj: usize) -> (r: Vec<
    Intersection,
>)
    ensures
        is_negative(discriminant) ==> r@ == Seq::<Intersection>::empty(),
        !is_negative(discriminant) ==> r@ == seq![
            (Intersection { t: t1, obj }),
            (Intersection { t: t2, obj }),
        ],
{
    let k: i32 = order_key(discriminant);
    if k < 0 && k >= -(INFINITY_BITS as i32) {
        let r: Vec<Intersection> = Vec::new();
        proof {
            assert(r@ =~= Seq::<Intersection>::empty());
        }
        r
    } else {
        let r: Vec<Intersection> = vec![Intersection::build(t1, obj), Intersection::build(t2, obj)];
        proof {
            assert(r@ =~= seq![(Intersection { t: t1, obj }), (Intersection { t: t2, obj })]);
        }
        r
    }
}

} // verus!
