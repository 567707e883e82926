//! The convex hull of a collection of elements.
use vstd::prelude::*;

use super::ConvexHull;
use crate::bound::FiniteBound;
use crate::numeric::Element;
use crate::sets::{EnumInterval, FiniteInterval};

verus! {

impl<T: Element> ConvexHull<T> for EnumInterval<T> {
    /// `[min, max]` of the items, or `None` for no items.
    fn try_hull(items: &[T]) -> (r: Option<Self>)
        ensures
            r is None <==> items@.len() == 0,
            r matches Some(h) ==> {
                &&& h is Finite
                &&& h.wf()
                &&& !h.is_empty_spec()
                &&& forall|i: int| 0 <= i < items@.len() ==> h@.contains(#[trigger] items@[i].as_int())
                &&& exists|i: int| 0 <= i < items@.len() && #[trigger] items@[i].as_int() == h.lo()
                &&& exists|i: int| 0 <= i < items@.len() && #[trigger] items@[i].as_int() == h.hi()
            },
    {
        if items.len() == 0 {
            return None;
        }
        let mut lo = items[0];
        let mut hi = items[0];
        let mut lo_at: usize = 0;
        let mut hi_at: usize = 0;
        let mut k: usize = 1;
        while k < items.len()
            invariant
                1 <= k <= items@.len(),
                lo_at < k,
                hi_at < k,
                lo == items@[lo_at as int],
                hi == items@[hi_at as int],
                forall|i: int| 0 <= i < k ==> lo.as_int() <= #[trigger] items@[i].as_int() <= hi.as_int(),
            decreases items@.len() - k,
        {
            let x = items[k];
            if x.less_than(&lo) {
                lo = x;
                lo_at = k;
            }
            if hi.less_than(&x) {
                hi = x;
                hi_at = k;
            }
            k = k + 1;
        }
        let f = FiniteInterval::new_assume_valid(FiniteBound::closed(lo), FiniteBound::closed(hi));
        let h = EnumInterval::Finite(f);
        proof {
            use_type_invariant(&f);
            assert(items@[lo_at as int].as_int() == h.lo());
            assert(items@[hi_at as int].as_int() == h.hi());
        }
        Some(h)
    }
}

} // verus!
