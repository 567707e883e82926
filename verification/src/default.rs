//! Default values: the empty set. A half interval has no reasonable
//! default.
use vstd::prelude::*;

use crate::numeric::Element;
use crate::sets::{EnumInterval, FiniteInterval};

verus! {

impl<T: Element> Default for FiniteInterval<T> {
    fn default() -> (r: Self)
        ensures
            r.is_empty_spec(),
            r@ == Set::<int>::empty(),
    {
        FiniteInterval::empty()
    }
}

impl<T: Element> Default for EnumInterval<T> {
    fn default() -> (r: Self)
        ensures
            r.is_empty_spec(),
            r@ == Set::<int>::empty(),
    {
        EnumInterval::empty()
    }
}

} // verus!
