//! Emptiness tests for every set type.
use vstd::prelude::*;

use crate::bound::ord::OrdBoundPair;
use crate::numeric::Element;
use crate::sets::{EnumInterval, FiniteInterval, HalfInterval};

verus! {

/// A set that may hold no element.
pub trait MaybeEmpty {
    /// Whether the set is empty.
    fn is_empty(&self) -> bool;
}

impl<T: Element> MaybeEmpty for FiniteInterval<T> {
    fn is_empty(&self) -> (r: bool)
        ensures
            r == self.is_empty_spec(),
            r == (self@ == Set::<int>::empty()),
    {
        match self.view_raw() {
            None => true,
            Some((l, _)) => {
                assert(self@.contains(l.lim()));
                false
            },
        }
    }
}

impl<T: Element> MaybeEmpty for HalfInterval<T> {
    fn is_empty(&self) -> (r: bool)
        ensures
            !r,
            self@ != Set::<int>::empty(),
    {
        let b = self.finite_bound();
        proof {
            T::lemma_as_int(b.limit());
            assert(self@.contains(b.lim()));
        }
        false
    }
}

impl<T: Element> MaybeEmpty for EnumInterval<T> {
    fn is_empty(&self) -> (r: bool)
        ensures
            self.wf(),
            r == self.is_empty_spec(),
            r == (self@ == Set::<int>::empty()),
    {
        match self {
            EnumInterval::Finite(inner) => {
                proof {
                    use_type_invariant(inner);
                }
                inner.is_empty()
            },
            EnumInterval::Half(inner) => {
                proof {
                    use_type_invariant(inner);
                }
                inner.is_empty()
            },
            EnumInterval::Unbounded => {
                proof {
                    T::lemma_range();
                    assert(self@.contains(0));
                }
                false
            },
        }
    }
}

impl<T> MaybeEmpty for OrdBoundPair<T> {
    fn is_empty(&self) -> (r: bool)
        ensures
            r == self.is_empty_spec(),
    {
        OrdBoundPair::is_empty(self)
    }
}

} // verus!
