//! Replacing one bound of an interval.
use vstd::prelude::*;

use super::Rebound;
use crate::bound::{FiniteBound, SetBounds, Side};
use crate::empty::MaybeEmpty;
use crate::factory::{SatisfyFiniteInterval, TryHalfBoundedFactory};
use crate::numeric::Element;
use crate::sets::{range_set, EnumInterval, FiniteInterval};

verus! {

/// The least element admitted by an optional left bound; an absent bound
/// admits everything from `T`'s least value.
pub open spec fn left_edge<T: Element>(b: Option<FiniteBound<T>>) -> int {
    match b {
        Some(x) => x.inner_edge(Side::Left),
        None => T::min_int(),
    }
}

/// The greatest element admitted by an optional right bound; an absent
/// bound admits everything up to `T`'s greatest value.
pub open spec fn right_edge<T: Element>(b: Option<FiniteBound<T>>) -> int {
    match b {
        Some(x) => x.inner_edge(Side::Right),
        None => T::max_int(),
    }
}

/// Whether `r` has the shape that a pair of optional bounds gives: finite
/// for two bounds, half-bounded on the bounded side (or empty) for one,
/// unbounded for none.
pub open spec fn shape_of<T: Element>(
    r: EnumInterval<T>,
    left_bounded: bool,
    right_bounded: bool,
) -> bool {
    if left_bounded && right_bounded {
        r is Finite
    } else if left_bounded {
        (r is Finite && r.is_empty_spec()) || (r matches EnumInterval::Half(h) && h.side_spec()
            == Side::Left)
    } else if right_bounded {
        (r is Finite && r.is_empty_spec()) || (r matches EnumInterval::Half(h) && h.side_spec()
            == Side::Right)
    } else {
        r is Unbounded
    }
}

/// The interval of the elements admitted by both optional bounds; empty
/// when none is.
fn from_bounds<T: Element>(left: Option<FiniteBound<T>>, right: Option<FiniteBound<T>>) -> (r:
    EnumInterval<T>)
    ensures
        r.wf(),
        r@ == range_set(left_edge::<T>(left), right_edge::<T>(right)),
        shape_of(r, left is Some, right is Some),
{
    match (left, right) {
        (Some(l), Some(r)) => {
            let f = <FiniteInterval<T> as SatisfyFiniteInterval<T>>::satisfy_bounds(l, r);
            proof {
                use_type_invariant(&f);
            }
            EnumInterval::Finite(f)
        },
        (Some(l), None) => match <EnumInterval<T> as TryHalfBoundedFactory<T>>::try_half_bounded(
            Side::Left,
            l,
        ) {
            Ok(h) => {
                let _ = h.is_empty();
                h
            },
            Err(_) => {
                let e = EnumInterval::empty();
                proof {
                    T::lemma_as_int(l.limit());
                    assert(e@ =~= range_set(left_edge::<T>(left), right_edge::<T>(right)));
                }
                e
            },
        },
        (None, Some(r)) => match <EnumInterval<T> as TryHalfBoundedFactory<T>>::try_half_bounded(
            Side::Right,
            r,
        ) {
            Ok(h) => {
                let _ = h.is_empty();
                h
            },
            Err(_) => {
                let e = EnumInterval::empty();
                proof {
                    T::lemma_as_int(r.limit());
                    assert(e@ =~= range_set(left_edge::<T>(left), right_edge::<T>(right)));
                }
                e
            },
        },
        (None, None) => EnumInterval::Unbounded,
    }
}

impl<T: Element> Rebound<T> for EnumInterval<T> {
    /// The elements from the new left bound up to the old right end; the
    /// empty set stays empty, and a left bound past the right end gives
    /// the empty set.
    fn with_left(self, bound: Option<FiniteBound<T>>) -> (r: Self)
        ensures
            r.wf(),
            self.is_empty_spec() ==> r == self,
            !self.is_empty_spec() ==> r@ == range_set(left_edge::<T>(bound), self.hi()),
            !self.is_empty_spec() ==> shape_of(r, bound is Some, self.right_end() is Some),
    {
        if self.is_empty() {
            return self;
        }
        let right = match self.right() {
            Some(b) => Some(*b),
            None => None,
        };
        from_bounds(bound, right)
    }

    /// The elements from the old left end up to the new right bound; the
    /// empty set stays empty, and a right bound before the left end gives
    /// the empty set.
    fn with_right(self, bound: Option<FiniteBound<T>>) -> (r: Self)
        ensures
            r.wf(),
            self.is_empty_spec() ==> r == self,
            !self.is_empty_spec() ==> r@ == range_set(self.lo(), right_edge::<T>(bound)),
            !self.is_empty_spec() ==> shape_of(r, self.left_end() is Some, bound is Some),
    {
        if self.is_empty() {
            return self;
        }
        let left = match self.left() {
            Some(b) => Some(*b),
            None => None,
        };
        from_bounds(left, bound)
    }

    /// `with_left(Some(FiniteBound::closed(limit)))`.
    fn with_left_closed(self, limit: T) -> (r: Self)
        ensures
            r.wf(),
            self.is_empty_spec() ==> r == self,
            !self.is_empty_spec() ==> r@ == range_set(limit.as_int(), self.hi()),
            !self.is_empty_spec() ==> shape_of(r, true, self.right_end() is Some),
    {
        self.with_left(Some(FiniteBound::closed(limit)))
    }

    /// `with_right(Some(FiniteBound::closed(limit)))`.
    fn with_right_closed(self, limit: T) -> (r: Self)
        ensures
            r.wf(),
            self.is_empty_spec() ==> r == self,
            !self.is_empty_spec() ==> r@ == range_set(self.lo(), limit.as_int()),
            !self.is_empty_spec() ==> shape_of(r, self.left_end() is Some, true),
    {
        self.with_right(Some(FiniteBound::closed(limit)))
    }
}

} // verus!
