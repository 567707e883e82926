//! Splitting an interval at an element.
use vstd::prelude::*;

use super::intersect::{max_left, min_right};
use super::{Intersection, Split};
use crate::bound::{FiniteBound, Side};
use crate::empty::MaybeEmpty;
use crate::factory::TryHalfBoundedFactory;
use crate::numeric::Element;
use crate::sets::EnumInterval;

verus! {

/// The elements that go to the lower piece when splitting at `at`: up to
/// and including `at` when `closed` is `Left`, strictly below it otherwise.
pub open spec fn below_split(at: int, closed: Side) -> Set<int> {
    match closed {
        Side::Left => Set::new(|x: int| x <= at),
        Side::Right => Set::new(|x: int| x < at),
    }
}

/// The greatest value that goes to the lower piece: `at` itself when
/// `closed` is `Left`, the value below it otherwise.
pub open spec fn last_below(at: int, closed: Side) -> int {
    match closed {
        Side::Left => at,
        Side::Right => at - 1,
    }
}

impl<T: Element> Split<T> for EnumInterval<T> {
    /// The elements of `self` below the cut, then those above it.
    fn split(self, at: T, closed: Side) -> (r: (Self, Self))
        ensures
            r.0.wf(),
            r.1.wf(),
            r.0@ == self@.intersect(below_split(at.as_int(), closed)),
            r.1@ == self@.difference(below_split(at.as_int(), closed)),
            !r.0.is_empty_spec() ==> r.0.left_end() == self.left_end() && r.0.right_end()
                == min_right(self.right_end(), Some(last_below(at.as_int(), closed))),
            !r.1.is_empty_spec() ==> r.1.left_end() == max_left(
                self.left_end(),
                Some(last_below(at.as_int(), closed) + 1),
            ) && r.1.right_end() == self.right_end(),
    {
        if self.is_empty() {
            proof {
                self.lemma_range();
                assert(self@.intersect(below_split(at.as_int(), closed)) =~= self@);
                assert(self@.difference(below_split(at.as_int(), closed)) =~= self@);
            }
            return (self, self);
        }
        proof {
            T::lemma_as_int(at);
            T::lemma_range();
            self.lemma_range();
        }
        let (upper_end, lower_start) = match closed {
            Side::Left => (FiniteBound::closed(at), FiniteBound::open(at)),
            Side::Right => (FiniteBound::open(at), FiniteBound::closed(at)),
        };
        let ghost cut = below_split(at.as_int(), closed);
        let lower = match <EnumInterval<T> as TryHalfBoundedFactory<T>>::try_half_bounded(
            Side::Right,
            upper_end,
        ) {
            Ok(h) => {
                let l = self.intersection(h);
                proof {
                    h.lemma_range();
                    assert(h@.contains(h.hi()));
                    crate::sets::lemma_range_set_ends(
                        h.lo(),
                        h.hi(),
                        T::min_int(),
                        last_below(at.as_int(), closed),
                    );
                    assert(h@.intersect(self@) =~= self@.intersect(cut));
                    assert(l@ =~= self@.intersect(cut));
                }
                l
            },
            Err(_) => {
                let e = EnumInterval::empty();
                proof {
                    assert(e@ =~= self@.intersect(cut));
                }
                e
            },
        };
        let upper = match <EnumInterval<T> as TryHalfBoundedFactory<T>>::try_half_bounded(
            Side::Left,
            lower_start,
        ) {
            Ok(h) => {
                let u = self.intersection(h);
                proof {
                    h.lemma_range();
                    assert(h@.contains(h.lo()));
                    crate::sets::lemma_range_set_ends(
                        h.lo(),
                        h.hi(),
                        last_below(at.as_int(), closed) + 1,
                        T::max_int(),
                    );
                    assert(u@ =~= self@.difference(cut));
                }
                u
            },
            Err(_) => {
                let e = EnumInterval::empty();
                proof {
                    assert(e@ =~= self@.difference(cut));
                }
                e
            },
        };
        (lower, upper)
    }
}

} // verus!
