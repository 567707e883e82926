//! Intersection, overlap and containment between intervals.
use vstd::prelude::*;

use super::{from_ends, left_key, right_key, Contains, Intersection, Intersects};
use crate::bound::SetBounds;
use crate::empty::MaybeEmpty;
use crate::numeric::Element;
use crate::sets::{EnumInterval, FiniteInterval};

verus! {

/// The greater of two left ends, where `None` is unbounded below.
pub open spec fn max_left(a: Option<int>, b: Option<int>) -> Option<int> {
    match (a, b) {
        (Some(x), Some(y)) => Some(if x <= y { y } else { x }),
        (Some(x), None) => Some(x),
        (None, Some(y)) => Some(y),
        (None, None) => None,
    }
}

/// The smaller of two right ends, where `None` is unbounded above.
pub open spec fn min_right(a: Option<int>, b: Option<int>) -> Option<int> {
    match (a, b) {
        (Some(x), Some(y)) => Some(if x <= y { x } else { y }),
        (Some(x), None) => Some(x),
        (None, Some(y)) => Some(y),
        (None, None) => None,
    }
}

/// The greater of two optional values.
fn greater<T: Element>(a: Option<&T>, b: Option<&T>) -> (r: Option<T>)
    ensures
        (match r {
            Some(v) => Some(v.as_int()),
            None => None::<int>,
        }) == max_left(
            match a {
                Some(x) => Some(x.as_int()),
                None => None::<int>,
            },
            match b {
                Some(y) => Some(y.as_int()),
                None => None::<int>,
            },
        ),
{
    match (a, b) {
        (Some(x), Some(y)) => if x.less_or_equal(y) {
            Some(*y)
        } else {
            Some(*x)
        },
        (Some(x), None) => Some(*x),
        (None, Some(y)) => Some(*y),
        (None, None) => None,
    }
}

/// The smaller of two optional values.
fn lesser<T: Element>(a: Option<&T>, b: Option<&T>) -> (r: Option<T>)
    ensures
        (match r {
            Some(v) => Some(v.as_int()),
            None => None::<int>,
        }) == min_right(
            match a {
                Some(x) => Some(x.as_int()),
                None => None::<int>,
            },
            match b {
                Some(y) => Some(y.as_int()),
                None => None::<int>,
            },
        ),
{
    match (a, b) {
        (Some(x), Some(y)) => if x.less_or_equal(y) {
            Some(*x)
        } else {
            Some(*y)
        },
        (Some(x), None) => Some(*x),
        (None, Some(y)) => Some(*y),
        (None, None) => None,
    }
}

impl<T: Element> Intersection for EnumInterval<T> {
    type Output = Self;

    /// The interval of the elements held by both; empty when they share
    /// none.
    fn intersection(self, rhs: Self) -> (r: Self)
        ensures
            r.wf(),
            r@ == self@.intersect(rhs@),
            !r.is_empty_spec() ==> r.left_end() == max_left(self.left_end(), rhs.left_end())
                && r.right_end() == min_right(self.right_end(), rhs.right_end()),
    {
        let self_empty = self.is_empty();
        let rhs_empty = rhs.is_empty();
        proof {
            self.lemma_range();
            rhs.lemma_range();
        }
        if self_empty || rhs_empty {
            let e = EnumInterval::empty();
            proof {
                assert(e@ =~= self@.intersect(rhs@));
            }
            return e;
        }
        proof {
            self.lemma_ends_in_range();
            rhs.lemma_ends_in_range();
        }
        let left = greater(self.lval(), rhs.lval());
        let right = lesser(self.rval(), rhs.rval());
        let crossed = match (&left, &right) {
            (Some(l), Some(r)) => r.less_than(l),
            _ => false,
        };
        if crossed {
            let e = EnumInterval::empty();
            proof {
                assert(e@ =~= self@.intersect(rhs@));
            }
            return e;
        }
        let r = from_ends(left, right);
        proof {
            r.lemma_range();
            assert(r@ =~= self@.intersect(rhs@));
        }
        r
    }
}

impl<T: Element> Intersection for FiniteInterval<T> {
    type Output = Self;

    /// The finite interval of the elements held by both; empty when they
    /// share none.
    fn intersection(self, rhs: Self) -> (r: Self)
        ensures
            r@ == self@.intersect(rhs@),
    {
        let a = EnumInterval::Finite(self);
        let b = EnumInterval::Finite(rhs);
        let i = a.intersection(b);
        proof {
            use_type_invariant(&self);
            use_type_invariant(&rhs);
            if !i.is_empty_spec() {
                i.lemma_range();
                a.lemma_range();
                b.lemma_range();
                assert(i@.contains(i.lo()));
                assert(a.left_end() is Some && b.left_end() is Some);
                assert(a.right_end() is Some && b.right_end() is Some);
                assert(i.left_end() is Some && i.right_end() is Some);
            }
        }
        match i {
            EnumInterval::Finite(f) => f,
            _ => {
                proof {
                    assert(false);
                }
                FiniteInterval::empty()
            },
        }
    }
}

impl<T: Element> Intersects for EnumInterval<T> {
    /// True exactly when some element lies in both intervals.
    fn intersects(&self, rhs: &Self) -> (r: bool)
        ensures
            r == !self@.disjoint(rhs@),
    {
        let i = self.intersection(*rhs);
        let empty = i.is_empty();
        proof {
            if !empty {
                i.lemma_range();
                assert(i@.contains(i.lo()));
            } else {
                assert forall|x: int| !(self@.contains(x) && rhs@.contains(x)) by {
                    assert(!i@.contains(x));
                }
            }
        }
        !empty
    }
}

impl<T: Element> Contains<EnumInterval<T>> for EnumInterval<T> {
    /// True when `rhs` is empty, or when `self` is not empty and each of
    /// its bounds reaches at least as far as the matching bound of `rhs`
    /// (an unbounded end reaches past every value). Every element of `rhs`
    /// is then an element of `self`.
    fn contains(&self, rhs: &EnumInterval<T>) -> (r: bool)
        ensures
            r == (rhs.is_empty_spec() || (!self.is_empty_spec() && left_key::<T>(self.left_end())
                <= left_key::<T>(rhs.left_end()) && right_key::<T>(rhs.right_end())
                <= right_key::<T>(self.right_end()))),
            r ==> rhs@.subset_of(self@),
            !rhs.is_empty_spec() && rhs@.subset_of(self@) && T::min_int() < self.lo()
                && self.hi() < T::max_int() ==> r,
    {
        let rhs_empty = rhs.is_empty();
        let self_empty = self.is_empty();
        proof {
            self.lemma_range();
            rhs.lemma_range();
        }
        if rhs_empty {
            return true;
        }
        if self_empty {
            proof {
                assert(rhs@.contains(rhs.lo()));
            }
            return false;
        }
        proof {
            self.lemma_ends_in_range();
            rhs.lemma_ends_in_range();
        }
        let left_ok = match (self.lval(), rhs.lval()) {
            (None, _) => true,
            (Some(_), None) => false,
            (Some(a), Some(b)) => a.less_or_equal(b),
        };
        let right_ok = match (self.rval(), rhs.rval()) {
            (None, _) => true,
            (Some(_), None) => false,
            (Some(a), Some(b)) => b.less_or_equal(a),
        };
        proof {
            T::lemma_range();
            if left_ok && right_ok {
                assert(self.lo() <= rhs.lo());
                assert(rhs.hi() <= self.hi());
                assert(rhs@.subset_of(self@));
            }
            if rhs@.subset_of(self@) && T::min_int() < self.lo() && self.hi() < T::max_int() {
                assert(rhs@.contains(rhs.lo()));
                assert(rhs@.contains(rhs.hi()));
            }
        }
        left_ok && right_ok
    }
}

} // verus!
