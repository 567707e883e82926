//! Set operations on intervals: containment, intersection, splitting,
//! rebounding, hulls, span, connectivity, merging and the total order.
use vstd::prelude::*;

use crate::bound::{FiniteBound, SetBounds, Side};
use crate::empty::MaybeEmpty;
use crate::measure::Extent;
use crate::numeric::Element;
use crate::sets::{range_set, EnumInterval, FiniteInterval, HalfInterval};

pub mod math;
pub mod intersect;
pub mod split;
pub mod rebound;
mod hull;
mod span;
mod order;

verus! {

/// Whether two intervals are both non-empty and their union is again an
/// interval (they overlap or are adjacent).
pub open spec fn connects_spec<T: Element>(a: EnumInterval<T>, b: EnumInterval<T>) -> bool {
    &&& !a.is_empty_spec()
    &&& !b.is_empty_spec()
    &&& a.lo() <= b.hi() + 1
    &&& b.lo() <= a.hi() + 1
}

/// The smaller of two optional ends, where `None` is unbounded below.
pub open spec fn min_end(a: Option<int>, b: Option<int>) -> Option<int> {
    match (a, b) {
        (Some(x), Some(y)) => Some(if x <= y { x } else { y }),
        _ => None,
    }
}

/// The greater of two optional ends, where `None` is unbounded above.
pub open spec fn max_end(a: Option<int>, b: Option<int>) -> Option<int> {
    match (a, b) {
        (Some(x), Some(y)) => Some(if x <= y { y } else { x }),
        _ => None,
    }
}

/// The position of a left end in the total order on bounds, relative to
/// `T`'s range: an unbounded end sits below every value.
pub open spec fn left_key<T: Element>(e: Option<int>) -> int {
    match e {
        Some(v) => v,
        None => T::min_int() - 1,
    }
}

/// The position of a right end in the total order on bounds: an unbounded
/// end sits above every value.
pub open spec fn right_key<T: Element>(e: Option<int>) -> int {
    match e {
        Some(v) => v,
        None => T::max_int() + 1,
    }
}

/// The total order on intervals: the empty set first, then by left end,
/// then by right end.
pub open spec fn interval_le<T: Element>(a: EnumInterval<T>, b: EnumInterval<T>) -> bool {
    if a.is_empty_spec() {
        true
    } else if b.is_empty_spec() {
        false
    } else if left_key::<T>(a.left_end()) != left_key::<T>(b.left_end()) {
        left_key::<T>(a.left_end()) < left_key::<T>(b.left_end())
    } else {
        right_key::<T>(a.right_end()) <= right_key::<T>(b.right_end())
    }
}

/// Strict version of [`interval_le`].
pub open spec fn interval_lt<T: Element>(a: EnumInterval<T>, b: EnumInterval<T>) -> bool {
    interval_le(a, b) && !interval_le(b, a)
}

/// Membership of an element, or containment of a whole set.
pub trait Contains<Rhs> {
    /// Test whether `rhs` is an element (or a subset) of `self`.
    fn contains(&self, rhs: &Rhs) -> bool;
}

/// Whether two sets share an element.
pub trait Intersects<Rhs = Self> {
    /// Test whether `self` and `rhs` have an element in common.
    fn intersects(&self, rhs: &Rhs) -> bool;
}

/// The set of elements held by both operands.
pub trait Intersection<Rhs = Self> {
    /// The type of the intersection.
    type Output;

    /// The elements held by both `self` and `rhs`.
    fn intersection(self, rhs: Rhs) -> Self::Output;
}

/// Cut a set in two at an element.
pub trait Split<T>: Sized {
    /// The pieces below and above `at`; `at` itself goes to the piece on
    /// the `closed` side.
    fn split(self, at: T, closed: Side) -> (Self, Self);
}

/// Replace one bound of an interval.
pub trait Rebound<T>: Sized {
    /// The same interval with its left bound replaced; `None` makes it
    /// unbounded on the left.
    fn with_left(self, bound: Option<FiniteBound<T>>) -> Self;

    /// The same interval with its right bound replaced; `None` makes it
    /// unbounded on the right.
    fn with_right(self, bound: Option<FiniteBound<T>>) -> Self;

    /// The same interval with a closed left bound at `limit`.
    fn with_left_closed(self, limit: T) -> Self;

    /// The same interval with a closed right bound at `limit`.
    fn with_right_closed(self, limit: T) -> Self;
}

/// The smallest interval holding every given element.
pub trait ConvexHull<T>: Sized {
    /// The hull of `items`, or `None` when there are none.
    fn try_hull(items: &[T]) -> Option<Self>;
}

/// The diameter `sup - inf` of a set, in the element type itself. Unlike a
/// measure it counts the distance between the extremes, not the elements.
pub trait Span {
    /// The type the diameter is expressed in.
    type Output;

    /// The error when the diameter does not fit `Output`.
    type Error;

    /// The distance between the least and greatest elements.
    fn span(&self) -> Result<Extent<Self::Output>, Self::Error>;
}

/// Whether two intervals touch or overlap, so that their union is an
/// interval.
pub trait Connects<Rhs = Self> {
    /// Test whether `self` and `rhs` are connected.
    fn connects(&self, rhs: &Rhs) -> bool;
}

/// Merge two intervals into one when their union is an interval.
pub trait MergeConnected<Rhs = Self>: Sized {
    /// The union of `self` and `rhs` when it is an interval, else `None`.
    fn merge_connected(self, rhs: Rhs) -> Option<Self>;
}

impl<T: Element> EnumInterval<T> {
    /// Every non-empty interval is the range between its least and greatest
    /// elements, within the representable range.
    pub proof fn lemma_range(self)
        requires
            self.wf(),
        ensures
            !self.is_empty_spec() ==> T::min_int() <= self.lo() <= self.hi() <= T::max_int(),
            !self.is_empty_spec() ==> self@ == range_set(self.lo(), self.hi()),
            self.is_empty_spec() ==> self@ == Set::<int>::empty(),
    {
        match self {
            EnumInterval::Finite(f) => {
                if let Some((l, r)) = f.bounds() {
                    T::lemma_as_int(l.limit());
                    T::lemma_as_int(r.limit());
                }
            },
            EnumInterval::Half(h) => {
                T::lemma_as_int(h.bound_spec().limit());
                T::lemma_range();
            },
            EnumInterval::Unbounded => {
                T::lemma_range();
            },
        }
    }

    /// `self <= rhs` in the total order on intervals.
    pub fn ord_le(&self, rhs: &Self) -> (r: bool)
        ensures
            r == interval_le(*self, *rhs),
    {
        if self.is_empty() {
            return true;
        }
        if rhs.is_empty() {
            return false;
        }
        proof {
            self.lemma_ends_in_range();
            rhs.lemma_ends_in_range();
        }
        match (self.lval(), rhs.lval()) {
            (None, Some(_)) => return true,
            (Some(_), None) => return false,
            (Some(a), Some(b)) => {
                if a.less_than(b) {
                    return true;
                }
                if b.less_than(a) {
                    return false;
                }
            },
            (None, None) => {},
        }
        match (self.rval(), rhs.rval()) {
            (_, None) => true,
            (None, Some(_)) => false,
            (Some(a), Some(b)) => a.less_or_equal(b),
        }
    }

    /// `self < rhs` in the total order on intervals.
    pub fn ord_lt(&self, rhs: &Self) -> (r: bool)
        ensures
            r == interval_lt(*self, *rhs),
    {
        self.ord_le(rhs) && !rhs.ord_le(self)
    }

    /// Finite ends lie within the representable range.
    pub proof fn lemma_ends_in_range(self)
        ensures
            self.left_end() matches Some(v) ==> T::min_int() <= v <= T::max_int(),
            self.right_end() matches Some(v) ==> T::min_int() <= v <= T::max_int(),
    {
        match self {
            EnumInterval::Finite(f) => {
                if let Some((l, r)) = f.bounds() {
                    T::lemma_as_int(l.limit());
                    T::lemma_as_int(r.limit());
                }
            },
            EnumInterval::Half(h) => {
                T::lemma_as_int(h.bound_spec().limit());
            },
            EnumInterval::Unbounded => {},
        }
    }
}

/// `a <= b + 1` for a left end `a` and a right end `b`, without overflow.
fn reaches<T: Element>(a: &T, b: &T) -> (r: bool)
    ensures
        r == (a.as_int() <= b.as_int() + 1),
{
    if a.less_or_equal(b) {
        true
    } else {
        match b.try_adjacent(Side::Right) {
            Some(n) => a.less_or_equal(&n),
            None => {
                proof {
                    T::lemma_as_int(*a);
                }
                false
            },
        }
    }
}

impl<T: Element> Connects for EnumInterval<T> {
    fn connects(&self, rhs: &Self) -> (r: bool)
        ensures
            r == connects_spec(*self, *rhs),
    {
        if self.is_empty() || rhs.is_empty() {
            return false;
        }
        proof {
            self.lemma_ends_in_range();
            rhs.lemma_ends_in_range();
            self.lemma_range();
            rhs.lemma_range();
            T::lemma_range();
        }
        let forward = match (self.lval(), rhs.rval()) {
            (Some(a), Some(b)) => reaches(a, b),
            _ => true,
        };
        let backward = match (rhs.lval(), self.rval()) {
            (Some(a), Some(b)) => reaches(a, b),
            _ => true,
        };
        forward && backward
    }
}

/// Builds the interval with the given optional closed ends.
pub(crate) fn from_ends<T: Element>(left: Option<T>, right: Option<T>) -> (r: EnumInterval<T>)
    requires
        left is Some && right is Some ==> left.unwrap().as_int() <= right.unwrap().as_int(),
    ensures
        r.wf(),
        !r.is_empty_spec(),
        r.left_end() == (match left {
            Some(a) => Some(a.as_int()),
            None => None::<int>,
        }),
        r.right_end() == (match right {
            Some(b) => Some(b.as_int()),
            None => None::<int>,
        }),
{
    match (left, right) {
        (Some(a), Some(b)) => EnumInterval::Finite(
            FiniteInterval::new_assume_valid(FiniteBound::closed(a), FiniteBound::closed(b)),
        ),
        (Some(a), None) => EnumInterval::Half(
            HalfInterval::new_assume_valid(Side::Left, FiniteBound::closed(a)),
        ),
        (None, Some(b)) => EnumInterval::Half(
            HalfInterval::new_assume_valid(Side::Right, FiniteBound::closed(b)),
        ),
        (None, None) => EnumInterval::Unbounded,
    }
}

impl<T: Element> EnumInterval<T> {
    /// The smallest interval holding both non-empty inputs.
    pub fn hull_pair(&self, rhs: &Self) -> (r: Self)
        requires
            !self.is_empty_spec(),
            !rhs.is_empty_spec(),
        ensures
            r.wf(),
            !r.is_empty_spec(),
            r.left_end() == min_end(self.left_end(), rhs.left_end()),
            r.right_end() == max_end(self.right_end(), rhs.right_end()),
    {
        proof {
            self.lemma_ends_in_range();
            rhs.lemma_ends_in_range();
        }
        let left: Option<T> = match (self.lval(), rhs.lval()) {
            (Some(a), Some(b)) => if a.less_or_equal(b) {
                Some(*a)
            } else {
                Some(*b)
            },
            _ => None,
        };
        let right: Option<T> = match (self.rval(), rhs.rval()) {
            (Some(a), Some(b)) => if a.less_or_equal(b) {
                Some(*b)
            } else {
                Some(*a)
            },
            _ => None,
        };
        proof {
            self.lemma_range();
            rhs.lemma_range();
            if let (Some(a), Some(b)) = (left, right) {
                assert(a.as_int() <= self.lo() || a.as_int() <= rhs.lo());
                assert(a.as_int() <= self.hi());
                assert(a.as_int() <= b.as_int());
            }
        }
        from_ends(left, right)
    }
}

impl<T: Element> MergeConnected for EnumInterval<T> {
    fn merge_connected(self, rhs: Self) -> (r: Option<Self>)
        ensures
            r is Some <==> (self.is_empty_spec() || rhs.is_empty_spec() || connects_spec(
                self,
                rhs,
            )),
            r matches Some(m) ==> m@ == self@.union(rhs@),
            r matches Some(m) ==> m.wf() && (m.is_empty_spec() <==> (self.is_empty_spec()
                && rhs.is_empty_spec())),
            self.is_empty_spec() ==> r == Some(rhs),
            rhs.is_empty_spec() && !self.is_empty_spec() ==> r == Some(self),
            !self.is_empty_spec() && !rhs.is_empty_spec() && r is Some ==> r->0.left_end()
                == min_end(self.left_end(), rhs.left_end()) && r->0.right_end() == max_end(
                self.right_end(),
                rhs.right_end(),
            ),
    {
        let self_empty = self.is_empty();
        let rhs_empty = rhs.is_empty();
        if self_empty {
            proof {
                self.lemma_range();
                assert(rhs@ =~= self@.union(rhs@));
            }
            return Some(rhs);
        }
        if rhs_empty {
            proof {
                rhs.lemma_range();
                assert(self@ =~= self@.union(rhs@));
            }
            return Some(self);
        }
        if self.connects(&rhs) {
            let m = self.hull_pair(&rhs);
            proof {
                self.lemma_range();
                rhs.lemma_range();
                m.lemma_range();
                assert(m@ =~= self@.union(rhs@));
            }
            Some(m)
        } else {
            None
        }
    }
}

/// Two non-empty intervals that do not connect leave a gap: an element
/// strictly between them that neither holds, so their union is not an
/// interval. Together with [`MergeConnected`] this makes `connects` exactly
/// the test for the union being an interval.
pub proof fn lemma_disconnected_gap<T: Element>(a: EnumInterval<T>, b: EnumInterval<T>)
    requires
        a.wf(),
        b.wf(),
        !a.is_empty_spec(),
        !b.is_empty_spec(),
        !connects_spec(a, b),
    ensures
        exists|x: int|
            #![trigger a@.contains(x), b@.contains(x)]
            T::min_int() <= x <= T::max_int() && !a@.contains(x) && !b@.contains(x) && ((a.hi()
                < x < b.lo()) || (b.hi() < x < a.lo())),
{
    a.lemma_range();
    b.lemma_range();
    if a.hi() + 1 < b.lo() {
        let x = a.hi() + 1;
        assert(!a@.contains(x) && !b@.contains(x));
    } else {
        let x = b.hi() + 1;
        assert(!a@.contains(x) && !b@.contains(x));
    }
}

/// The order on intervals is a total order.
pub proof fn lemma_interval_order_total<T: Element>(
    a: EnumInterval<T>,
    b: EnumInterval<T>,
    c: EnumInterval<T>,
)
    ensures
        interval_le(a, a),
        interval_le(a, b) || interval_le(b, a),
        interval_le(a, b) && interval_le(b, c) ==> interval_le(a, c),
{
}

/// Two intervals that each sort no later than the other are the same
/// value, so the order on intervals is antisymmetric and agrees with `==`.
pub proof fn lemma_interval_order_antisymmetric<T: Element>(a: EnumInterval<T>, b: EnumInterval<T>)
    requires
        a.wf(),
        b.wf(),
        interval_le(a, b),
        interval_le(b, a),
    ensures
        a == b,
{
    a.lemma_ends_in_range();
    b.lemma_ends_in_range();
    a.lemma_range();
    b.lemma_range();
    if a.is_empty_spec() {
        match (a, b) {
            (EnumInterval::Finite(x), EnumInterval::Finite(y)) => {
                FiniteInterval::lemma_view_determines(x, y);
            },
            _ => {},
        }
    } else {
        assert(a.left_end() == b.left_end());
        assert(a.right_end() == b.right_end());
        assert(a@ =~= b@);
        EnumInterval::lemma_view_determines(a, b);
    }
}

/// Of two ordered, non-empty intervals that do not connect, the first lies
/// entirely before the second with a gap between them.
pub proof fn lemma_ordered_disjoint<T: Element>(a: EnumInterval<T>, b: EnumInterval<T>)
    requires
        a.wf(),
        b.wf(),
        !a.is_empty_spec(),
        !b.is_empty_spec(),
        interval_le(a, b),
        !connects_spec(a, b),
    ensures
        a.hi() + 1 < b.lo(),
        a@.disjoint(b@),
{
    a.lemma_range();
    b.lemma_range();
    a.lemma_ends_in_range();
    b.lemma_ends_in_range();
}

} // verus!
