//! Results of set operations that may split into two disjoint intervals.
use vstd::prelude::*;

use crate::empty::MaybeEmpty;
use crate::numeric::Element;
use crate::ops::{
    connects_spec, interval_le, interval_lt, lemma_ordered_disjoint, Connects, MergeConnected,
};
use crate::sets::{EnumInterval, FiniteInterval, HalfInterval};

verus! {

/// Zero, one or two intervals: the empty set, a single non-empty interval,
/// or two non-empty, ordered intervals with a gap between them.
#[derive(Debug, Copy, Clone, PartialEq, Eq, Hash)]
pub enum MaybeDisjoint<T: Element> {
    /// No elements.
    Consumed,
    /// One non-empty interval.
    Connected(EnumInterval<T>),
    /// Two intervals, the first before the second, that do not connect.
    Disjoint(EnumInterval<T>, EnumInterval<T>),
}

/// Whether `(a, b)` may stand in a `Disjoint`: both non-empty, `a` ordered
/// before `b`, and not connected.
pub open spec fn disjoint_pair<T: Element>(a: EnumInterval<T>, b: EnumInterval<T>) -> bool {
    &&& a.wf()
    &&& b.wf()
    &&& !a.is_empty_spec()
    &&& !b.is_empty_spec()
    &&& interval_lt(a, b)
    &&& !connects_spec(a, b)
}

impl<T: Element> MaybeDisjoint<T> {
    /// The invariants of each shape.
    pub open spec fn valid(self) -> bool {
        match self {
            MaybeDisjoint::Consumed => true,
            MaybeDisjoint::Connected(i) => i.wf() && !i.is_empty_spec(),
            MaybeDisjoint::Disjoint(a, b) => disjoint_pair(a, b),
        }
    }

    /// The empty set.
    pub fn empty() -> (r: Self)
        ensures
            r == MaybeDisjoint::<T>::Consumed,
    {
        MaybeDisjoint::Consumed
    }

    /// The single interval this denotes (the empty interval for
    /// `Consumed`), or `None` for two disjoint intervals.
    pub fn into_interval(self) -> (r: Option<EnumInterval<T>>)
        ensures
            r is None <==> self is Disjoint,
            r matches Some(i) ==> i@ == self@,
            self matches MaybeDisjoint::Connected(i) ==> r == Some(i),
            self is Consumed ==> (r matches Some(i) && i.is_empty_spec()),
            self is Consumed ==> r == Some(
                EnumInterval::Finite(FiniteInterval::<T>::from_range(1, 0)),
            ),
    {
        match self {
            MaybeDisjoint::Consumed => Some(EnumInterval::empty()),
            MaybeDisjoint::Connected(interval) => Some(interval),
            MaybeDisjoint::Disjoint(_, _) => None,
        }
    }

    /// The single interval this denotes; requires it not to be two
    /// disjoint intervals.
    pub fn expect_interval(self) -> (r: EnumInterval<T>)
        requires
            !(self is Disjoint),
        ensures
            r@ == self@,
            self matches MaybeDisjoint::Connected(i) ==> r == i,
            self is Consumed ==> r.is_empty_spec(),
            self is Consumed ==> r == EnumInterval::Finite(FiniteInterval::<T>::from_range(1, 0)),
    {
        self.into_interval().expect("expected a single connected interval")
    }

    /// Takes the next interval, in order, leaving the rest.
    pub fn next(&mut self) -> (r: Option<EnumInterval<T>>)
        ensures
            match *old(self) {
                MaybeDisjoint::Consumed => r is None && *final(self) is Consumed,
                MaybeDisjoint::Connected(i) => r == Some(i) && *final(self) is Consumed,
                MaybeDisjoint::Disjoint(a, b) => r == Some(a) && *final(self)
                    == MaybeDisjoint::Connected(b),
            },
            old(self).valid() ==> final(self).valid(),
    {
        let inst = *self;
        match inst {
            MaybeDisjoint::Consumed => None,
            MaybeDisjoint::Connected(interval) => {
                *self = MaybeDisjoint::Consumed;
                Some(interval)
            },
            MaybeDisjoint::Disjoint(lhs, rhs) => {
                *self = MaybeDisjoint::Connected(rhs);
                Some(lhs)
            },
        }
    }

    /// A single interval: `Consumed` when empty, `Connected` otherwise.
    pub fn from_interval(interval: EnumInterval<T>) -> (r: Self)
        ensures
            r@ == interval@,
            r.valid(),
            interval.is_empty_spec() ==> r is Consumed,
            !interval.is_empty_spec() ==> r == MaybeDisjoint::Connected(interval),
    {
        if interval.is_empty() {
            MaybeDisjoint::Consumed
        } else {
            MaybeDisjoint::Connected(interval)
        }
    }

    /// The smallest interval holding every element: the empty set for
    /// `Consumed`, the interval itself for `Connected`, and the span from
    /// the first piece to the second for `Disjoint`.
    pub fn into_hull(self) -> (r: EnumInterval<T>)
        ensures
            self@.subset_of(r@),
            self is Consumed ==> r.is_empty_spec(),
            self matches MaybeDisjoint::Connected(i) ==> r == i,
            self matches MaybeDisjoint::Disjoint(a, b) ==> (!a.is_empty_spec()
                && !b.is_empty_spec() ==> r.left_end() == crate::ops::min_end(
                a.left_end(),
                b.left_end(),
            ) && r.right_end() == crate::ops::max_end(a.right_end(), b.right_end())),
    {
        match self {
            MaybeDisjoint::Consumed => EnumInterval::empty(),
            MaybeDisjoint::Connected(i) => i,
            MaybeDisjoint::Disjoint(a, b) => {
                let a_empty = a.is_empty();
                let b_empty = b.is_empty();
                proof {
                    a.lemma_range();
                    b.lemma_range();
                }
                if a_empty {
                    b
                } else if b_empty {
                    a
                } else {
                    let h = a.hull_pair(&b);
                    proof {
                        h.lemma_range();
                        assert(self@.subset_of(h@));
                    }
                    h
                }
            },
        }
    }

    /// Two intervals already known to satisfy the `Disjoint` invariants.
    pub fn new_disjoint_assume_valid(a: EnumInterval<T>, b: EnumInterval<T>) -> (r: Self)
        ensures
            r == MaybeDisjoint::Disjoint(a, b),
    {
        MaybeDisjoint::Disjoint(a, b)
    }

    /// The union of two arbitrary intervals in canonical form: empties are
    /// dropped, the pieces are put in order, and pieces that connect are
    /// merged.
    pub fn from_pair(a: EnumInterval<T>, b: EnumInterval<T>) -> (r: Self)
        ensures
            r@ == a@.union(b@),
            r.valid(),
            a.is_empty_spec() && b.is_empty_spec() ==> r is Consumed,
            a.is_empty_spec() && !b.is_empty_spec() ==> r == MaybeDisjoint::Connected(b),
            !a.is_empty_spec() && b.is_empty_spec() ==> r == MaybeDisjoint::Connected(a),
            !a.is_empty_spec() && !b.is_empty_spec() ==> (r is Connected <==> connects_spec(a, b)),
            !a.is_empty_spec() && !b.is_empty_spec() ==> (r matches MaybeDisjoint::Connected(m)
                ==> m.left_end() == crate::ops::min_end(a.left_end(), b.left_end())
                && m.right_end() == crate::ops::max_end(a.right_end(), b.right_end())),
            !a.is_empty_spec() && !b.is_empty_spec() ==> (r matches MaybeDisjoint::Disjoint(x, y)
                ==> (x == a && y == b) || (x == b && y == a)),
    {
        let a_empty = a.is_empty();
        let b_empty = b.is_empty();
        if a_empty && b_empty {
            proof {
                a.lemma_range();
                b.lemma_range();
                assert(a@.union(b@) =~= Set::<int>::empty());
            }
            return MaybeDisjoint::Consumed;
        }
        if a_empty {
            proof {
                a.lemma_range();
                assert(a@.union(b@) =~= b@);
            }
            return MaybeDisjoint::Connected(b);
        }
        if b_empty {
            proof {
                b.lemma_range();
                assert(a@.union(b@) =~= a@);
            }
            return MaybeDisjoint::Connected(a);
        }
        let (lo, hi) = if a.ord_le(&b) {
            (a, b)
        } else {
            (b, a)
        };
        proof {
            crate::ops::lemma_interval_order_total(a, b, b);
            assert(lo@.union(hi@) =~= a@.union(b@));
        }
        if lo.connects(&hi) {
            match lo.merge_connected(hi) {
                Some(merged) => MaybeDisjoint::Connected(merged),
                None => {
                    proof {
                        assert(false);
                    }
                    MaybeDisjoint::Consumed
                },
            }
        } else {
            proof {
                lemma_ordered_disjoint(lo, hi);
                lo.lemma_range();
                hi.lemma_range();
            }
            MaybeDisjoint::Disjoint(lo, hi)
        }
    }
}

impl<T: Element> View for MaybeDisjoint<T> {
    type V = Set<int>;

    open spec fn view(&self) -> Set<int> {
        match self {
            MaybeDisjoint::Consumed => Set::empty(),
            MaybeDisjoint::Connected(i) => i@,
            MaybeDisjoint::Disjoint(a, b) => a@.union(b@),
        }
    }
}

impl<T: Element> From<EnumInterval<T>> for MaybeDisjoint<T> {
    fn from(interval: EnumInterval<T>) -> (r: Self)
        ensures
            r@ == interval@,
            r.valid(),
            interval.is_empty_spec() ==> r is Consumed,
            !interval.is_empty_spec() ==> r == MaybeDisjoint::Connected(interval),
    {
        Self::from_interval(interval)
    }
}

impl<T: Element> vstd::std_specs::convert::FromSpecImpl<EnumInterval<T>> for MaybeDisjoint<T> {
    open spec fn obeys_from_spec() -> bool {
        true
    }

    open spec fn from_spec(v: EnumInterval<T>) -> Self {
        if v.is_empty_spec() {
            MaybeDisjoint::Consumed
        } else {
            MaybeDisjoint::Connected(v)
        }
    }
}

impl<T: Element> From<FiniteInterval<T>> for MaybeDisjoint<T> {
    fn from(value: FiniteInterval<T>) -> (r: Self)
        ensures
            r@ == value@,
            r.valid(),
            value.is_empty_spec() ==> r is Consumed,
            !value.is_empty_spec() ==> r == MaybeDisjoint::Connected(EnumInterval::Finite(value)),
    {
        Self::from_interval(EnumInterval::Finite(value))
    }
}

impl<T: Element> vstd::std_specs::convert::FromSpecImpl<FiniteInterval<T>> for MaybeDisjoint<T> {
    open spec fn obeys_from_spec() -> bool {
        true
    }

    open spec fn from_spec(v: FiniteInterval<T>) -> Self {
        if v.is_empty_spec() {
            MaybeDisjoint::Consumed
        } else {
            MaybeDisjoint::Connected(EnumInterval::Finite(v))
        }
    }
}

impl<T: Element> From<HalfInterval<T>> for MaybeDisjoint<T> {
    fn from(value: HalfInterval<T>) -> (r: Self)
        ensures
            r@ == value@,
            r.valid(),
            r == MaybeDisjoint::Connected(EnumInterval::Half(value)),
    {
        Self::from_interval(EnumInterval::Half(value))
    }
}

impl<T: Element> vstd::std_specs::convert::FromSpecImpl<HalfInterval<T>> for MaybeDisjoint<T> {
    open spec fn obeys_from_spec() -> bool {
        true
    }

    open spec fn from_spec(v: HalfInterval<T>) -> Self {
        MaybeDisjoint::Connected(EnumInterval::Half(v))
    }
}

impl<T: Element> From<(EnumInterval<T>, EnumInterval<T>)> for MaybeDisjoint<T> {
    /// Wraps a pair the caller asserts satisfies the `Disjoint` invariants.
    fn from(value: (EnumInterval<T>, EnumInterval<T>)) -> (r: Self)
        ensures
            r == MaybeDisjoint::Disjoint(value.0, value.1),
    {
        MaybeDisjoint::Disjoint(value.0, value.1)
    }
}

impl<T: Element> vstd::std_specs::convert::FromSpecImpl<(EnumInterval<T>, EnumInterval<T>)> for MaybeDisjoint<T> {
    open spec fn obeys_from_spec() -> bool {
        true
    }

    open spec fn from_spec(v: (EnumInterval<T>, EnumInterval<T>)) -> Self {
        MaybeDisjoint::Disjoint(v.0, v.1)
    }
}

/// Taking intervals out one at a time yields the pieces in order and ends
/// with `Consumed`, and the union of what is taken is the set denoted.
pub proof fn lemma_pieces_cover<T: Element>(m: MaybeDisjoint<T>)
    requires
        m.valid(),
    ensures
        m matches MaybeDisjoint::Disjoint(a, b) ==> a@.disjoint(b@) && a.hi() + 1 < b.lo(),
        m matches MaybeDisjoint::Connected(i) ==> m@ == i@ && m@ != Set::<int>::empty(),
{
    match m {
        MaybeDisjoint::Disjoint(a, b) => {
            lemma_ordered_disjoint(a, b);
        },
        MaybeDisjoint::Connected(i) => {
            i.lemma_range();
            assert(i@.contains(i.lo()));
        },
        MaybeDisjoint::Consumed => {},
    }
}

} // verus!
