//! Factory traits for constructing intervals.
//!
//! Every factory entry point is strict: bounds that admit no element are
//! rejected (`Err` on the fallible path, a precondition on the panicking
//! one). Crossed bounds collapse to the empty set only through the explicit
//! [`TrySatisfyFiniteInterval`] / [`SatisfyFiniteInterval`] family.
use vstd::prelude::*;

use crate::bound::{BoundType, FiniteBound, Side};
use crate::error::Error;
use crate::numeric::Element;
use crate::sets::{pair_nonempty, range_set, EnumInterval, FiniteInterval, HalfInterval};

verus! {

/// The elements of the `side`-half-line starting at `edge`, over the
/// representable range of `T`.
pub open spec fn half_set<T: Element>(side: Side, edge: int) -> Set<int> {
    match side {
        Side::Left => range_set(edge, T::max_int()),
        Side::Right => range_set(T::min_int(), edge),
    }
}

/// Whether the `side`-half-line of `bound` holds an element of `T`.
pub open spec fn half_nonempty<T: Element>(side: Side, bound: FiniteBound<T>) -> bool {
    T::min_int() <= bound.inner_edge(side) <= T::max_int()
}

/// Shared base of every factory trait: what the factories produce and the
/// error their fallible forms return.
pub trait Factory<T: Element> {
    /// The type that this factory produces; its view is its set of elements.
    type Output: View<V = Set<int>>;

    /// The error type of the fallible (`try_*`) factory functions.
    type Error: From<Error> + core::fmt::Debug;

    /// Whether `o` has the shape that the fully bounded constructors build.
    spec fn finite_shape(o: Self::Output) -> bool;

    /// Whether `o` has the shape that the constructors bounded on `side`
    /// build.
    spec fn half_shape(o: Self::Output, side: Side) -> bool;
}

/// Constructs the empty set.
pub trait EmptyFactory<T: Element>: Factory<T> {
    /// Returns a new empty set.
    fn empty() -> (r: Self::Output)
        ensures
            r@ == Set::<int>::empty(),
    ;
}

/// Fallible, strict finite-interval constructors: bounds that admit no
/// element are an error.
pub trait TryFiniteFactory<T: Element>: Factory<T> {
    /// Creates a new finite interval from a pair of bounds.
    fn try_fully_bounded(lhs: FiniteBound<T>, rhs: FiniteBound<T>) -> (r: Result<
        Self::Output,
        Self::Error,
    >)
        ensures
            r is Ok <==> pair_nonempty(lhs, rhs),
            r matches Ok(o) ==> o@ == range_set(
                lhs.inner_edge(Side::Left),
                rhs.inner_edge(Side::Right),
            ),
            r matches Ok(o) ==> Self::finite_shape(o),
    ;

    /// `[lhs, rhs]`.
    fn try_closed(lhs: T, rhs: T) -> (r: Result<Self::Output, Self::Error>)
        ensures
            r is Ok <==> lhs.as_int() <= rhs.as_int(),
            r matches Ok(o) ==> o@ == range_set(lhs.as_int(), rhs.as_int()),
            r matches Ok(o) ==> Self::finite_shape(o),
    {
        let l = match FiniteBound::try_closed(lhs) {
            Ok(b) => b,
            Err(e) => return Err(Self::Error::from(e)),
        };
        let r = match FiniteBound::try_closed(rhs) {
            Ok(b) => b,
            Err(e) => return Err(Self::Error::from(e)),
        };
        Self::try_fully_bounded(l, r)
    }

    /// `(lhs, rhs)`.
    fn try_open(lhs: T, rhs: T) -> (r: Result<Self::Output, Self::Error>)
        ensures
            r is Ok <==> lhs.as_int() + 1 <= rhs.as_int() - 1,
            r matches Ok(o) ==> o@ == range_set(lhs.as_int() + 1, rhs.as_int() - 1),
            r matches Ok(o) ==> Self::finite_shape(o),
    {
        let l = match FiniteBound::try_open(lhs) {
            Ok(b) => b,
            Err(e) => return Err(Self::Error::from(e)),
        };
        let r = match FiniteBound::try_open(rhs) {
            Ok(b) => b,
            Err(e) => return Err(Self::Error::from(e)),
        };
        Self::try_fully_bounded(l, r)
    }

    /// `(lhs, rhs]`.
    fn try_open_closed(lhs: T, rhs: T) -> (r: Result<Self::Output, Self::Error>)
        ensures
            r is Ok <==> lhs.as_int() + 1 <= rhs.as_int(),
            r matches Ok(o) ==> o@ == range_set(lhs.as_int() + 1, rhs.as_int()),
            r matches Ok(o) ==> Self::finite_shape(o),
    {
        let l = match FiniteBound::try_open(lhs) {
            Ok(b) => b,
            Err(e) => return Err(Self::Error::from(e)),
        };
        let r = match FiniteBound::try_closed(rhs) {
            Ok(b) => b,
            Err(e) => return Err(Self::Error::from(e)),
        };
        Self::try_fully_bounded(l, r)
    }

    /// `[lhs, rhs)`.
    fn try_closed_open(lhs: T, rhs: T) -> (r: Result<Self::Output, Self::Error>)
        ensures
            r is Ok <==> lhs.as_int() <= rhs.as_int() - 1,
            r matches Ok(o) ==> o@ == range_set(lhs.as_int(), rhs.as_int() - 1),
            r matches Ok(o) ==> Self::finite_shape(o),
    {
        let l = match FiniteBound::try_closed(lhs) {
            Ok(b) => b,
            Err(e) => return Err(Self::Error::from(e)),
        };
        let r = match FiniteBound::try_open(rhs) {
            Ok(b) => b,
            Err(e) => return Err(Self::Error::from(e)),
        };
        Self::try_fully_bounded(l, r)
    }

    /// `[value, value]`.
    fn try_singleton(value: T) -> (r: Result<Self::Output, Self::Error>)
        ensures
            r matches Ok(o) && o@ == range_set(value.as_int(), value.as_int()),
            r matches Ok(o) ==> Self::finite_shape(o),
    {
        Self::try_closed(value, value)
    }
}

/// Panicking sibling of [`TryFiniteFactory`], implemented for every
/// `TryFiniteFactory`; each constructor requires bounds that admit an
/// element.
pub trait FiniteFactory<T: Element>: TryFiniteFactory<T> {
    /// Creates a new finite interval from a pair of bounds.
    fn fully_bounded(lhs: FiniteBound<T>, rhs: FiniteBound<T>) -> (r: Self::Output)
        requires
            pair_nonempty(lhs, rhs),
        ensures
            r@ == range_set(lhs.inner_edge(Side::Left), rhs.inner_edge(Side::Right)),
            Self::finite_shape(r),
    ;

    /// `[left, right] = { x | left <= x <= right }`.
    fn closed(left: T, right: T) -> (r: Self::Output)
        requires
            left.as_int() <= right.as_int(),
        ensures
            r@ == range_set(left.as_int(), right.as_int()),
            Self::finite_shape(r),
    ;

    /// `(left, right) = { x | left < x < right }`, normalized to closed form.
    fn open(left: T, right: T) -> (r: Self::Output)
        requires
            left.as_int() + 1 <= right.as_int() - 1,
        ensures
            r@ == range_set(left.as_int() + 1, right.as_int() - 1),
            Self::finite_shape(r),
    ;

    /// `(left, right] = { x | left < x <= right }`.
    fn open_closed(left: T, right: T) -> (r: Self::Output)
        requires
            left.as_int() + 1 <= right.as_int(),
        ensures
            r@ == range_set(left.as_int() + 1, right.as_int()),
            Self::finite_shape(r),
    ;

    /// `[left, right) = { x | left <= x < right }`.
    fn closed_open(left: T, right: T) -> (r: Self::Output)
        requires
            left.as_int() <= right.as_int() - 1,
        ensures
            r@ == range_set(left.as_int(), right.as_int() - 1),
            Self::finite_shape(r),
    ;

    /// `[value, value] = { value }`.
    fn singleton(value: T) -> (r: Self::Output)
        ensures
            r@ == range_set(value.as_int(), value.as_int()),
            Self::finite_shape(r),
    ;
}

impl<T: Element, F: TryFiniteFactory<T>> FiniteFactory<T> for F {
    fn fully_bounded(lhs: FiniteBound<T>, rhs: FiniteBound<T>) -> (r: Self::Output) {
        Self::try_fully_bounded(lhs, rhs).unwrap()
    }

    fn closed(left: T, right: T) -> (r: Self::Output) {
        Self::try_closed(left, right).unwrap()
    }

    fn open(left: T, right: T) -> (r: Self::Output) {
        Self::try_open(left, right).unwrap()
    }

    fn open_closed(left: T, right: T) -> (r: Self::Output) {
        Self::try_open_closed(left, right).unwrap()
    }

    fn closed_open(left: T, right: T) -> (r: Self::Output) {
        Self::try_closed_open(left, right).unwrap()
    }

    fn singleton(value: T) -> (r: Self::Output) {
        Self::try_singleton(value).unwrap()
    }
}

/// Coercive bound-pair construction: the set satisfying both bounds,
/// empty when no element does.
pub trait TrySatisfyFiniteInterval<T: Element>: Factory<T> {
    /// Builds the finite interval whose elements satisfy both bounds;
    /// crossed bounds give the empty set. Never fails on integer bounds.
    fn try_satisfy_bounds(lhs: FiniteBound<T>, rhs: FiniteBound<T>) -> (r: Result<
        Self::Output,
        Self::Error,
    >)
        ensures
            r matches Ok(o) && o@ == range_set(
                lhs.inner_edge(Side::Left),
                rhs.inner_edge(Side::Right),
            ),
            r matches Ok(o) ==> Self::finite_shape(o),
    ;
}

/// Panicking sibling of [`TrySatisfyFiniteInterval`], implemented for every
/// `TrySatisfyFiniteInterval`.
pub trait SatisfyFiniteInterval<T: Element>: TrySatisfyFiniteInterval<T> {
    /// Builds the finite interval whose elements satisfy both bounds, or the
    /// empty set if none does.
    fn satisfy_bounds(lhs: FiniteBound<T>, rhs: FiniteBound<T>) -> (r: Self::Output)
        ensures
            r@ == range_set(lhs.inner_edge(Side::Left), rhs.inner_edge(Side::Right)),
            Self::finite_shape(r),
    ;
}

impl<T: Element, F: TrySatisfyFiniteInterval<T>> SatisfyFiniteInterval<T> for F {
    fn satisfy_bounds(lhs: FiniteBound<T>, rhs: FiniteBound<T>) -> (r: Self::Output) {
        Self::try_satisfy_bounds(lhs, rhs).unwrap()
    }
}

/// Fallible half-bounded constructors: a half-line that holds no element is
/// an error.
pub trait TryHalfBoundedFactory<T: Element>: Factory<T> {
    /// Creates a new half-bounded interval holding the `side` of `bound`.
    fn try_half_bounded(side: Side, bound: FiniteBound<T>) -> (r: Result<
        Self::Output,
        Self::Error,
    >)
        ensures
            r is Ok <==> half_nonempty(side, bound),
            r matches Ok(o) ==> o@ == half_set::<T>(side, bound.inner_edge(side)),
            r matches Ok(o) ==> Self::half_shape(o, side),
    ;

    /// Left-bounded helper.
    fn try_left_bounded(bound: FiniteBound<T>) -> (r: Result<Self::Output, Self::Error>)
        ensures
            r is Ok <==> half_nonempty(Side::Left, bound),
            r matches Ok(o) ==> o@ == half_set::<T>(Side::Left, bound.inner_edge(Side::Left)),
            r matches Ok(o) ==> Self::half_shape(o, Side::Left),
    {
        Self::try_half_bounded(Side::Left, bound)
    }

    /// Right-bounded helper.
    fn try_right_bounded(bound: FiniteBound<T>) -> (r: Result<Self::Output, Self::Error>)
        ensures
            r is Ok <==> half_nonempty(Side::Right, bound),
            r matches Ok(o) ==> o@ == half_set::<T>(Side::Right, bound.inner_edge(Side::Right)),
            r matches Ok(o) ==> Self::half_shape(o, Side::Right),
    {
        Self::try_half_bounded(Side::Right, bound)
    }

    /// `(lhs, ->)`.
    fn try_open_unbound(lhs: T) -> (r: Result<Self::Output, Self::Error>)
        ensures
            r is Ok <==> lhs.as_int() < T::max_int(),
            r matches Ok(o) ==> o@ == half_set::<T>(Side::Left, lhs.as_int() + 1),
            r matches Ok(o) ==> Self::half_shape(o, Side::Left),
    {
        proof {
            T::lemma_as_int(lhs);
        }
        let b = match FiniteBound::try_open(lhs) {
            Ok(b) => b,
            Err(e) => return Err(Self::Error::from(e)),
        };
        Self::try_left_bounded(b)
    }

    /// `[lhs, ->)`.
    fn try_closed_unbound(lhs: T) -> (r: Result<Self::Output, Self::Error>)
        ensures
            r matches Ok(o) && o@ == half_set::<T>(Side::Left, lhs.as_int()),
            r matches Ok(o) ==> Self::half_shape(o, Side::Left),
    {
        proof {
            T::lemma_as_int(lhs);
        }
        let b = match FiniteBound::try_closed(lhs) {
            Ok(b) => b,
            Err(e) => return Err(Self::Error::from(e)),
        };
        Self::try_left_bounded(b)
    }

    /// `(<-, rhs)`.
    fn try_unbound_open(rhs: T) -> (r: Result<Self::Output, Self::Error>)
        ensures
            r is Ok <==> T::min_int() < rhs.as_int(),
            r matches Ok(o) ==> o@ == half_set::<T>(Side::Right, rhs.as_int() - 1),
            r matches Ok(o) ==> Self::half_shape(o, Side::Right),
    {
        proof {
            T::lemma_as_int(rhs);
        }
        let b = match FiniteBound::try_open(rhs) {
            Ok(b) => b,
            Err(e) => return Err(Self::Error::from(e)),
        };
        Self::try_right_bounded(b)
    }

    /// `(<-, rhs]`.
    fn try_unbound_closed(rhs: T) -> (r: Result<Self::Output, Self::Error>)
        ensures
            r matches Ok(o) && o@ == half_set::<T>(Side::Right, rhs.as_int()),
            r matches Ok(o) ==> Self::half_shape(o, Side::Right),
    {
        proof {
            T::lemma_as_int(rhs);
        }
        let b = match FiniteBound::try_closed(rhs) {
            Ok(b) => b,
            Err(e) => return Err(Self::Error::from(e)),
        };
        Self::try_right_bounded(b)
    }
}

/// Panicking sibling of [`TryHalfBoundedFactory`], implemented for every
/// `TryHalfBoundedFactory`; each constructor requires a half-line that holds
/// an element.
pub trait HalfBoundedFactory<T: Element>: TryHalfBoundedFactory<T> {
    /// Returns a new half-bounded interval.
    fn half_bounded(side: Side, bound: FiniteBound<T>) -> (r: Self::Output)
        requires
            half_nonempty(side, bound),
        ensures
            r@ == half_set::<T>(side, bound.inner_edge(side)),
            Self::half_shape(r, side),
    ;

    /// Right-bounded interval (`(<-, b]` or `(<-, b)`).
    fn right_bounded(bound: FiniteBound<T>) -> (r: Self::Output)
        requires
            half_nonempty(Side::Right, bound),
        ensures
            r@ == half_set::<T>(Side::Right, bound.inner_edge(Side::Right)),
            Self::half_shape(r, Side::Right),
    ;

    /// Left-bounded interval (`[a, ->)` or `(a, ->)`).
    fn left_bounded(bound: FiniteBound<T>) -> (r: Self::Output)
        requires
            half_nonempty(Side::Left, bound),
        ensures
            r@ == half_set::<T>(Side::Left, bound.inner_edge(Side::Left)),
            Self::half_shape(r, Side::Left),
    ;

    /// `(left, ->)`.
    fn open_unbound(left: T) -> (r: Self::Output)
        requires
            left.as_int() < T::max_int(),
        ensures
            r@ == half_set::<T>(Side::Left, left.as_int() + 1),
            Self::half_shape(r, Side::Left),
    ;

    /// `[left, ->)`.
    fn closed_unbound(left: T) -> (r: Self::Output)
        ensures
            r@ == half_set::<T>(Side::Left, left.as_int()),
            Self::half_shape(r, Side::Left),
    ;

    /// `(<-, right)`.
    fn unbound_open(right: T) -> (r: Self::Output)
        requires
            T::min_int() < right.as_int(),
        ensures
            r@ == half_set::<T>(Side::Right, right.as_int() - 1),
            Self::half_shape(r, Side::Right),
    ;

    /// `(<-, right]`.
    fn unbound_closed(right: T) -> (r: Self::Output)
        ensures
            r@ == half_set::<T>(Side::Right, right.as_int()),
            Self::half_shape(r, Side::Right),
    ;
}

impl<T: Element, F: TryHalfBoundedFactory<T>> HalfBoundedFactory<T> for F {
    fn half_bounded(side: Side, bound: FiniteBound<T>) -> (r: Self::Output) {
        Self::try_half_bounded(side, bound).unwrap()
    }

    fn right_bounded(bound: FiniteBound<T>) -> (r: Self::Output) {
        Self::try_right_bounded(bound).unwrap()
    }

    fn left_bounded(bound: FiniteBound<T>) -> (r: Self::Output) {
        Self::try_left_bounded(bound).unwrap()
    }

    fn open_unbound(left: T) -> (r: Self::Output) {
        Self::try_open_unbound(left).unwrap()
    }

    fn closed_unbound(left: T) -> (r: Self::Output) {
        Self::try_closed_unbound(left).unwrap()
    }

    fn unbound_open(right: T) -> (r: Self::Output) {
        Self::try_unbound_open(right).unwrap()
    }

    fn unbound_closed(right: T) -> (r: Self::Output) {
        Self::try_unbound_closed(right).unwrap()
    }
}

/// Constructs the unbounded interval `(<-, ->)`.
pub trait UnboundedFactory<T: Element>: Factory<T> {
    /// Returns the interval holding every element of `T`.
    fn unbounded() -> (r: Self::Output)
        ensures
            r@ == range_set(T::min_int(), T::max_int()),
    ;
}

impl<T: Element> Factory<T> for FiniteInterval<T> {
    type Output = Self;

    type Error = Error;

    open spec fn finite_shape(o: Self::Output) -> bool {
        true
    }

    open spec fn half_shape(o: Self::Output, side: Side) -> bool {
        false
    }
}

impl<T: Element> EmptyFactory<T> for FiniteInterval<T> {
    fn empty() -> (r: Self::Output) {
        FiniteInterval::empty()
    }
}

impl<T: Element> TryFiniteFactory<T> for FiniteInterval<T> {
    fn try_fully_bounded(lhs: FiniteBound<T>, rhs: FiniteBound<T>) -> (r: Result<
        Self::Output,
        Self::Error,
    >)
        ensures
            r matches Err(e) ==> e == Error::InvalidBoundPair,
    {
        FiniteInterval::try_new(lhs, rhs)
    }
}

impl<T: Element> TrySatisfyFiniteInterval<T> for FiniteInterval<T> {
    fn try_satisfy_bounds(lhs: FiniteBound<T>, rhs: FiniteBound<T>) -> (r: Result<
        Self::Output,
        Self::Error,
    >) {
        match FiniteInterval::try_new(lhs, rhs) {
            Err(Error::InvalidBoundPair) => {
                let e = FiniteInterval::empty();
                assert(e@ =~= range_set(lhs.inner_edge(Side::Left), rhs.inner_edge(Side::Right)));
                Ok(e)
            },
            other => other,
        }
    }
}

impl<T: Element> Factory<T> for HalfInterval<T> {
    type Output = Self;

    type Error = Error;

    open spec fn finite_shape(o: Self::Output) -> bool {
        false
    }

    open spec fn half_shape(o: Self::Output, side: Side) -> bool {
        o.side_spec() == side
    }
}

impl<T: Element> TryHalfBoundedFactory<T> for HalfInterval<T> {
    fn try_half_bounded(side: Side, bound: FiniteBound<T>) -> (r: Result<
        Self::Output,
        Self::Error,
    >)
        ensures
            r matches Err(e) ==> e == Error::InvalidBoundPair,
    {
        let r = HalfInterval::try_new(side, bound);
        if let Ok(h) = r {
            assert(h@ =~= half_set::<T>(side, bound.inner_edge(side)));
        }
        r
    }
}

impl<T: Element> Factory<T> for EnumInterval<T> {
    type Output = Self;

    type Error = Error;

    open spec fn finite_shape(o: Self::Output) -> bool {
        o is Finite && o.wf()
    }

    open spec fn half_shape(o: Self::Output, side: Side) -> bool {
        o matches EnumInterval::Half(h) && h.side_spec() == side && o.wf()
    }
}

impl<T: Element> EmptyFactory<T> for EnumInterval<T> {
    fn empty() -> (r: Self::Output) {
        EnumInterval::empty()
    }
}

impl<T: Element> TryFiniteFactory<T> for EnumInterval<T> {
    fn try_fully_bounded(lhs: FiniteBound<T>, rhs: FiniteBound<T>) -> (r: Result<
        Self::Output,
        Self::Error,
    >)
        ensures
            r matches Ok(o) ==> o is Finite,
            r matches Err(e) ==> e == Error::InvalidBoundPair,
    {
        match FiniteInterval::try_new(lhs, rhs) {
            Ok(f) => {
                proof {
                    use_type_invariant(&f);
                }
                let o = EnumInterval::Finite(f);
                assert(o@ == f@);
                Ok(o)
            },
            Err(e) => Err(e),
        }
    }
}

impl<T: Element> TrySatisfyFiniteInterval<T> for EnumInterval<T> {
    fn try_satisfy_bounds(lhs: FiniteBound<T>, rhs: FiniteBound<T>) -> (r: Result<
        Self::Output,
        Self::Error,
    >)
        ensures
            r matches Ok(o) ==> o is Finite,
    {
        match <FiniteInterval<T> as TrySatisfyFiniteInterval<T>>::try_satisfy_bounds(lhs, rhs) {
            Ok(f) => {
                proof {
                    use_type_invariant(&f);
                }
                Ok(EnumInterval::Finite(f))
            },
            Err(e) => Err(e),
        }
    }
}

impl<T: Element> TryHalfBoundedFactory<T> for EnumInterval<T> {
    fn try_half_bounded(side: Side, bound: FiniteBound<T>) -> (r: Result<
        Self::Output,
        Self::Error,
    >)
        ensures
            r matches Ok(o) ==> (o matches EnumInterval::Half(h) && h.side_spec() == side),
            r matches Err(e) ==> e == Error::InvalidBoundPair,
    {
        match HalfInterval::try_new(side, bound) {
            Ok(h) => {
                proof {
                    use_type_invariant(&h);
                }
                let o = EnumInterval::Half(h);
                assert(o@ =~= half_set::<T>(side, bound.inner_edge(side)));
                Ok(o)
            },
            Err(e) => Err(e),
        }
    }
}

impl<T: Element> UnboundedFactory<T> for EnumInterval<T> {
    fn unbounded() -> (r: Self::Output)
        ensures
            r is Unbounded,
    {
        EnumInterval::Unbounded
    }
}

} // verus!
