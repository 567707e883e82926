//! Set-layer [`Cast`] / [`LossyCast`] / [`TryCast`] impls: each set type
//! casts its bounds and rebuilds itself through its own constructor.
use vstd::prelude::*;

use super::{Cast, CastElement, LossyCast, LossyCastElement, TryCast, TryCastElement};
use crate::bound::{BoundType, FiniteBound};
use crate::disjoint::MaybeDisjoint;
use crate::empty::MaybeEmpty;
use crate::error::Error;
use crate::factory::TrySatisfyFiniteInterval;
use crate::numeric::{clamp_int, Element};
use crate::ops::{left_key, max_end, min_end, right_key, Connects};
use crate::sets::{range_set, EnumInterval, FiniteInterval, HalfInterval};

verus! {

/// `v` clamped into `U`'s range.
pub open spec fn clamp_to<U: Element>(v: int) -> int {
    clamp_int(v, U::min_int(), U::max_int())
}

/// An optional end clamped into `U`'s range; an unbounded end stays
/// unbounded.
pub open spec fn clamp_end<U: Element>(e: Option<int>) -> Option<int> {
    match e {
        Some(v) => Some(clamp_to::<U>(v)),
        None => None,
    }
}

/// Whether a finite end fits `U`'s range.
pub open spec fn end_fits<U: Element>(e: Option<int>) -> bool {
    match e {
        Some(v) => U::min_int() <= v <= U::max_int(),
        None => true,
    }
}

/// The elements of an interval after its finite ends are clamped into
/// `U`'s range; an unbounded end stays at `U`'s extreme.
pub open spec fn lossy_piece<T: Element, U: Element>(i: EnumInterval<T>) -> Set<int> {
    if i.is_empty_spec() {
        Set::empty()
    } else {
        let lo = match clamp_end::<U>(i.left_end()) {
            Some(v) => v,
            None => U::min_int(),
        };
        let hi = match clamp_end::<U>(i.right_end()) {
            Some(v) => v,
            None => U::max_int(),
        };
        range_set(lo, hi)
    }
}

/// Whether `c` is what the lossy cast makes of `i`: the same shape and
/// emptiness, with finite ends clamped into `U`'s range.
pub open spec fn lossy_piece_of<T: Element, U: Element>(c: EnumInterval<U>, i: EnumInterval<T>) -> bool {
    &&& c.is_empty_spec() == i.is_empty_spec()
    &&& c.left_end() == clamp_end::<U>(i.left_end())
    &&& c.right_end() == clamp_end::<U>(i.right_end())
    &&& (c is Finite <==> i is Finite)
    &&& (c is Unbounded <==> i is Unbounded)
}

/// The least value a left end admits in `U`: the end itself, or `U`'s
/// least value when unbounded.
pub open spec fn end_lo<U: Element>(e: Option<int>) -> int {
    match e {
        Some(v) => v,
        None => U::min_int(),
    }
}

/// The greatest value a right end admits in `U`: the end itself, or `U`'s
/// greatest value when unbounded.
pub open spec fn end_hi<U: Element>(e: Option<int>) -> int {
    match e {
        Some(v) => v,
        None => U::max_int(),
    }
}

/// Whether the intervals with the shapes and ends of `a` and `b`, stored as
/// `U`s, may stand in a `Disjoint`: both non-empty, the first sorting
/// strictly before the second, and not connected.
pub open spec fn cast_pair_disjoint<T: Element, U: Element>(
    a: EnumInterval<T>,
    b: EnumInterval<T>,
) -> bool {
    &&& !a.is_empty_spec()
    &&& !b.is_empty_spec()
    &&& (left_key::<U>(a.left_end()) < left_key::<U>(b.left_end()) || (left_key::<U>(
        a.left_end(),
    ) == left_key::<U>(b.left_end()) && right_key::<U>(a.right_end()) < right_key::<U>(
        b.right_end(),
    )))
    &&& !(end_lo::<U>(a.left_end()) <= end_hi::<U>(b.right_end()) + 1 && end_lo::<U>(
        b.left_end(),
    ) <= end_hi::<U>(a.right_end()) + 1)
}

/// Whether every finite end of every piece fits `U`'s range.
pub open spec fn pieces_fit<T: Element, U: Element>(m: MaybeDisjoint<T>) -> bool {
    match m {
        MaybeDisjoint::Consumed => true,
        MaybeDisjoint::Connected(i) => end_fits::<U>(i.left_end()) && end_fits::<U>(
            i.right_end(),
        ),
        MaybeDisjoint::Disjoint(a, b) => {
            &&& end_fits::<U>(a.left_end())
            &&& end_fits::<U>(a.right_end())
            &&& end_fits::<U>(b.left_end())
            &&& end_fits::<U>(b.right_end())
        },
    }
}

/// Whether `a` and `b` denote the same value.
fn same_value<U: Element>(a: &U, b: &U) -> (r: bool)
    ensures
        r == (a.as_int() == b.as_int()),
{
    a.less_or_equal(b) && b.less_or_equal(a)
}

impl<T: CastElement<U>, U: Element> Cast<FiniteBound<U>> for FiniteBound<T> {
    type Output = FiniteBound<U>;

    /// The same bound type and limit value, stored as a `U`.
    fn cast(self) -> (r: FiniteBound<U>)
        ensures
            r.kind() == self.kind(),
            r.lim() == self.lim(),
    {
        let (bt, v) = self.into_raw();
        FiniteBound::new_assume_valid(bt, v.cast_element())
    }
}

impl<T: LossyCastElement<U>, U: Element> LossyCast<FiniteBound<U>> for FiniteBound<T> {
    type Output = FiniteBound<U>;

    /// The limit clamped into `U`; a limit that lands on `U`'s least or
    /// greatest value makes the bound closed.
    fn lossy_cast(self) -> (r: FiniteBound<U>)
        ensures
            r.lim() == clamp_to::<U>(self.lim()),
            r.kind() == (if r.lim() == U::min_int() || r.lim() == U::max_int() {
                BoundType::Closed
            } else {
                self.kind()
            }),
    {
        let (bt, v) = self.into_raw();
        let u = v.lossy_cast_element();
        let bt = if same_value(&u, &U::min_value()) || same_value(&u, &U::max_value()) {
            BoundType::Closed
        } else {
            bt
        };
        FiniteBound::new_assume_valid(bt, u)
    }
}

impl<T: TryCastElement<U>, U: Element> TryCast<FiniteBound<U>> for FiniteBound<T> {
    type Output = FiniteBound<U>;

    type Error = Error;

    /// The same bound as a `U`, or `Err(InvalidBoundLimit)` when the limit
    /// is out of `U`'s range.
    fn try_cast(self) -> (r: Result<FiniteBound<U>, Error>)
        ensures
            r is Ok <==> U::min_int() <= self.lim() <= U::max_int(),
            r matches Ok(b) ==> b.kind() == self.kind() && b.lim() == self.lim(),
            r matches Err(e) ==> e == Error::InvalidBoundLimit,
    {
        let (bt, v) = self.into_raw();
        let u = match v.try_cast_element() {
            Some(u) => u,
            None => return Err(Error::InvalidBoundLimit),
        };
        FiniteBound::try_new(bt, u)
    }
}

impl<T: CastElement<U>, U: Element> Cast<FiniteInterval<U>> for FiniteInterval<T> {
    type Output = FiniteInterval<U>;

    /// The same set, stored as `U`s.
    fn cast(self) -> (r: FiniteInterval<U>)
        ensures
            r.is_empty_spec() == self.is_empty_spec(),
            !self.is_empty_spec() ==> r.lo() == self.lo() && r.hi() == self.hi(),
            r@ == self@,
    {
        match self.into_raw() {
            None => FiniteInterval::empty(),
            Some((lhs, rhs)) => {
                let l = lhs.cast();
                let r = rhs.cast();
                FiniteInterval::try_new(l, r).expect(
                    "monotone Cast must preserve FiniteInterval invariants",
                )
            },
        }
    }
}

impl<T: LossyCastElement<U>, U: Element> LossyCast<FiniteInterval<U>> for FiniteInterval<T> {
    type Output = FiniteInterval<U>;

    /// Both ends clamped into `U`; a non-empty interval stays non-empty.
    fn lossy_cast(self) -> (r: FiniteInterval<U>)
        ensures
            r.is_empty_spec() == self.is_empty_spec(),
            !self.is_empty_spec() ==> r.lo() == clamp_to::<U>(self.lo()) && r.hi() == clamp_to::<
                U,
            >(self.hi()),
            !self.is_empty_spec() ==> r@ == range_set(
                clamp_to::<U>(self.lo()),
                clamp_to::<U>(self.hi()),
            ),
    {
        match self.into_raw() {
            None => FiniteInterval::empty(),
            Some((lhs, rhs)) => {
                let l = lhs.lossy_cast();
                let r = rhs.lossy_cast();
                match <FiniteInterval<U> as TrySatisfyFiniteInterval<U>>::try_satisfy_bounds(l, r) {
                    Ok(i) => {
                        proof {
                            U::lemma_range();
                            let ghost v = range_set(l.lim(), r.lim());
                            assert(v.contains(l.lim()));
                        }
                        match i.view_raw() {
                            Some(_) => {
                                proof {
                                    crate::sets::lemma_range_set_ends(
                                        l.lim(),
                                        r.lim(),
                                        i.lo(),
                                        i.hi(),
                                    );
                                }
                            },
                            None => {
                                proof {
                                    assert(i@.contains(l.lim()));
                                }
                            },
                        }
                        i
                    },
                    Err(_) => FiniteInterval::empty(),
                }
            },
        }
    }
}

impl<T: TryCastElement<U>, U: Element> TryCast<FiniteInterval<U>> for FiniteInterval<T> {
    type Output = FiniteInterval<U>;

    type Error = Error;

    /// The same set as `U`s, or `Err(InvalidBoundLimit)` when an end is out
    /// of `U`'s range.
    fn try_cast(self) -> (r: Result<FiniteInterval<U>, Error>)
        ensures
            r is Ok <==> (self.is_empty_spec() || (U::min_int() <= self.lo() && self.hi()
                <= U::max_int())),
            r matches Ok(i) ==> i.is_empty_spec() == self.is_empty_spec() && i@ == self@ && (
            !self.is_empty_spec() ==> i.lo() == self.lo() && i.hi() == self.hi()),
            r matches Err(e) ==> e == Error::InvalidBoundLimit,
    {
        match self.into_raw() {
            None => Ok(FiniteInterval::empty()),
            Some((lhs, rhs)) => {
                let l = match lhs.try_cast() {
                    Ok(b) => b,
                    Err(e) => return Err(e),
                };
                let r = match rhs.try_cast() {
                    Ok(b) => b,
                    Err(e) => return Err(e),
                };
                FiniteInterval::try_new(l, r)
            },
        }
    }
}

impl<T: CastElement<U>, U: Element> Cast<HalfInterval<U>> for HalfInterval<T> {
    type Output = HalfInterval<U>;

    /// The same side and limit, stored as a `U`.
    fn cast(self) -> (r: HalfInterval<U>)
        ensures
            r.side_spec() == self.side_spec(),
            r.bound_spec().lim() == self.bound_spec().lim(),
    {
        let (side, b) = self.into_raw();
        let b = b.cast();
        proof {
            U::lemma_as_int(b.limit());
        }
        HalfInterval::try_new(side, b).expect("monotone Cast must preserve HalfInterval invariants")
    }
}

impl<T: LossyCastElement<U>, U: Element> LossyCast<HalfInterval<U>> for HalfInterval<T> {
    type Output = HalfInterval<U>;

    /// The same side, the limit clamped into `U`.
    fn lossy_cast(self) -> (r: HalfInterval<U>)
        ensures
            r.side_spec() == self.side_spec(),
            r.bound_spec().lim() == clamp_to::<U>(self.bound_spec().lim()),
    {
        let (side, b) = self.into_raw();
        let b = b.lossy_cast();
        proof {
            U::lemma_as_int(b.limit());
        }
        HalfInterval::try_new(side, b).expect("lossy_cast must preserve HalfInterval invariants")
    }
}

impl<T: TryCastElement<U>, U: Element> TryCast<HalfInterval<U>> for HalfInterval<T> {
    type Output = HalfInterval<U>;

    type Error = Error;

    /// The same half interval as `U`s, or `Err(InvalidBoundLimit)` when the
    /// limit is out of `U`'s range.
    fn try_cast(self) -> (r: Result<HalfInterval<U>, Error>)
        ensures
            r is Ok <==> U::min_int() <= self.bound_spec().lim() <= U::max_int(),
            r matches Ok(h) ==> h.side_spec() == self.side_spec() && h.bound_spec().lim()
                == self.bound_spec().lim(),
            r matches Err(e) ==> e == Error::InvalidBoundLimit,
    {
        let (side, b) = self.into_raw();
        let b = match b.try_cast() {
            Ok(b) => b,
            Err(e) => return Err(e),
        };
        proof {
            U::lemma_as_int(b.limit());
        }
        match HalfInterval::try_new(side, b) {
            Ok(h) => Ok(h),
            Err(_) => {
                proof {
                    assert(false);
                }
                Err(Error::InvalidBoundPair)
            },
        }
    }
}

impl<T: CastElement<U>, U: Element> Cast<EnumInterval<U>> for EnumInterval<T> {
    type Output = EnumInterval<U>;

    /// The same shape and ends, stored as `U`s.
    fn cast(self) -> (r: EnumInterval<U>)
        ensures
            r.is_empty_spec() == self.is_empty_spec(),
            r.left_end() == self.left_end(),
            r.right_end() == self.right_end(),
            r is Finite <==> self is Finite,
            r is Unbounded <==> self is Unbounded,
            r.wf(),
    {
        match self {
            EnumInterval::Finite(i) => {
                let c = i.cast();
                proof {
                    use_type_invariant(&c);
                }
                EnumInterval::Finite(c)
            },
            EnumInterval::Half(i) => {
                let c = i.cast();
                proof {
                    use_type_invariant(&c);
                }
                EnumInterval::Half(c)
            },
            EnumInterval::Unbounded => EnumInterval::Unbounded,
        }
    }
}

impl<T: LossyCastElement<U>, U: Element> LossyCast<EnumInterval<U>> for EnumInterval<T> {
    type Output = EnumInterval<U>;

    /// The same shape, finite ends clamped into `U`.
    fn lossy_cast(self) -> (r: EnumInterval<U>)
        ensures
            r.is_empty_spec() == self.is_empty_spec(),
            r.left_end() == clamp_end::<U>(self.left_end()),
            r.right_end() == clamp_end::<U>(self.right_end()),
            r is Finite <==> self is Finite,
            r is Unbounded <==> self is Unbounded,
            r.wf(),
    {
        match self {
            EnumInterval::Finite(i) => {
                let c = i.lossy_cast();
                proof {
                    use_type_invariant(&c);
                }
                EnumInterval::Finite(c)
            },
            EnumInterval::Half(i) => {
                let c = i.lossy_cast();
                proof {
                    use_type_invariant(&c);
                }
                EnumInterval::Half(c)
            },
            EnumInterval::Unbounded => EnumInterval::Unbounded,
        }
    }
}

impl<T: TryCastElement<U>, U: Element> TryCast<EnumInterval<U>> for EnumInterval<T> {
    type Output = EnumInterval<U>;

    type Error = Error;

    /// The same shape and ends as `U`s, or `Err(InvalidBoundLimit)` when a
    /// finite end is out of `U`'s range.
    fn try_cast(self) -> (r: Result<EnumInterval<U>, Error>)
        ensures
            r is Ok <==> end_fits::<U>(self.left_end()) && end_fits::<U>(self.right_end()),
            r matches Ok(i) ==> i.is_empty_spec() == self.is_empty_spec() && i.left_end()
                == self.left_end() && i.right_end() == self.right_end() && (i is Finite
                <==> self is Finite) && (i is Unbounded <==> self is Unbounded),
            r matches Err(e) ==> e == Error::InvalidBoundLimit,
    {
        match self {
            EnumInterval::Finite(i) => {
                proof {
                    use_type_invariant(&i);
                }
                match i.try_cast() {
                    Ok(c) => Ok(EnumInterval::Finite(c)),
                    Err(e) => Err(e),
                }
            },
            EnumInterval::Half(i) => match i.try_cast() {
                Ok(c) => Ok(EnumInterval::Half(c)),
                Err(e) => Err(e),
            },
            EnumInterval::Unbounded => Ok(EnumInterval::Unbounded),
        }
    }
}

impl<T: CastElement<U>, U: Element> Cast<MaybeDisjoint<U>> for MaybeDisjoint<T> {
    type Output = MaybeDisjoint<U>;

    /// Each piece cast losslessly; the shape is unchanged.
    fn cast(self) -> (r: MaybeDisjoint<U>)
        ensures
            self is Consumed ==> r is Consumed,
            self matches MaybeDisjoint::Connected(i) ==> (i.is_empty_spec() ==> r is Consumed),
            self matches MaybeDisjoint::Connected(i) ==> (!i.is_empty_spec() ==> (
            r matches MaybeDisjoint::Connected(c) && c.left_end() == i.left_end() && c.right_end()
                == i.right_end())),
            self matches MaybeDisjoint::Disjoint(a, b) ==> (r matches MaybeDisjoint::Disjoint(
                ca,
                cb,
            ) && ca.left_end() == a.left_end() && ca.right_end() == a.right_end()
                && cb.left_end() == b.left_end() && cb.right_end() == b.right_end()),
            self.valid() ==> r.valid(),
    {
        match self {
            MaybeDisjoint::Consumed => MaybeDisjoint::Consumed,
            MaybeDisjoint::Connected(i) => MaybeDisjoint::from_interval(i.cast()),
            MaybeDisjoint::Disjoint(a, b) => {
                let ca = a.cast();
                let cb = b.cast();
                proof {
                    T::lemma_widens();
                    a.lemma_ends_in_range();
                    b.lemma_ends_in_range();
                }
                MaybeDisjoint::new_disjoint_assume_valid(ca, cb)
            },
        }
    }
}

impl<T: TryCastElement<U>, U: Element> TryCast<MaybeDisjoint<U>> for MaybeDisjoint<T> {
    type Output = MaybeDisjoint<U>;

    type Error = Error;

    /// Each piece cast strictly; a result that breaks the `Disjoint`
    /// invariants is `Err(InvalidBoundPair)`.
    fn try_cast(self) -> (r: Result<MaybeDisjoint<U>, Error>)
        ensures
            r matches Ok(m) ==> m.valid(),
            self is Consumed ==> r == Ok::<MaybeDisjoint<U>, Error>(MaybeDisjoint::Consumed),
            !pieces_fit::<T, U>(self) ==> r == Err::<MaybeDisjoint<U>, Error>(
                Error::InvalidBoundLimit,
            ),
            pieces_fit::<T, U>(self) && self.valid() ==> r is Ok,
            pieces_fit::<T, U>(self) && !(self is Disjoint) ==> r is Ok,
            self matches MaybeDisjoint::Disjoint(a, b) ==> (pieces_fit::<T, U>(self) ==> (r is Ok
                <==> cast_pair_disjoint::<T, U>(a, b))),
            r == Err::<MaybeDisjoint<U>, Error>(Error::InvalidBoundPair) ==> self is Disjoint
                && pieces_fit::<T, U>(self),
            r matches Err(e) ==> (e == Error::InvalidBoundLimit || e == Error::InvalidBoundPair),
            self matches MaybeDisjoint::Connected(i) ==> (r matches Ok(m) ==> (if i.is_empty_spec() {
                m is Consumed
            } else {
                m matches MaybeDisjoint::Connected(c) && c.left_end() == i.left_end()
                    && c.right_end() == i.right_end()
            })),
            self matches MaybeDisjoint::Disjoint(a, b) ==> (r matches Ok(m) ==> (
            m matches MaybeDisjoint::Disjoint(ca, cb) && ca.left_end() == a.left_end()
                && ca.right_end() == a.right_end() && cb.left_end() == b.left_end()
                && cb.right_end() == b.right_end())),
    {
        match self {
            MaybeDisjoint::Consumed => Ok(MaybeDisjoint::Consumed),
            MaybeDisjoint::Connected(i) => match i.try_cast() {
                Ok(c) => Ok(MaybeDisjoint::from_interval(c)),
                Err(e) => Err(e),
            },
            MaybeDisjoint::Disjoint(a0, b0) => {
                let a: EnumInterval<U> = match a0.try_cast() {
                    Ok(c) => c,
                    Err(e) => return Err(e),
                };
                let b: EnumInterval<U> = match b0.try_cast() {
                    Ok(c) => c,
                    Err(e) => return Err(e),
                };
                proof {
                    a0.lemma_ends_in_range();
                    b0.lemma_ends_in_range();
                    T::lemma_range();
                    U::lemma_range();
                    if self.valid() {
                        a0.lemma_range();
                        b0.lemma_range();
                    }
                }
                if a.is_empty() || b.is_empty() || b.ord_le(&a) || a.connects(&b) {
                    return Err(Error::InvalidBoundPair);
                }
                Ok(MaybeDisjoint::new_disjoint_assume_valid(a, b))
            },
        }
    }
}

impl<T: LossyCastElement<U>, U: Element> LossyCast<MaybeDisjoint<U>> for MaybeDisjoint<T> {
    type Output = MaybeDisjoint<U>;

    /// Each piece cast lossily, then repaired into canonical form: empties
    /// dropped, pieces reordered and merged as needed.
    fn lossy_cast(self) -> (r: MaybeDisjoint<U>)
        ensures
            r.valid(),
            self is Consumed ==> r is Consumed,
            r@ == match self {
                MaybeDisjoint::Consumed => Set::<int>::empty(),
                MaybeDisjoint::Connected(i) => lossy_piece::<T, U>(i),
                MaybeDisjoint::Disjoint(a, b) => lossy_piece::<T, U>(a).union(
                    lossy_piece::<T, U>(b),
                ),
            },            self matches MaybeDisjoint::Connected(i) ==> (if i.is_empty_spec() {
                r is Consumed
            } else {
                r matches MaybeDisjoint::Connected(c) && lossy_piece_of(c, i)
            }),
            self matches MaybeDisjoint::Disjoint(a, b) ==> (if a.is_empty_spec()
                && b.is_empty_spec() {
                r is Consumed
            } else if a.is_empty_spec() {
                r matches MaybeDisjoint::Connected(c) && lossy_piece_of(c, b)
            } else if b.is_empty_spec() {
                r matches MaybeDisjoint::Connected(c) && lossy_piece_of(c, a)
            } else {
                &&& r matches MaybeDisjoint::Connected(c) ==> c.left_end() == min_end(
                    clamp_end::<U>(a.left_end()),
                    clamp_end::<U>(b.left_end()),
                ) && c.right_end() == max_end(
                    clamp_end::<U>(a.right_end()),
                    clamp_end::<U>(b.right_end()),
                )
                &&& r matches MaybeDisjoint::Disjoint(x, y) ==> (lossy_piece_of(x, a)
                    && lossy_piece_of(y, b)) || (lossy_piece_of(x, b) && lossy_piece_of(y, a))
            }),
    {
        match self {
            MaybeDisjoint::Consumed => MaybeDisjoint::Consumed,
            MaybeDisjoint::Connected(i) => {
                let c = i.lossy_cast();
                proof {
                    c.lemma_range();
                }
                MaybeDisjoint::from_interval(c)
            },
            MaybeDisjoint::Disjoint(a, b) => {
                let ca = a.lossy_cast();
                let cb = b.lossy_cast();
                proof {
                    ca.lemma_range();
                    cb.lemma_range();
                }
                MaybeDisjoint::from_pair(ca, cb)
            },
        }
    }
}

/// Widening and narrowing back gives back the starting interval: the widened
/// interval's ends fit the source type, so the strict cast back
/// succeeds, and the interval it yields is the one started from.
pub proof fn lemma_cast_round_trip<T: Element, U: Element>(
    x: FiniteInterval<T>,
    y: FiniteInterval<U>,
    z: FiniteInterval<T>,
)
    requires
        x.wf(),
        z.wf(),
        y.is_empty_spec() == x.is_empty_spec(),
        !x.is_empty_spec() ==> y.lo() == x.lo() && y.hi() == x.hi(),
        z.is_empty_spec() == y.is_empty_spec(),
        !y.is_empty_spec() ==> z.lo() == y.lo() && z.hi() == y.hi(),
    ensures
        y.is_empty_spec() || (T::min_int() <= y.lo() && y.hi() <= T::max_int()),
        z == x,
{
    FiniteInterval::lemma_canonical(x);
    FiniteInterval::lemma_canonical(z);
    if let Some((l, r)) = x.bounds() {
        T::lemma_as_int(l.limit());
        T::lemma_as_int(r.limit());
    }
}

} // verus!
