//! Conversions between the interval types, ordered bound pairs and std
//! ranges.
use vstd::prelude::*;
use vstd::std_specs::convert::{FromSpec, TryFromSpec};

use core::ops::{Range, RangeFrom, RangeFull, RangeInclusive, RangeTo, RangeToInclusive};

use crate::bound::ord::{
    bound_type_of, FiniteOrdBound, FiniteOrdBoundKind, OrdBound, OrdBoundPair, OrdBounded,
};
use crate::bound::{side_kind, BoundType, FiniteBound, Side};
use crate::error::Error;
use crate::factory::{half_nonempty, half_set, SatisfyFiniteInterval};
use crate::numeric::Element;
use crate::sets::{pair_nonempty, range_set, EnumInterval, FiniteInterval, HalfInterval};

verus! {

/// A failed conversion from [`EnumInterval`] to a narrower interval type.
#[derive(Debug, Copy, Clone, PartialEq, Eq, Hash)]
pub struct ConversionError {
    msg: &'static str,
}

impl ConversionError {
    /// The error carrying `msg`, as a value.
    pub closed spec fn with_message(msg: &'static str) -> Self {
        ConversionError { msg }
    }

    /// The message carried.
    pub closed spec fn message_spec(self) -> &'static str {
        self.msg
    }

    /// The message this error displays.
    pub fn message(&self) -> (r: &'static str)
        ensures
            r == self.message_spec(),
    {
        self.msg
    }
}

impl<T: Element> From<()> for FiniteInterval<T> {
    /// The empty set.
    fn from(value: ()) -> (r: Self)
        ensures
            r@ == Set::<int>::empty(),
    {
        FiniteInterval::empty()
    }
}

impl<T: Element> vstd::std_specs::convert::FromSpecImpl<()> for FiniteInterval<T> {
    open spec fn obeys_from_spec() -> bool {
        true
    }

    open spec fn from_spec(v: ()) -> Self {
        FiniteInterval::from_range(1, 0)
    }
}

impl<T: Element> From<()> for EnumInterval<T> {
    /// The empty set.
    fn from(value: ()) -> (r: Self)
        ensures
            r.is_empty_spec(),
    {
        EnumInterval::Finite(FiniteInterval::empty())
    }
}

impl<T: Element> vstd::std_specs::convert::FromSpecImpl<()> for EnumInterval<T> {
    open spec fn obeys_from_spec() -> bool {
        true
    }

    open spec fn from_spec(v: ()) -> Self {
        EnumInterval::Finite(FiniteInterval::from_range(1, 0))
    }
}

impl<T: Element> TryFrom<(T, T)> for FiniteInterval<T> {
    type Error = Error;

    /// The open interval `(a, b)` in canonical form; `Err(InvalidBoundPair)`
    /// when it holds no element.
    fn try_from(value: (T, T)) -> (r: Result<Self, Error>) {
        let (a, b) = value;
        let r = FiniteInterval::try_new(FiniteBound::open(a), FiniteBound::open(b));
        proof {
            T::lemma_as_int(a);
            T::lemma_as_int(b);
            if let Ok(i) = r {
                use_type_invariant(&i);
                FiniteInterval::lemma_from_view(i, a.as_int() + 1, b.as_int() - 1);
            }
        }
        r
    }
}

impl<T: Element> vstd::std_specs::convert::TryFromSpecImpl<(T, T)> for FiniteInterval<T> {
    open spec fn obeys_try_from_spec() -> bool {
        true
    }

    open spec fn try_from_spec(v: (T, T)) -> Result<Self, Error> {
        if v.0.as_int() + 1 <= v.1.as_int() - 1 {
            Ok(FiniteInterval::from_range(v.0.as_int() + 1, v.1.as_int() - 1))
        } else {
            Err(Error::InvalidBoundPair)
        }
    }
}

impl<T: Element> TryFrom<[T; 2]> for FiniteInterval<T> {
    type Error = Error;

    /// The closed interval `[a, b]`; `Err(InvalidBoundPair)` when `a > b`.
    fn try_from(value: [T; 2]) -> (r: Result<Self, Error>) {
        let a = value[0];
        let b = value[1];
        let r = FiniteInterval::try_new(FiniteBound::closed(a), FiniteBound::closed(b));
        proof {
            T::lemma_as_int(a);
            T::lemma_as_int(b);
            if let Ok(i) = r {
                use_type_invariant(&i);
                FiniteInterval::lemma_from_view(i, a.as_int(), b.as_int());
            }
        }
        r
    }
}

impl<T: Element> vstd::std_specs::convert::TryFromSpecImpl<[T; 2]> for FiniteInterval<T> {
    open spec fn obeys_try_from_spec() -> bool {
        true
    }

    open spec fn try_from_spec(v: [T; 2]) -> Result<Self, Error> {
        if v@[0].as_int() <= v@[1].as_int() {
            Ok(FiniteInterval::from_range(v@[0].as_int(), v@[1].as_int()))
        } else {
            Err(Error::InvalidBoundPair)
        }
    }
}

impl<T: Element> TryFrom<&(T, T)> for FiniteInterval<T> {
    type Error = Error;

    /// The same as converting the pair itself.
    fn try_from(value: &(T, T)) -> (r: Result<Self, Error>) {
        FiniteInterval::try_from(*value)
    }
}

impl<T: Element> vstd::std_specs::convert::TryFromSpecImpl<&(T, T)> for FiniteInterval<T> {
    open spec fn obeys_try_from_spec() -> bool {
        true
    }

    open spec fn try_from_spec(v: &(T, T)) -> Result<Self, Error> {
        <FiniteInterval<T> as vstd::std_specs::convert::TryFromSpec<(T, T)>>::try_from_spec(*v)
    }
}

impl<T: Element> TryFrom<&[T; 2]> for FiniteInterval<T> {
    type Error = Error;

    /// The same as converting the array itself.
    fn try_from(value: &[T; 2]) -> (r: Result<Self, Error>) {
        FiniteInterval::try_from(*value)
    }
}

impl<T: Element> vstd::std_specs::convert::TryFromSpecImpl<&[T; 2]> for FiniteInterval<T> {
    open spec fn obeys_try_from_spec() -> bool {
        true
    }

    open spec fn try_from_spec(v: &[T; 2]) -> Result<Self, Error> {
        <FiniteInterval<T> as vstd::std_specs::convert::TryFromSpec<[T; 2]>>::try_from_spec(*v)
    }
}

impl<T: Element> TryFrom<(T, T)> for EnumInterval<T> {
    type Error = Error;

    /// The finite interval of the open pair `(a, b)`; `Err(InvalidBoundPair)`
    /// when it holds no element.
    fn try_from(value: (T, T)) -> (r: Result<Self, Error>) {
        match FiniteInterval::try_from(value) {
            Ok(f) => Ok(EnumInterval::Finite(f)),
            Err(e) => Err(e),
        }
    }
}

impl<T: Element> vstd::std_specs::convert::TryFromSpecImpl<(T, T)> for EnumInterval<T> {
    open spec fn obeys_try_from_spec() -> bool {
        true
    }

    open spec fn try_from_spec(v: (T, T)) -> Result<Self, Error> {
        match <FiniteInterval<T> as vstd::std_specs::convert::TryFromSpec<(T, T)>>::try_from_spec(v) {
            Ok(f) => Ok(EnumInterval::Finite(f)),
            Err(e) => Err(e),
        }
    }
}

impl<T: Element> TryFrom<[T; 2]> for EnumInterval<T> {
    type Error = Error;

    /// The finite interval `[a, b]`; `Err(InvalidBoundPair)` when `a > b`.
    fn try_from(value: [T; 2]) -> (r: Result<Self, Error>) {
        match FiniteInterval::try_from(value) {
            Ok(f) => Ok(EnumInterval::Finite(f)),
            Err(e) => Err(e),
        }
    }
}

impl<T: Element> vstd::std_specs::convert::TryFromSpecImpl<[T; 2]> for EnumInterval<T> {
    open spec fn obeys_try_from_spec() -> bool {
        true
    }

    open spec fn try_from_spec(v: [T; 2]) -> Result<Self, Error> {
        match <FiniteInterval<T> as vstd::std_specs::convert::TryFromSpec<[T; 2]>>::try_from_spec(v) {
            Ok(f) => Ok(EnumInterval::Finite(f)),
            Err(e) => Err(e),
        }
    }
}

impl<T: Element> From<FiniteInterval<T>> for EnumInterval<T> {
    fn from(value: FiniteInterval<T>) -> (r: Self) {
        EnumInterval::Finite(value)
    }
}

impl<T: Element> vstd::std_specs::convert::FromSpecImpl<FiniteInterval<T>> for EnumInterval<T> {
    open spec fn obeys_from_spec() -> bool {
        true
    }

    open spec fn from_spec(v: FiniteInterval<T>) -> Self {
        EnumInterval::Finite(v)
    }
}

impl<T: Element> From<HalfInterval<T>> for EnumInterval<T> {
    fn from(value: HalfInterval<T>) -> (r: Self) {
        EnumInterval::Half(value)
    }
}

impl<T: Element> vstd::std_specs::convert::FromSpecImpl<HalfInterval<T>> for EnumInterval<T> {
    open spec fn obeys_from_spec() -> bool {
        true
    }

    open spec fn from_spec(v: HalfInterval<T>) -> Self {
        EnumInterval::Half(v)
    }
}

impl<T: Element> TryFrom<EnumInterval<T>> for FiniteInterval<T> {
    type Error = ConversionError;

    /// The inner interval of a `Finite`; any other shape is an error.
    fn try_from(value: EnumInterval<T>) -> (r: Result<Self, ConversionError>) {
        match value {
            EnumInterval::Finite(inner) => Ok(inner),
            _ => Err(ConversionError { msg: "EnumInterval => FiniteInterval" }),
        }
    }
}

impl<T: Element> vstd::std_specs::convert::TryFromSpecImpl<EnumInterval<T>> for FiniteInterval<T> {
    open spec fn obeys_try_from_spec() -> bool {
        true
    }

    open spec fn try_from_spec(v: EnumInterval<T>) -> Result<Self, ConversionError> {
        match v {
            EnumInterval::Finite(inner) => Ok(inner),
            _ => Err(ConversionError::with_message("EnumInterval => FiniteInterval")),
        }
    }
}

impl<T: Element> TryFrom<EnumInterval<T>> for HalfInterval<T> {
    type Error = ConversionError;

    /// The inner interval of a `Half`; any other shape is an error.
    fn try_from(value: EnumInterval<T>) -> (r: Result<Self, ConversionError>) {
        match value {
            EnumInterval::Half(inner) => Ok(inner),
            _ => Err(ConversionError { msg: "EnumInterval => HalfInterval" }),
        }
    }
}

impl<T: Element> vstd::std_specs::convert::TryFromSpecImpl<EnumInterval<T>> for HalfInterval<T> {
    open spec fn obeys_try_from_spec() -> bool {
        true
    }

    open spec fn try_from_spec(v: EnumInterval<T>) -> Result<Self, ConversionError> {
        match v {
            EnumInterval::Half(inner) => Ok(inner),
            _ => Err(ConversionError::with_message("EnumInterval => HalfInterval")),
        }
    }
}

/// The ordered view of a finite bound constraining `side`.
pub open spec fn ord_view<T: Element>(b: FiniteBound<T>, side: Side) -> OrdBound<T> {
    OrdBound::Finite(FiniteOrdBound(b.limit(), side_kind(b.kind(), side)))
}

/// The ordered bound pair of a finite interval.
pub open spec fn finite_ord_pair<T: Element>(v: FiniteInterval<T>) -> OrdBoundPair<T> {
    match v.bounds() {
        None => OrdBoundPair::pair(OrdBound::LeftUnbounded, OrdBound::LeftUnbounded),
        Some((l, r)) => OrdBoundPair::pair(ord_view(l, Side::Left), ord_view(r, Side::Right)),
    }
}

/// The ordered bound pair of a half interval.
pub open spec fn half_ord_pair<T: Element>(v: HalfInterval<T>) -> OrdBoundPair<T> {
    match v.side_spec() {
        Side::Left => OrdBoundPair::pair(
            ord_view(v.bound_spec(), Side::Left),
            OrdBound::RightUnbounded,
        ),
        Side::Right => OrdBoundPair::pair(
            OrdBound::LeftUnbounded,
            ord_view(v.bound_spec(), Side::Right),
        ),
    }
}

/// The ordered bound pair of any interval.
pub open spec fn enum_ord_pair<T: Element>(v: EnumInterval<T>) -> OrdBoundPair<T> {
    match v {
        EnumInterval::Finite(f) => finite_ord_pair(f),
        EnumInterval::Half(h) => half_ord_pair(h),
        EnumInterval::Unbounded => OrdBoundPair::pair(
            OrdBound::LeftUnbounded,
            OrdBound::RightUnbounded,
        ),
    }
}

impl<T: Element> HalfInterval<T> {
    /// The bound as an ordered bound on this interval's side.
    pub fn into_ord_bound(self) -> (r: OrdBound<T>)
        ensures
            r == ord_view(self.bound_spec(), self.side_spec()),
    {
        let (side, bound) = self.into_raw();
        bound.into_ord(side)
    }

    /// A view of the bound as an ordered bound on this interval's side.
    pub fn ord_bound(&self) -> (r: OrdBound<&T>)
        ensures
            r matches OrdBound::Finite(f) && *f.0 == self.bound_spec().limit() && f.1 == side_kind(
                self.bound_spec().kind(),
                self.side_spec(),
            ),
    {
        self.finite_bound().ord(self.side())
    }

    /// A view of the bound as a finite ordered bound on this interval's side.
    pub fn finite_ord_bound(&self) -> (r: FiniteOrdBound<&T>)
        ensures
            *r.0 == self.bound_spec().limit(),
            r.1 == side_kind(self.bound_spec().kind(), self.side_spec()),
    {
        self.finite_bound().finite_ord(self.side())
    }
}

impl<T: Element> From<FiniteInterval<T>> for OrdBoundPair<T> {
    fn from(value: FiniteInterval<T>) -> (r: Self) {
        match value.into_raw() {
            None => {
                let r = OrdBoundPair::empty();
                proof {
                    OrdBoundPair::lemma_ends(r, OrdBound::LeftUnbounded, OrdBound::LeftUnbounded);
                }
                r
            },
            Some((lhs, rhs)) => {
                let r = OrdBoundPair::new_assume_valid(
                    lhs.into_ord(Side::Left),
                    rhs.into_ord(Side::Right),
                );
                proof {
                    OrdBoundPair::lemma_ends(r, ord_view(lhs, Side::Left), ord_view(rhs, Side::Right));
                }
                r
            },
        }
    }
}

impl<T: Element> vstd::std_specs::convert::FromSpecImpl<FiniteInterval<T>> for OrdBoundPair<T> {
    open spec fn obeys_from_spec() -> bool {
        true
    }

    open spec fn from_spec(v: FiniteInterval<T>) -> Self {
        finite_ord_pair(v)
    }
}

impl<T: Element> From<HalfInterval<T>> for OrdBoundPair<T> {
    fn from(value: HalfInterval<T>) -> (r: Self) {
        let side = value.side();
        let b = value.into_ord_bound();
        match side {
            Side::Left => {
                let r = OrdBoundPair::new_assume_valid(b, OrdBound::RightUnbounded);
                proof {
                    OrdBoundPair::lemma_ends(r, b, OrdBound::RightUnbounded);
                }
                r
            },
            Side::Right => {
                let r = OrdBoundPair::new_assume_valid(OrdBound::LeftUnbounded, b);
                proof {
                    OrdBoundPair::lemma_ends(r, OrdBound::LeftUnbounded, b);
                }
                r
            },
        }
    }
}

impl<T: Element> vstd::std_specs::convert::FromSpecImpl<HalfInterval<T>> for OrdBoundPair<T> {
    open spec fn obeys_from_spec() -> bool {
        true
    }

    open spec fn from_spec(v: HalfInterval<T>) -> Self {
        half_ord_pair(v)
    }
}

impl<T: Element> From<EnumInterval<T>> for OrdBoundPair<T> {
    fn from(value: EnumInterval<T>) -> (r: Self) {
        match value {
            EnumInterval::Finite(inner) => OrdBoundPair::from(inner),
            EnumInterval::Half(inner) => OrdBoundPair::from(inner),
            EnumInterval::Unbounded => {
                let r = OrdBoundPair::new_assume_valid(
                    OrdBound::LeftUnbounded,
                    OrdBound::RightUnbounded,
                );
                proof {
                    OrdBoundPair::lemma_ends(r, OrdBound::LeftUnbounded, OrdBound::RightUnbounded);
                }
                r
            },
        }
    }
}

impl<T: Element> vstd::std_specs::convert::FromSpecImpl<EnumInterval<T>> for OrdBoundPair<T> {
    open spec fn obeys_from_spec() -> bool {
        true
    }

    open spec fn from_spec(v: EnumInterval<T>) -> Self {
        enum_ord_pair(v)
    }
}

/// Whether a view end stands for an owned end: the same shape, and for a
/// finite end the same value and kind.
pub open spec fn end_views<T>(e: OrdBound<&T>, o: OrdBound<T>) -> bool {
    match (e, o) {
        (OrdBound::LeftUnbounded, OrdBound::LeftUnbounded) => true,
        (OrdBound::RightUnbounded, OrdBound::RightUnbounded) => true,
        (OrdBound::Finite(a), OrdBound::Finite(b)) => *a.0 == b.0 && a.1 == b.1,
        _ => false,
    }
}

impl<T: Element> OrdBounded<T> for FiniteInterval<T> {
    fn ord_bound_pair(&self) -> (r: OrdBoundPair<&T>)
        ensures
            end_views(r.left_end(), finite_ord_pair(*self).left_end()),
            end_views(r.right_end(), finite_ord_pair(*self).right_end()),
    {
        match self.view_raw() {
            None => {
                let r = OrdBoundPair::empty();
                proof {
                    OrdBoundPair::<T>::lemma_ends(
                        finite_ord_pair(*self),
                        OrdBound::LeftUnbounded,
                        OrdBound::LeftUnbounded,
                    );
                }
                r
            },
            Some((lhs, rhs)) => {
                proof {
                    OrdBoundPair::<T>::lemma_ends(
                        finite_ord_pair(*self),
                        ord_view(*lhs, Side::Left),
                        ord_view(*rhs, Side::Right),
                    );
                }
                OrdBoundPair::new_assume_valid(lhs.ord(Side::Left), rhs.ord(Side::Right))
            },
        }
    }
}

impl<T: Element> OrdBounded<T> for HalfInterval<T> {
    fn ord_bound_pair(&self) -> (r: OrdBoundPair<&T>)
        ensures
            end_views(r.left_end(), half_ord_pair(*self).left_end()),
            end_views(r.right_end(), half_ord_pair(*self).right_end()),
    {
        let ord_bound = self.ord_bound();
        proof {
            let v = ord_view(self.bound_spec(), self.side_spec());
            OrdBoundPair::<T>::lemma_ends(half_ord_pair(*self), v, OrdBound::RightUnbounded);
            OrdBoundPair::<T>::lemma_ends(half_ord_pair(*self), OrdBound::LeftUnbounded, v);
        }
        match self.side() {
            Side::Left => OrdBoundPair::new_assume_valid(ord_bound, OrdBound::RightUnbounded),
            Side::Right => OrdBoundPair::new_assume_valid(OrdBound::LeftUnbounded, ord_bound),
        }
    }
}

impl<T: Element> OrdBounded<T> for EnumInterval<T> {
    fn ord_bound_pair(&self) -> (r: OrdBoundPair<&T>)
        ensures
            end_views(r.left_end(), enum_ord_pair(*self).left_end()),
            end_views(r.right_end(), enum_ord_pair(*self).right_end()),
    {
        match self {
            EnumInterval::Finite(inner) => inner.ord_bound_pair(),
            EnumInterval::Half(inner) => inner.ord_bound_pair(),
            EnumInterval::Unbounded => {
                proof {
                    OrdBoundPair::<T>::lemma_ends(
                        enum_ord_pair(*self),
                        OrdBound::LeftUnbounded,
                        OrdBound::RightUnbounded,
                    );
                }
                OrdBoundPair::new_assume_valid(OrdBound::LeftUnbounded, OrdBound::RightUnbounded)
            },
        }
    }
}

/// The finite bound an ordered bound stands for; the side of an open kind
/// is dropped.
pub open spec fn ord_finite_bound<T: Element>(f: FiniteOrdBound<T>) -> FiniteBound<T> {
    FiniteBound::build(bound_type_of(f.1), f.0)
}

/// Whether an ordered bound pair describes an interval with at least one
/// element, or the empty marker: ends on their proper sides, and finite
/// ends that admit an element.
pub open spec fn pair_converts<T: Element>(l: OrdBound<T>, r: OrdBound<T>) -> bool {
    match (l, r) {
        (OrdBound::LeftUnbounded, OrdBound::LeftUnbounded) => true,
        (OrdBound::LeftUnbounded, OrdBound::RightUnbounded) => true,
        (OrdBound::LeftUnbounded, OrdBound::Finite(b)) => b.1 != FiniteOrdBoundKind::LeftOpen
            && half_nonempty(Side::Right, ord_finite_bound(b)),
        (OrdBound::Finite(a), OrdBound::RightUnbounded) => a.1 != FiniteOrdBoundKind::RightOpen
            && half_nonempty(Side::Left, ord_finite_bound(a)),
        (OrdBound::Finite(a), OrdBound::Finite(b)) => a.1 != FiniteOrdBoundKind::RightOpen && b.1
            != FiniteOrdBoundKind::LeftOpen && pair_nonempty(
            ord_finite_bound(a),
            ord_finite_bound(b),
        ),
        _ => false,
    }
}

/// Whether interval `i` is the one the ordered ends `(l, r)` describe: the
/// same shape, with each finite end at the extreme element its bound admits.
pub open spec fn interval_of_pair<T: Element>(
    l: OrdBound<T>,
    r: OrdBound<T>,
    i: EnumInterval<T>,
) -> bool {
    match (l, r) {
        (OrdBound::LeftUnbounded, OrdBound::LeftUnbounded) => i.is_empty_spec(),
        (OrdBound::LeftUnbounded, OrdBound::RightUnbounded) => i is Unbounded,
        (OrdBound::LeftUnbounded, OrdBound::Finite(b)) => i is Half && i.left_end() is None
            && i.right_end() == Some(ord_finite_bound(b).inner_edge(Side::Right)),
        (OrdBound::Finite(a), OrdBound::RightUnbounded) => i is Half && i.right_end() is None
            && i.left_end() == Some(ord_finite_bound(a).inner_edge(Side::Left)),
        (OrdBound::Finite(a), OrdBound::Finite(b)) => i is Finite && !i.is_empty_spec()
            && i.left_end() == Some(ord_finite_bound(a).inner_edge(Side::Left)) && i.right_end()
            == Some(ord_finite_bound(b).inner_edge(Side::Right)),
        _ => false,
    }
}

/// The finite bound an ordered bound stands for, validated.
fn finite_bound_of<T: Element>(f: FiniteOrdBound<T>) -> (r: FiniteBound<T>)
    ensures
        r == ord_finite_bound(f),
{
    let r = FiniteBound::try_new(BoundType::from(f.1), f.0).unwrap();
    proof {
        FiniteBound::<T>::lemma_build(bound_type_of(f.1), f.0);
        FiniteBound::<T>::lemma_fields_determine(r, ord_finite_bound(f));
    }
    r
}

impl<T: Element> TryFrom<OrdBoundPair<T>> for EnumInterval<T> {
    type Error = Error;

    /// Rebuilds the interval an ordered bound pair describes, normalizing
    /// its bounds; a pair whose ends are misplaced or admit no element is
    /// `Err(InvalidBoundPair)`.
    fn try_from(value: OrdBoundPair<T>) -> (r: Result<Self, Error>)
        ensures
            r is Ok <==> pair_converts(value.left_end(), value.right_end()),
            r matches Ok(i) ==> interval_of_pair(value.left_end(), value.right_end(), i),
            r matches Err(e) ==> e == Error::InvalidBoundPair,
    {
        match value.into_raw() {
            (OrdBound::LeftUnbounded, OrdBound::LeftUnbounded) => Ok(EnumInterval::empty()),
            (OrdBound::LeftUnbounded, OrdBound::RightUnbounded) => Ok(EnumInterval::Unbounded),
            (OrdBound::LeftUnbounded, OrdBound::Finite(rhs)) => {
                if rhs.1 == FiniteOrdBoundKind::LeftOpen {
                    return Err(Error::InvalidBoundPair);
                }
                match HalfInterval::try_new(Side::Right, finite_bound_of(rhs)) {
                    Ok(h) => Ok(EnumInterval::Half(h)),
                    Err(e) => Err(e),
                }
            },
            (OrdBound::Finite(lhs), OrdBound::RightUnbounded) => {
                if lhs.1 == FiniteOrdBoundKind::RightOpen {
                    return Err(Error::InvalidBoundPair);
                }
                match HalfInterval::try_new(Side::Left, finite_bound_of(lhs)) {
                    Ok(h) => Ok(EnumInterval::Half(h)),
                    Err(e) => Err(e),
                }
            },
            (OrdBound::Finite(lhs), OrdBound::Finite(rhs)) => {
                if lhs.1 == FiniteOrdBoundKind::RightOpen || rhs.1 == FiniteOrdBoundKind::LeftOpen {
                    return Err(Error::InvalidBoundPair);
                }
                match FiniteInterval::try_new(finite_bound_of(lhs), finite_bound_of(rhs)) {
                    Ok(f) => Ok(EnumInterval::Finite(f)),
                    Err(e) => Err(e),
                }
            },
            _ => Err(Error::InvalidBoundPair),
        }
    }
}

impl<T: Element> vstd::std_specs::convert::TryFromSpecImpl<OrdBoundPair<T>> for EnumInterval<T> {
    /// The result is stated by the impl's own contract, over the shape and
    /// ends of the interval.
    open spec fn obeys_try_from_spec() -> bool {
        false
    }

    /// A placeholder that nothing relies on: `obeys_try_from_spec` is false,
    /// so callers learn the result only from `try_from`'s own contract.
    open spec fn try_from_spec(v: OrdBoundPair<T>) -> Result<Self, Error> {
        Err(Error::InvalidBoundPair)
    }
}

/// Converting an interval to its ordered bound pair and back gives back the
/// same interval: the pair always converts, and describes exactly the
/// interval's shape and ends.
pub proof fn lemma_ord_pair_round_trip<T: Element>(i: EnumInterval<T>)
    requires
        i.wf(),
    ensures
        pair_converts(enum_ord_pair(i).left_end(), enum_ord_pair(i).right_end()),
        interval_of_pair(enum_ord_pair(i).left_end(), enum_ord_pair(i).right_end(), i),
{
    match i {
        EnumInterval::Finite(f) => {
            match f.bounds() {
                None => {
                    OrdBoundPair::<T>::lemma_ends(
                        enum_ord_pair(i),
                        OrdBound::LeftUnbounded,
                        OrdBound::LeftUnbounded,
                    );
                },
                Some((l, r)) => {
                    OrdBoundPair::<T>::lemma_ends(
                        enum_ord_pair(i),
                        ord_view(l, Side::Left),
                        ord_view(r, Side::Right),
                    );
                    FiniteBound::<T>::lemma_build(BoundType::Closed, l.limit());
                    FiniteBound::<T>::lemma_build(BoundType::Closed, r.limit());
                },
            }
        },
        EnumInterval::Half(h) => {
            let b = h.bound_spec();
            let v = ord_view(b, h.side_spec());
            OrdBoundPair::<T>::lemma_ends(enum_ord_pair(i), v, OrdBound::RightUnbounded);
            OrdBoundPair::<T>::lemma_ends(enum_ord_pair(i), OrdBound::LeftUnbounded, v);
            FiniteBound::<T>::lemma_build(BoundType::Closed, b.limit());
            T::lemma_as_int(b.limit());
        },
        EnumInterval::Unbounded => {
            OrdBoundPair::<T>::lemma_ends(
                enum_ord_pair(i),
                OrdBound::LeftUnbounded,
                OrdBound::RightUnbounded,
            );
        },
    }
}

/// `start..`: its public `start` field is read directly.
#[verifier::external_type_specification]
#[verifier::reject_recursive_types(Idx)]
pub struct ExRangeFrom<Idx>(RangeFrom<Idx>);

/// `..=end`: its public `end` field is read directly.
#[verifier::external_type_specification]
#[verifier::reject_recursive_types(Idx)]
pub struct ExRangeToInclusive<Idx>(RangeToInclusive<Idx>);

/// `..`: a unit struct.
#[verifier::external_type_specification]
pub struct ExRangeFull(RangeFull);

/// `..end`: its public `end` field is read directly.
#[verifier::external_type_specification]
#[verifier::reject_recursive_types(Idx)]
pub struct ExRangeTo<Idx>(RangeTo<Idx>);

/// The half interval on `side` of the closed bound at `v`.
fn closed_half<T: Element>(side: Side, v: T) -> (r: HalfInterval<T>)
    ensures
        r == HalfInterval::from_parts(side, FiniteBound::build(BoundType::Closed, v)),
        r@ == half_set::<T>(side, v.as_int()),
{
    proof {
        T::lemma_as_int(v);
    }
    let r = HalfInterval::new(side, FiniteBound::closed(v));
    proof {
        FiniteBound::<T>::lemma_build(BoundType::Closed, v);
        T::lemma_as_int_injective(r.bound_spec().limit(), v);
        FiniteBound::<T>::lemma_fields_determine(
            r.bound_spec(),
            FiniteBound::build(BoundType::Closed, v),
        );
        HalfInterval::lemma_from_parts(r);
        assert(r@ =~= half_set::<T>(side, v.as_int()));
    }
    r
}

impl<T: Element> From<RangeFrom<T>> for HalfInterval<T> {
    /// `start..` is `[start, ->)`.
    fn from(value: RangeFrom<T>) -> (r: Self)
        ensures
            r@ == half_set::<T>(Side::Left, value.start.as_int()),
    {
        closed_half(Side::Left, value.start)
    }
}

impl<T: Element> vstd::std_specs::convert::FromSpecImpl<RangeFrom<T>> for HalfInterval<T> {
    open spec fn obeys_from_spec() -> bool {
        true
    }

    open spec fn from_spec(v: RangeFrom<T>) -> Self {
        HalfInterval::from_parts(Side::Left, FiniteBound::build(BoundType::Closed, v.start))
    }
}

impl<T: Element> From<RangeToInclusive<T>> for HalfInterval<T> {
    /// `..=end` is `(<-, end]`.
    fn from(value: RangeToInclusive<T>) -> (r: Self)
        ensures
            r@ == half_set::<T>(Side::Right, value.end.as_int()),
    {
        closed_half(Side::Right, value.end)
    }
}

impl<T: Element> vstd::std_specs::convert::FromSpecImpl<RangeToInclusive<T>> for HalfInterval<T> {
    open spec fn obeys_from_spec() -> bool {
        true
    }

    open spec fn from_spec(v: RangeToInclusive<T>) -> Self {
        HalfInterval::from_parts(Side::Right, FiniteBound::build(BoundType::Closed, v.end))
    }
}

impl<T: Element> From<RangeFrom<T>> for EnumInterval<T> {
    /// `start..` is `[start, ->)`.
    fn from(value: RangeFrom<T>) -> (r: Self)
        ensures
            r@ == half_set::<T>(Side::Left, value.start.as_int()),
    {
        EnumInterval::Half(closed_half(Side::Left, value.start))
    }
}

impl<T: Element> vstd::std_specs::convert::FromSpecImpl<RangeFrom<T>> for EnumInterval<T> {
    open spec fn obeys_from_spec() -> bool {
        true
    }

    open spec fn from_spec(v: RangeFrom<T>) -> Self {
        EnumInterval::Half(
            HalfInterval::from_parts(Side::Left, FiniteBound::build(BoundType::Closed, v.start)),
        )
    }
}

impl<T: Element> From<RangeToInclusive<T>> for EnumInterval<T> {
    /// `..=end` is `(<-, end]`.
    fn from(value: RangeToInclusive<T>) -> (r: Self)
        ensures
            r@ == half_set::<T>(Side::Right, value.end.as_int()),
    {
        EnumInterval::Half(closed_half(Side::Right, value.end))
    }
}

impl<T: Element> vstd::std_specs::convert::FromSpecImpl<RangeToInclusive<T>> for EnumInterval<T> {
    open spec fn obeys_from_spec() -> bool {
        true
    }

    open spec fn from_spec(v: RangeToInclusive<T>) -> Self {
        EnumInterval::Half(
            HalfInterval::from_parts(Side::Right, FiniteBound::build(BoundType::Closed, v.end)),
        )
    }
}

impl<T: Element> TryFrom<RangeTo<T>> for HalfInterval<T> {
    type Error = Error;

    /// `..end` is `(<-, end)`, stored as `(<-, end - 1]`;
    /// `Err(InvalidBoundPair)` when `end` is the least value, so that the
    /// half-line holds no element.
    fn try_from(value: RangeTo<T>) -> (r: Result<Self, Error>) {
        let end = value.end;
        if end.less_or_equal(&T::min_value()) {
            return Err(Error::InvalidBoundPair);
        }
        proof {
            T::lemma_as_int(end);
        }
        let r = HalfInterval::new(Side::Right, FiniteBound::open(end));
        proof {
            FiniteBound::<T>::lemma_build(BoundType::Closed, T::from_int(end.as_int() - 1));
            T::lemma_from_int_value(end.as_int() - 1);
            T::lemma_as_int_injective(r.bound_spec().limit(), T::from_int(end.as_int() - 1));
            FiniteBound::<T>::lemma_fields_determine(
                r.bound_spec(),
                FiniteBound::build(BoundType::Closed, T::from_int(end.as_int() - 1)),
            );
            HalfInterval::lemma_from_parts(r);
        }
        Ok(r)
    }
}

impl<T: Element> vstd::std_specs::convert::TryFromSpecImpl<RangeTo<T>> for HalfInterval<T> {
    open spec fn obeys_try_from_spec() -> bool {
        true
    }

    open spec fn try_from_spec(v: RangeTo<T>) -> Result<Self, Error> {
        if T::min_int() < v.end.as_int() {
            Ok(
                HalfInterval::from_parts(
                    Side::Right,
                    FiniteBound::build(BoundType::Closed, T::from_int(v.end.as_int() - 1)),
                ),
            )
        } else {
            Err(Error::InvalidBoundPair)
        }
    }
}

impl<T: Element> From<RangeTo<T>> for EnumInterval<T> {
    /// `..end` is `(<-, end)`: the half-line below `end`, or the empty set
    /// when `end` is the least value and nothing lies below it.
    fn from(value: RangeTo<T>) -> (r: Self) {
        match HalfInterval::try_from(value) {
            Ok(h) => EnumInterval::Half(h),
            Err(_) => EnumInterval::Finite(FiniteInterval::empty()),
        }
    }
}

impl<T: Element> vstd::std_specs::convert::FromSpecImpl<RangeTo<T>> for EnumInterval<T> {
    open spec fn obeys_from_spec() -> bool {
        true
    }

    open spec fn from_spec(v: RangeTo<T>) -> Self {
        if T::min_int() < v.end.as_int() {
            EnumInterval::Half(
                HalfInterval::from_parts(
                    Side::Right,
                    FiniteBound::build(BoundType::Closed, T::from_int(v.end.as_int() - 1)),
                ),
            )
        } else {
            EnumInterval::Finite(FiniteInterval::from_range(1, 0))
        }
    }
}

impl<T: Element> From<RangeFull> for EnumInterval<T> {
    /// `..` is every element.
    fn from(value: RangeFull) -> (r: Self)
        ensures
            r@ == range_set(T::min_int(), T::max_int()),
    {
        EnumInterval::Unbounded
    }
}

impl<T: Element> vstd::std_specs::convert::FromSpecImpl<RangeFull> for EnumInterval<T> {
    open spec fn obeys_from_spec() -> bool {
        true
    }

    open spec fn from_spec(v: RangeFull) -> Self {
        EnumInterval::Unbounded
    }
}

/// `RangeInclusive::into_inner`: the range's start and end.
#[verifier::external_body]
fn range_inclusive_ends<T>(range: RangeInclusive<T>) -> (r: (T, T))
    ensures
        r.0 == range@.start,
        r.1 == range@.end,
{
    range.into_inner()
}

impl<T: Element> From<Range<T>> for FiniteInterval<T> {
    /// `start..end` is `[start, end)`; a reversed or empty range gives the
    /// empty set.
    fn from(value: Range<T>) -> (r: Self)
        ensures
            r@ == range_set(value.start.as_int(), value.end.as_int() - 1),
    {
        let r = FiniteInterval::satisfy_bounds(
            FiniteBound::closed(value.start),
            FiniteBound::open(value.end),
        );
        proof {
            use_type_invariant(&r);
            T::lemma_as_int(value.start);
            T::lemma_as_int(value.end);
            FiniteInterval::lemma_from_view(r, value.start.as_int(), value.end.as_int() - 1);
        }
        r
    }
}

impl<T: Element> vstd::std_specs::convert::FromSpecImpl<Range<T>> for FiniteInterval<T> {
    open spec fn obeys_from_spec() -> bool {
        true
    }

    open spec fn from_spec(v: Range<T>) -> Self {
        FiniteInterval::from_range(v.start.as_int(), v.end.as_int() - 1)
    }
}

impl<T: Element> From<RangeInclusive<T>> for FiniteInterval<T> {
    /// `start..=end` is `[start, end]`; a reversed range gives the empty set.
    fn from(value: RangeInclusive<T>) -> (r: Self)
        ensures
            r@ == range_set(value@.start.as_int(), value@.end.as_int()),
    {
        let (start, end) = range_inclusive_ends(value);
        let r = FiniteInterval::satisfy_bounds(FiniteBound::closed(start), FiniteBound::closed(end));
        proof {
            use_type_invariant(&r);
            T::lemma_as_int(start);
            T::lemma_as_int(end);
            FiniteInterval::lemma_from_view(r, start.as_int(), end.as_int());
        }
        r
    }
}

impl<T: Element> vstd::std_specs::convert::FromSpecImpl<RangeInclusive<T>> for FiniteInterval<T> {
    open spec fn obeys_from_spec() -> bool {
        true
    }

    open spec fn from_spec(v: RangeInclusive<T>) -> Self {
        FiniteInterval::from_range(v@.start.as_int(), v@.end.as_int())
    }
}

impl<T: Element> From<Range<T>> for EnumInterval<T> {
    /// `start..end` as a finite interval.
    fn from(value: Range<T>) -> (r: Self)
        ensures
            r is Finite,
            r@ == range_set(value.start.as_int(), value.end.as_int() - 1),
    {
        EnumInterval::Finite(FiniteInterval::from(value))
    }
}

impl<T: Element> vstd::std_specs::convert::FromSpecImpl<Range<T>> for EnumInterval<T> {
    open spec fn obeys_from_spec() -> bool {
        true
    }

    open spec fn from_spec(v: Range<T>) -> Self {
        EnumInterval::Finite(FiniteInterval::from_range(v.start.as_int(), v.end.as_int() - 1))
    }
}

impl<T: Element> From<RangeInclusive<T>> for EnumInterval<T> {
    /// `start..=end` as a finite interval.
    fn from(value: RangeInclusive<T>) -> (r: Self)
        ensures
            r is Finite,
            r@ == range_set(value@.start.as_int(), value@.end.as_int()),
    {
        EnumInterval::Finite(FiniteInterval::from(value))
    }
}

impl<T: Element> vstd::std_specs::convert::FromSpecImpl<RangeInclusive<T>> for EnumInterval<T> {
    open spec fn obeys_from_spec() -> bool {
        true
    }

    open spec fn from_spec(v: RangeInclusive<T>) -> Self {
        EnumInterval::Finite(FiniteInterval::from_range(v@.start.as_int(), v@.end.as_int()))
    }
}

/// Converting `start..=end` gives a finite interval holding exactly the
/// elements `x` with `start <= x <= end`: nothing when the range is
/// reversed. Converting `start..end` holds exactly those with
/// `start <= x < end`.
pub proof fn lemma_range_conversions<T: Element>(inc: RangeInclusive<T>, exc: Range<T>, x: int)
    ensures
        <EnumInterval<T> as FromSpec<RangeInclusive<T>>>::from_spec(inc) is Finite,
        <EnumInterval<T> as FromSpec<RangeInclusive<T>>>::from_spec(inc)@.contains(x) <==> (
        inc@.start.as_int() <= x && x <= inc@.end.as_int()),
        <FiniteInterval<T> as FromSpec<RangeInclusive<T>>>::from_spec(inc)@.contains(x) <==> (
        inc@.start.as_int() <= x && x <= inc@.end.as_int()),
        inc@.end.as_int() < inc@.start.as_int() ==> <EnumInterval<T> as FromSpec<
            RangeInclusive<T>,
        >>::from_spec(inc)@ == Set::<int>::empty(),
        <EnumInterval<T> as FromSpec<Range<T>>>::from_spec(exc) is Finite,
        <EnumInterval<T> as FromSpec<Range<T>>>::from_spec(exc)@.contains(x) <==> (
        exc.start.as_int() <= x && x < exc.end.as_int()),
        <FiniteInterval<T> as FromSpec<Range<T>>>::from_spec(exc)@.contains(x) <==> (
        exc.start.as_int() <= x && x < exc.end.as_int()),
        exc.end.as_int() <= exc.start.as_int() ==> <EnumInterval<T> as FromSpec<
            Range<T>,
        >>::from_spec(exc)@ == Set::<int>::empty(),
{
    T::lemma_as_int(inc@.start);
    T::lemma_as_int(inc@.end);
    T::lemma_as_int(exc.start);
    T::lemma_as_int(exc.end);
    FiniteInterval::<T>::lemma_from_range_view(inc@.start.as_int(), inc@.end.as_int());
    FiniteInterval::<T>::lemma_from_range_view(exc.start.as_int(), exc.end.as_int() - 1);
    if inc@.end.as_int() < inc@.start.as_int() {
        assert(<EnumInterval<T> as FromSpec<RangeInclusive<T>>>::from_spec(inc)@ =~= Set::<
            int,
        >::empty());
    }
    if exc.end.as_int() <= exc.start.as_int() {
        assert(<EnumInterval<T> as FromSpec<Range<T>>>::from_spec(exc)@ =~= Set::<int>::empty());
    }
}

/// Converting a pair `(a, b)` succeeds exactly when some `x` has
/// `a < x < b`, and then holds exactly those `x`; an array `[a, b]`
/// succeeds exactly when `a <= b` and holds the `x` with `a <= x <= b`.
/// `start..` holds every `x >= start`, `..=end` every `x <= end`, and `..end`
/// every `x < end` (nothing when `end` is the least value).
pub proof fn lemma_value_conversions<T: Element>(
    pair: (T, T),
    arr: [T; 2],
    from: RangeFrom<T>,
    upto: RangeToInclusive<T>,
    below: RangeTo<T>,
    x: int,
)
    requires
        T::min_int() <= x <= T::max_int(),
    ensures
        <FiniteInterval<T> as TryFromSpec<(T, T)>>::try_from_spec(pair) is Ok <==> pair.0.as_int()
            + 1 < pair.1.as_int(),
        <FiniteInterval<T> as TryFromSpec<(T, T)>>::try_from_spec(pair) matches Ok(f) ==> (
        f@.contains(x) <==> (pair.0.as_int() < x && x < pair.1.as_int())),
        <FiniteInterval<T> as TryFromSpec<[T; 2]>>::try_from_spec(arr) is Ok <==> arr@[0].as_int()
            <= arr@[1].as_int(),
        <FiniteInterval<T> as TryFromSpec<[T; 2]>>::try_from_spec(arr) matches Ok(f) ==> (
        f@.contains(x) <==> (arr@[0].as_int() <= x && x <= arr@[1].as_int())),
        <EnumInterval<T> as FromSpec<RangeFrom<T>>>::from_spec(from)@.contains(x) <==> from.start.as_int()
            <= x,
        <EnumInterval<T> as FromSpec<RangeToInclusive<T>>>::from_spec(upto)@.contains(x) <==> x
            <= upto.end.as_int(),
        <EnumInterval<T> as FromSpec<RangeTo<T>>>::from_spec(below)@.contains(x) <==> x
            < below.end.as_int(),
{
    T::lemma_as_int(pair.0);
    T::lemma_as_int(pair.1);
    T::lemma_as_int(arr@[0]);
    T::lemma_as_int(arr@[1]);
    T::lemma_as_int(from.start);
    T::lemma_as_int(upto.end);
    T::lemma_as_int(below.end);
    FiniteInterval::<T>::lemma_from_range_view(pair.0.as_int() + 1, pair.1.as_int() - 1);
    FiniteInterval::<T>::lemma_from_range_view(arr@[0].as_int(), arr@[1].as_int());
    FiniteInterval::<T>::lemma_from_range_view(1, 0);
    let bf = FiniteBound::<T>::build(BoundType::Closed, from.start);
    let bu = FiniteBound::<T>::build(BoundType::Closed, upto.end);
    let bb = FiniteBound::<T>::build(BoundType::Closed, T::from_int(below.end.as_int() - 1));
    FiniteBound::<T>::lemma_build(BoundType::Closed, from.start);
    FiniteBound::<T>::lemma_build(BoundType::Closed, upto.end);
    FiniteBound::<T>::lemma_build(BoundType::Closed, T::from_int(below.end.as_int() - 1));
    HalfInterval::<T>::lemma_parts(Side::Left, bf);
    HalfInterval::<T>::lemma_parts(Side::Right, bu);
    HalfInterval::<T>::lemma_parts(Side::Right, bb);
    if T::min_int() < below.end.as_int() {
        T::lemma_from_int_value(below.end.as_int() - 1);
    }
}

} // verus!
