//! The interval types: [`FiniteInterval`], [`HalfInterval`] and the enum of
//! all shapes, [`EnumInterval`].
//!
//! Every stored bound is in canonical closed form: an interval over a
//! discrete element type normalizes open bounds to the neighbouring closed
//! value, so each set has exactly one representation per shape. The set an
//! interval denotes is its view, a `Set<int>` of element values.
use vstd::prelude::*;

use crate::bound::{BoundType, FiniteBound, SetBounds, Side};
use crate::error::Error;
use crate::numeric::Element;
use crate::ops::Contains;

verus! {

/// The integers from `lo` to `hi`, inclusive.
pub open spec fn range_set(lo: int, hi: int) -> Set<int> {
    Set::new(|x: int| lo <= x <= hi)
}

/// A range of integers is finite, with `hi - lo + 1` elements when
/// non-empty.
pub proof fn lemma_range_set_len(lo: int, hi: int)
    ensures
        range_set(lo, hi).finite(),
        range_set(lo, hi).len() == (if lo <= hi {
            hi - lo + 1
        } else {
            0
        }),
{
    if lo <= hi {
        vstd::set_lib::lemma_int_range(lo, hi + 1);
        assert(range_set(lo, hi) =~= vstd::set_lib::set_int_range(lo, hi + 1));
    } else {
        assert(range_set(lo, hi) =~= Set::<int>::empty());
    }
}

/// Two non-empty ranges with the same elements have the same ends.
pub proof fn lemma_range_set_ends(a: int, b: int, c: int, d: int)
    requires
        a <= b,
        range_set(a, b) == range_set(c, d),
    ensures
        a == c,
        b == d,
{
    assert(range_set(a, b).contains(a));
    assert(range_set(a, b).contains(b));
    assert(range_set(c, d).contains(c));
    assert(range_set(c, d).contains(d));
}

/// Whether a pair of finite bounds, each valid for its side, describes an
/// interval with at least one element.
pub open spec fn pair_nonempty<T: Element>(lhs: FiniteBound<T>, rhs: FiniteBound<T>) -> bool {
    lhs.inner_edge(Side::Left) <= rhs.inner_edge(Side::Right)
}

/// A fully bounded interval: either the empty set or the closed range
/// between two closed bounds.
#[derive(Debug, Copy, PartialEq, Eq, Hash)]
pub struct FiniteInterval<T: Element> {
    bounds: Option<(FiniteBound<T>, FiniteBound<T>)>,
}

impl<T: Element> FiniteInterval<T> {
    /// The stored bound pair; `None` for the empty set.
    pub closed spec fn bounds(self) -> Option<(FiniteBound<T>, FiniteBound<T>)> {
        self.bounds
    }

    /// Canonical form: both bounds closed, in order.
    #[verifier::type_invariant]
    pub open spec fn wf(self) -> bool {
        match self.bounds() {
            None => true,
            Some((l, r)) => l.kind() == BoundType::Closed && r.kind() == BoundType::Closed
                && l.lim() <= r.lim(),
        }
    }

    /// Whether this is the empty set.
    pub open spec fn is_empty_spec(self) -> bool {
        self.bounds() is None
    }

    /// The least element (meaningful when non-empty).
    pub open spec fn lo(self) -> int {
        self.bounds().unwrap().0.lim()
    }

    /// The greatest element (meaningful when non-empty).
    pub open spec fn hi(self) -> int {
        self.bounds().unwrap().1.lim()
    }

    /// Two finite intervals with the same bounds are the same value.
    pub proof fn lemma_bounds_determine(a: Self, b: Self)
        ensures
            a.bounds() == b.bounds() ==> a == b,
    {
    }

    /// The canonical interval holding `[lo, hi]` (empty when `lo > hi`), as
    /// a value.
    pub closed spec fn from_range(lo: int, hi: int) -> Self {
        if lo <= hi {
            FiniteInterval {
                bounds: Some(
                    (
                        FiniteBound::build(BoundType::Closed, T::from_int(lo)),
                        FiniteBound::build(BoundType::Closed, T::from_int(hi)),
                    ),
                ),
            }
        } else {
            FiniteInterval { bounds: None }
        }
    }

    /// `from_range(lo, hi)` holds exactly `lo..=hi`, in canonical form.
    pub proof fn lemma_from_range_view(lo: int, hi: int)
        requires
            lo <= hi ==> T::min_int() <= lo && hi <= T::max_int(),
        ensures
            Self::from_range(lo, hi).wf(),
            Self::from_range(lo, hi)@ == range_set(lo, hi),
    {
        if lo <= hi {
            T::lemma_from_int_value(lo);
            T::lemma_from_int_value(hi);
            FiniteBound::<T>::lemma_build(BoundType::Closed, T::from_int(lo));
            FiniteBound::<T>::lemma_build(BoundType::Closed, T::from_int(hi));
        }
        assert(Self::from_range(lo, hi)@ =~= range_set(lo, hi));
    }

    /// Every interval in canonical form is the `from_range` of its ends:
    /// a set has exactly one representation.
    pub proof fn lemma_canonical(i: Self)
        requires
            i.wf(),
        ensures
            i.is_empty_spec() ==> i == Self::from_range(1, 0),
            !i.is_empty_spec() ==> i == Self::from_range(i.lo(), i.hi()),
    {
        if let Some((l, r)) = i.bounds() {
            T::lemma_from_int(l.limit());
            T::lemma_from_int(r.limit());
            FiniteBound::<T>::lemma_build(BoundType::Closed, l.limit());
            FiniteBound::<T>::lemma_build(BoundType::Closed, r.limit());
            FiniteBound::<T>::lemma_fields_determine(
                l,
                FiniteBound::build(BoundType::Closed, l.limit()),
            );
            FiniteBound::<T>::lemma_fields_determine(
                r,
                FiniteBound::build(BoundType::Closed, r.limit()),
            );
        }
    }

    /// An interval in canonical form holding exactly `[lo, hi]` (within the
    /// representable range) is `from_range(lo, hi)`.
    pub proof fn lemma_from_view(i: Self, lo: int, hi: int)
        requires
            i.wf(),
            i@ == range_set(lo, hi),
            lo <= hi ==> T::min_int() <= lo && hi <= T::max_int(),
        ensures
            i == Self::from_range(lo, hi),
    {
        Self::lemma_canonical(i);
        if lo <= hi {
            assert(i@.contains(lo));
            lemma_range_set_ends(lo, hi, i.lo(), i.hi());
        } else if !i.is_empty_spec() {
            assert(i@.contains(i.lo()));
        }
    }

    /// Two intervals in canonical form with the same elements are the same
    /// value.
    pub proof fn lemma_view_determines(a: Self, b: Self)
        requires
            a.wf(),
            b.wf(),
            a@ == b@,
        ensures
            a == b,
    {
        Self::lemma_canonical(a);
        Self::lemma_canonical(b);
        if !a.is_empty_spec() {
            assert(a@.contains(a.lo()));
        }
        if !b.is_empty_spec() {
            assert(b@.contains(b.lo()));
        }
        if !a.is_empty_spec() && !b.is_empty_spec() {
            lemma_range_set_ends(a.lo(), a.hi(), b.lo(), b.hi());
        }
    }

    /// Returns the empty set.
    pub fn empty() -> (r: Self)
        ensures
            r.bounds() is None,
            r == Self::from_range(1, 0),
            r@ == Set::<int>::empty(),
    {
        FiniteInterval { bounds: None }
    }

    /// Constructs an interval from a canonical bound pair without checking.
    pub fn new_assume_valid(lhs: FiniteBound<T>, rhs: FiniteBound<T>) -> (r: Self)
        requires
            lhs.kind() == BoundType::Closed,
            rhs.kind() == BoundType::Closed,
            lhs.lim() <= rhs.lim(),
        ensures
            r.bounds() == Some((lhs, rhs)),
    {
        FiniteInterval { bounds: Some((lhs, rhs)) }
    }

    /// Strict constructor: normalizes both bounds to closed form and returns
    /// `Err(InvalidBoundPair)` when no element satisfies both of them.
    pub fn try_new(lhs: FiniteBound<T>, rhs: FiniteBound<T>) -> (r: Result<Self, Error>)
        ensures
            r is Ok <==> pair_nonempty(lhs, rhs),
            r matches Ok(i) ==> i.bounds() matches Some((l, rr)) && l.lim() == lhs.inner_edge(
                Side::Left,
            ) && rr.lim() == rhs.inner_edge(Side::Right),
            r matches Ok(i) ==> i@ == range_set(
                lhs.inner_edge(Side::Left),
                rhs.inner_edge(Side::Right),
            ),
            r matches Err(e) ==> e == Error::InvalidBoundPair,
    {
        proof {
            T::lemma_as_int(lhs.limit());
            T::lemma_as_int(rhs.limit());
        }
        let l = lhs.normalized(Side::Left);
        let r = rhs.normalized(Side::Right);
        if l.is_closed() && r.is_closed() && l.value().less_or_equal(r.value()) {
            Ok(FiniteInterval { bounds: Some((l, r)) })
        } else {
            Err(Error::InvalidBoundPair)
        }
    }

    /// Strict constructor: the interval of the elements both bounds admit,
    /// in canonical form. The bounds must admit an element.
    pub fn new(lhs: FiniteBound<T>, rhs: FiniteBound<T>) -> (r: Self)
        requires
            pair_nonempty(lhs, rhs),
        ensures
            r.bounds() matches Some((l, rr)) && l.lim() == lhs.inner_edge(Side::Left) && rr.lim()
                == rhs.inner_edge(Side::Right),
            r@ == range_set(lhs.inner_edge(Side::Left), rhs.inner_edge(Side::Right)),
    {
        Self::try_new(lhs, rhs).unwrap()
    }

    /// Unpacks into the bound pair; `None` for the empty set.
    pub fn into_raw(self) -> (r: Option<(FiniteBound<T>, FiniteBound<T>)>)
        ensures
            r == self.bounds(),
            self.wf(),
    {
        proof {
            use_type_invariant(&self);
        }
        self.bounds
    }

    /// References to the bound pair; `None` for the empty set.
    pub fn view_raw(&self) -> (r: Option<(&FiniteBound<T>, &FiniteBound<T>)>)
        ensures
            r is None <==> self.bounds() is None,
            r matches Some((l, rr)) ==> self.bounds() == Some((*l, *rr)),
            self.wf(),
    {
        proof {
            use_type_invariant(self);
        }
        match &self.bounds {
            None => None,
            Some((l, r)) => Some((l, r)),
        }
    }
}

impl<T: Element> Contains<T> for FiniteInterval<T> {
    /// Test whether `value` is an element of this set.
    fn contains(&self, value: &T) -> (r: bool)
        ensures
            r == self@.contains(value.as_int()),
    {
        proof {
            use_type_invariant(self);
        }
        match &self.bounds {
            None => false,
            Some((l, r)) => l.value().less_or_equal(value) && value.less_or_equal(r.value()),
        }
    }
}

impl<T: Element> Clone for FiniteInterval<T> {
    fn clone(&self) -> (r: Self)
        ensures
            r == *self,
    {
        *self
    }
}

impl<T: Element> View for FiniteInterval<T> {
    type V = Set<int>;

    open spec fn view(&self) -> Set<int> {
        match self.bounds() {
            None => Set::empty(),
            Some((l, r)) => range_set(l.lim(), r.lim()),
        }
    }
}

impl<T: Element> SetBounds<T> for FiniteInterval<T> {
    fn bound(&self, side: Side) -> (r: Option<&FiniteBound<T>>)
        ensures
            r is Some <==> self.bounds() is Some,
            r matches Some(b) ==> *b == match side {
                Side::Left => self.bounds().unwrap().0,
                Side::Right => self.bounds().unwrap().1,
            },
    {
        match &self.bounds {
            None => None,
            Some((l, r)) => Some(side.select(l, r)),
        }
    }

    fn left(&self) -> (r: Option<&FiniteBound<T>>)
        ensures
            r is Some <==> self.bounds() is Some,
            r matches Some(b) ==> *b == self.bounds().unwrap().0,
    {
        self.bound(Side::Left)
    }

    fn right(&self) -> (r: Option<&FiniteBound<T>>)
        ensures
            r is Some <==> self.bounds() is Some,
            r matches Some(b) ==> *b == self.bounds().unwrap().1,
    {
        self.bound(Side::Right)
    }

    fn lval(&self) -> (r: Option<&T>)
        ensures
            r is Some <==> self.bounds() is Some,
            r matches Some(v) ==> *v == self.bounds().unwrap().0.limit(),
    {
        match self.left() {
            None => None,
            Some(b) => Some(b.value()),
        }
    }

    fn rval(&self) -> (r: Option<&T>)
        ensures
            r is Some <==> self.bounds() is Some,
            r matches Some(v) ==> *v == self.bounds().unwrap().1.limit(),
    {
        match self.right() {
            None => None,
            Some(b) => Some(b.value()),
        }
    }
}

/// A half-bounded interval: every element on the `side` of one closed
/// bound. It always holds at least its limit.
#[derive(Debug, Copy, PartialEq, Eq, Hash)]
pub struct HalfInterval<T: Element> {
    side: Side,
    bound: FiniteBound<T>,
}

impl<T: Element> HalfInterval<T> {
    /// The side of the bound that holds the elements.
    pub closed spec fn side_spec(self) -> Side {
        self.side
    }

    /// The stored bound.
    pub closed spec fn bound_spec(self) -> FiniteBound<T> {
        self.bound
    }

    /// Canonical form: the bound is closed.
    #[verifier::type_invariant]
    pub open spec fn wf(self) -> bool {
        self.bound_spec().kind() == BoundType::Closed
    }

    /// The least element.
    pub open spec fn lo(self) -> int {
        match self.side_spec() {
            Side::Left => self.bound_spec().lim(),
            Side::Right => T::min_int(),
        }
    }

    /// The greatest element.
    pub open spec fn hi(self) -> int {
        match self.side_spec() {
            Side::Left => T::max_int(),
            Side::Right => self.bound_spec().lim(),
        }
    }

    /// The half interval holding the `side` of `bound`, as a value.
    pub closed spec fn from_parts(side: Side, bound: FiniteBound<T>) -> Self {
        HalfInterval { side, bound }
    }

    /// `from_parts` keeps the side and the bound it is given.
    pub proof fn lemma_parts(side: Side, bound: FiniteBound<T>)
        ensures
            Self::from_parts(side, bound).side_spec() == side,
            Self::from_parts(side, bound).bound_spec() == bound,
    {
    }

    /// A half interval is the value built from its side and its bound.
    pub proof fn lemma_from_parts(h: Self)
        ensures
            h == Self::from_parts(h.side_spec(), h.bound_spec()),
    {
    }

    /// Two half intervals with the same side and bound are the same value.
    pub proof fn lemma_fields_determine(a: Self, b: Self)
        ensures
            (a.side_spec() == b.side_spec() && a.bound_spec() == b.bound_spec()) ==> a == b,
    {
    }

    /// Two half intervals on the same side with the same elements are the
    /// same value.
    pub proof fn lemma_view_determines(a: Self, b: Self)
        requires
            a.wf(),
            b.wf(),
            a.side_spec() == b.side_spec(),
            a@ == b@,
        ensures
            a == b,
    {
        T::lemma_as_int(a.bound_spec().limit());
        T::lemma_as_int(b.bound_spec().limit());
        lemma_range_set_ends(a.lo(), a.hi(), b.lo(), b.hi());
        T::lemma_as_int_injective(a.bound_spec().limit(), b.bound_spec().limit());
        FiniteBound::<T>::lemma_fields_determine(a.bound_spec(), b.bound_spec());
    }

    /// Constructs a half interval from a closed bound without checking.
    pub fn new_assume_valid(side: Side, bound: FiniteBound<T>) -> (r: Self)
        requires
            bound.kind() == BoundType::Closed,
        ensures
            r.side_spec() == side,
            r.bound_spec() == bound,
    {
        HalfInterval { side, bound }
    }

    /// Strict constructor: normalizes the bound to closed form and returns
    /// `Err(InvalidBoundPair)` when the half-line holds no element (an open
    /// bound at the extreme value on its own side).
    pub fn try_new(side: Side, bound: FiniteBound<T>) -> (r: Result<Self, Error>)
        ensures
            r is Ok <==> T::min_int() <= bound.inner_edge(side) <= T::max_int(),
            r matches Ok(h) ==> h.side_spec() == side && h.bound_spec().kind() == BoundType::Closed
                && h.bound_spec().lim() == bound.inner_edge(side),
            r matches Err(e) ==> e == Error::InvalidBoundPair,
    {
        proof {
            T::lemma_as_int(bound.limit());
        }
        let b = bound.normalized(side);
        if b.is_closed() {
            Ok(HalfInterval { side, bound: b })
        } else {
            Err(Error::InvalidBoundPair)
        }
    }

    /// Constructs a half interval; the half-line must hold an element.
    pub fn new(side: Side, bound: FiniteBound<T>) -> (r: Self)
        requires
            T::min_int() <= bound.inner_edge(side) <= T::max_int(),
        ensures
            r.side_spec() == side,
            r.bound_spec().kind() == BoundType::Closed,
            r.bound_spec().lim() == bound.inner_edge(side),
    {
        match Self::try_new(side, bound) {
            Ok(h) => h,
            Err(_) => {
                proof {
                    assert(false);
                }
                HalfInterval { side, bound: FiniteBound::closed(*bound.value()) }
            },
        }
    }

    /// The left-bounded interval `[a, ->)` or `(a, ->)`.
    pub fn left(bound: FiniteBound<T>) -> (r: Self)
        requires
            T::min_int() <= bound.inner_edge(Side::Left) <= T::max_int(),
        ensures
            r.side_spec() == Side::Left,
            r.bound_spec().kind() == BoundType::Closed,
            r.bound_spec().lim() == bound.inner_edge(Side::Left),
    {
        Self::new(Side::Left, bound)
    }

    /// The right-bounded interval `(<-, b]` or `(<-, b)`.
    pub fn right(bound: FiniteBound<T>) -> (r: Self)
        requires
            T::min_int() <= bound.inner_edge(Side::Right) <= T::max_int(),
        ensures
            r.side_spec() == Side::Right,
            r.bound_spec().kind() == BoundType::Closed,
            r.bound_spec().lim() == bound.inner_edge(Side::Right),
    {
        Self::new(Side::Right, bound)
    }

    /// The side of the bound that holds the elements.
    pub fn side(&self) -> (r: Side)
        ensures
            r == self.side_spec(),
    {
        self.side
    }

    /// A reference to the bound.
    pub fn finite_bound(&self) -> (r: &FiniteBound<T>)
        ensures
            *r == self.bound_spec(),
            r.kind() == BoundType::Closed,
    {
        proof {
            use_type_invariant(self);
        }
        &self.bound
    }

    /// Unpacks into the side and the bound.
    pub fn into_raw(self) -> (r: (Side, FiniteBound<T>))
        ensures
            r == (self.side_spec(), self.bound_spec()),
            r.1.kind() == BoundType::Closed,
    {
        proof {
            use_type_invariant(&self);
        }
        (self.side, self.bound)
    }
}

impl<T: Element> Contains<T> for HalfInterval<T> {
    /// Test whether `value` is an element of this set.
    fn contains(&self, value: &T) -> (r: bool)
        ensures
            r == self@.contains(value.as_int()),
    {
        proof {
            use_type_invariant(self);
            T::lemma_as_int(*value);
        }
        self.bound.contains_assume_valid(self.side, value)
    }
}

impl<T: Element> Clone for HalfInterval<T> {
    fn clone(&self) -> (r: Self)
        ensures
            r == *self,
    {
        *self
    }
}

impl<T: Element> View for HalfInterval<T> {
    type V = Set<int>;

    open spec fn view(&self) -> Set<int> {
        range_set(self.lo(), self.hi())
    }
}

impl<T: Element> SetBounds<T> for HalfInterval<T> {
    fn bound(&self, side: Side) -> (r: Option<&FiniteBound<T>>)
        ensures
            r is Some <==> side == self.side_spec(),
            r matches Some(b) ==> *b == self.bound_spec(),
    {
        if side == self.side {
            Some(&self.bound)
        } else {
            None
        }
    }

    fn left(&self) -> (r: Option<&FiniteBound<T>>)
        ensures
            r is Some <==> self.side_spec() == Side::Left,
            r matches Some(b) ==> *b == self.bound_spec(),
    {
        self.bound(Side::Left)
    }

    fn right(&self) -> (r: Option<&FiniteBound<T>>)
        ensures
            r is Some <==> self.side_spec() == Side::Right,
            r matches Some(b) ==> *b == self.bound_spec(),
    {
        self.bound(Side::Right)
    }

    fn lval(&self) -> (r: Option<&T>)
        ensures
            r is Some <==> self.side_spec() == Side::Left,
            r matches Some(v) ==> *v == self.bound_spec().limit(),
    {
        match self.left() {
            None => None,
            Some(b) => Some(b.value()),
        }
    }

    fn rval(&self) -> (r: Option<&T>)
        ensures
            r is Some <==> self.side_spec() == Side::Right,
            r matches Some(v) ==> *v == self.bound_spec().limit(),
    {
        match self.right() {
            None => None,
            Some(b) => Some(b.value()),
        }
    }
}

/// Any interval: finite (possibly empty), half-bounded or unbounded.
#[derive(Debug, Copy, Clone, PartialEq, Eq, Hash)]
pub enum EnumInterval<T: Element> {
    /// A fully bounded interval or the empty set.
    Finite(FiniteInterval<T>),
    /// A half-bounded interval.
    Half(HalfInterval<T>),
    /// Every element of the type.
    Unbounded,
}

impl<T: Element> EnumInterval<T> {
    /// Whether this is the empty set.
    pub open spec fn is_empty_spec(self) -> bool {
        self matches EnumInterval::Finite(f) && f.is_empty_spec()
    }

    /// The finite left end, or `None` when unbounded on the left.
    pub open spec fn left_end(self) -> Option<int> {
        match self {
            EnumInterval::Finite(f) => if f.is_empty_spec() {
                None
            } else {
                Some(f.lo())
            },
            EnumInterval::Half(h) => match h.side_spec() {
                Side::Left => Some(h.lo()),
                Side::Right => None,
            },
            EnumInterval::Unbounded => None,
        }
    }

    /// The finite right end, or `None` when unbounded on the right.
    pub open spec fn right_end(self) -> Option<int> {
        match self {
            EnumInterval::Finite(f) => if f.is_empty_spec() {
                None
            } else {
                Some(f.hi())
            },
            EnumInterval::Half(h) => match h.side_spec() {
                Side::Left => None,
                Side::Right => Some(h.hi()),
            },
            EnumInterval::Unbounded => None,
        }
    }

    /// The least element (meaningful when non-empty).
    pub open spec fn lo(self) -> int {
        match self.left_end() {
            Some(v) => v,
            None => T::min_int(),
        }
    }

    /// The greatest element (meaningful when non-empty).
    pub open spec fn hi(self) -> int {
        match self.right_end() {
            Some(v) => v,
            None => T::max_int(),
        }
    }

    /// Canonical form of the inner interval.
    pub open spec fn wf(self) -> bool {
        match self {
            EnumInterval::Finite(f) => f.wf(),
            EnumInterval::Half(h) => h.wf(),
            EnumInterval::Unbounded => true,
        }
    }

    /// Two intervals of the same shape with the same elements are the same
    /// value: each set has one representation per shape.
    pub proof fn lemma_view_determines(a: Self, b: Self)
        requires
            a.wf(),
            b.wf(),
            a is Finite <==> b is Finite,
            a is Unbounded <==> b is Unbounded,
            a is Half ==> b is Half && a->Half_0.side_spec() == b->Half_0.side_spec(),
            a@ == b@,
        ensures
            a == b,
    {
        match (a, b) {
            (EnumInterval::Finite(x), EnumInterval::Finite(y)) => {
                FiniteInterval::lemma_view_determines(x, y);
            },
            (EnumInterval::Half(x), EnumInterval::Half(y)) => {
                HalfInterval::lemma_view_determines(x, y);
            },
            _ => {},
        }
    }

    /// Returns the empty set.
    pub fn empty() -> (r: Self)
        ensures
            r.is_empty_spec(),
            r == EnumInterval::Finite(FiniteInterval::<T>::from_range(1, 0)),
            r@ == Set::<int>::empty(),
    {
        EnumInterval::Finite(FiniteInterval::empty())
    }
}

impl<T: Element> Contains<T> for EnumInterval<T> {
    /// Test whether `value` is an element of this set.
    fn contains(&self, value: &T) -> (r: bool)
        ensures
            r == self@.contains(value.as_int()),
    {
        proof {
            T::lemma_as_int(*value);
        }
        match self {
            EnumInterval::Finite(f) => f.contains(value),
            EnumInterval::Half(h) => h.contains(value),
            EnumInterval::Unbounded => true,
        }
    }
}

impl<T: Element> View for EnumInterval<T> {
    type V = Set<int>;

    open spec fn view(&self) -> Set<int> {
        match self {
            EnumInterval::Finite(f) => f@,
            EnumInterval::Half(h) => h@,
            EnumInterval::Unbounded => range_set(T::min_int(), T::max_int()),
        }
    }
}

impl<T: Element> SetBounds<T> for EnumInterval<T> {
    fn bound(&self, side: Side) -> (r: Option<&FiniteBound<T>>)
        ensures
            self.wf(),
            r is Some <==> match side {
                Side::Left => self.left_end() is Some,
                Side::Right => self.right_end() is Some,
            },
            r matches Some(b) ==> b.kind() == BoundType::Closed && Some(b.lim()) == match side {
                Side::Left => self.left_end(),
                Side::Right => self.right_end(),
            },
    {
        match side {
            Side::Left => self.left(),
            Side::Right => self.right(),
        }
    }

    fn left(&self) -> (r: Option<&FiniteBound<T>>)
        ensures
            self.wf(),
            r is Some <==> self.left_end() is Some,
            r matches Some(b) ==> b.kind() == BoundType::Closed && Some(b.lim())
                == self.left_end(),
    {
        match self {
            EnumInterval::Finite(f) => {
                proof {
                    use_type_invariant(f);
                }
                f.left()
            },
            EnumInterval::Half(h) => {
                proof {
                    use_type_invariant(h);
                }
                h.left()
            },
            EnumInterval::Unbounded => None,
        }
    }

    fn right(&self) -> (r: Option<&FiniteBound<T>>)
        ensures
            self.wf(),
            r is Some <==> self.right_end() is Some,
            r matches Some(b) ==> b.kind() == BoundType::Closed && Some(b.lim())
                == self.right_end(),
    {
        match self {
            EnumInterval::Finite(f) => {
                proof {
                    use_type_invariant(f);
                }
                f.right()
            },
            EnumInterval::Half(h) => {
                proof {
                    use_type_invariant(h);
                }
                h.right()
            },
            EnumInterval::Unbounded => None,
        }
    }

    fn lval(&self) -> (r: Option<&T>)
        ensures
            self.wf(),
            r is Some <==> self.left_end() is Some,
            r matches Some(v) ==> Some(v.as_int()) == self.left_end(),
    {
        match self.left() {
            None => None,
            Some(b) => Some(b.value()),
        }
    }

    fn rval(&self) -> (r: Option<&T>)
        ensures
            self.wf(),
            r is Some <==> self.right_end() is Some,
            r matches Some(v) ==> Some(v.as_int()) == self.right_end(),
    {
        match self.right() {
            None => None,
            Some(b) => Some(b.value()),
        }
    }
}

} // verus!
