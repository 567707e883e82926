//! Helpers that define a total order for set bounds.
use vstd::prelude::*;

use super::{bound_pos, kind_rank, side_kind, BoundType, FiniteBound, Side};
use crate::error::Error;
use crate::numeric::Element;

verus! {

/// Any type with left and right bounds, following the standard total order.
pub trait OrdBounded<T> {
    /// An ordered bound pair view of the set's bounds.
    fn ord_bound_pair(&self) -> OrdBoundPair<&T>;
}

/// Ordered exclusivity cases for finite bounds:
/// `RightOpen(x) < Closed(x) < LeftOpen(x)`.
#[derive(Debug, Copy, Clone, PartialEq, Eq, Structural, PartialOrd, Ord, Hash)]
pub enum FiniteOrdBoundKind {
    /// An open bound constraining the right side.
    RightOpen,
    /// A closed bound.
    Closed,
    /// An open bound constraining the left side.
    LeftOpen,
}

impl FiniteOrdBoundKind {
    /// The correctly sided open kind.
    pub fn open(side: Side) -> (r: Self)
        ensures
            r == side_kind(BoundType::Open, side),
    {
        side.select(FiniteOrdBoundKind::LeftOpen, FiniteOrdBoundKind::RightOpen)
    }

    /// The rank of this kind among bounds at one value.
    pub fn rank(&self) -> (r: u8)
        ensures
            r as int == kind_rank(*self),
    {
        match self {
            FiniteOrdBoundKind::RightOpen => 0,
            FiniteOrdBoundKind::Closed => 1,
            FiniteOrdBoundKind::LeftOpen => 2,
        }
    }
}

/// A finite bound with a total ordering: by value, then by kind.
#[derive(Debug, Copy, Clone, PartialEq, Eq, PartialOrd, Ord, Hash)]
pub struct FiniteOrdBound<T>(pub T, pub FiniteOrdBoundKind);

impl<T> FiniteOrdBound<T> {
    /// Constructs an ordered bound without validating `limit`.
    pub fn new_assume_valid(limit: T, kind: FiniteOrdBoundKind) -> (r: Self)
        ensures
            r == FiniteOrdBound(limit, kind),
    {
        FiniteOrdBound(limit, kind)
    }

    /// Closed ordered bound without validating `limit`.
    pub fn closed_assume_valid(limit: T) -> (r: Self)
        ensures
            r == FiniteOrdBound(limit, FiniteOrdBoundKind::Closed),
    {
        Self::new_assume_valid(limit, FiniteOrdBoundKind::Closed)
    }

    /// Side-oriented open ordered bound without validating `limit`.
    pub fn open_assume_valid(side: Side, limit: T) -> (r: Self)
        ensures
            r == FiniteOrdBound(limit, side_kind(BoundType::Open, side)),
    {
        Self::new_assume_valid(
            limit,
            match side {
                Side::Left => FiniteOrdBoundKind::LeftOpen,
                Side::Right => FiniteOrdBoundKind::RightOpen,
            },
        )
    }
}

impl<T: Element> FiniteOrdBound<T> {
    /// The position of this bound in the total order.
    pub open spec fn pos(self) -> int {
        3 * self.0.as_int() + kind_rank(self.1)
    }

    /// `self <= other` in the total order.
    pub fn less_or_equal(&self, other: &Self) -> (r: bool)
        ensures
            r == (self.pos() <= other.pos()),
    {
        if self.0.less_than(&other.0) {
            true
        } else if other.0.less_than(&self.0) {
            false
        } else {
            self.1.rank() <= other.1.rank()
        }
    }
}

impl<'a, T: Copy> FiniteOrdBound<&'a T> {
    /// Converts `FiniteOrdBound<&T>` to `FiniteOrdBound<T>`.
    pub fn cloned(&self) -> (r: FiniteOrdBound<T>)
        ensures
            r.0 == *self.0,
            r.1 == self.1,
    {
        FiniteOrdBound::new_assume_valid(*self.0, self.1)
    }
}

/// A total order over all possible bounds:
/// `LeftUnbounded < RightOpen(x) < Closed(x) < LeftOpen(x) < RightUnbounded`.
#[derive(Debug, Copy, Clone, PartialEq, Eq, PartialOrd, Ord, Hash)]
pub enum OrdBound<T> {
    /// Below every finite bound.
    LeftUnbounded,
    /// A finite bound.
    Finite(FiniteOrdBound<T>),
    /// Above every finite bound.
    RightUnbounded,
}

impl<T> OrdBound<T> {
    /// Constructs a finite `OrdBound<T>` without validating `limit`.
    pub fn new_finite_assume_valid(limit: T, kind: FiniteOrdBoundKind) -> (r: Self)
        ensures
            r == OrdBound::Finite(FiniteOrdBound(limit, kind)),
    {
        OrdBound::Finite(FiniteOrdBound::new_assume_valid(limit, kind))
    }

    /// Closed finite `OrdBound<T>` without validating `limit`.
    pub fn closed_assume_valid(limit: T) -> (r: Self)
        ensures
            r == OrdBound::Finite(FiniteOrdBound(limit, FiniteOrdBoundKind::Closed)),
    {
        Self::new_finite_assume_valid(limit, FiniteOrdBoundKind::Closed)
    }
}

impl<'a, T> OrdBound<&'a T> {
    /// A left `OrdBound` view of a finite bound.
    pub fn left(bound: &'a FiniteBound<T>) -> (r: Self)
        ensures
            r matches OrdBound::Finite(f) && *f.0 == bound.limit() && f.1 == side_kind(
                bound.kind(),
                Side::Left,
            ),
    {
        match bound.bound_type() {
            BoundType::Closed => Self::new_finite_assume_valid(
                bound.value(),
                FiniteOrdBoundKind::Closed,
            ),
            BoundType::Open => Self::new_finite_assume_valid(
                bound.value(),
                FiniteOrdBoundKind::LeftOpen,
            ),
        }
    }

    /// A right `OrdBound` view of a finite bound.
    pub fn right(bound: &'a FiniteBound<T>) -> (r: Self)
        ensures
            r matches OrdBound::Finite(f) && *f.0 == bound.limit() && f.1 == side_kind(
                bound.kind(),
                Side::Right,
            ),
    {
        match bound.bound_type() {
            BoundType::Closed => Self::new_finite_assume_valid(
                bound.value(),
                FiniteOrdBoundKind::Closed,
            ),
            BoundType::Open => Self::new_finite_assume_valid(
                bound.value(),
                FiniteOrdBoundKind::RightOpen,
            ),
        }
    }
}

impl<'a, T: Copy> OrdBound<&'a T> {
    /// An owned `OrdBound<T>` from an `OrdBound<&T>` view.
    pub fn cloned(self) -> (r: OrdBound<T>)
        ensures
            match self {
                OrdBound::LeftUnbounded => r == OrdBound::<T>::LeftUnbounded,
                OrdBound::RightUnbounded => r == OrdBound::<T>::RightUnbounded,
                OrdBound::Finite(f) => r == OrdBound::Finite(FiniteOrdBound(*f.0, f.1)),
            },
    {
        match self {
            OrdBound::Finite(inner) => OrdBound::Finite(inner.cloned()),
            OrdBound::LeftUnbounded => OrdBound::LeftUnbounded,
            OrdBound::RightUnbounded => OrdBound::RightUnbounded,
        }
    }
}

impl<T: Element> OrdBound<T> {
    /// `self <= other` in the total order on bounds.
    pub open spec fn le(self, other: OrdBound<T>) -> bool {
        match (self, other) {
            (OrdBound::LeftUnbounded, _) => true,
            (_, OrdBound::RightUnbounded) => true,
            (OrdBound::Finite(a), OrdBound::Finite(b)) => a.pos() <= b.pos(),
            _ => false,
        }
    }

    /// `self <= other` in the total order on bounds.
    pub fn less_or_equal(&self, other: &Self) -> (r: bool)
        ensures
            r == self.le(*other),
    {
        match (self, other) {
            (OrdBound::LeftUnbounded, _) => true,
            (_, OrdBound::RightUnbounded) => true,
            (OrdBound::Finite(a), OrdBound::Finite(b)) => a.less_or_equal(b),
            _ => false,
        }
    }
}

/// The order on bounds is a total order.
pub proof fn lemma_ord_bound_total_order<T: Element>(a: OrdBound<T>, b: OrdBound<T>, c: OrdBound<T>)
    ensures
        a.le(a),
        a.le(b) || b.le(a),
        a.le(b) && b.le(c) ==> a.le(c),
        a.le(b) && b.le(a) ==> a == b,
{
    if let (OrdBound::Finite(x), OrdBound::Finite(y)) = (a, b) {
        T::lemma_as_int_injective(x.0, y.0);
    }
}

/// Whether `(left, right)` forms a valid ordered bound pair: the canonical
/// empty marker, or a structurally well-placed pair whose finite values are
/// ordered.
pub open spec fn ord_pair_valid<T: Element>(left: OrdBound<T>, right: OrdBound<T>) -> bool {
    ||| (left is LeftUnbounded && right is LeftUnbounded)
    ||| (ord_pair_shape_ok(left, right) && ord_pair_values_ok(left, right))
}

/// The structural preconditions of an ordered bound pair: nothing unbounded
/// on the wrong end and no open kind facing the wrong way.
pub open spec fn ord_pair_shape_ok<T>(left: OrdBound<T>, right: OrdBound<T>) -> bool {
    &&& !(left is RightUnbounded)
    &&& !(right is LeftUnbounded)
    &&& !(left matches OrdBound::Finite(f) && f.1 == FiniteOrdBoundKind::RightOpen)
    &&& !(right matches OrdBound::Finite(f) && f.1 == FiniteOrdBoundKind::LeftOpen)
}

/// Finite values of an ordered pair are not swapped.
pub open spec fn ord_pair_values_ok<T: Element>(left: OrdBound<T>, right: OrdBound<T>) -> bool {
    (left matches OrdBound::Finite(l) && right matches OrdBound::Finite(r)) ==> left->Finite_0.0.as_int()
        <= right->Finite_0.0.as_int()
}

/// A canonical, totally ordered representation of an interval's bounds:
/// `(left, right)` with `left <= right`. The empty set is the sentinel
/// `(LeftUnbounded, LeftUnbounded)`.
#[derive(Debug, Copy, Clone, PartialEq, Eq, PartialOrd, Ord, Hash)]
pub struct OrdBoundPair<T>(OrdBound<T>, OrdBound<T>);

impl<T> OrdBoundPair<T> {
    /// The left end.
    pub closed spec fn left_end(self) -> OrdBound<T> {
        self.0
    }

    /// The right end.
    pub closed spec fn right_end(self) -> OrdBound<T> {
        self.1
    }

    /// The pair with the given ends, as a value.
    pub closed spec fn pair(left: OrdBound<T>, right: OrdBound<T>) -> Self {
        OrdBoundPair(left, right)
    }

    /// A pair is determined by its ends, and `pair` builds the pair with
    /// exactly the given ends.
    pub proof fn lemma_ends(p: Self, left: OrdBound<T>, right: OrdBound<T>)
        ensures
            Self::pair(left, right).left_end() == left,
            Self::pair(left, right).right_end() == right,
            (p.left_end() == left && p.right_end() == right) ==> p == Self::pair(left, right),
    {
    }

    /// Whether this is the empty marker.
    pub open spec fn is_empty_spec(self) -> bool {
        self.left_end() is LeftUnbounded && self.right_end() is LeftUnbounded
    }

    /// Test if this is the empty set.
    pub fn is_empty(&self) -> (r: bool)
        ensures
            r == self.is_empty_spec(),
    {
        matches!(self.0, OrdBound::LeftUnbounded) && matches!(self.1, OrdBound::LeftUnbounded)
    }

    /// The empty set marker.
    pub fn empty() -> (r: Self)
        ensures
            r.left_end() is LeftUnbounded,
            r.right_end() is LeftUnbounded,
    {
        OrdBoundPair(OrdBound::LeftUnbounded, OrdBound::LeftUnbounded)
    }

    /// Creates a pair without validating it. The structural preconditions
    /// are also checked at run time, and a violation panics with a message
    /// naming it.
    pub fn new_assume_valid(left: OrdBound<T>, right: OrdBound<T>) -> (r: Self)
        requires
            !(left is RightUnbounded),
            !(right is LeftUnbounded) || left is LeftUnbounded,
            !(left matches OrdBound::Finite(f) && f.1 == FiniteOrdBoundKind::RightOpen),
            !(right matches OrdBound::Finite(f) && f.1 == FiniteOrdBoundKind::LeftOpen),
        ensures
            r.left_end() == left,
            r.right_end() == right,
    {
        let c1: Option<()> = if matches!(left, OrdBound::RightUnbounded) {
            None
        } else {
            Some(())
        };
        c1.expect("OrdBoundPair: left must not be RightUnbounded");
        let c2: Option<()> = if matches!(right, OrdBound::LeftUnbounded) && !matches!(
            left,
            OrdBound::LeftUnbounded
        ) {
            None
        } else {
            Some(())
        };
        c2.expect("OrdBoundPair: right must not be LeftUnbounded outside the canonical empty pair");
        let c3: Option<()> = match &left {
            OrdBound::Finite(f) => match f.1 {
                FiniteOrdBoundKind::RightOpen => None,
                _ => Some(()),
            },
            _ => Some(()),
        };
        c3.expect("OrdBoundPair: left Finite must not be RightOpen");
        let c4: Option<()> = match &right {
            OrdBound::Finite(f) => match f.1 {
                FiniteOrdBoundKind::LeftOpen => None,
                _ => Some(()),
            },
            _ => Some(()),
        };
        c4.expect("OrdBoundPair: right Finite must not be LeftOpen");
        OrdBoundPair(left, right)
    }

    /// Decompose into the pair of `OrdBound`s.
    pub fn into_raw(self) -> (r: (OrdBound<T>, OrdBound<T>))
        ensures
            r == (self.left_end(), self.right_end()),
    {
        (self.0, self.1)
    }
}

impl<T: Element> OrdBoundPair<T> {
    /// Whether this pair satisfies the ordered bound pair invariants.
    pub open spec fn valid(self) -> bool {
        ord_pair_valid(self.left_end(), self.right_end())
    }

    /// Creates a new totally ordered bound pair, returning
    /// `Err(InvalidBoundPair)` on any structural or value-order violation.
    pub fn try_new(left: OrdBound<T>, right: OrdBound<T>) -> (r: Result<Self, Error>)
        ensures
            ord_pair_valid(left, right) <==> r is Ok,
            r matches Ok(p) ==> p.left_end() == left && p.right_end() == right,
            r matches Ok(p) ==> p == Self::pair(left, right),
            r matches Err(e) ==> e == Error::InvalidBoundPair,
    {
        match (left, right) {
            (OrdBound::LeftUnbounded, OrdBound::LeftUnbounded) => Ok(Self::empty()),
            (left, right) => {
                let bad_shape = match (&left, &right) {
                    (OrdBound::RightUnbounded, _) => true,
                    (_, OrdBound::LeftUnbounded) => true,
                    _ => false,
                } || match &left {
                    OrdBound::Finite(f) => f.1 == FiniteOrdBoundKind::RightOpen,
                    _ => false,
                } || match &right {
                    OrdBound::Finite(f) => f.1 == FiniteOrdBoundKind::LeftOpen,
                    _ => false,
                };
                if bad_shape {
                    return Err(Error::InvalidBoundPair);
                }
                if let (OrdBound::Finite(lv), OrdBound::Finite(rv)) = (&left, &right) {
                    if rv.0.less_than(&lv.0) {
                        return Err(Error::InvalidBoundPair);
                    }
                }
                Ok(Self::new_assume_valid(left, right))
            },
        }
    }

    /// Creates a new totally ordered bound pair.
    ///
    /// # Panics
    ///
    /// Panics with "OrdBoundPair invariants violated" if the inputs violate
    /// the pair invariants.
    pub fn new(left: OrdBound<T>, right: OrdBound<T>) -> (r: Self)
        requires
            ord_pair_valid(left, right),
        ensures
            r.left_end() == left,
            r.right_end() == right,
            r == Self::pair(left, right),
    {
        Self::try_new(left, right).expect("OrdBoundPair invariants violated")
    }
}

impl From<FiniteOrdBoundKind> for BoundType {
    fn from(value: FiniteOrdBoundKind) -> (r: Self)
        ensures
            r == bound_type_of(value),
    {
        match value {
            FiniteOrdBoundKind::Closed => BoundType::Closed,
            FiniteOrdBoundKind::LeftOpen | FiniteOrdBoundKind::RightOpen => BoundType::Open,
        }
    }
}

/// The bound type an ordered kind stands for.
pub open spec fn bound_type_of(k: FiniteOrdBoundKind) -> BoundType {
    match k {
        FiniteOrdBoundKind::Closed => BoundType::Closed,
        _ => BoundType::Open,
    }
}

impl vstd::std_specs::convert::FromSpecImpl<FiniteOrdBoundKind> for BoundType {
    open spec fn obeys_from_spec() -> bool {
        true
    }

    open spec fn from_spec(v: FiniteOrdBoundKind) -> Self {
        bound_type_of(v)
    }
}

impl<T: Element> TryFrom<FiniteOrdBound<T>> for FiniteBound<T> {
    type Error = Error;

    /// Validates the value; the side carried by an open kind is discarded.
    fn try_from(value: FiniteOrdBound<T>) -> (r: Result<Self, Self::Error>)
        ensures
            r matches Ok(b) && b.kind() == bound_type_of(value.1) && b.limit() == value.0,
    {
        let r = FiniteBound::try_new(BoundType::from(value.1), value.0);
        proof {
            FiniteBound::<T>::lemma_build(bound_type_of(value.1), value.0);
            if let Ok(b) = r {
                FiniteBound::<T>::lemma_fields_determine(
                    b,
                    FiniteBound::build(bound_type_of(value.1), value.0),
                );
            }
        }
        r
    }
}

impl<T: Element> vstd::std_specs::convert::TryFromSpecImpl<FiniteOrdBound<T>> for FiniteBound<T> {
    open spec fn obeys_try_from_spec() -> bool {
        true
    }

    open spec fn try_from_spec(v: FiniteOrdBound<T>) -> Result<Self, Error> {
        Ok(FiniteBound::build(bound_type_of(v.1), v.0))
    }
}

impl<T: Element> OrdBoundPair<T> {
    /// `self <= other` in the order on pairs: by left end, then by right
    /// end, each in the order on bounds (the order `derive` gives).
    pub open spec fn pair_le(self, other: Self) -> bool {
        if self.left_end() == other.left_end() {
            self.right_end().le(other.right_end())
        } else {
            self.left_end().le(other.left_end())
        }
    }

    /// `self <= other` in the order on pairs.
    pub fn less_or_equal(&self, other: &Self) -> (r: bool)
        ensures
            r == self.pair_le(*other),
    {
        let l1 = self.0.less_or_equal(&other.0);
        let l2 = other.0.less_or_equal(&self.0);
        proof {
            lemma_ord_bound_total_order(self.0, other.0, other.0);
            lemma_ord_bound_total_order(other.0, self.0, self.0);
        }
        if l1 && l2 {
            self.1.less_or_equal(&other.1)
        } else {
            l1
        }
    }
}

/// The empty marker sorts at or below every pair, and the order on pairs is
/// a total order.
pub proof fn lemma_pair_order<T: Element>(p: OrdBoundPair<T>, q: OrdBoundPair<T>, s: OrdBoundPair<T>)
    ensures
        OrdBoundPair::<T>::pair(OrdBound::LeftUnbounded, OrdBound::LeftUnbounded).pair_le(p),
        p.pair_le(p),
        p.pair_le(q) || q.pair_le(p),
        p.pair_le(q) && q.pair_le(s) ==> p.pair_le(s),
        p.pair_le(q) && q.pair_le(p) ==> p == q,
{
    OrdBoundPair::<T>::lemma_ends(p, OrdBound::LeftUnbounded, OrdBound::LeftUnbounded);
    lemma_ord_bound_total_order(p.left_end(), q.left_end(), s.left_end());
    lemma_ord_bound_total_order(p.right_end(), q.right_end(), s.right_end());
    lemma_ord_bound_total_order(q.left_end(), p.left_end(), s.left_end());
    lemma_ord_bound_total_order(p.left_end(), s.left_end(), q.left_end());
    OrdBoundPair::<T>::lemma_ends(p, q.left_end(), q.right_end());
    OrdBoundPair::<T>::lemma_ends(q, q.left_end(), q.right_end());
}

/// The order on bounds, on values and kinds: the left-unbounded end comes
/// first and the right-unbounded end last; finite bounds compare by value,
/// and at one value a right-open bound comes before a closed one, which
/// comes before a left-open one. The order on pairs compares left ends
/// first, then right ends.
pub proof fn lemma_ord_bound_order_by_values<T: Element>(
    a: OrdBound<T>,
    b: OrdBound<T>,
    p: OrdBoundPair<T>,
    q: OrdBoundPair<T>,
)
    ensures
        OrdBound::<T>::LeftUnbounded.le(a),
        a.le(OrdBound::<T>::RightUnbounded),
        a is Finite ==> !a.le(OrdBound::<T>::LeftUnbounded) && !OrdBound::<T>::RightUnbounded.le(a),
        (a is Finite && b is Finite && a->Finite_0.0.as_int() < b->Finite_0.0.as_int()) ==> a.le(b)
            && !b.le(a),
        (a is Finite && b is Finite && a->Finite_0.0.as_int() == b->Finite_0.0.as_int()) ==> (a.le(
            b,
        ) <==> (a->Finite_0.1 == FiniteOrdBoundKind::RightOpen || b->Finite_0.1
            == FiniteOrdBoundKind::LeftOpen || a->Finite_0.1 == b->Finite_0.1)),
        p.left_end() != q.left_end() ==> (p.pair_le(q) <==> p.left_end().le(q.left_end())),
        p.left_end() == q.left_end() ==> (p.pair_le(q) <==> p.right_end().le(q.right_end())),
{
}

} // verus!
