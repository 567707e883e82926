//! Bounds partition elements inside and outside of a set.
//!
//! A finite bound carries a limit value and a [`BoundType`] saying whether
//! the limit itself belongs to the set; the [`Side`] of the set it
//! constrains is supplied by the set that holds it.
use vstd::prelude::*;

use crate::error::{Error, TotalOrderError};
use crate::numeric::Element;
use ord::{FiniteOrdBound, FiniteOrdBoundKind, OrdBound};

pub mod ord;

verus! {

/// Side (Left | Right) on the number line.
#[derive(Debug, Clone, Copy, PartialEq, Eq, Structural, Hash)]
pub enum Side {
    /// Generally the lower bound
    Left,
    /// Generally the upper bound
    Right,
}

impl Side {
    /// The step from a value to its neighbour on this side: `-1` to the
    /// left, `+1` to the right.
    pub open spec fn unit(self) -> int {
        match self {
            Side::Left => -1,
            Side::Right => 1,
        }
    }

    /// Flip left => right, right => left.
    pub fn flip(self) -> (r: Self)
        ensures
            r != self,
            r.unit() == -self.unit(),
    {
        match self {
            Side::Left => Side::Right,
            Side::Right => Side::Left,
        }
    }

    /// Return the left or right arg depending on the value of self.
    pub fn select<T>(self, left: T, right: T) -> (r: T)
        ensures
            r == (match self {
                Side::Left => left,
                Side::Right => right,
            }),
    {
        match self {
            Side::Left => left,
            Side::Right => right,
        }
    }
}

/// Flipping a side twice gives it back.
pub proof fn lemma_side_flip_involutive(side: Side)
    ensures
        side != Side::Left ==> side == Side::Right,
        (match side {
            Side::Left => Side::Right,
            Side::Right => Side::Left,
        }) != side,
{
}

/// The BoundType determines whether the limit element belongs to a set.
#[derive(Debug, Copy, Clone, PartialEq, Eq, Structural, Hash)]
pub enum BoundType {
    /// An Open BoundType excludes the limit element from the set.
    Open,
    /// A Closed BoundType includes the limit element in the set.
    Closed,
}

impl BoundType {
    /// The flipped bound type, as a value.
    pub open spec fn flipped(self) -> BoundType {
        match self {
            BoundType::Closed => BoundType::Open,
            BoundType::Open => BoundType::Closed,
        }
    }

    /// The open/closed lattice meet, as a value.
    pub open spec fn met(self, rhs: BoundType) -> BoundType {
        if self == BoundType::Closed && rhs == BoundType::Closed {
            BoundType::Closed
        } else {
            BoundType::Open
        }
    }

    /// Flips the bound type Open => Closed, Closed => Open.
    pub fn flip(self) -> (r: Self)
        ensures
            r == self.flipped(),
    {
        match self {
            BoundType::Closed => BoundType::Open,
            BoundType::Open => BoundType::Closed,
        }
    }

    /// The open/closed lattice meet: `Closed` iff both inputs are `Closed`.
    pub fn meet(self, rhs: Self) -> (r: Self)
        ensures
            r == self.met(rhs),
    {
        match (self, rhs) {
            (BoundType::Closed, BoundType::Closed) => BoundType::Closed,
            _ => BoundType::Open,
        }
    }
}

/// Flipping a bound type twice gives it back, and flipping always changes it.
pub proof fn lemma_bound_type_flip_involutive(bt: BoundType)
    ensures
        bt.flipped().flipped() == bt,
        bt.flipped() != bt,
{
}

/// The meet is commutative, associative and idempotent, with `Closed` as
/// its identity and `Open` absorbing.
pub proof fn lemma_bound_type_meet_laws(a: BoundType, b: BoundType, c: BoundType)
    ensures
        a.met(b) == b.met(a),
        a.met(b).met(c) == a.met(b.met(c)),
        a.met(a) == a,
        a.met(BoundType::Closed) == a,
        a.met(BoundType::Open) == BoundType::Open,
{
}

/// An interface to query the left and right bounds of a set.
pub trait SetBounds<T> {
    /// The bound on `side` if it is finite.
    fn bound(&self, side: Side) -> Option<&FiniteBound<T>>;

    /// The left bound if it is finite.
    fn left(&self) -> Option<&FiniteBound<T>>;

    /// The right bound if it is finite.
    fn right(&self) -> Option<&FiniteBound<T>>;

    /// The left bound's limit value if it is finite.
    fn lval(&self) -> Option<&T>;

    /// The right bound's limit value if it is finite.
    fn rval(&self) -> Option<&T>;
}

/// The rank of an ordered bound kind among bounds at the same value:
/// `RightOpen(x) < Closed(x) < LeftOpen(x)`.
pub open spec fn kind_rank(k: FiniteOrdBoundKind) -> int {
    match k {
        FiniteOrdBoundKind::RightOpen => 0,
        FiniteOrdBoundKind::Closed => 1,
        FiniteOrdBoundKind::LeftOpen => 2,
    }
}

/// The ordered kind of a bound of type `bt` constraining `side`.
pub open spec fn side_kind(bt: BoundType, side: Side) -> FiniteOrdBoundKind {
    match bt {
        BoundType::Closed => FiniteOrdBoundKind::Closed,
        BoundType::Open => match side {
            Side::Left => FiniteOrdBoundKind::LeftOpen,
            Side::Right => FiniteOrdBoundKind::RightOpen,
        },
    }
}

/// The position of a finite bound in the total order on bounds: each
/// value `v` owns the three slots `3v` (right-open), `3v + 1` (closed) and
/// `3v + 2` (left-open).
pub open spec fn bound_pos(bt: BoundType, v: int, side: Side) -> int {
    3 * v + kind_rank(side_kind(bt, side))
}

/// Whether the `side`-half-line of a bound of type `bt` at `v` holds `x`.
pub open spec fn admits_int(bt: BoundType, v: int, side: Side, x: int) -> bool {
    match side {
        Side::Left => match bt {
            BoundType::Open => v < x,
            BoundType::Closed => v <= x,
        },
        Side::Right => match bt {
            BoundType::Open => x < v,
            BoundType::Closed => x <= v,
        },
    }
}

/// Whether the `side`-half-line of the first bound holds the second one,
/// by their positions in the total order on bounds.
pub open spec fn holds_pos(side: Side, outer: int, inner: int) -> bool {
    match side {
        Side::Left => outer <= inner,
        Side::Right => inner <= outer,
    }
}

/// A bound's half-line holds a value exactly when the bound's position is
/// on the correct side of the value's closed position.
pub proof fn lemma_admits_by_pos(bt: BoundType, v: int, side: Side, x: int)
    ensures
        admits_int(bt, v, side, x) <==> holds_pos(
            side,
            bound_pos(bt, v, side),
            bound_pos(BoundType::Closed, x, side),
        ),
{
}

/// Defines the bound or limit that constrains a set: an `Open(limit)` does
/// not include `limit` in the set, a `Closed(limit)` does.
#[derive(Debug, Copy, Clone, PartialEq, Eq, Hash)]
pub struct FiniteBound<T>(BoundType, T);

impl<T> FiniteBound<T> {
    /// The bound type.
    pub closed spec fn kind(self) -> BoundType {
        self.0
    }

    /// The limit value.
    pub closed spec fn limit(self) -> T {
        self.1
    }

    /// A bound is determined by its type and limit.
    pub proof fn lemma_fields_determine(a: Self, b: Self)
        ensures
            (a.kind() == b.kind() && a.limit() == b.limit()) ==> a == b,
    {
    }

    /// The bound of type `bound_type` at `limit`, as a value.
    pub closed spec fn build(bound_type: BoundType, limit: T) -> Self {
        FiniteBound(bound_type, limit)
    }

    /// A built bound has the type and limit it was built from.
    pub proof fn lemma_build(bound_type: BoundType, limit: T)
        ensures
            Self::build(bound_type, limit).kind() == bound_type,
            Self::build(bound_type, limit).limit() == limit,
    {
    }

    /// Constructs a bound without validating its limit.
    pub(crate) fn new_assume_valid(bound_type: BoundType, limit: T) -> (r: Self)
        ensures
            r.kind() == bound_type,
            r.limit() == limit,
    {
        FiniteBound(bound_type, limit)
    }

    /// Unpack into (`BoundType`, `T`).
    pub fn into_raw(self) -> (r: (BoundType, T))
        ensures
            r == (self.kind(), self.limit()),
    {
        (self.0, self.1)
    }

    /// Converts `&FiniteBound<T>` to `FiniteBound<&T>`.
    pub fn as_ref(&self) -> (r: FiniteBound<&T>)
        ensures
            r.kind() == self.kind(),
            *r.limit() == self.limit(),
    {
        FiniteBound(self.0, &self.1)
    }

    /// The ordered view of this bound, constraining `side`.
    pub fn finite_ord(&self, side: Side) -> (r: FiniteOrdBound<&T>)
        ensures
            *r.0 == self.limit(),
            r.1 == side_kind(self.kind(), side),
    {
        match self.bound_type() {
            BoundType::Closed => FiniteOrdBound::closed_assume_valid(self.value()),
            BoundType::Open => FiniteOrdBound::open_assume_valid(side, self.value()),
        }
    }

    /// The ordered view of this bound as an `OrdBound<&T>`.
    pub fn ord(&self, side: Side) -> (r: OrdBound<&T>)
        ensures
            r matches OrdBound::Finite(f) && *f.0 == self.limit() && f.1 == side_kind(
                self.kind(),
                side,
            ),
    {
        OrdBound::Finite(self.finite_ord(side))
    }

    /// Converts into a `FiniteOrdBound<T>` constraining `side`.
    pub fn into_finite_ord(self, side: Side) -> (r: FiniteOrdBound<T>)
        ensures
            r.0 == self.limit(),
            r.1 == side_kind(self.kind(), side),
    {
        let (bound_type, value) = self.into_raw();
        match bound_type {
            BoundType::Closed => FiniteOrdBound::closed_assume_valid(value),
            BoundType::Open => FiniteOrdBound::open_assume_valid(side, value),
        }
    }

    /// Converts into an `OrdBound<T>` constraining `side`.
    pub fn into_ord(self, side: Side) -> (r: OrdBound<T>)
        ensures
            r == OrdBound::Finite(FiniteOrdBound(self.limit(), side_kind(self.kind(), side))),
    {
        OrdBound::Finite(self.into_finite_ord(side))
    }

    /// The same limit with the bound type flipped.
    pub fn flip(self) -> (r: Self)
        ensures
            r.kind() == self.kind().flipped(),
            r.limit() == self.limit(),
    {
        FiniteBound(self.0.flip(), self.1)
    }

    /// Whether this bound is `Open`.
    pub fn is_open(&self) -> (r: bool)
        ensures
            r == (self.kind() == BoundType::Open),
    {
        self.0 == BoundType::Open
    }

    /// Whether this bound is `Closed`.
    pub fn is_closed(&self) -> (r: bool)
        ensures
            r == (self.kind() == BoundType::Closed),
    {
        self.0 == BoundType::Closed
    }

    /// The `BoundType` of this bound.
    pub fn bound_type(&self) -> (r: BoundType)
        ensures
            r == self.kind(),
    {
        self.0
    }

    /// A reference to the limit value.
    pub fn value(&self) -> (r: &T)
        ensures
            *r == self.limit(),
    {
        &self.1
    }
}

impl<T: Element> FiniteBound<T> {
    /// The limit as an integer.
    pub open spec fn lim(self) -> int {
        self.limit().as_int()
    }

    /// The position of this bound in the total order on bounds, when it
    /// constrains `side`.
    pub open spec fn pos(self, side: Side) -> int {
        bound_pos(self.kind(), self.lim(), side)
    }

    /// Whether the `side`-half-line of this bound holds `x`.
    pub open spec fn admits(self, side: Side, x: int) -> bool {
        admits_int(self.kind(), self.lim(), side, x)
    }

    /// Whether the `side`-half-line of this bound holds the `test` bound,
    /// by position in the total order.
    pub open spec fn holds(self, side: Side, test: FiniteBound<T>) -> bool {
        holds_pos(side, self.pos(side), test.pos(side))
    }

    /// The extreme integer admitted by the `side`-half-line of this bound:
    /// the limit itself when closed, its neighbour on the inner side when
    /// open.
    pub open spec fn inner_edge(self, side: Side) -> int {
        match self.kind() {
            BoundType::Closed => self.lim(),
            BoundType::Open => self.lim() - side.unit(),
        }
    }

    /// Whether this bound is in the canonical closed form for `side`: closed,
    /// or open at a value whose neighbour on the inner side does not exist.
    pub open spec fn is_normal(self, side: Side) -> bool {
        self.kind() == BoundType::Closed || !(T::min_int() <= self.lim() - side.unit()
            <= T::max_int())
    }

    /// Test whether the `side`-half-line of this bound holds `value`.
    pub fn contains_assume_valid(&self, side: Side, value: &T) -> (r: bool)
        ensures
            r == self.admits(side, value.as_int()),
    {
        match side {
            Side::Left => match self.0 {
                BoundType::Open => self.1.less_than(value),
                BoundType::Closed => self.1.less_or_equal(value),
            },
            Side::Right => match self.0 {
                BoundType::Open => value.less_than(&self.1),
                BoundType::Closed => value.less_or_equal(&self.1),
            },
        }
    }

    /// Test whether the `side`-half-line of this bound holds `test`; the
    /// primitive integers are totally ordered, so this always succeeds.
    pub fn try_contains(&self, side: Side, test: &T) -> (r: Result<bool, TotalOrderError>)
        ensures
            r == Ok::<bool, TotalOrderError>(self.admits(side, test.as_int())),
    {
        Ok(self.contains_assume_valid(side, test))
    }

    /// Test whether the `side`-half-line of `self` holds the `test` bound,
    /// oriented from the same side (by position in the total order).
    pub fn contains_bound_assume_valid(&self, side: Side, test: FiniteBound<&T>) -> (r: bool)
        ensures
            r == holds_pos(
                side,
                self.pos(side),
                bound_pos(test.kind(), test.limit().as_int(), side),
            ),
    {
        let lhs_kind = side_rank(self.0, side);
        let rhs_kind = side_rank(test.0, side);
        let (outer, outer_rank, inner, inner_rank) = match side {
            Side::Left => (&self.1, lhs_kind, test.1, rhs_kind),
            Side::Right => (test.1, rhs_kind, &self.1, lhs_kind),
        };
        if outer.less_than(inner) {
            true
        } else if inner.less_than(outer) {
            false
        } else {
            outer_rank <= inner_rank
        }
    }

    /// As [`contains_bound_assume_valid`](Self::contains_bound_assume_valid);
    /// always succeeds on totally ordered elements.
    pub fn try_contains_bound(&self, side: Side, test: FiniteBound<&T>) -> (r: Result<
        bool,
        TotalOrderError,
    >)
        ensures
            r == Ok::<bool, TotalOrderError>(
                holds_pos(
                    side,
                    self.pos(side),
                    bound_pos(test.kind(), test.limit().as_int(), side),
                ),
            ),
    {
        Ok(self.contains_bound_assume_valid(side, test))
    }

    /// Returns `(a, b)` reordered so that the first element is the bound
    /// closer to `side` (the minimum for `Left`, the maximum for `Right`).
    pub fn min_max_assume_valid(side: Side, a: FiniteBound<T>, b: FiniteBound<T>) -> (r: (
        FiniteBound<T>,
        FiniteBound<T>,
    ))
        ensures
            r == (if a.holds(side, b) {
                match side {
                    Side::Left => (a, b),
                    Side::Right => (b, a),
                }
            } else {
                match side {
                    Side::Left => (b, a),
                    Side::Right => (a, b),
                }
            }),
    {
        if a.contains_bound_assume_valid(side, b.as_ref()) {
            match side {
                Side::Left => (a, b),
                Side::Right => (b, a),
            }
        } else {
            match side {
                Side::Left => (b, a),
                Side::Right => (a, b),
            }
        }
    }

    /// Consume a and b, returning the minimum bound for `side`.
    pub fn take_min_assume_valid(side: Side, a: FiniteBound<T>, b: FiniteBound<T>) -> (r:
        FiniteBound<T>)
        ensures
            r == Self::min_spec(side, a, b),
    {
        if a.contains_bound_assume_valid(side, b.as_ref()) {
            side.select(a, b)
        } else {
            side.select(b, a)
        }
    }

    /// Consume a and b, returning the minimum bound; always succeeds on
    /// totally ordered elements.
    pub fn try_take_min(side: Side, a: FiniteBound<T>, b: FiniteBound<T>) -> (r: Result<
        FiniteBound<T>,
        TotalOrderError,
    >)
        ensures
            r == Ok::<FiniteBound<T>, TotalOrderError>(Self::min_spec(side, a, b)),
    {
        Ok(Self::take_min_assume_valid(side, a, b))
    }

    /// Consume a and b, returning the maximum bound for `side`.
    pub fn take_max_assume_valid(side: Side, a: FiniteBound<T>, b: FiniteBound<T>) -> (r:
        FiniteBound<T>)
        ensures
            r == Self::max_spec(side, a, b),
    {
        if a.contains_bound_assume_valid(side, b.as_ref()) {
            side.select(b, a)
        } else {
            side.select(a, b)
        }
    }

    /// Consume a and b, returning the maximum bound; always succeeds on
    /// totally ordered elements.
    pub fn try_take_max(side: Side, a: FiniteBound<T>, b: FiniteBound<T>) -> (r: Result<
        FiniteBound<T>,
        TotalOrderError,
    >)
        ensures
            r == Ok::<FiniteBound<T>, TotalOrderError>(Self::max_spec(side, a, b)),
    {
        Ok(Self::take_max_assume_valid(side, a, b))
    }

    /// A reference to the minimum bound for `side`.
    pub fn min_assume_valid<'a>(side: Side, a: &'a FiniteBound<T>, b: &'a FiniteBound<T>) -> (r:
        &'a FiniteBound<T>)
        ensures
            *r == Self::min_spec(side, *a, *b),
    {
        if a.contains_bound_assume_valid(side, b.as_ref()) {
            side.select(a, b)
        } else {
            side.select(b, a)
        }
    }

    /// A reference to the minimum bound; always succeeds on totally ordered
    /// elements.
    pub fn try_min<'a>(side: Side, a: &'a FiniteBound<T>, b: &'a FiniteBound<T>) -> (r: Result<
        &'a FiniteBound<T>,
        TotalOrderError,
    >)
        ensures
            r matches Ok(m) && *m == Self::min_spec(side, *a, *b),
    {
        Ok(Self::min_assume_valid(side, a, b))
    }

    /// A reference to the maximum bound for `side`.
    pub fn max_assume_valid<'a>(side: Side, a: &'a FiniteBound<T>, b: &'a FiniteBound<T>) -> (r:
        &'a FiniteBound<T>)
        ensures
            *r == Self::max_spec(side, *a, *b),
    {
        if a.contains_bound_assume_valid(side, b.as_ref()) {
            side.select(b, a)
        } else {
            side.select(a, b)
        }
    }

    /// A reference to the maximum bound; always succeeds on totally ordered
    /// elements.
    pub fn try_max<'a>(side: Side, a: &'a FiniteBound<T>, b: &'a FiniteBound<T>) -> (r: Result<
        &'a FiniteBound<T>,
        TotalOrderError,
    >)
        ensures
            r matches Ok(m) && *m == Self::max_spec(side, *a, *b),
    {
        Ok(Self::max_assume_valid(side, a, b))
    }

    /// The minimum of two bounds for `side`: the one whose half-line holds
    /// the other on the left, the held one on the right.
    pub open spec fn min_spec(side: Side, a: FiniteBound<T>, b: FiniteBound<T>) -> FiniteBound<T> {
        if a.holds(side, b) {
            match side {
                Side::Left => a,
                Side::Right => b,
            }
        } else {
            match side {
                Side::Left => b,
                Side::Right => a,
            }
        }
    }

    /// The maximum of two bounds for `side`.
    pub open spec fn max_spec(side: Side, a: FiniteBound<T>, b: FiniteBound<T>) -> FiniteBound<T> {
        if a.holds(side, b) {
            match side {
                Side::Left => b,
                Side::Right => a,
            }
        } else {
            match side {
                Side::Left => a,
                Side::Right => b,
            }
        }
    }

    /// For discrete types, normalize to closed form: an open bound becomes
    /// the closed bound at the neighbouring value inside the half-line, when
    /// that neighbour exists.
    pub fn normalized(self, side: Side) -> (r: Self)
        ensures
            r.is_normal(side),
            self.kind() == BoundType::Closed ==> r == self,
            self.kind() == BoundType::Open && !(T::min_int() <= self.lim() - side.unit()
                <= T::max_int()) ==> r == self,
            self.kind() == BoundType::Open && T::min_int() <= self.lim() - side.unit()
                <= T::max_int() ==> r.kind() == BoundType::Closed && r.lim() == self.lim()
                - side.unit(),
            forall|x: int| #[trigger] r.admits(side, x) == self.admits(side, x),
    {
        match self.0 {
            BoundType::Open => {
                let flipped = side.flip();
                match self.value().try_adjacent(flipped) {
                    None => self,
                    Some(new_limit) => FiniteBound(BoundType::Closed, new_limit),
                }
            },
            BoundType::Closed => self,
        }
    }

    /// Validates `limit` via `Element::validate` and constructs a bound; every
    /// integer limit is accepted.
    pub fn try_new(bound_type: BoundType, limit: T) -> (r: Result<Self, Error>)
        ensures
            r matches Ok(b) && b.kind() == bound_type && b.limit() == limit,
    {
        match limit.validate() {
            Some(v) => Ok(FiniteBound(bound_type, v)),
            None => Err(Error::InvalidBoundLimit),
        }
    }

    /// Validates `limit` and constructs a closed bound.
    pub fn try_closed(limit: T) -> (r: Result<Self, Error>)
        ensures
            r matches Ok(b) && b.kind() == BoundType::Closed && b.limit() == limit,
    {
        Self::try_new(BoundType::Closed, limit)
    }

    /// Validates `limit` and constructs an open bound.
    pub fn try_open(limit: T) -> (r: Result<Self, Error>)
        ensures
            r matches Ok(b) && b.kind() == BoundType::Open && b.limit() == limit,
    {
        Self::try_new(BoundType::Open, limit)
    }

    /// Constructs a bound; panics if `limit` is rejected by
    /// `Element::validate`, which never happens for the primitive integers.
    pub fn new(bound_type: BoundType, limit: T) -> (r: Self)
        ensures
            r.kind() == bound_type,
            r.limit() == limit,
    {
        Self::try_new(bound_type, limit).unwrap()
    }

    /// Constructs a closed bound.
    pub fn closed(limit: T) -> (r: Self)
        ensures
            r.kind() == BoundType::Closed,
            r.limit() == limit,
    {
        Self::try_closed(limit).unwrap()
    }

    /// Constructs an open bound.
    pub fn open(limit: T) -> (r: Self)
        ensures
            r.kind() == BoundType::Open,
            r.limit() == limit,
    {
        Self::try_open(limit).unwrap()
    }
}

/// The rank of a bound type's ordered kind on `side`.
fn side_rank(bt: BoundType, side: Side) -> (r: u8)
    ensures
        r as int == kind_rank(side_kind(bt, side)),
{
    match bt {
        BoundType::Closed => 1,
        BoundType::Open => match side {
            Side::Left => 2,
            Side::Right => 0,
        },
    }
}

/// Normalization keeps the half-line of a bound, and the canonical form is
/// unique: two normal bounds on the same side with the same half-line over
/// the representable range are the same bound.
pub proof fn lemma_normal_bounds_unique<T: Element>(side: Side, a: FiniteBound<T>, b: FiniteBound<T>)
    requires
        a.is_normal(side),
        b.is_normal(side),
        forall|x: int|
            T::min_int() <= x <= T::max_int() ==> (a.admits(side, x) <==> b.admits(side, x)),
    ensures
        a == b,
{
    T::lemma_as_int(a.limit());
    T::lemma_as_int(b.limit());
    T::lemma_as_int_injective(a.limit(), b.limit());
    let (va, vb) = (a.lim(), b.lim());
    assert(a.admits(side, va) == b.admits(side, va));
    assert(a.admits(side, vb) == b.admits(side, vb));
    FiniteBound::<T>::lemma_fields_determine(a, b);
}

/// On normal bounds, holding by position is exactly inclusion of the
/// half-lines over the representable range.
pub proof fn lemma_holds_is_inclusion<T: Element>(side: Side, a: FiniteBound<T>, b: FiniteBound<T>)
    requires
        a.is_normal(side),
        b.is_normal(side),
    ensures
        a.holds(side, b) <==> forall|x: int|
            T::min_int() <= x <= T::max_int() && b.admits(side, x) ==> a.admits(side, x),
{
    T::lemma_as_int(a.limit());
    T::lemma_as_int(b.limit());
    if a.holds(side, b) {
        assert forall|x: int|
            T::min_int() <= x <= T::max_int() && b.admits(side, x) implies a.admits(side, x) by {
            lemma_admits_by_pos(a.kind(), a.lim(), side, x);
            lemma_admits_by_pos(b.kind(), b.lim(), side, x);
        }
    } else {
        let w = b.lim();
        assert(b.kind() == BoundType::Closed);
        assert(b.admits(side, w));
        assert(!a.admits(side, w));
    }
}

} // verus!
