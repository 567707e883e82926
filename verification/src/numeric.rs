//! Element types: the data types whose values make up a set.
//!
//! Every element type has a mathematical view as an integer
//! ([`Element::as_int`]) and a representable range
//! `[Element::min_int(), Element::max_int()]`. Discrete types normalize
//! open bounds to closed ones through [`Element::try_adjacent`].
use vstd::prelude::*;

use crate::bound::Side;

mod primitive;
pub mod saturating;

verus! {

/// Integer division rounded toward zero (Rust's `/` on integers).
pub open spec fn trunc_div(x: int, d: int) -> int {
    if x == 0 {
        0
    } else if x > 0 && d > 0 {
        x / d
    } else if x < 0 && d < 0 {
        (x * -1) / (d * -1)
    } else if x < 0 {
        ((x * -1) / d) * -1
    } else {
        (x / (d * -1)) * -1
    }
}

/// The midpoint of two integers, rounded toward zero.
pub open spec fn mid_int(a: int, b: int) -> int {
    trunc_div(a + b, 2)
}

/// `x` clamped into `[lo, hi]`.
pub open spec fn clamp_int(x: int, lo: int, hi: int) -> int {
    if x < lo {
        lo
    } else if x > hi {
        hi
    } else {
        x
    }
}

/// Marker for the category of an element type.
pub trait Kind {

}

/// Marker for a discrete element type: every element has a unique
/// neighbour on each side, unless it is an extreme of the type.
#[derive(Debug, Copy, Clone, PartialEq, Eq)]
pub struct DiscreteKind;

impl Kind for DiscreteKind {

}

/// Marker for a continuous element type: the order has no successor or
/// predecessor relation.
#[derive(Debug, Copy, Clone, PartialEq, Eq)]
pub struct ContinuousKind;

impl Kind for ContinuousKind {

}

/// A signed integer of up to 129 bits, as a sign and a `u128` magnitude.
/// Every primitive integer value converts into it without loss.
#[derive(Debug, Copy, Clone, PartialEq, Eq)]
pub struct WideInt {
    /// Whether the value is below zero (a zero magnitude denotes zero
    /// whatever the sign).
    pub negative: bool,
    /// The absolute value.
    pub magnitude: u128,
}

impl WideInt {
    /// The integer this denotes.
    pub open spec fn value(self) -> int {
        if self.negative {
            -(self.magnitude as int)
        } else {
            self.magnitude as int
        }
    }

    /// `b - a` for `a <= b`, as an unsigned magnitude.
    pub fn gap(a: WideInt, b: WideInt) -> (r: u128)
        requires
            a.value() <= b.value(),
            b.value() - a.value() <= u128::MAX,
        ensures
            r == b.value() - a.value(),
    {
        if a.negative && b.negative {
            a.magnitude - b.magnitude
        } else if a.negative {
            a.magnitude + b.magnitude
        } else if !b.negative {
            b.magnitude - a.magnitude
        } else {
            0
        }
    }

    /// `(a + b) / 2`, rounded toward zero, computed without overflow.
    pub fn half_sum(a: WideInt, b: WideInt) -> (r: WideInt)
        ensures
            r.value() == mid_int(a.value(), b.value()),
    {
        if a.negative == b.negative {
            let m = a.magnitude / 2 + b.magnitude / 2 + (a.magnitude % 2 + b.magnitude % 2) / 2;
            assert(m as int == (a.magnitude as int + b.magnitude as int) / 2);
            WideInt { negative: a.negative, magnitude: m }
        } else if a.magnitude >= b.magnitude {
            WideInt { negative: a.negative, magnitude: (a.magnitude - b.magnitude) / 2 }
        } else {
            WideInt { negative: b.negative, magnitude: (b.magnitude - a.magnitude) / 2 }
        }
    }
}

/// The midpoint of two values lies between them, is symmetric, and is half
/// their sum rounded toward zero.
pub proof fn lemma_mid_int_between(a: int, b: int)
    ensures
        a <= b ==> a <= mid_int(a, b) <= b,
        b <= a ==> b <= mid_int(a, b) <= a,
        mid_int(a, b) == mid_int(b, a),
        a + b >= 0 ==> 2 * mid_int(a, b) <= a + b <= 2 * mid_int(a, b) + 1,
        a + b < 0 ==> 2 * mid_int(a, b) - 1 <= a + b <= 2 * mid_int(a, b),
{
}

/// Non-negative magnitudes: the value types of measures, counts and
/// widths.
pub trait Magnitude: Sized + Copy {
    /// The natural number this value denotes.
    spec fn as_nat(self) -> nat;

    /// The greatest representable value.
    spec fn max_nat() -> nat;

    /// Every value lies within the representable range.
    proof fn lemma_as_nat(x: Self)
        ensures
            x.as_nat() <= Self::max_nat(),
    ;

    /// Two values with the same view are the same value.
    proof fn lemma_as_nat_injective(x: Self, y: Self)
        ensures
            x.as_nat() == y.as_nat() ==> x == y,
    ;

    /// The magnitude denoting `n` (meaningful within the representable
    /// range).
    spec fn from_nat(n: nat) -> Self;

    /// A magnitude is the one its own view denotes.
    proof fn lemma_from_nat(x: Self)
        ensures
            Self::from_nat(x.as_nat()) == x,
    ;

    /// The zero magnitude.
    fn zero_measure() -> (r: Self)
        ensures
            r.as_nat() == 0,
    ;

    /// Checked addition: `None` exactly when the sum is not representable.
    fn checked_sum(self, rhs: Self) -> (r: Option<Self>)
        ensures
            r matches Some(s) ==> s.as_nat() == self.as_nat() + rhs.as_nat(),
            r is None <==> self.as_nat() + rhs.as_nat() > Self::max_nat(),
    ;
}

/// Defines the data types whose elements make up a set.
///
/// The view of an element is an integer within the type's representable
/// range; every element type here is discrete, so `try_adjacent` yields the
/// neighbour `x ± 1` whenever it is representable.
pub trait Element: Sized + Copy {
    /// The element category.
    type Kind: Kind;

    /// The natural measure (cardinality) of an interval over this type.
    type Measure: Magnitude;

    /// The integer an element denotes.
    spec fn as_int(self) -> int;

    /// The least representable value.
    spec fn min_int() -> int;

    /// The greatest representable value.
    spec fn max_int() -> int;

    /// Every element lies within the representable range, which holds 0
    /// and at least one other value.
    proof fn lemma_as_int(x: Self)
        ensures
            Self::min_int() <= x.as_int() <= Self::max_int(),
            Self::min_int() <= 0 < Self::max_int(),
    ;

    /// Two elements with the same view are the same element.
    proof fn lemma_as_int_injective(x: Self, y: Self)
        ensures
            x.as_int() == y.as_int() ==> x == y,
    ;

    /// The distance across the representable range fits in a `u128`.
    proof fn lemma_span()
        ensures
            Self::max_int() - Self::min_int() <= u128::MAX,
    ;

    /// The element denoting `v` (meaningful within the representable range).
    spec fn from_int(v: int) -> Self;

    /// An element is the one its own view denotes.
    proof fn lemma_from_int(x: Self)
        ensures
            Self::from_int(x.as_int()) == x,
    ;

    /// Within the representable range, `from_int` gives the element
    /// denoting the value.
    proof fn lemma_from_int_value(v: int)
        requires
            Self::min_int() <= v <= Self::max_int(),
        ensures
            Self::from_int(v).as_int() == v,
    ;

    /// The representable range is non-empty and holds 0.
    proof fn lemma_range()
        ensures
            Self::min_int() <= 0 < Self::max_int(),
    ;

    /// `self < other`.
    fn less_than(&self, other: &Self) -> (r: bool)
        ensures
            r == (self.as_int() < other.as_int()),
    ;

    /// `self <= other`.
    fn less_or_equal(&self, other: &Self) -> (r: bool)
        ensures
            r == (self.as_int() <= other.as_int()),
    ;

    /// The zero element.
    fn zero() -> (r: Self)
        ensures
            r.as_int() == 0,
    ;

    /// The least element.
    fn min_value() -> (r: Self)
        ensures
            r.as_int() == Self::min_int(),
    ;

    /// The greatest element.
    fn max_value() -> (r: Self)
        ensures
            r.as_int() == Self::max_int(),
    ;

    /// The element adjacent to `self` on `side`, or `None` when it is not
    /// representable.
    fn try_adjacent(&self, side: Side) -> (r: Option<Self>)
        ensures
            r matches Some(y) ==> y.as_int() == self.as_int() + side.unit(),
            r is None <==> !(Self::min_int() <= self.as_int() + side.unit() <= Self::max_int()),
    ;

    /// Validate `self` as a finite bound value: every integer value is
    /// accepted unchanged.
    fn validate(self) -> (r: Option<Self>)
        ensures
            r == Some(self),
    {
        Some(self)
    }

    /// The natural measure (cardinality) of `[left, right]`, or `None` when
    /// it is not representable in `Self::Measure`.
    fn try_measure_finite(left: &Self, right: &Self) -> (r: Option<Self::Measure>)
        requires
            left.as_int() <= right.as_int(),
        ensures
            r matches Some(m) ==> m.as_nat() == right.as_int() - left.as_int() + 1,
            r is None <==> right.as_int() - left.as_int() + 1 > Self::Measure::max_nat(),
    ;

    /// Checked addition.
    fn checked_add_element(self, rhs: Self) -> (r: Option<Self>)
        ensures
            r matches Some(v) ==> v.as_int() == self.as_int() + rhs.as_int(),
            r is None <==> !(Self::min_int() <= self.as_int() + rhs.as_int() <= Self::max_int()),
    ;

    /// Checked subtraction.
    fn checked_sub_element(self, rhs: Self) -> (r: Option<Self>)
        ensures
            r matches Some(v) ==> v.as_int() == self.as_int() - rhs.as_int(),
            r is None <==> !(Self::min_int() <= self.as_int() - rhs.as_int() <= Self::max_int()),
    ;

    /// Checked multiplication.
    fn checked_mul_element(self, rhs: Self) -> (r: Option<Self>)
        ensures
            r matches Some(v) ==> v.as_int() == self.as_int() * rhs.as_int(),
            r is None <==> !(Self::min_int() <= self.as_int() * rhs.as_int() <= Self::max_int()),
    ;

    /// Checked division, rounded toward zero: `None` on a zero divisor or
    /// an unrepresentable quotient.
    fn checked_div_element(self, rhs: Self) -> (r: Option<Self>)
        ensures
            r matches Some(v) ==> rhs.as_int() != 0 && v.as_int() == trunc_div(
                self.as_int(),
                rhs.as_int(),
            ),
            r is None <==> (rhs.as_int() == 0 || !(Self::min_int() <= trunc_div(
                self.as_int(),
                rhs.as_int(),
            ) <= Self::max_int())),
    ;

    /// Lossless conversion into a wide integer.
    fn into_wide(self) -> (r: WideInt)
        ensures
            r.value() == self.as_int(),
    ;

    /// Conversion from a wide integer: `None` exactly when the value is out
    /// of range.
    fn from_wide_checked(w: WideInt) -> (r: Option<Self>)
        ensures
            r matches Some(v) ==> v.as_int() == w.value(),
            r is None <==> !(Self::min_int() <= w.value() <= Self::max_int()),
    ;

    /// Saturating conversion from a wide integer: out-of-range values clamp
    /// to the nearest extreme.
    fn from_wide_saturating(w: WideInt) -> (r: Self)
        ensures
            r.as_int() == clamp_int(w.value(), Self::min_int(), Self::max_int()),
    ;

    /// The midpoint of `self` and `other`, rounded toward zero, computed
    /// without overflow.
    fn midpoint_element(self, other: Self) -> (r: Self)
        ensures
            r.as_int() == mid_int(self.as_int(), other.as_int()),
    {
        let w = WideInt::half_sum(self.into_wide(), other.into_wide());
        proof {
            Self::lemma_as_int(self);
            Self::lemma_as_int(other);
            lemma_mid_int_between(self.as_int(), other.as_int());
        }
        match Self::from_wide_checked(w) {
            Some(v) => v,
            None => {
                proof {
                    assert(false);
                }
                self
            },
        }
    }
}

/// Pure-marker subtrait for discrete element types.
pub trait DiscreteElement: Element<Kind = DiscreteKind> {

}

impl<T: Element<Kind = DiscreteKind>> DiscreteElement for T {

}

/// Pure-marker subtrait for continuous element types.
pub trait ContinuousElement: Element<Kind = ContinuousKind> {

}

impl<T: Element<Kind = ContinuousKind>> ContinuousElement for T {

}

/// Computes the midpoint (average) of two values without overflow.
///
/// For the primitive integers the result is `(a + b) / 2` rounded toward
/// zero, as if computed in a sufficiently large type; it is commutative and
/// lies between its inputs.
pub trait Midpointable: Element {
    /// The failure type; `Infallible` for every primitive integer.
    type Error;

    /// Whether `midpoint` succeeds on every pair of values; true for every
    /// primitive integer.
    spec fn midpoint_total() -> bool;

    /// The midpoint of `self` and `other`; a success is the midpoint
    /// rounded toward zero, and a total midpoint always succeeds.
    fn midpoint(self, other: Self) -> (r: Result<Self, Self::Error>)
        ensures
            r matches Ok(m) ==> m.as_int() == mid_int(self.as_int(), other.as_int()),
            Self::midpoint_total() ==> r is Ok,
    ;
}

/// The midpoint (average) of two values, computed without overflow; the
/// hook the interval `midpoint` accessors rest on.
pub trait Midpoint: Element {
    /// The failure type.
    type Error;

    /// The midpoint of `self` and `other`, rounded toward zero.
    fn midpoint(self, other: Self) -> (r: Result<Self, Self::Error>)
        ensures
            r matches Ok(m) ==> m.as_int() == mid_int(self.as_int(), other.as_int()),
    ;
}

/// Every element type has an infallible midpoint, `Saturating<T>` included.
impl<T: Element> Midpoint for T {
    type Error = core::convert::Infallible;

    fn midpoint(self, other: T) -> (r: Result<T, core::convert::Infallible>)
        ensures
            r is Ok,
    {
        Ok(self.midpoint_element(other))
    }
}

/// The count of `[left, right]` in the element type itself, computed as
/// `(right + 1) - left`, falling back to `right - (left - 1)` when `right`
/// is the greatest value; `None` when the count is not representable. For
/// crossed inputs the same formula gives zero or a negative count.
pub fn default_discrete_count_inclusive<T: Element>(left: &T, right: &T) -> (r: Option<T>)
    ensures
        r matches Some(v) ==> v.as_int() == right.as_int() - left.as_int() + 1,
        r is None <==> !(T::min_int() <= right.as_int() - left.as_int() + 1 <= T::max_int()),
{
    proof {
        T::lemma_as_int(*left);
        T::lemma_as_int(*right);
    }
    if let Some(upper) = right.try_adjacent(Side::Right) {
        return upper.checked_sub_element(*left);
    }
    if let Some(lower) = left.try_adjacent(Side::Left) {
        return right.checked_sub_element(lower);
    }
    None
}

} // verus!
