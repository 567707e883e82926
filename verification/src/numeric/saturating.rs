//! [`core::num::Saturating<T>`] as an element type: the same values as `T`,
//! with saturating arithmetic.
//!
//! Saturating add, sub and mul are monotone on the bounded integer
//! lattice, so intervals of `Saturating<T>` stay valid under them: an
//! overflow clamps to `T`'s least or greatest value instead of failing.
use vstd::prelude::*;

use core::num::Saturating;

use super::{clamp_int, Element, WideInt};
use crate::bound::Side;

verus! {

/// `core::num::Saturating<T>`: a primitive integer in its public field
/// `0`, whose operators saturate.
#[verifier::external_type_specification]
#[verifier::reject_recursive_types(T)]
pub struct ExSaturating<T>(Saturating<T>);

impl<T: Element> Element for Saturating<T> {
    type Kind = T::Kind;

    type Measure = T::Measure;

    open spec fn as_int(self) -> int {
        self.0.as_int()
    }

    open spec fn min_int() -> int {
        T::min_int()
    }

    open spec fn max_int() -> int {
        T::max_int()
    }

    proof fn lemma_as_int(x: Self) {
        T::lemma_as_int(x.0);
        assert(Self::min_int() == T::min_int() && Self::max_int() == T::max_int());
        assert(x.as_int() == x.0.as_int());
    }

    proof fn lemma_as_int_injective(x: Self, y: Self) {
        T::lemma_as_int_injective(x.0, y.0);
    }

    proof fn lemma_span() {
        T::lemma_span();
    }

    open spec fn from_int(v: int) -> Self {
        Saturating(T::from_int(v))
    }

    proof fn lemma_from_int(x: Self) {
        T::lemma_from_int(x.0);
    }

    proof fn lemma_from_int_value(v: int) {
        T::lemma_from_int_value(v);
    }

    proof fn lemma_range() {
        T::lemma_range();
    }

    fn less_than(&self, other: &Self) -> (r: bool) {
        self.0.less_than(&other.0)
    }

    fn less_or_equal(&self, other: &Self) -> (r: bool) {
        self.0.less_or_equal(&other.0)
    }

    fn zero() -> (r: Self) {
        Saturating(T::zero())
    }

    fn min_value() -> (r: Self) {
        Saturating(T::min_value())
    }

    fn max_value() -> (r: Self) {
        Saturating(T::max_value())
    }

    fn try_adjacent(&self, side: Side) -> (r: Option<Self>) {
        match self.0.try_adjacent(side) {
            Some(v) => Some(Saturating(v)),
            None => None,
        }
    }

    fn try_measure_finite(left: &Self, right: &Self) -> (r: Option<Self::Measure>) {
        T::try_measure_finite(&left.0, &right.0)
    }

    fn checked_add_element(self, rhs: Self) -> (r: Option<Self>) {
        match self.0.checked_add_element(rhs.0) {
            Some(v) => Some(Saturating(v)),
            None => None,
        }
    }

    fn checked_sub_element(self, rhs: Self) -> (r: Option<Self>) {
        match self.0.checked_sub_element(rhs.0) {
            Some(v) => Some(Saturating(v)),
            None => None,
        }
    }

    fn checked_mul_element(self, rhs: Self) -> (r: Option<Self>) {
        match self.0.checked_mul_element(rhs.0) {
            Some(v) => Some(Saturating(v)),
            None => None,
        }
    }

    fn checked_div_element(self, rhs: Self) -> (r: Option<Self>) {
        match self.0.checked_div_element(rhs.0) {
            Some(v) => Some(Saturating(v)),
            None => None,
        }
    }

    fn into_wide(self) -> (r: WideInt) {
        self.0.into_wide()
    }

    fn from_wide_checked(w: WideInt) -> (r: Option<Self>) {
        assert(Self::min_int() == T::min_int() && Self::max_int() == T::max_int());
        match T::from_wide_checked(w) {
            Some(v) => Some(Saturating(v)),
            None => None,
        }
    }

    fn from_wide_saturating(w: WideInt) -> (r: Self) {
        Saturating(T::from_wide_saturating(w))
    }
}

/// The saturating value of `T` at `v`: `v` clamped into `T`'s range.
pub open spec fn saturate<T: Element>(v: int) -> Saturating<T> {
    Saturating(T::from_int(clamp_int(v, T::min_int(), T::max_int())))
}

} // verus!
