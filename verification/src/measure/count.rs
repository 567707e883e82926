//! Counting the elements of a set.
use vstd::prelude::*;

use super::Extent;
use crate::disjoint::MaybeDisjoint;
use crate::error::MathError;
use crate::numeric::{Element, Magnitude, WideInt};
use crate::ops::math::TryAdd;
use crate::sets::{EnumInterval, FiniteInterval, HalfInterval};

verus! {

/// The count does not fit the `Countable` output type.
#[derive(Debug, Copy, Clone, PartialEq, Eq, Hash)]
pub struct CountOverflowError;

impl CountOverflowError {
    /// The message this error displays.
    pub fn message(&self) -> (r: &'static str)
        ensures
            r@ == "count overflows the Countable Output type"@,
    {
        "count overflows the Countable Output type"
    }
}

impl From<MathError> for CountOverflowError {
    fn from(e: MathError) -> (r: Self)
        ensures
            r == CountOverflowError,
    {
        CountOverflowError
    }
}

impl vstd::std_specs::convert::FromSpecImpl<MathError> for CountOverflowError {
    open spec fn obeys_from_spec() -> bool {
        true
    }

    open spec fn from_spec(v: MathError) -> Self {
        CountOverflowError
    }
}

/// An element type whose elements between two bounds can be counted.
pub trait Countable: Element {
    /// The count's value type.
    type Output: Magnitude;

    /// The number of elements in `[left, right]`, or `None` when it does not
    /// fit `Output`.
    fn count_inclusive(left: &Self, right: &Self) -> (r: Option<Self::Output>)
        requires
            left.as_int() <= right.as_int(),
        ensures
            r matches Some(c) ==> c.as_nat() == right.as_int() - left.as_int() + 1,
            r is None <==> right.as_int() - left.as_int() + 1 > Self::Output::max_nat(),
    ;
}

/// Every element type counts into a `u128`; only the full range of a
/// 128-bit type does not fit.
impl<T: Element> Countable for T {
    type Output = u128;

    fn count_inclusive(left: &T, right: &T) -> (r: Option<u128>) {
        proof {
            T::lemma_as_int(*left);
            T::lemma_as_int(*right);
            T::lemma_span();
        }
        let gap = WideInt::gap(left.into_wide(), right.into_wide());
        let r = gap.checked_add(1);
        assert(<u128 as Magnitude>::max_nat() == u128::MAX);
        r
    }
}

/// The number of elements of a set, in the element type's `Countable`
/// output; half-bounded and unbounded sets count `Infinite`.
pub trait Count {
    /// The count's value type.
    type Output: Magnitude;

    /// The error when the count does not fit `Output`.
    type Error: core::fmt::Debug;

    /// Whether the set has finitely many elements by its shape.
    spec fn count_finite(&self) -> bool;

    /// The number of elements of a finite-bounded set.
    spec fn count_value(&self) -> nat;

    /// Whether counting overflows `Output`.
    spec fn count_overflows(&self) -> bool;

    /// The count; requires that it does not overflow.
    fn count(&self) -> (r: Extent<Self::Output>)
        requires
            !self.count_overflows(),
        ensures
            r is Infinite <==> !self.count_finite(),
            r matches Extent::Finite(c) ==> c.as_nat() == self.count_value(),
    {
        self.try_count().unwrap()
    }

    /// The count, or `Err` when it overflows `Output`.
    fn try_count(&self) -> (r: Result<Extent<Self::Output>, Self::Error>)
        ensures
            r is Err <==> self.count_overflows(),
            r matches Ok(e) ==> (e is Infinite <==> !self.count_finite()),
            r matches Ok(Extent::Finite(c)) ==> c.as_nat() == self.count_value(),
    ;
}

impl<T: Element> Count for FiniteInterval<T> {
    type Output = u128;

    type Error = CountOverflowError;

    open spec fn count_finite(&self) -> bool {
        true
    }

    open spec fn count_value(&self) -> nat {
        if self.is_empty_spec() {
            0
        } else {
            (self.hi() - self.lo() + 1) as nat
        }
    }

    open spec fn count_overflows(&self) -> bool {
        !self.is_empty_spec() && self.hi() - self.lo() + 1 > u128::MAX
    }

    fn try_count(&self) -> (r: Result<Extent<u128>, CountOverflowError>) {
        match self.view_raw() {
            Some((left, right)) => match T::count_inclusive(left.value(), right.value()) {
                Some(count) => Ok(Extent::Finite(count)),
                None => Err(CountOverflowError),
            },
            None => Ok(Extent::Finite(0)),
        }
    }
}

impl<T: Element> Count for HalfInterval<T> {
    type Output = u128;

    type Error = CountOverflowError;

    open spec fn count_finite(&self) -> bool {
        false
    }

    open spec fn count_value(&self) -> nat {
        0
    }

    open spec fn count_overflows(&self) -> bool {
        false
    }

    fn try_count(&self) -> (r: Result<Extent<u128>, CountOverflowError>) {
        Ok(Extent::Infinite)
    }
}

impl<T: Element> Count for EnumInterval<T> {
    type Output = u128;

    type Error = CountOverflowError;

    open spec fn count_finite(&self) -> bool {
        *self is Finite
    }

    open spec fn count_value(&self) -> nat {
        match *self {
            EnumInterval::Finite(f) => f.count_value(),
            _ => 0,
        }
    }

    open spec fn count_overflows(&self) -> bool {
        match *self {
            EnumInterval::Finite(f) => f.count_overflows(),
            _ => false,
        }
    }

    fn try_count(&self) -> (r: Result<Extent<u128>, CountOverflowError>) {
        match self {
            EnumInterval::Finite(inner) => inner.try_count(),
            _ => Ok(Extent::Infinite),
        }
    }
}

/// The count of a [`MaybeDisjoint`] is the sum of its pieces' counts.
impl<T: Element> Count for MaybeDisjoint<T> {
    type Output = u128;

    type Error = CountOverflowError;

    open spec fn count_finite(&self) -> bool {
        match *self {
            MaybeDisjoint::Consumed => true,
            MaybeDisjoint::Connected(i) => i.count_finite(),
            MaybeDisjoint::Disjoint(a, b) => a.count_finite() && b.count_finite(),
        }
    }

    open spec fn count_value(&self) -> nat {
        match *self {
            MaybeDisjoint::Consumed => 0,
            MaybeDisjoint::Connected(i) => i.count_value(),
            MaybeDisjoint::Disjoint(a, b) => a.count_value() + b.count_value(),
        }
    }

    open spec fn count_overflows(&self) -> bool {
        match *self {
            MaybeDisjoint::Consumed => false,
            MaybeDisjoint::Connected(i) => i.count_overflows(),
            MaybeDisjoint::Disjoint(a, b) => a.count_overflows() || b.count_overflows() || (
            a.count_finite() && b.count_finite() && a.count_value() + b.count_value() > u128::MAX),
        }
    }

    fn try_count(&self) -> (r: Result<Extent<u128>, CountOverflowError>) {
        match self {
            MaybeDisjoint::Consumed => Ok(Extent::Finite(0)),
            MaybeDisjoint::Connected(iv) => iv.try_count(),
            MaybeDisjoint::Disjoint(a, b) => {
                let ac = match a.try_count() {
                    Ok(c) => c,
                    Err(e) => return Err(e),
                };
                let bc = match b.try_count() {
                    Ok(c) => c,
                    Err(e) => return Err(e),
                };
                match ac.try_add(bc) {
                    Ok(c) => Ok(c),
                    Err(e) => Err(CountOverflowError::from(e)),
                }
            },
        }
    }
}

} // verus!
