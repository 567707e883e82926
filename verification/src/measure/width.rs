//! The width `sup - inf` of a set.
use vstd::prelude::*;

use super::{Count, Extent, Measure};
use crate::disjoint::MaybeDisjoint;
use crate::error::MathError;
use crate::numeric::{Element, Magnitude, WideInt};
use crate::ops::math::TryAdd;
use crate::sets::{EnumInterval, FiniteInterval, HalfInterval};

verus! {

/// The width does not fit the `Widthable` output type.
#[derive(Debug, Copy, Clone, PartialEq, Eq, Hash)]
pub struct WidthOverflowError;

impl WidthOverflowError {
    /// The message this error displays.
    pub fn message(&self) -> (r: &'static str)
        ensures
            r@ == "width overflows the Width Output type or is non-finite"@,
    {
        "width overflows the Width Output type or is non-finite"
    }
}

impl From<MathError> for WidthOverflowError {
    fn from(e: MathError) -> (r: Self)
        ensures
            r == WidthOverflowError,
    {
        WidthOverflowError
    }
}

impl vstd::std_specs::convert::FromSpecImpl<MathError> for WidthOverflowError {
    open spec fn obeys_from_spec() -> bool {
        true
    }

    open spec fn from_spec(v: MathError) -> Self {
        WidthOverflowError
    }
}

/// An element type with a distance between two of its values.
pub trait Widthable: Element {
    /// The width's value type.
    type Output: Magnitude;

    /// `right - left`, or `None` when it does not fit `Output`.
    fn width_between(left: &Self, right: &Self) -> (r: Option<Self::Output>)
        requires
            left.as_int() <= right.as_int(),
        ensures
            r matches Some(w) ==> w.as_nat() == right.as_int() - left.as_int(),
            r is None <==> right.as_int() - left.as_int() > Self::Output::max_nat(),
    ;
}

/// Every element type measures widths in a `u128`, which holds the width of
/// the full range of every primitive integer.
impl<T: Element> Widthable for T {
    type Output = u128;

    fn width_between(left: &T, right: &T) -> (r: Option<u128>) {
        proof {
            T::lemma_as_int(*left);
            T::lemma_as_int(*right);
            T::lemma_span();
        }
        let w = WideInt::gap(left.into_wide(), right.into_wide());
        assert(<u128 as Magnitude>::max_nat() == u128::MAX);
        Some(w)
    }
}

/// The width `sup - inf` of a set, in the element type's `Widthable`
/// output; the empty set has width 0, half-bounded and unbounded sets
/// `Infinite`.
pub trait Width {
    /// The width's value type.
    type Output: Magnitude;

    /// The error when the width does not fit `Output`.
    type Error: core::fmt::Debug;

    /// Whether the width is finite.
    spec fn width_finite(&self) -> bool;

    /// The width of a finite-bounded set.
    spec fn width_value(&self) -> nat;

    /// Whether computing the width overflows `Output`.
    spec fn width_overflows(&self) -> bool;

    /// The width; requires that it does not overflow.
    fn width(&self) -> (r: Extent<Self::Output>)
        requires
            !self.width_overflows(),
        ensures
            r is Infinite <==> !self.width_finite(),
            r matches Extent::Finite(w) ==> w.as_nat() == self.width_value(),
    {
        self.try_width().expect("Width::width: representation overflow; use try_width for panic-free")
    }

    /// The width, or `Err` when it overflows `Output`.
    fn try_width(&self) -> (r: Result<Extent<Self::Output>, Self::Error>)
        ensures
            r is Err <==> self.width_overflows(),
            r matches Ok(e) ==> (e is Infinite <==> !self.width_finite()),
            r matches Ok(Extent::Finite(w)) ==> w.as_nat() == self.width_value(),
    ;
}

impl<T: Element> Width for FiniteInterval<T> {
    type Output = u128;

    type Error = WidthOverflowError;

    open spec fn width_finite(&self) -> bool {
        true
    }

    open spec fn width_value(&self) -> nat {
        if self.is_empty_spec() {
            0
        } else {
            (self.hi() - self.lo()) as nat
        }
    }

    open spec fn width_overflows(&self) -> bool {
        false
    }

    fn try_width(&self) -> (r: Result<Extent<u128>, WidthOverflowError>) {
        match self.view_raw() {
            None => Ok(Extent::Finite(0)),
            Some((left, right)) => {
                proof {
                    T::lemma_as_int(left.limit());
                    T::lemma_as_int(right.limit());
                    T::lemma_span();
                    assert(<u128 as Magnitude>::max_nat() == u128::MAX);
                }
                match T::width_between(left.value(), right.value()) {
                    Some(w) => Ok(Extent::Finite(w)),
                    None => Err(WidthOverflowError),
                }
            },
        }
    }
}

impl<T: Element> Width for HalfInterval<T> {
    type Output = u128;

    type Error = WidthOverflowError;

    open spec fn width_finite(&self) -> bool {
        false
    }

    open spec fn width_value(&self) -> nat {
        0
    }

    open spec fn width_overflows(&self) -> bool {
        false
    }

    fn try_width(&self) -> (r: Result<Extent<u128>, WidthOverflowError>) {
        Ok(Extent::Infinite)
    }
}

impl<T: Element> Width for EnumInterval<T> {
    type Output = u128;

    type Error = WidthOverflowError;

    open spec fn width_finite(&self) -> bool {
        *self is Finite
    }

    open spec fn width_value(&self) -> nat {
        match *self {
            EnumInterval::Finite(f) => f.width_value(),
            _ => 0,
        }
    }

    open spec fn width_overflows(&self) -> bool {
        false
    }

    fn try_width(&self) -> (r: Result<Extent<u128>, WidthOverflowError>) {
        match self {
            EnumInterval::Finite(inner) => inner.try_width(),
            _ => Ok(Extent::Infinite),
        }
    }
}

/// The width of a [`MaybeDisjoint`] is the sum of its pieces' widths.
impl<T: Element> Width for MaybeDisjoint<T> {
    type Output = u128;

    type Error = WidthOverflowError;

    open spec fn width_finite(&self) -> bool {
        match *self {
            MaybeDisjoint::Consumed => true,
            MaybeDisjoint::Connected(i) => i.width_finite(),
            MaybeDisjoint::Disjoint(a, b) => a.width_finite() && b.width_finite(),
        }
    }

    open spec fn width_value(&self) -> nat {
        match *self {
            MaybeDisjoint::Consumed => 0,
            MaybeDisjoint::Connected(i) => i.width_value(),
            MaybeDisjoint::Disjoint(a, b) => a.width_value() + b.width_value(),
        }
    }

    open spec fn width_overflows(&self) -> bool {
        match *self {
            MaybeDisjoint::Disjoint(a, b) => a.width_finite() && b.width_finite() && a.width_value()
                + b.width_value() > u128::MAX,
            _ => false,
        }
    }

    fn try_width(&self) -> (r: Result<Extent<u128>, WidthOverflowError>) {
        match self {
            MaybeDisjoint::Consumed => Ok(Extent::Finite(0)),
            MaybeDisjoint::Connected(iv) => iv.try_width(),
            MaybeDisjoint::Disjoint(a, b) => {
                let aw = match a.try_width() {
                    Ok(w) => w,
                    Err(e) => return Err(e),
                };
                let bw = match b.try_width() {
                    Ok(w) => w,
                    Err(e) => return Err(e),
                };
                match aw.try_add(bw) {
                    Ok(w) => Ok(w),
                    Err(e) => Err(WidthOverflowError::from(e)),
                }
            },
        }
    }
}

/// Count, measure and width agree on a finite interval: the count and the
/// measure are its number of elements, and a non-empty interval's width is
/// one less.
pub proof fn lemma_count_width_measure<T: Element>(i: EnumInterval<T>)
    requires
        i.wf(),
        i is Finite,
    ensures
        i.count_value() == i.measure_value(),
        i.count_value() == i@.len(),
        !i.is_empty_spec() ==> i.width_value() + 1 == i.count_value(),
        i.is_empty_spec() ==> i.width_value() == 0 && i.count_value() == 0,
{
    crate::measure::measure::lemma_measure_is_cardinality(i);
    i.lemma_range();
}

} // verus!
