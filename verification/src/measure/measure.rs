//! The natural additive measure of a set: its cardinality, for the
//! discrete element types here.
use vstd::prelude::*;

use super::Extent;
use crate::disjoint::MaybeDisjoint;
use crate::error::MathError;
use crate::numeric::{Element, Magnitude};
use crate::ops::math::TryAdd;
use crate::sets::{EnumInterval, FiniteInterval, HalfInterval};

verus! {

/// The natural additive measure of a set (cardinality on discrete
/// element types), widened into `Output`.
///
/// A finite-bounded set measures `Finite`, a half-bounded or unbounded set
/// `Infinite`; a measure that does not fit `Output` is an error, never
/// `Infinite`.
pub trait Measure {
    /// The measure's value type.
    type Output: Magnitude;

    /// The error when the measure does not fit `Output`.
    type Error: core::fmt::Debug;

    /// Whether the set's measure is finite.
    spec fn measure_finite(&self) -> bool;

    /// The measure of a set whose measure is finite.
    spec fn measure_value(&self) -> nat;

    /// Whether computing the measure overflows `Output`.
    spec fn measure_overflows(&self) -> bool;

    /// The measure of this set; requires that it does not overflow.
    fn measure(&self) -> (r: Extent<Self::Output>)
        requires
            !self.measure_overflows(),
        ensures
            r is Infinite <==> !self.measure_finite(),
            r matches Extent::Finite(m) ==> m.as_nat() == self.measure_value(),
    {
        self.try_measure().expect(
            "Measure::measure: representation overflow; use try_measure for panic-free",
        )
    }

    /// The measure of this set, or `Err` when it overflows `Output`.
    fn try_measure(&self) -> (r: Result<Extent<Self::Output>, Self::Error>)
        ensures
            r is Err <==> self.measure_overflows(),
            r matches Ok(e) ==> (e is Infinite <==> !self.measure_finite()),
            r matches Ok(Extent::Finite(m)) ==> m.as_nat() == self.measure_value(),
    ;
}

impl<T: Element> Measure for FiniteInterval<T> {
    type Output = T::Measure;

    type Error = MathError;

    open spec fn measure_finite(&self) -> bool {
        true
    }

    open spec fn measure_value(&self) -> nat {
        if self.is_empty_spec() {
            0
        } else {
            (self.hi() - self.lo() + 1) as nat
        }
    }

    open spec fn measure_overflows(&self) -> bool {
        !self.is_empty_spec() && self.hi() - self.lo() + 1 > T::Measure::max_nat()
    }

    fn try_measure(&self) -> (r: Result<Extent<T::Measure>, MathError>)
        ensures
            r matches Err(e) ==> e == MathError::Range,
    {
        match self.view_raw() {
            None => Ok(Extent::Finite(T::Measure::zero_measure())),
            Some((left, right)) => match T::try_measure_finite(left.value(), right.value()) {
                Some(m) => Ok(Extent::Finite(m)),
                None => Err(MathError::Range),
            },
        }
    }
}

impl<T: Element> Measure for HalfInterval<T> {
    type Output = T::Measure;

    type Error = MathError;

    open spec fn measure_finite(&self) -> bool {
        false
    }

    open spec fn measure_value(&self) -> nat {
        0
    }

    open spec fn measure_overflows(&self) -> bool {
        false
    }

    fn try_measure(&self) -> (r: Result<Extent<T::Measure>, MathError>) {
        Ok(Extent::Infinite)
    }
}

impl<T: Element> Measure for EnumInterval<T> {
    type Output = T::Measure;

    type Error = MathError;

    open spec fn measure_finite(&self) -> bool {
        *self is Finite
    }

    open spec fn measure_value(&self) -> nat {
        match *self {
            EnumInterval::Finite(f) => f.measure_value(),
            _ => 0,
        }
    }

    open spec fn measure_overflows(&self) -> bool {
        match *self {
            EnumInterval::Finite(f) => f.measure_overflows(),
            _ => false,
        }
    }

    fn try_measure(&self) -> (r: Result<Extent<T::Measure>, MathError>)
        ensures
            r matches Err(e) ==> e == MathError::Range,
    {
        match self {
            EnumInterval::Finite(inner) => inner.try_measure(),
            EnumInterval::Half(inner) => inner.try_measure(),
            EnumInterval::Unbounded => Ok(Extent::Infinite),
        }
    }
}

/// The measure of a [`MaybeDisjoint`] is the sum of its pieces' measures;
/// an infinite piece makes it infinite, and an overflow of either piece or
/// of the sum is an error.
impl<T: Element> Measure for MaybeDisjoint<T> {
    type Output = T::Measure;

    type Error = MathError;

    open spec fn measure_finite(&self) -> bool {
        match *self {
            MaybeDisjoint::Consumed => true,
            MaybeDisjoint::Connected(i) => i.measure_finite(),
            MaybeDisjoint::Disjoint(a, b) => a.measure_finite() && b.measure_finite(),
        }
    }

    open spec fn measure_value(&self) -> nat {
        match *self {
            MaybeDisjoint::Consumed => 0,
            MaybeDisjoint::Connected(i) => i.measure_value(),
            MaybeDisjoint::Disjoint(a, b) => a.measure_value() + b.measure_value(),
        }
    }

    open spec fn measure_overflows(&self) -> bool {
        match *self {
            MaybeDisjoint::Consumed => false,
            MaybeDisjoint::Connected(i) => i.measure_overflows(),
            MaybeDisjoint::Disjoint(a, b) => a.measure_overflows() || b.measure_overflows() || (
            a.measure_finite() && b.measure_finite() && a.measure_value() + b.measure_value()
                > T::Measure::max_nat()),
        }
    }

    fn try_measure(&self) -> (r: Result<Extent<T::Measure>, MathError>)
        ensures
            r matches Err(e) ==> e == MathError::Range,
    {
        match self {
            MaybeDisjoint::Consumed => Ok(Extent::Finite(T::Measure::zero_measure())),
            MaybeDisjoint::Connected(iv) => iv.try_measure(),
            MaybeDisjoint::Disjoint(a, b) => {
                let am = match a.try_measure() {
                    Ok(m) => m,
                    Err(e) => return Err(e),
                };
                let bm = match b.try_measure() {
                    Ok(m) => m,
                    Err(e) => return Err(e),
                };
                am.try_add(bm)
            },
        }
    }
}

/// The measure of an interval is its number of elements.
pub proof fn lemma_measure_is_cardinality<T: Element>(i: EnumInterval<T>)
    requires
        i.wf(),
        i.measure_finite(),
    ensures
        i@.finite(),
        i.measure_value() == i@.len(),
{
    i.lemma_range();
    crate::sets::lemma_range_set_len(i.lo(), i.hi());
}

/// Monotonicity: an interval inside another measures no more, when both
/// measures are finite. (A half interval over a bounded type can lie
/// inside a finite one, e.g. `[0, ->)` inside `[0, 255]` for `u8`, and
/// measures `Infinite`; the law is stated without such pairs.)
pub proof fn lemma_measure_monotone<T: Element>(a: EnumInterval<T>, b: EnumInterval<T>)
    requires
        a.wf(),
        b.wf(),
        a.measure_finite(),
        b.measure_finite(),
        a@.subset_of(b@),
    ensures
        a.measure_value() <= b.measure_value(),
{
    lemma_measure_is_cardinality(a);
    lemma_measure_is_cardinality(b);
    vstd::set_lib::lemma_len_subset(a@, b@);
}

/// Subadditivity: an interval covered by two others measures no more than
/// their sum.
pub proof fn lemma_measure_subadditive<T: Element>(
    a: EnumInterval<T>,
    b: EnumInterval<T>,
    u: EnumInterval<T>,
)
    requires
        a.wf(),
        b.wf(),
        u.wf(),
        a.measure_finite(),
        b.measure_finite(),
        u.measure_finite(),
        u@.subset_of(a@.union(b@)),
    ensures
        u.measure_value() <= a.measure_value() + b.measure_value(),
{
    lemma_measure_is_cardinality(a);
    lemma_measure_is_cardinality(b);
    lemma_measure_is_cardinality(u);
    vstd::set_lib::lemma_len_union(a@, b@);
    vstd::set_lib::lemma_len_subset(u@, a@.union(b@));
}

/// The measure of a valid [`MaybeDisjoint`] is the number of elements of
/// the set it denotes: the pieces are disjoint, so their measures add up.
pub proof fn lemma_disjoint_measure_additive<T: Element>(m: MaybeDisjoint<T>)
    requires
        m.valid(),
        m.measure_finite(),
    ensures
        m@.finite(),
        m.measure_value() == m@.len(),
{
    match m {
        MaybeDisjoint::Consumed => {
            assert(m@ =~= Set::<int>::empty());
        },
        MaybeDisjoint::Connected(i) => {
            lemma_measure_is_cardinality(i);
        },
        MaybeDisjoint::Disjoint(a, b) => {
            lemma_measure_is_cardinality(a);
            lemma_measure_is_cardinality(b);
            crate::ops::lemma_ordered_disjoint(a, b);
            vstd::set_lib::lemma_set_disjoint_lens(a@, b@);
        },
    }
}

} // verus!
