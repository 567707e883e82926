//! The diameter of an interval.
use vstd::prelude::*;

use super::Span;
use crate::bound::SetBounds;
use crate::empty::MaybeEmpty;
use crate::error::MathError;
use crate::measure::Extent;
use crate::numeric::Element;
use crate::sets::EnumInterval;

verus! {

impl<T: Element> Span for EnumInterval<T> {
    type Output = T;

    type Error = MathError;

    /// `hi - lo` for a non-empty finite interval, zero for the empty set,
    /// `Infinite` when unbounded on a side, and `Err(Range)` when the
    /// difference does not fit `T`.
    fn span(&self) -> (r: Result<Extent<T>, MathError>)
        ensures
            self.is_empty_spec() ==> (r matches Ok(Extent::Finite(z)) && z.as_int() == 0),
            !self.is_empty_spec() && (self.left_end() is None || self.right_end() is None) ==> r
                == Ok::<Extent<T>, MathError>(Extent::Infinite),
            !self.is_empty_spec() && self.left_end() is Some && self.right_end() is Some ==> (
            if T::min_int() <= self.hi() - self.lo() <= T::max_int() {
                r matches Ok(Extent::Finite(d)) && d.as_int() == self.hi() - self.lo()
            } else {
                r == Err::<Extent<T>, MathError>(MathError::Range)
            }),
    {
        if self.is_empty() {
            return Ok(Extent::Finite(T::zero()));
        }
        match (self.lval(), self.rval()) {
            (Some(lo), Some(hi)) => match hi.checked_sub_element(*lo) {
                Some(d) => Ok(Extent::Finite(d)),
                None => Err(MathError::Range),
            },
            _ => Ok(Extent::Infinite),
        }
    }
}

} // verus!
