//! Conversions of bounds and sets between element types.
//!
//! * [`Cast`]: lossless widening; the set is unchanged.
//! * [`TryCast`]: strict; any element outside the target type is an error.
//! * [`LossyCast`]: total; elements outside the target type saturate to its
//!   extremes, and a bound that lands on an extreme becomes closed.
use vstd::prelude::*;

use crate::numeric::Element;

mod element;
pub mod sets;

verus! {

/// Marker for the primitive integer types.
pub trait Primitive {

}

/// Infallible storage-type cast.
pub trait Cast<U> {
    /// The post-cast type.
    type Output;

    /// Casts `self` to its `U`-storage equivalent.
    fn cast(self) -> Self::Output;
}

/// Total but lossy storage-type cast: values outside the target type clamp
/// to its extremes.
pub trait LossyCast<U> {
    /// The post-cast type.
    type Output;

    /// Projects `self` onto its `U`-storage representation.
    fn lossy_cast(self) -> Self::Output;
}

/// Fallible storage-type cast.
pub trait TryCast<U> {
    /// The post-cast type.
    type Output;

    /// The error when the cast is rejected.
    type Error;

    /// Casts `self` to its `U`-storage equivalent, or fails when an element
    /// does not fit or the result breaks an invariant.
    fn try_cast(self) -> Result<Self::Output, Self::Error>;
}

/// Element-layer hook for [`LossyCast`]: the nearest value of `U`.
pub trait LossyCastElement<U: Element>: Element {
    /// `self` clamped into `U`'s range.
    fn lossy_cast_element(self) -> (r: U)
        ensures
            r.as_int() == crate::numeric::clamp_int(self.as_int(), U::min_int(), U::max_int()),
    ;
}

/// Element-layer hook for [`Cast`]: implemented for the pairs whose
/// conversion is lossless for every value.
pub trait CastElement<U: Element>: Element {
    /// `self` as a `U`, with the same value.
    fn cast_element(self) -> (r: U)
        ensures
            r.as_int() == self.as_int(),
    ;

    /// Every value of `Self` is a value of `U`.
    proof fn lemma_widens()
        ensures
            U::min_int() <= Self::min_int(),
            Self::max_int() <= U::max_int(),
    ;
}

/// Element-layer hook for [`TryCast`]: `None` when the value does not fit.
pub trait TryCastElement<U: Element>: Element {
    /// `self` as a `U`, or `None` when it is out of `U`'s range.
    fn try_cast_element(self) -> (r: Option<U>)
        ensures
            r matches Some(v) ==> v.as_int() == self.as_int(),
            r is None <==> !(U::min_int() <= self.as_int() <= U::max_int()),
    ;
}

} // verus!
