//! Element-layer casts for the primitive integers.
use vstd::prelude::*;

use core::num::Saturating;

use super::{CastElement, LossyCastElement, Primitive, TryCastElement};
use crate::numeric::Element;

verus! {

impl Primitive for i8 {

}

impl Primitive for i16 {

}

impl Primitive for i32 {

}

impl Primitive for i64 {

}

impl Primitive for i128 {

}

impl Primitive for isize {

}

impl Primitive for u8 {

}

impl Primitive for u16 {

}

impl Primitive for u32 {

}

impl Primitive for u64 {

}

impl Primitive for u128 {

}

impl Primitive for usize {

}

/// Every primitive pair converts by range check: the value itself when
/// the target holds it, `None` otherwise.
impl<T: Element + Primitive, U: Element + Primitive> TryCastElement<U> for T {
    fn try_cast_element(self) -> (r: Option<U>) {
        U::from_wide_checked(self.into_wide())
    }
}

/// Every primitive pair converts by saturation: values past the target's
/// extremes clamp to them.
impl<T: Element + Primitive, U: Element + Primitive> LossyCastElement<U> for T {
    fn lossy_cast_element(self) -> (r: U) {
        U::from_wide_saturating(self.into_wide())
    }
}

impl CastElement<i8> for i8 {
    fn cast_element(self) -> (r: i8) {
        self
    }

    proof fn lemma_widens() {
    }
}

impl CastElement<i16> for i8 {
    fn cast_element(self) -> (r: i16) {
        self as i16
    }

    proof fn lemma_widens() {
    }
}

impl CastElement<i32> for i8 {
    fn cast_element(self) -> (r: i32) {
        self as i32
    }

    proof fn lemma_widens() {
    }
}

impl CastElement<i64> for i8 {
    fn cast_element(self) -> (r: i64) {
        self as i64
    }

    proof fn lemma_widens() {
    }
}

impl CastElement<i128> for i8 {
    fn cast_element(self) -> (r: i128) {
        self as i128
    }

    proof fn lemma_widens() {
    }
}

impl CastElement<isize> for i8 {
    fn cast_element(self) -> (r: isize) {
        self as isize
    }

    proof fn lemma_widens() {
    }
}

impl CastElement<i16> for i16 {
    fn cast_element(self) -> (r: i16) {
        self
    }

    proof fn lemma_widens() {
    }
}

impl CastElement<i32> for i16 {
    fn cast_element(self) -> (r: i32) {
        self as i32
    }

    proof fn lemma_widens() {
    }
}

impl CastElement<i64> for i16 {
    fn cast_element(self) -> (r: i64) {
        self as i64
    }

    proof fn lemma_widens() {
    }
}

impl CastElement<i128> for i16 {
    fn cast_element(self) -> (r: i128) {
        self as i128
    }

    proof fn lemma_widens() {
    }
}

impl CastElement<isize> for i16 {
    fn cast_element(self) -> (r: isize) {
        self as isize
    }

    proof fn lemma_widens() {
    }
}

impl CastElement<i32> for i32 {
    fn cast_element(self) -> (r: i32) {
        self
    }

    proof fn lemma_widens() {
    }
}

impl CastElement<i64> for i32 {
    fn cast_element(self) -> (r: i64) {
        self as i64
    }

    proof fn lemma_widens() {
    }
}

impl CastElement<i128> for i32 {
    fn cast_element(self) -> (r: i128) {
        self as i128
    }

    proof fn lemma_widens() {
    }
}

impl CastElement<i64> for i64 {
    fn cast_element(self) -> (r: i64) {
        self
    }

    proof fn lemma_widens() {
    }
}

impl CastElement<i128> for i64 {
    fn cast_element(self) -> (r: i128) {
        self as i128
    }

    proof fn lemma_widens() {
    }
}

impl CastElement<i128> for i128 {
    fn cast_element(self) -> (r: i128) {
        self
    }

    proof fn lemma_widens() {
    }
}

impl CastElement<isize> for isize {
    fn cast_element(self) -> (r: isize) {
        self
    }

    proof fn lemma_widens() {
    }
}

impl CastElement<u8> for u8 {
    fn cast_element(self) -> (r: u8) {
        self
    }

    proof fn lemma_widens() {
    }
}

impl CastElement<u16> for u8 {
    fn cast_element(self) -> (r: u16) {
        self as u16
    }

    proof fn lemma_widens() {
    }
}

impl CastElement<u32> for u8 {
    fn cast_element(self) -> (r: u32) {
        self as u32
    }

    proof fn lemma_widens() {
    }
}

impl CastElement<u64> for u8 {
    fn cast_element(self) -> (r: u64) {
        self as u64
    }

    proof fn lemma_widens() {
    }
}

impl CastElement<u128> for u8 {
    fn cast_element(self) -> (r: u128) {
        self as u128
    }

    proof fn lemma_widens() {
    }
}

impl CastElement<usize> for u8 {
    fn cast_element(self) -> (r: usize) {
        self as usize
    }

    proof fn lemma_widens() {
    }
}

impl CastElement<i16> for u8 {
    fn cast_element(self) -> (r: i16) {
        self as i16
    }

    proof fn lemma_widens() {
    }
}

impl CastElement<i32> for u8 {
    fn cast_element(self) -> (r: i32) {
        self as i32
    }

    proof fn lemma_widens() {
    }
}

impl CastElement<i64> for u8 {
    fn cast_element(self) -> (r: i64) {
        self as i64
    }

    proof fn lemma_widens() {
    }
}

impl CastElement<i128> for u8 {
    fn cast_element(self) -> (r: i128) {
        self as i128
    }

    proof fn lemma_widens() {
    }
}

impl CastElement<isize> for u8 {
    fn cast_element(self) -> (r: isize) {
        self as isize
    }

    proof fn lemma_widens() {
    }
}

impl CastElement<u16> for u16 {
    fn cast_element(self) -> (r: u16) {
        self
    }

    proof fn lemma_widens() {
    }
}

impl CastElement<u32> for u16 {
    fn cast_element(self) -> (r: u32) {
        self as u32
    }

    proof fn lemma_widens() {
    }
}

impl CastElement<u64> for u16 {
    fn cast_element(self) -> (r: u64) {
        self as u64
    }

    proof fn lemma_widens() {
    }
}

impl CastElement<u128> for u16 {
    fn cast_element(self) -> (r: u128) {
        self as u128
    }

    proof fn lemma_widens() {
    }
}

impl CastElement<usize> for u16 {
    fn cast_element(self) -> (r: usize) {
        self as usize
    }

    proof fn lemma_widens() {
    }
}

impl CastElement<i32> for u16 {
    fn cast_element(self) -> (r: i32) {
        self as i32
    }

    proof fn lemma_widens() {
    }
}

impl CastElement<i64> for u16 {
    fn cast_element(self) -> (r: i64) {
        self as i64
    }

    proof fn lemma_widens() {
    }
}

impl CastElement<i128> for u16 {
    fn cast_element(self) -> (r: i128) {
        self as i128
    }

    proof fn lemma_widens() {
    }
}

impl CastElement<u32> for u32 {
    fn cast_element(self) -> (r: u32) {
        self
    }

    proof fn lemma_widens() {
    }
}

impl CastElement<u64> for u32 {
    fn cast_element(self) -> (r: u64) {
        self as u64
    }

    proof fn lemma_widens() {
    }
}

impl CastElement<u128> for u32 {
    fn cast_element(self) -> (r: u128) {
        self as u128
    }

    proof fn lemma_widens() {
    }
}

impl CastElement<i64> for u32 {
    fn cast_element(self) -> (r: i64) {
        self as i64
    }

    proof fn lemma_widens() {
    }
}

impl CastElement<i128> for u32 {
    fn cast_element(self) -> (r: i128) {
        self as i128
    }

    proof fn lemma_widens() {
    }
}

impl CastElement<u64> for u64 {
    fn cast_element(self) -> (r: u64) {
        self
    }

    proof fn lemma_widens() {
    }
}

impl CastElement<u128> for u64 {
    fn cast_element(self) -> (r: u128) {
        self as u128
    }

    proof fn lemma_widens() {
    }
}

impl CastElement<i128> for u64 {
    fn cast_element(self) -> (r: i128) {
        self as i128
    }

    proof fn lemma_widens() {
    }
}

impl CastElement<u128> for u128 {
    fn cast_element(self) -> (r: u128) {
        self
    }

    proof fn lemma_widens() {
    }
}

impl CastElement<usize> for usize {
    fn cast_element(self) -> (r: usize) {
        self
    }

    proof fn lemma_widens() {
    }
}

/// Lifting a primitive into `Saturating` keeps its value: always succeeds.
impl<T: Element + Primitive> TryCastElement<Saturating<T>> for T {
    fn try_cast_element(self) -> (r: Option<Saturating<T>>) {
        proof {
            T::lemma_as_int(self);
        }
        Some(Saturating(self))
    }
}

impl<T: Element + Primitive> LossyCastElement<Saturating<T>> for T {
    fn lossy_cast_element(self) -> (r: Saturating<T>) {
        proof {
            T::lemma_as_int(self);
        }
        Saturating(self)
    }
}

/// Unwrapping a `Saturating` keeps its value: always succeeds.
impl<T: Element + Primitive> TryCastElement<T> for Saturating<T> {
    fn try_cast_element(self) -> (r: Option<T>) {
        proof {
            T::lemma_as_int(self.0);
        }
        Some(self.0)
    }
}

impl<T: Element + Primitive> LossyCastElement<T> for Saturating<T> {
    fn lossy_cast_element(self) -> (r: T) {
        proof {
            T::lemma_as_int(self.0);
        }
        self.0
    }
}

/// `Saturating<T>` to itself.
impl<T: Element> TryCastElement<Saturating<T>> for Saturating<T> {
    fn try_cast_element(self) -> (r: Option<Saturating<T>>) {
        proof {
            T::lemma_as_int(self.0);
        }
        Some(self)
    }
}

impl<T: Element> LossyCastElement<Saturating<T>> for Saturating<T> {
    fn lossy_cast_element(self) -> (r: Saturating<T>) {
        proof {
            T::lemma_as_int(self.0);
        }
        self
    }
}

} // verus!
