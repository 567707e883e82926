//! `Element`, `Magnitude` and `Midpointable` for the primitive integers.
use vstd::prelude::*;

use core::convert::Infallible;

use super::{mid_int, DiscreteKind, Element, Magnitude, Midpointable, WideInt};
use crate::bound::Side;

verus! {

impl Element for i8 {
    type Kind = DiscreteKind;

    type Measure = u16;

    open spec fn as_int(self) -> int {
        self as int
    }

    open spec fn min_int() -> int {
        -0x80
    }

    open spec fn max_int() -> int {
        0x7f
    }

    proof fn lemma_as_int(x: Self) {
        assert(Self::min_int() <= x.as_int() <= Self::max_int());
        assert(Self::min_int() <= 0 < Self::max_int());
    }

    proof fn lemma_as_int_injective(x: Self, y: Self) {
    }

    proof fn lemma_range() {
    }

    proof fn lemma_span() {
    }

    open spec fn from_int(v: int) -> Self {
        v as i8
    }

    proof fn lemma_from_int(x: Self) {
    }

    proof fn lemma_from_int_value(v: int) {
    }

    fn less_than(&self, other: &Self) -> (r: bool) {
        *self < *other
    }

    fn less_or_equal(&self, other: &Self) -> (r: bool) {
        *self <= *other
    }

    fn zero() -> (r: Self) {
        0
    }

    fn min_value() -> (r: Self) {
        i8::MIN
    }

    fn max_value() -> (r: Self) {
        i8::MAX
    }

    fn try_adjacent(&self, side: Side) -> (r: Option<Self>) {
        match side {
            Side::Right => self.checked_add(1),
            Side::Left => self.checked_sub(1),
        }
    }

    fn try_measure_finite(left: &Self, right: &Self) -> (r: Option<Self::Measure>) {
        let diff: i128 = (*right as i128) - (*left as i128);
        let count: u128 = (diff as u128) + 1;
        if count <= u16::MAX as u128 {
            Some(count as u16)
        } else {
            None
        }
    }

    fn checked_add_element(self, rhs: Self) -> (r: Option<Self>) {
        self.checked_add(rhs)
    }

    fn checked_sub_element(self, rhs: Self) -> (r: Option<Self>) {
        self.checked_sub(rhs)
    }

    fn checked_mul_element(self, rhs: Self) -> (r: Option<Self>) {
        self.checked_mul(rhs)
    }

    fn checked_div_element(self, rhs: Self) -> (r: Option<Self>) {
        self.checked_div(rhs)
    }

    fn into_wide(self) -> (r: WideInt) {
        if self < 0 {
            WideInt { negative: true, magnitude: (-(self as i128)) as u128 }
        } else {
            WideInt { negative: false, magnitude: self as u128 }
        }
    }

    fn from_wide_checked(w: WideInt) -> (r: Option<Self>) {
        let r = {
        if w.negative {
            if w.magnitude <= (i8::MAX as u128) + 1 {
                Some((-(w.magnitude as i128)) as i8)
            } else {
                None
            }
        } else if w.magnitude <= i8::MAX as u128 {
            Some(w.magnitude as i8)
        } else {
            None
        }
        };
        proof {
            assert(r is None <==> !(Self::min_int() <= w.value() <= Self::max_int()));
        }
        r
    }

    fn from_wide_saturating(w: WideInt) -> (r: Self) {
        if w.negative {
            if w.magnitude <= (i8::MAX as u128) + 1 {
                (-(w.magnitude as i128)) as i8
            } else {
                i8::MIN
            }
        } else if w.magnitude <= i8::MAX as u128 {
            w.magnitude as i8
        } else {
            i8::MAX
        }
    }
}

impl Midpointable for i8 {
    type Error = Infallible;

    /// Infallible: `(self + other) / 2` rounded toward zero, computed
    /// without overflow.
    open spec fn midpoint_total() -> bool {
        true
    }

    fn midpoint(self, other: Self) -> (r: Result<Self, Infallible>) {
        Ok(self.midpoint_element(other))
    }
}

impl Element for i16 {
    type Kind = DiscreteKind;

    type Measure = u32;

    open spec fn as_int(self) -> int {
        self as int
    }

    open spec fn min_int() -> int {
        -0x8000
    }

    open spec fn max_int() -> int {
        0x7fff
    }

    proof fn lemma_as_int(x: Self) {
        assert(Self::min_int() <= x.as_int() <= Self::max_int());
        assert(Self::min_int() <= 0 < Self::max_int());
    }

    proof fn lemma_as_int_injective(x: Self, y: Self) {
    }

    proof fn lemma_range() {
    }

    proof fn lemma_span() {
    }

    open spec fn from_int(v: int) -> Self {
        v as i16
    }

    proof fn lemma_from_int(x: Self) {
    }

    proof fn lemma_from_int_value(v: int) {
    }

    fn less_than(&self, other: &Self) -> (r: bool) {
        *self < *other
    }

    fn less_or_equal(&self, other: &Self) -> (r: bool) {
        *self <= *other
    }

    fn zero() -> (r: Self) {
        0
    }

    fn min_value() -> (r: Self) {
        i16::MIN
    }

    fn max_value() -> (r: Self) {
        i16::MAX
    }

    fn try_adjacent(&self, side: Side) -> (r: Option<Self>) {
        match side {
            Side::Right => self.checked_add(1),
            Side::Left => self.checked_sub(1),
        }
    }

    fn try_measure_finite(left: &Self, right: &Self) -> (r: Option<Self::Measure>) {
        let diff: i128 = (*right as i128) - (*left as i128);
        let count: u128 = (diff as u128) + 1;
        if count <= u32::MAX as u128 {
            Some(count as u32)
        } else {
            None
        }
    }

    fn checked_add_element(self, rhs: Self) -> (r: Option<Self>) {
        self.checked_add(rhs)
    }

    fn checked_sub_element(self, rhs: Self) -> (r: Option<Self>) {
        self.checked_sub(rhs)
    }

    fn checked_mul_element(self, rhs: Self) -> (r: Option<Self>) {
        self.checked_mul(rhs)
    }

    fn checked_div_element(self, rhs: Self) -> (r: Option<Self>) {
        self.checked_div(rhs)
    }

    fn into_wide(self) -> (r: WideInt) {
        if self < 0 {
            WideInt { negative: true, magnitude: (-(self as i128)) as u128 }
        } else {
            WideInt { negative: false, magnitude: self as u128 }
        }
    }

    fn from_wide_checked(w: WideInt) -> (r: Option<Self>) {
        let r = {
        if w.negative {
            if w.magnitude <= (i16::MAX as u128) + 1 {
                Some((-(w.magnitude as i128)) as i16)
            } else {
                None
            }
        } else if w.magnitude <= i16::MAX as u128 {
            Some(w.magnitude as i16)
        } else {
            None
        }
        };
        proof {
            assert(r is None <==> !(Self::min_int() <= w.value() <= Self::max_int()));
        }
        r
    }

    fn from_wide_saturating(w: WideInt) -> (r: Self) {
        if w.negative {
            if w.magnitude <= (i16::MAX as u128) + 1 {
                (-(w.magnitude as i128)) as i16
            } else {
                i16::MIN
            }
        } else if w.magnitude <= i16::MAX as u128 {
            w.magnitude as i16
        } else {
            i16::MAX
        }
    }
}

impl Midpointable for i16 {
    type Error = Infallible;

    /// Infallible: `(self + other) / 2` rounded toward zero, computed
    /// without overflow.
    open spec fn midpoint_total() -> bool {
        true
    }

    fn midpoint(self, other: Self) -> (r: Result<Self, Infallible>) {
        Ok(self.midpoint_element(other))
    }
}

impl Element for i32 {
    type Kind = DiscreteKind;

    type Measure = u64;

    open spec fn as_int(self) -> int {
        self as int
    }

    open spec fn min_int() -> int {
        -0x8000_0000
    }

    open spec fn max_int() -> int {
        0x7fff_ffff
    }

    proof fn lemma_as_int(x: Self) {
        assert(Self::min_int() <= x.as_int() <= Self::max_int());
        assert(Self::min_int() <= 0 < Self::max_int());
    }

    proof fn lemma_as_int_injective(x: Self, y: Self) {
    }

    proof fn lemma_range() {
    }

    proof fn lemma_span() {
    }

    open spec fn from_int(v: int) -> Self {
        v as i32
    }

    proof fn lemma_from_int(x: Self) {
    }

    proof fn lemma_from_int_value(v: int) {
    }

    fn less_than(&self, other: &Self) -> (r: bool) {
        *self < *other
    }

    fn less_or_equal(&self, other: &Self) -> (r: bool) {
        *self <= *other
    }

    fn zero() -> (r: Self) {
        0
    }

    fn min_value() -> (r: Self) {
        i32::MIN
    }

    fn max_value() -> (r: Self) {
        i32::MAX
    }

    fn try_adjacent(&self, side: Side) -> (r: Option<Self>) {
        match side {
            Side::Right => self.checked_add(1),
            Side::Left => self.checked_sub(1),
        }
    }

    fn try_measure_finite(left: &Self, right: &Self) -> (r: Option<Self::Measure>) {
        let diff: i128 = (*right as i128) - (*left as i128);
        let count: u128 = (diff as u128) + 1;
        if count <= u64::MAX as u128 {
            Some(count as u64)
        } else {
            None
        }
    }

    fn checked_add_element(self, rhs: Self) -> (r: Option<Self>) {
        self.checked_add(rhs)
    }

    fn checked_sub_element(self, rhs: Self) -> (r: Option<Self>) {
        self.checked_sub(rhs)
    }

    fn checked_mul_element(self, rhs: Self) -> (r: Option<Self>) {
        self.checked_mul(rhs)
    }

    fn checked_div_element(self, rhs: Self) -> (r: Option<Self>) {
        self.checked_div(rhs)
    }

    fn into_wide(self) -> (r: WideInt) {
        if self < 0 {
            WideInt { negative: true, magnitude: (-(self as i128)) as u128 }
        } else {
            WideInt { negative: false, magnitude: self as u128 }
        }
    }

    fn from_wide_checked(w: WideInt) -> (r: Option<Self>) {
        let r = {
        if w.negative {
            if w.magnitude <= (i32::MAX as u128) + 1 {
                Some((-(w.magnitude as i128)) as i32)
            } else {
                None
            }
        } else if w.magnitude <= i32::MAX as u128 {
            Some(w.magnitude as i32)
        } else {
            None
        }
        };
        proof {
            assert(r is None <==> !(Self::min_int() <= w.value() <= Self::max_int()));
        }
        r
    }

    fn from_wide_saturating(w: WideInt) -> (r: Self) {
        if w.negative {
            if w.magnitude <= (i32::MAX as u128) + 1 {
                (-(w.magnitude as i128)) as i32
            } else {
                i32::MIN
            }
        } else if w.magnitude <= i32::MAX as u128 {
            w.magnitude as i32
        } else {
            i32::MAX
        }
    }
}

impl Midpointable for i32 {
    type Error = Infallible;

    /// Infallible: `(self + other) / 2` rounded toward zero, computed
    /// without overflow.
    open spec fn midpoint_total() -> bool {
        true
    }

    fn midpoint(self, other: Self) -> (r: Result<Self, Infallible>) {
        Ok(self.midpoint_element(other))
    }
}

impl Element for i64 {
    type Kind = DiscreteKind;

    type Measure = u128;

    open spec fn as_int(self) -> int {
        self as int
    }

    open spec fn min_int() -> int {
        -0x8000_0000_0000_0000
    }

    open spec fn max_int() -> int {
        0x7fff_ffff_ffff_ffff
    }

    proof fn lemma_as_int(x: Self) {
        assert(Self::min_int() <= x.as_int() <= Self::max_int());
        assert(Self::min_int() <= 0 < Self::max_int());
    }

    proof fn lemma_as_int_injective(x: Self, y: Self) {
    }

    proof fn lemma_range() {
    }

    proof fn lemma_span() {
    }

    open spec fn from_int(v: int) -> Self {
        v as i64
    }

    proof fn lemma_from_int(x: Self) {
    }

    proof fn lemma_from_int_value(v: int) {
    }

    fn less_than(&self, other: &Self) -> (r: bool) {
        *self < *other
    }

    fn less_or_equal(&self, other: &Self) -> (r: bool) {
        *self <= *other
    }

    fn zero() -> (r: Self) {
        0
    }

    fn min_value() -> (r: Self) {
        i64::MIN
    }

    fn max_value() -> (r: Self) {
        i64::MAX
    }

    fn try_adjacent(&self, side: Side) -> (r: Option<Self>) {
        match side {
            Side::Right => self.checked_add(1),
            Side::Left => self.checked_sub(1),
        }
    }

    fn try_measure_finite(left: &Self, right: &Self) -> (r: Option<Self::Measure>) {
        let diff: i128 = (*right as i128) - (*left as i128);
        let count: u128 = (diff as u128) + 1;
        if count <= u128::MAX as u128 {
            Some(count as u128)
        } else {
            None
        }
    }

    fn checked_add_element(self, rhs: Self) -> (r: Option<Self>) {
        self.checked_add(rhs)
    }

    fn checked_sub_element(self, rhs: Self) -> (r: Option<Self>) {
        self.checked_sub(rhs)
    }

    fn checked_mul_element(self, rhs: Self) -> (r: Option<Self>) {
        self.checked_mul(rhs)
    }

    fn checked_div_element(self, rhs: Self) -> (r: Option<Self>) {
        self.checked_div(rhs)
    }

    fn into_wide(self) -> (r: WideInt) {
        if self < 0 {
            WideInt { negative: true, magnitude: (-(self as i128)) as u128 }
        } else {
            WideInt { negative: false, magnitude: self as u128 }
        }
    }

    fn from_wide_checked(w: WideInt) -> (r: Option<Self>) {
        let r = {
        if w.negative {
            if w.magnitude <= (i64::MAX as u128) + 1 {
                Some((-(w.magnitude as i128)) as i64)
            } else {
                None
            }
        } else if w.magnitude <= i64::MAX as u128 {
            Some(w.magnitude as i64)
        } else {
            None
        }
        };
        proof {
            assert(r is None <==> !(Self::min_int() <= w.value() <= Self::max_int()));
        }
        r
    }

    fn from_wide_saturating(w: WideInt) -> (r: Self) {
        if w.negative {
            if w.magnitude <= (i64::MAX as u128) + 1 {
                (-(w.magnitude as i128)) as i64
            } else {
                i64::MIN
            }
        } else if w.magnitude <= i64::MAX as u128 {
            w.magnitude as i64
        } else {
            i64::MAX
        }
    }
}

impl Midpointable for i64 {
    type Error = Infallible;

    /// Infallible: `(self + other) / 2` rounded toward zero, computed
    /// without overflow.
    open spec fn midpoint_total() -> bool {
        true
    }

    fn midpoint(self, other: Self) -> (r: Result<Self, Infallible>) {
        Ok(self.midpoint_element(other))
    }
}

impl Element for i128 {
    type Kind = DiscreteKind;

    type Measure = u128;

    open spec fn as_int(self) -> int {
        self as int
    }

    open spec fn min_int() -> int {
        -0x8000_0000_0000_0000_0000_0000_0000_0000
    }

    open spec fn max_int() -> int {
        0x7fff_ffff_ffff_ffff_ffff_ffff_ffff_ffff
    }

    proof fn lemma_as_int(x: Self) {
        assert(Self::min_int() <= x.as_int() <= Self::max_int());
        assert(Self::min_int() <= 0 < Self::max_int());
    }

    proof fn lemma_as_int_injective(x: Self, y: Self) {
    }

    proof fn lemma_range() {
    }

    proof fn lemma_span() {
    }

    open spec fn from_int(v: int) -> Self {
        v as i128
    }

    proof fn lemma_from_int(x: Self) {
    }

    proof fn lemma_from_int_value(v: int) {
    }

    fn less_than(&self, other: &Self) -> (r: bool) {
        *self < *other
    }

    fn less_or_equal(&self, other: &Self) -> (r: bool) {
        *self <= *other
    }

    fn zero() -> (r: Self) {
        0
    }

    fn min_value() -> (r: Self) {
        i128::MIN
    }

    fn max_value() -> (r: Self) {
        i128::MAX
    }

    fn try_adjacent(&self, side: Side) -> (r: Option<Self>) {
        match side {
            Side::Right => self.checked_add(1),
            Side::Left => self.checked_sub(1),
        }
    }

    fn try_measure_finite(left: &Self, right: &Self) -> (r: Option<Self::Measure>) {
        let diff: u128 = if *left >= 0 || *right < 0 {
            (*right - *left) as u128
        } else {
            (*right as u128) + (((-(*left + 1)) as u128) + 1)
        };
        diff.checked_add(1)
    }

    fn checked_add_element(self, rhs: Self) -> (r: Option<Self>) {
        self.checked_add(rhs)
    }

    fn checked_sub_element(self, rhs: Self) -> (r: Option<Self>) {
        self.checked_sub(rhs)
    }

    fn checked_mul_element(self, rhs: Self) -> (r: Option<Self>) {
        self.checked_mul(rhs)
    }

    fn checked_div_element(self, rhs: Self) -> (r: Option<Self>) {
        self.checked_div(rhs)
    }

    fn into_wide(self) -> (r: WideInt) {
        if self < 0 {
            WideInt { negative: true, magnitude: ((-(self + 1)) as u128) + 1 }
        } else {
            WideInt { negative: false, magnitude: self as u128 }
        }
    }

    fn from_wide_checked(w: WideInt) -> (r: Option<Self>) {
        let r = {
        if w.negative {
            if w.magnitude <= i128::MAX as u128 {
                Some(-(w.magnitude as i128))
            } else if w.magnitude == (i128::MAX as u128) + 1 {
                Some(i128::MIN)
            } else {
                None
            }
        } else if w.magnitude <= i128::MAX as u128 {
            Some(w.magnitude as i128)
        } else {
            None
        }
        };
        proof {
            assert(r is None <==> !(Self::min_int() <= w.value() <= Self::max_int()));
        }
        r
    }

    fn from_wide_saturating(w: WideInt) -> (r: Self) {
        if w.negative {
            if w.magnitude <= i128::MAX as u128 {
                -(w.magnitude as i128)
            } else {
                i128::MIN
            }
        } else if w.magnitude <= i128::MAX as u128 {
            w.magnitude as i128
        } else {
            i128::MAX
        }
    }
}

impl Midpointable for i128 {
    type Error = Infallible;

    /// Infallible: `(self + other) / 2` rounded toward zero, computed
    /// without overflow.
    open spec fn midpoint_total() -> bool {
        true
    }

    fn midpoint(self, other: Self) -> (r: Result<Self, Infallible>) {
        Ok(self.midpoint_element(other))
    }
}

impl Element for isize {
    type Kind = DiscreteKind;

    type Measure = u128;

    open spec fn as_int(self) -> int {
        self as int
    }

    open spec fn min_int() -> int {
        isize::MIN as int
    }

    open spec fn max_int() -> int {
        isize::MAX as int
    }

    proof fn lemma_as_int(x: Self) {
        assert(Self::min_int() <= x.as_int() <= Self::max_int());
        assert(Self::min_int() <= 0 < Self::max_int());
    }

    proof fn lemma_as_int_injective(x: Self, y: Self) {
    }

    proof fn lemma_range() {
    }

    proof fn lemma_span() {
    }

    open spec fn from_int(v: int) -> Self {
        v as isize
    }

    proof fn lemma_from_int(x: Self) {
    }

    proof fn lemma_from_int_value(v: int) {
    }

    fn less_than(&self, other: &Self) -> (r: bool) {
        *self < *other
    }

    fn less_or_equal(&self, other: &Self) -> (r: bool) {
        *self <= *other
    }

    fn zero() -> (r: Self) {
        0
    }

    fn min_value() -> (r: Self) {
        isize::MIN
    }

    fn max_value() -> (r: Self) {
        isize::MAX
    }

    fn try_adjacent(&self, side: Side) -> (r: Option<Self>) {
        match side {
            Side::Right => self.checked_add(1),
            Side::Left => self.checked_sub(1),
        }
    }

    fn try_measure_finite(left: &Self, right: &Self) -> (r: Option<Self::Measure>) {
        let diff: i128 = (*right as i128) - (*left as i128);
        let count: u128 = (diff as u128) + 1;
        if count <= u128::MAX as u128 {
            Some(count as u128)
        } else {
            None
        }
    }

    fn checked_add_element(self, rhs: Self) -> (r: Option<Self>) {
        self.checked_add(rhs)
    }

    fn checked_sub_element(self, rhs: Self) -> (r: Option<Self>) {
        self.checked_sub(rhs)
    }

    fn checked_mul_element(self, rhs: Self) -> (r: Option<Self>) {
        self.checked_mul(rhs)
    }

    fn checked_div_element(self, rhs: Self) -> (r: Option<Self>) {
        self.checked_div(rhs)
    }

    fn into_wide(self) -> (r: WideInt) {
        if self < 0 {
            WideInt { negative: true, magnitude: (-(self as i128)) as u128 }
        } else {
            WideInt { negative: false, magnitude: self as u128 }
        }
    }

    fn from_wide_checked(w: WideInt) -> (r: Option<Self>) {
        let r = {
        if w.negative {
            if w.magnitude <= (isize::MAX as u128) + 1 {
                Some((-(w.magnitude as i128)) as isize)
            } else {
                None
            }
        } else if w.magnitude <= isize::MAX as u128 {
            Some(w.magnitude as isize)
        } else {
            None
        }
        };
        proof {
            assert(r is None <==> !(Self::min_int() <= w.value() <= Self::max_int()));
        }
        r
    }

    fn from_wide_saturating(w: WideInt) -> (r: Self) {
        if w.negative {
            if w.magnitude <= (isize::MAX as u128) + 1 {
                (-(w.magnitude as i128)) as isize
            } else {
                isize::MIN
            }
        } else if w.magnitude <= isize::MAX as u128 {
            w.magnitude as isize
        } else {
            isize::MAX
        }
    }
}

impl Midpointable for isize {
    type Error = Infallible;

    /// Infallible: `(self + other) / 2` rounded toward zero, computed
    /// without overflow.
    open spec fn midpoint_total() -> bool {
        true
    }

    fn midpoint(self, other: Self) -> (r: Result<Self, Infallible>) {
        Ok(self.midpoint_element(other))
    }
}

impl Element for u8 {
    type Kind = DiscreteKind;

    type Measure = u16;

    open spec fn as_int(self) -> int {
        self as int
    }

    open spec fn min_int() -> int {
        0
    }

    open spec fn max_int() -> int {
        0xff
    }

    proof fn lemma_as_int(x: Self) {
        assert(Self::min_int() <= x.as_int() <= Self::max_int());
        assert(Self::min_int() <= 0 < Self::max_int());
    }

    proof fn lemma_as_int_injective(x: Self, y: Self) {
    }

    proof fn lemma_range() {
    }

    proof fn lemma_span() {
    }

    open spec fn from_int(v: int) -> Self {
        v as u8
    }

    proof fn lemma_from_int(x: Self) {
    }

    proof fn lemma_from_int_value(v: int) {
    }

    fn less_than(&self, other: &Self) -> (r: bool) {
        *self < *other
    }

    fn less_or_equal(&self, other: &Self) -> (r: bool) {
        *self <= *other
    }

    fn zero() -> (r: Self) {
        0
    }

    fn min_value() -> (r: Self) {
        u8::MIN
    }

    fn max_value() -> (r: Self) {
        u8::MAX
    }

    fn try_adjacent(&self, side: Side) -> (r: Option<Self>) {
        match side {
            Side::Right => self.checked_add(1),
            Side::Left => self.checked_sub(1),
        }
    }

    fn try_measure_finite(left: &Self, right: &Self) -> (r: Option<Self::Measure>) {
        let diff: i128 = (*right as i128) - (*left as i128);
        let count: u128 = (diff as u128) + 1;
        if count <= u16::MAX as u128 {
            Some(count as u16)
        } else {
            None
        }
    }

    fn checked_add_element(self, rhs: Self) -> (r: Option<Self>) {
        self.checked_add(rhs)
    }

    fn checked_sub_element(self, rhs: Self) -> (r: Option<Self>) {
        self.checked_sub(rhs)
    }

    fn checked_mul_element(self, rhs: Self) -> (r: Option<Self>) {
        self.checked_mul(rhs)
    }

    fn checked_div_element(self, rhs: Self) -> (r: Option<Self>) {
        self.checked_div(rhs)
    }

    fn into_wide(self) -> (r: WideInt) {
        WideInt { negative: false, magnitude: self as u128 }
    }

    fn from_wide_checked(w: WideInt) -> (r: Option<Self>) {
        let r = {
        if w.negative && w.magnitude != 0 {
            None
        } else if w.magnitude <= u8::MAX as u128 {
            Some(w.magnitude as u8)
        } else {
            None
        }
        };
        proof {
            assert(r is None <==> !(Self::min_int() <= w.value() <= Self::max_int()));
        }
        r
    }

    fn from_wide_saturating(w: WideInt) -> (r: Self) {
        if w.negative && w.magnitude != 0 {
            0
        } else if w.magnitude <= u8::MAX as u128 {
            w.magnitude as u8
        } else {
            u8::MAX
        }
    }
}

impl Midpointable for u8 {
    type Error = Infallible;

    /// Infallible: `(self + other) / 2` rounded toward zero, computed
    /// without overflow.
    open spec fn midpoint_total() -> bool {
        true
    }

    fn midpoint(self, other: Self) -> (r: Result<Self, Infallible>) {
        Ok(self.midpoint_element(other))
    }
}

impl Element for u16 {
    type Kind = DiscreteKind;

    type Measure = u32;

    open spec fn as_int(self) -> int {
        self as int
    }

    open spec fn min_int() -> int {
        0
    }

    open spec fn max_int() -> int {
        0xffff
    }

    proof fn lemma_as_int(x: Self) {
        assert(Self::min_int() <= x.as_int() <= Self::max_int());
        assert(Self::min_int() <= 0 < Self::max_int());
    }

    proof fn lemma_as_int_injective(x: Self, y: Self) {
    }

    proof fn lemma_range() {
    }

    proof fn lemma_span() {
    }

    open spec fn from_int(v: int) -> Self {
        v as u16
    }

    proof fn lemma_from_int(x: Self) {
    }

    proof fn lemma_from_int_value(v: int) {
    }

    fn less_than(&self, other: &Self) -> (r: bool) {
        *self < *other
    }

    fn less_or_equal(&self, other: &Self) -> (r: bool) {
        *self <= *other
    }

    fn zero() -> (r: Self) {
        0
    }

    fn min_value() -> (r: Self) {
        u16::MIN
    }

    fn max_value() -> (r: Self) {
        u16::MAX
    }

    fn try_adjacent(&self, side: Side) -> (r: Option<Self>) {
        match side {
            Side::Right => self.checked_add(1),
            Side::Left => self.checked_sub(1),
        }
    }

    fn try_measure_finite(left: &Self, right: &Self) -> (r: Option<Self::Measure>) {
        let diff: i128 = (*right as i128) - (*left as i128);
        let count: u128 = (diff as u128) + 1;
        if count <= u32::MAX as u128 {
            Some(count as u32)
        } else {
            None
        }
    }

    fn checked_add_element(self, rhs: Self) -> (r: Option<Self>) {
        self.checked_add(rhs)
    }

    fn checked_sub_element(self, rhs: Self) -> (r: Option<Self>) {
        self.checked_sub(rhs)
    }

    fn checked_mul_element(self, rhs: Self) -> (r: Option<Self>) {
        self.checked_mul(rhs)
    }

    fn checked_div_element(self, rhs: Self) -> (r: Option<Self>) {
        self.checked_div(rhs)
    }

    fn into_wide(self) -> (r: WideInt) {
        WideInt { negative: false, magnitude: self as u128 }
    }

    fn from_wide_checked(w: WideInt) -> (r: Option<Self>) {
        let r = {
        if w.negative && w.magnitude != 0 {
            None
        } else if w.magnitude <= u16::MAX as u128 {
            Some(w.magnitude as u16)
        } else {
            None
        }
        };
        proof {
            assert(r is None <==> !(Self::min_int() <= w.value() <= Self::max_int()));
        }
        r
    }

    fn from_wide_saturating(w: WideInt) -> (r: Self) {
        if w.negative && w.magnitude != 0 {
            0
        } else if w.magnitude <= u16::MAX as u128 {
            w.magnitude as u16
        } else {
            u16::MAX
        }
    }
}

impl Midpointable for u16 {
    type Error = Infallible;

    /// Infallible: `(self + other) / 2` rounded toward zero, computed
    /// without overflow.
    open spec fn midpoint_total() -> bool {
        true
    }

    fn midpoint(self, other: Self) -> (r: Result<Self, Infallible>) {
        Ok(self.midpoint_element(other))
    }
}

impl Element for u32 {
    type Kind = DiscreteKind;

    type Measure = u64;

    open spec fn as_int(self) -> int {
        self as int
    }

    open spec fn min_int() -> int {
        0
    }

    open spec fn max_int() -> int {
        0xffff_ffff
    }

    proof fn lemma_as_int(x: Self) {
        assert(Self::min_int() <= x.as_int() <= Self::max_int());
        assert(Self::min_int() <= 0 < Self::max_int());
    }

    proof fn lemma_as_int_injective(x: Self, y: Self) {
    }

    proof fn lemma_range() {
    }

    proof fn lemma_span() {
    }

    open spec fn from_int(v: int) -> Self {
        v as u32
    }

    proof fn lemma_from_int(x: Self) {
    }

    proof fn lemma_from_int_value(v: int) {
    }

    fn less_than(&self, other: &Self) -> (r: bool) {
        *self < *other
    }

    fn less_or_equal(&self, other: &Self) -> (r: bool) {
        *self <= *other
    }

    fn zero() -> (r: Self) {
        0
    }

    fn min_value() -> (r: Self) {
        u32::MIN
    }

    fn max_value() -> (r: Self) {
        u32::MAX
    }

    fn try_adjacent(&self, side: Side) -> (r: Option<Self>) {
        match side {
            Side::Right => self.checked_add(1),
            Side::Left => self.checked_sub(1),
        }
    }

    fn try_measure_finite(left: &Self, right: &Self) -> (r: Option<Self::Measure>) {
        let diff: i128 = (*right as i128) - (*left as i128);
        let count: u128 = (diff as u128) + 1;
        if count <= u64::MAX as u128 {
            Some(count as u64)
        } else {
            None
        }
    }

    fn checked_add_element(self, rhs: Self) -> (r: Option<Self>) {
        self.checked_add(rhs)
    }

    fn checked_sub_element(self, rhs: Self) -> (r: Option<Self>) {
        self.checked_sub(rhs)
    }

    fn checked_mul_element(self, rhs: Self) -> (r: Option<Self>) {
        self.checked_mul(rhs)
    }

    fn checked_div_element(self, rhs: Self) -> (r: Option<Self>) {
        self.checked_div(rhs)
    }

    fn into_wide(self) -> (r: WideInt) {
        WideInt { negative: false, magnitude: self as u128 }
    }

    fn from_wide_checked(w: WideInt) -> (r: Option<Self>) {
        let r = {
        if w.negative && w.magnitude != 0 {
            None
        } else if w.magnitude <= u32::MAX as u128 {
            Some(w.magnitude as u32)
        } else {
            None
        }
        };
        proof {
            assert(r is None <==> !(Self::min_int() <= w.value() <= Self::max_int()));
        }
        r
    }

    fn from_wide_saturating(w: WideInt) -> (r: Self) {
        if w.negative && w.magnitude != 0 {
            0
        } else if w.magnitude <= u32::MAX as u128 {
            w.magnitude as u32
        } else {
            u32::MAX
        }
    }
}

impl Midpointable for u32 {
    type Error = Infallible;

    /// Infallible: `(self + other) / 2` rounded toward zero, computed
    /// without overflow.
    open spec fn midpoint_total() -> bool {
        true
    }

    fn midpoint(self, other: Self) -> (r: Result<Self, Infallible>) {
        Ok(self.midpoint_element(other))
    }
}

impl Element for u64 {
    type Kind = DiscreteKind;

    type Measure = u128;

    open spec fn as_int(self) -> int {
        self as int
    }

    open spec fn min_int() -> int {
        0
    }

    open spec fn max_int() -> int {
        0xffff_ffff_ffff_ffff
    }

    proof fn lemma_as_int(x: Self) {
        assert(Self::min_int() <= x.as_int() <= Self::max_int());
        assert(Self::min_int() <= 0 < Self::max_int());
    }

    proof fn lemma_as_int_injective(x: Self, y: Self) {
    }

    proof fn lemma_range() {
    }

    proof fn lemma_span() {
    }

    open spec fn from_int(v: int) -> Self {
        v as u64
    }

    proof fn lemma_from_int(x: Self) {
    }

    proof fn lemma_from_int_value(v: int) {
    }

    fn less_than(&self, other: &Self) -> (r: bool) {
        *self < *other
    }

    fn less_or_equal(&self, other: &Self) -> (r: bool) {
        *self <= *other
    }

    fn zero() -> (r: Self) {
        0
    }

    fn min_value() -> (r: Self) {
        u64::MIN
    }

    fn max_value() -> (r: Self) {
        u64::MAX
    }

    fn try_adjacent(&self, side: Side) -> (r: Option<Self>) {
        match side {
            Side::Right => self.checked_add(1),
            Side::Left => self.checked_sub(1),
        }
    }

    fn try_measure_finite(left: &Self, right: &Self) -> (r: Option<Self::Measure>) {
        let diff: i128 = (*right as i128) - (*left as i128);
        let count: u128 = (diff as u128) + 1;
        if count <= u128::MAX as u128 {
            Some(count as u128)
        } else {
            None
        }
    }

    fn checked_add_element(self, rhs: Self) -> (r: Option<Self>) {
        self.checked_add(rhs)
    }

    fn checked_sub_element(self, rhs: Self) -> (r: Option<Self>) {
        self.checked_sub(rhs)
    }

    fn checked_mul_element(self, rhs: Self) -> (r: Option<Self>) {
        self.checked_mul(rhs)
    }

    fn checked_div_element(self, rhs: Self) -> (r: Option<Self>) {
        self.checked_div(rhs)
    }

    fn into_wide(self) -> (r: WideInt) {
        WideInt { negative: false, magnitude: self as u128 }
    }

    fn from_wide_checked(w: WideInt) -> (r: Option<Self>) {
        let r = {
        if w.negative && w.magnitude != 0 {
            None
        } else if w.magnitude <= u64::MAX as u128 {
            Some(w.magnitude as u64)
        } else {
            None
        }
        };
        proof {
            assert(r is None <==> !(Self::min_int() <= w.value() <= Self::max_int()));
        }
        r
    }

    fn from_wide_saturating(w: WideInt) -> (r: Self) {
        if w.negative && w.magnitude != 0 {
            0
        } else if w.magnitude <= u64::MAX as u128 {
            w.magnitude as u64
        } else {
            u64::MAX
        }
    }
}

impl Midpointable for u64 {
    type Error = Infallible;

    /// Infallible: `(self + other) / 2` rounded toward zero, computed
    /// without overflow.
    open spec fn midpoint_total() -> bool {
        true
    }

    fn midpoint(self, other: Self) -> (r: Result<Self, Infallible>) {
        Ok(self.midpoint_element(other))
    }
}

impl Element for u128 {
    type Kind = DiscreteKind;

    type Measure = u128;

    open spec fn as_int(self) -> int {
        self as int
    }

    open spec fn min_int() -> int {
        0
    }

    open spec fn max_int() -> int {
        0xffff_ffff_ffff_ffff_ffff_ffff_ffff_ffff
    }

    proof fn lemma_as_int(x: Self) {
        assert(Self::min_int() <= x.as_int() <= Self::max_int());
        assert(Self::min_int() <= 0 < Self::max_int());
    }

    proof fn lemma_as_int_injective(x: Self, y: Self) {
    }

    proof fn lemma_range() {
    }

    proof fn lemma_span() {
    }

    open spec fn from_int(v: int) -> Self {
        v as u128
    }

    proof fn lemma_from_int(x: Self) {
    }

    proof fn lemma_from_int_value(v: int) {
    }

    fn less_than(&self, other: &Self) -> (r: bool) {
        *self < *other
    }

    fn less_or_equal(&self, other: &Self) -> (r: bool) {
        *self <= *other
    }

    fn zero() -> (r: Self) {
        0
    }

    fn min_value() -> (r: Self) {
        u128::MIN
    }

    fn max_value() -> (r: Self) {
        u128::MAX
    }

    fn try_adjacent(&self, side: Side) -> (r: Option<Self>) {
        match side {
            Side::Right => self.checked_add(1),
            Side::Left => self.checked_sub(1),
        }
    }

    fn try_measure_finite(left: &Self, right: &Self) -> (r: Option<Self::Measure>) {
        (*right - *left).checked_add(1)
    }

    fn checked_add_element(self, rhs: Self) -> (r: Option<Self>) {
        self.checked_add(rhs)
    }

    fn checked_sub_element(self, rhs: Self) -> (r: Option<Self>) {
        self.checked_sub(rhs)
    }

    fn checked_mul_element(self, rhs: Self) -> (r: Option<Self>) {
        self.checked_mul(rhs)
    }

    fn checked_div_element(self, rhs: Self) -> (r: Option<Self>) {
        self.checked_div(rhs)
    }

    fn into_wide(self) -> (r: WideInt) {
        WideInt { negative: false, magnitude: self as u128 }
    }

    fn from_wide_checked(w: WideInt) -> (r: Option<Self>) {
        let r = {
        if w.negative && w.magnitude != 0 {
            None
        } else if w.magnitude <= u128::MAX as u128 {
            Some(w.magnitude as u128)
        } else {
            None
        }
        };
        proof {
            assert(r is None <==> !(Self::min_int() <= w.value() <= Self::max_int()));
        }
        r
    }

    fn from_wide_saturating(w: WideInt) -> (r: Self) {
        if w.negative && w.magnitude != 0 {
            0
        } else if w.magnitude <= u128::MAX as u128 {
            w.magnitude as u128
        } else {
            u128::MAX
        }
    }
}

impl Midpointable for u128 {
    type Error = Infallible;

    /// Infallible: `(self + other) / 2` rounded toward zero, computed
    /// without overflow.
    open spec fn midpoint_total() -> bool {
        true
    }

    fn midpoint(self, other: Self) -> (r: Result<Self, Infallible>) {
        Ok(self.midpoint_element(other))
    }
}

impl Element for usize {
    type Kind = DiscreteKind;

    type Measure = u128;

    open spec fn as_int(self) -> int {
        self as int
    }

    open spec fn min_int() -> int {
        0
    }

    open spec fn max_int() -> int {
        usize::MAX as int
    }

    proof fn lemma_as_int(x: Self) {
        assert(Self::min_int() <= x.as_int() <= Self::max_int());
        assert(Self::min_int() <= 0 < Self::max_int());
    }

    proof fn lemma_as_int_injective(x: Self, y: Self) {
    }

    proof fn lemma_range() {
    }

    proof fn lemma_span() {
    }

    open spec fn from_int(v: int) -> Self {
        v as usize
    }

    proof fn lemma_from_int(x: Self) {
    }

    proof fn lemma_from_int_value(v: int) {
    }

    fn less_than(&self, other: &Self) -> (r: bool) {
        *self < *other
    }

    fn less_or_equal(&self, other: &Self) -> (r: bool) {
        *self <= *other
    }

    fn zero() -> (r: Self) {
        0
    }

    fn min_value() -> (r: Self) {
        usize::MIN
    }

    fn max_value() -> (r: Self) {
        usize::MAX
    }

    fn try_adjacent(&self, side: Side) -> (r: Option<Self>) {
        match side {
            Side::Right => self.checked_add(1),
            Side::Left => self.checked_sub(1),
        }
    }

    fn try_measure_finite(left: &Self, right: &Self) -> (r: Option<Self::Measure>) {
        let diff: i128 = (*right as i128) - (*left as i128);
        let count: u128 = (diff as u128) + 1;
        if count <= u128::MAX as u128 {
            Some(count as u128)
        } else {
            None
        }
    }

    fn checked_add_element(self, rhs: Self) -> (r: Option<Self>) {
        self.checked_add(rhs)
    }

    fn checked_sub_element(self, rhs: Self) -> (r: Option<Self>) {
        self.checked_sub(rhs)
    }

    fn checked_mul_element(self, rhs: Self) -> (r: Option<Self>) {
        self.checked_mul(rhs)
    }

    fn checked_div_element(self, rhs: Self) -> (r: Option<Self>) {
        self.checked_div(rhs)
    }

    fn into_wide(self) -> (r: WideInt) {
        WideInt { negative: false, magnitude: self as u128 }
    }

    fn from_wide_checked(w: WideInt) -> (r: Option<Self>) {
        let r = {
        if w.negative && w.magnitude != 0 {
            None
        } else if w.magnitude <= usize::MAX as u128 {
            Some(w.magnitude as usize)
        } else {
            None
        }
        };
        proof {
            assert(r is None <==> !(Self::min_int() <= w.value() <= Self::max_int()));
        }
        r
    }

    fn from_wide_saturating(w: WideInt) -> (r: Self) {
        if w.negative && w.magnitude != 0 {
            0
        } else if w.magnitude <= usize::MAX as u128 {
            w.magnitude as usize
        } else {
            usize::MAX
        }
    }
}

impl Midpointable for usize {
    type Error = Infallible;

    /// Infallible: `(self + other) / 2` rounded toward zero, computed
    /// without overflow.
    open spec fn midpoint_total() -> bool {
        true
    }

    fn midpoint(self, other: Self) -> (r: Result<Self, Infallible>) {
        Ok(self.midpoint_element(other))
    }
}

impl Magnitude for u8 {
    open spec fn as_nat(self) -> nat {
        self as nat
    }

    open spec fn max_nat() -> nat {
        u8::MAX as nat
    }

    proof fn lemma_as_nat(x: Self) {
    }

    proof fn lemma_as_nat_injective(x: Self, y: Self) {
    }

    open spec fn from_nat(n: nat) -> Self {
        n as u8
    }

    proof fn lemma_from_nat(x: Self) {
    }

    fn zero_measure() -> (r: Self) {
        0
    }

    fn checked_sum(self, rhs: Self) -> (r: Option<Self>) {
        self.checked_add(rhs)
    }
}

impl Magnitude for u16 {
    open spec fn as_nat(self) -> nat {
        self as nat
    }

    open spec fn max_nat() -> nat {
        u16::MAX as nat
    }

    proof fn lemma_as_nat(x: Self) {
    }

    proof fn lemma_as_nat_injective(x: Self, y: Self) {
    }

    open spec fn from_nat(n: nat) -> Self {
        n as u16
    }

    proof fn lemma_from_nat(x: Self) {
    }

    fn zero_measure() -> (r: Self) {
        0
    }

    fn checked_sum(self, rhs: Self) -> (r: Option<Self>) {
        self.checked_add(rhs)
    }
}

impl Magnitude for u32 {
    open spec fn as_nat(self) -> nat {
        self as nat
    }

    open spec fn max_nat() -> nat {
        u32::MAX as nat
    }

    proof fn lemma_as_nat(x: Self) {
    }

    proof fn lemma_as_nat_injective(x: Self, y: Self) {
    }

    open spec fn from_nat(n: nat) -> Self {
        n as u32
    }

    proof fn lemma_from_nat(x: Self) {
    }

    fn zero_measure() -> (r: Self) {
        0
    }

    fn checked_sum(self, rhs: Self) -> (r: Option<Self>) {
        self.checked_add(rhs)
    }
}

impl Magnitude for u64 {
    open spec fn as_nat(self) -> nat {
        self as nat
    }

    open spec fn max_nat() -> nat {
        u64::MAX as nat
    }

    proof fn lemma_as_nat(x: Self) {
    }

    proof fn lemma_as_nat_injective(x: Self, y: Self) {
    }

    open spec fn from_nat(n: nat) -> Self {
        n as u64
    }

    proof fn lemma_from_nat(x: Self) {
    }

    fn zero_measure() -> (r: Self) {
        0
    }

    fn checked_sum(self, rhs: Self) -> (r: Option<Self>) {
        self.checked_add(rhs)
    }
}

impl Magnitude for u128 {
    open spec fn as_nat(self) -> nat {
        self as nat
    }

    open spec fn max_nat() -> nat {
        u128::MAX as nat
    }

    proof fn lemma_as_nat(x: Self) {
    }

    proof fn lemma_as_nat_injective(x: Self, y: Self) {
    }

    open spec fn from_nat(n: nat) -> Self {
        n as u128
    }

    proof fn lemma_from_nat(x: Self) {
    }

    fn zero_measure() -> (r: Self) {
        0
    }

    fn checked_sum(self, rhs: Self) -> (r: Option<Self>) {
        self.checked_add(rhs)
    }
}

} // verus!
