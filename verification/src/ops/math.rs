//! Fallible arithmetic on elements and finite bounds, and the panicking
//! operators `+ - * /` on finite bounds built on it.
use vstd::prelude::*;

use crate::bound::{BoundType, FiniteBound};
use crate::sets::FiniteInterval;
use crate::error::{Error, MathError};
use core::convert::Infallible;
use core::num::Saturating;

use crate::cast::Primitive;
use crate::numeric::saturating::saturate;
use crate::numeric::{clamp_int, trunc_div, Element};

verus! {

/// Fallible addition.
pub trait TryAdd<Rhs = Self>: Sized {
    /// The sum's type.
    type Output;

    /// The failure type.
    type Error;

    /// Whether the sum is defined.
    spec fn add_defined(self, rhs: Rhs) -> bool;

    /// The sum, where defined.
    spec fn add_value(self, rhs: Rhs) -> Self::Output;

    /// The error, where the sum is not defined.
    spec fn add_failure(self, rhs: Rhs) -> Self::Error;

    /// `self + rhs`, or an error when it is not defined.
    fn try_add(self, rhs: Rhs) -> (r: Result<Self::Output, Self::Error>)
        ensures
            r is Ok <==> self.add_defined(rhs),
            r matches Ok(v) ==> v == self.add_value(rhs),
            r matches Err(e) ==> e == self.add_failure(rhs),
    ;
}

/// Fallible subtraction.
pub trait TrySub<Rhs = Self>: Sized {
    /// The difference's type.
    type Output;

    /// The failure type.
    type Error;

    /// Whether the difference is defined.
    spec fn sub_defined(self, rhs: Rhs) -> bool;

    /// The difference, where defined.
    spec fn sub_value(self, rhs: Rhs) -> Self::Output;

    /// The error, where the difference is not defined.
    spec fn sub_failure(self, rhs: Rhs) -> Self::Error;

    /// `self - rhs`, or an error when it is not defined.
    fn try_sub(self, rhs: Rhs) -> (r: Result<Self::Output, Self::Error>)
        ensures
            r is Ok <==> self.sub_defined(rhs),
            r matches Ok(v) ==> v == self.sub_value(rhs),
            r matches Err(e) ==> e == self.sub_failure(rhs),
    ;
}

/// Fallible multiplication.
pub trait TryMul<Rhs = Self>: Sized {
    /// The product's type.
    type Output;

    /// The failure type.
    type Error;

    /// Whether the product is defined.
    spec fn mul_defined(self, rhs: Rhs) -> bool;

    /// The product, where defined.
    spec fn mul_value(self, rhs: Rhs) -> Self::Output;

    /// The error, where the product is not defined.
    spec fn mul_failure(self, rhs: Rhs) -> Self::Error;

    /// `self * rhs`, or an error when it is not defined.
    fn try_mul(self, rhs: Rhs) -> (r: Result<Self::Output, Self::Error>)
        ensures
            r is Ok <==> self.mul_defined(rhs),
            r matches Ok(v) ==> v == self.mul_value(rhs),
            r matches Err(e) ==> e == self.mul_failure(rhs),
    ;
}

/// Fallible division.
pub trait TryDiv<Rhs = Self>: Sized {
    /// The quotient's type.
    type Output;

    /// The failure type.
    type Error;

    /// Whether the quotient is defined.
    spec fn div_defined(self, rhs: Rhs) -> bool;

    /// The quotient, where defined.
    spec fn div_value(self, rhs: Rhs) -> Self::Output;

    /// The error, where the quotient is not defined.
    spec fn div_failure(self, rhs: Rhs) -> Self::Error;

    /// `self / rhs`, or an error when it is not defined.
    fn try_div(self, rhs: Rhs) -> (r: Result<Self::Output, Self::Error>)
        ensures
            r is Ok <==> self.div_defined(rhs),
            r matches Ok(v) ==> v == self.div_value(rhs),
            r matches Err(e) ==> e == self.div_failure(rhs),
    ;
}

/// Whether `v` lies in the representable range of `T`.
pub open spec fn in_range<T: Element>(v: int) -> bool {
    T::min_int() <= v <= T::max_int()
}

/// Checked arithmetic on the primitive integers: a result outside the type
/// is `Range`, a zero divisor `Domain`; division rounds toward zero.
impl<T: Element + Primitive> TryAdd for T {
    type Output = T;

    type Error = MathError;

    open spec fn add_defined(self, rhs: T) -> bool {
        in_range::<T>(self.as_int() + rhs.as_int())
    }

    open spec fn add_value(self, rhs: T) -> T {
        T::from_int(self.as_int() + rhs.as_int())
    }

    open spec fn add_failure(self, rhs: T) -> MathError {
        MathError::Range
    }

    fn try_add(self, rhs: T) -> (r: Result<T, MathError>)
        ensures
            r matches Ok(v) ==> v.as_int() == self.as_int() + rhs.as_int(),
    {
        match self.checked_add_element(rhs) {
            Some(v) => {
                proof {
                    T::lemma_from_int(v);
                }
                Ok(v)
            },
            None => Err(MathError::Range),
        }
    }
}

impl<T: Element + Primitive> TrySub for T {
    type Output = T;

    type Error = MathError;

    open spec fn sub_defined(self, rhs: T) -> bool {
        in_range::<T>(self.as_int() - rhs.as_int())
    }

    open spec fn sub_value(self, rhs: T) -> T {
        T::from_int(self.as_int() - rhs.as_int())
    }

    open spec fn sub_failure(self, rhs: T) -> MathError {
        MathError::Range
    }

    fn try_sub(self, rhs: T) -> (r: Result<T, MathError>)
        ensures
            r matches Ok(v) ==> v.as_int() == self.as_int() - rhs.as_int(),
    {
        match self.checked_sub_element(rhs) {
            Some(v) => {
                proof {
                    T::lemma_from_int(v);
                }
                Ok(v)
            },
            None => Err(MathError::Range),
        }
    }
}

impl<T: Element + Primitive> TryMul for T {
    type Output = T;

    type Error = MathError;

    open spec fn mul_defined(self, rhs: T) -> bool {
        in_range::<T>(self.as_int() * rhs.as_int())
    }

    open spec fn mul_value(self, rhs: T) -> T {
        T::from_int(self.as_int() * rhs.as_int())
    }

    open spec fn mul_failure(self, rhs: T) -> MathError {
        MathError::Range
    }

    fn try_mul(self, rhs: T) -> (r: Result<T, MathError>)
        ensures
            r matches Ok(v) ==> v.as_int() == self.as_int() * rhs.as_int(),
    {
        match self.checked_mul_element(rhs) {
            Some(v) => {
                proof {
                    T::lemma_from_int(v);
                }
                Ok(v)
            },
            None => Err(MathError::Range),
        }
    }
}

impl<T: Element + Primitive> TryDiv for T {
    type Output = T;

    type Error = MathError;

    open spec fn div_defined(self, rhs: T) -> bool {
        rhs.as_int() != 0 && in_range::<T>(trunc_div(self.as_int(), rhs.as_int()))
    }

    open spec fn div_value(self, rhs: T) -> T {
        T::from_int(trunc_div(self.as_int(), rhs.as_int()))
    }

    open spec fn div_failure(self, rhs: T) -> MathError {
        if rhs.as_int() == 0 {
            MathError::Domain
        } else {
            MathError::Range
        }
    }

    fn try_div(self, rhs: T) -> (r: Result<T, MathError>)
        ensures
            r matches Ok(v) ==> v.as_int() == trunc_div(self.as_int(), rhs.as_int()),
    {
        if is_zero(&rhs) {
            return Err(MathError::Domain);
        }
        match self.checked_div_element(rhs) {
            Some(v) => {
                proof {
                    T::lemma_from_int(v);
                }
                Ok(v)
            },
            None => Err(MathError::Range),
        }
    }
}

/// The extreme a saturating operation lands on when its exact result
/// overflows: the greatest value when the result is positive, the least
/// when negative.
fn overflow_extreme<T: Element>(positive: bool) -> (r: Saturating<T>)
    ensures
        positive ==> r.as_int() == T::max_int(),
        !positive ==> r.as_int() == T::min_int(),
{
    if positive {
        Saturating(T::max_value())
    } else {
        Saturating(T::min_value())
    }
}

/// A saturating value is the one `saturate` names for its own value.
proof fn lemma_saturate_value<T: Element>(s: Saturating<T>, v: int)
    requires
        s.as_int() == clamp_int(v, T::min_int(), T::max_int()),
    ensures
        s == saturate::<T>(v),
{
    T::lemma_from_int(s.0);
}

/// Saturating arithmetic never fails: a result past `T`'s range clamps to
/// its extreme.
impl<T: Element + Primitive> TryAdd for Saturating<T> {
    type Output = Self;

    type Error = Infallible;

    open spec fn add_defined(self, rhs: Self) -> bool {
        true
    }

    open spec fn add_value(self, rhs: Self) -> Self {
        saturate::<T>(self.as_int() + rhs.as_int())
    }

    open spec fn add_failure(self, rhs: Self) -> Infallible {
        arbitrary()
    }

    fn try_add(self, rhs: Self) -> (r: Result<Self, Infallible>) {
        proof {
            T::lemma_as_int(self.0);
            T::lemma_as_int(rhs.0);
        }
        let v = match self.0.checked_add_element(rhs.0) {
            Some(v) => Saturating(v),
            None => overflow_extreme(!rhs.0.less_than(&T::zero())),
        };
        proof {
            lemma_saturate_value(v, self.as_int() + rhs.as_int());
        }
        Ok(v)
    }
}

impl<T: Element + Primitive> TrySub for Saturating<T> {
    type Output = Self;

    type Error = Infallible;

    open spec fn sub_defined(self, rhs: Self) -> bool {
        true
    }

    open spec fn sub_value(self, rhs: Self) -> Self {
        saturate::<T>(self.as_int() - rhs.as_int())
    }

    open spec fn sub_failure(self, rhs: Self) -> Infallible {
        arbitrary()
    }

    fn try_sub(self, rhs: Self) -> (r: Result<Self, Infallible>) {
        proof {
            T::lemma_as_int(self.0);
            T::lemma_as_int(rhs.0);
        }
        let v = match self.0.checked_sub_element(rhs.0) {
            Some(v) => Saturating(v),
            None => overflow_extreme(rhs.0.less_than(&T::zero())),
        };
        proof {
            lemma_saturate_value(v, self.as_int() - rhs.as_int());
        }
        Ok(v)
    }
}

impl<T: Element + Primitive> TryMul for Saturating<T> {
    type Output = Self;

    type Error = Infallible;

    open spec fn mul_defined(self, rhs: Self) -> bool {
        true
    }

    open spec fn mul_value(self, rhs: Self) -> Self {
        saturate::<T>(self.as_int() * rhs.as_int())
    }

    open spec fn mul_failure(self, rhs: Self) -> Infallible {
        arbitrary()
    }

    fn try_mul(self, rhs: Self) -> (r: Result<Self, Infallible>) {
        proof {
            T::lemma_as_int(self.0);
            T::lemma_as_int(rhs.0);
        }
        let v = match self.0.checked_mul_element(rhs.0) {
            Some(v) => Saturating(v),
            None => {
                let zero = T::zero();
                let positive = self.0.less_than(&zero) == rhs.0.less_than(&zero);
                proof {
                    let (a, b) = (self.as_int(), rhs.as_int());
                    if a == 0 || b == 0 {
                        assert(a * b == 0) by (nonlinear_arith)
                            requires
                                a == 0 || b == 0,
                        ;
                    }
                    if a > 0 && b > 0 {
                        assert(a * b > 0) by (nonlinear_arith)
                            requires
                                a > 0,
                                b > 0,
                        ;
                    }
                    if a < 0 && b < 0 {
                        assert(a * b > 0) by (nonlinear_arith)
                            requires
                                a < 0,
                                b < 0,
                        ;
                    }
                    if a < 0 && b > 0 {
                        assert(a * b < 0) by (nonlinear_arith)
                            requires
                                a < 0,
                                b > 0,
                        ;
                    }
                    if a > 0 && b < 0 {
                        assert(a * b < 0) by (nonlinear_arith)
                            requires
                                a > 0,
                                b < 0,
                        ;
                    }
                }
                overflow_extreme(positive)
            },
        };
        proof {
            lemma_saturate_value(v, self.as_int() * rhs.as_int());
        }
        Ok(v)
    }
}

/// The saturating quotient: the quotient rounded toward zero when it is
/// defined and fits; otherwise (a zero divisor, or `MIN / -1`) the extreme
/// on the side of the result's sign, taking `0 / 0` as positive.
pub open spec fn saturating_quotient<T: Element>(a: int, b: int) -> Saturating<T> {
    if b != 0 && in_range::<T>(trunc_div(a, b)) {
        saturate::<T>(trunc_div(a, b))
    } else if (a < 0) != (b < 0) {
        saturate::<T>(T::min_int())
    } else {
        saturate::<T>(T::max_int())
    }
}

impl<T: Element + Primitive> TryDiv for Saturating<T> {
    type Output = Self;

    type Error = Infallible;

    open spec fn div_defined(self, rhs: Self) -> bool {
        true
    }

    open spec fn div_value(self, rhs: Self) -> Self {
        saturating_quotient::<T>(self.as_int(), rhs.as_int())
    }

    open spec fn div_failure(self, rhs: Self) -> Infallible {
        arbitrary()
    }

    fn try_div(self, rhs: Self) -> (r: Result<Self, Infallible>) {
        proof {
            T::lemma_as_int(self.0);
            T::lemma_as_int(rhs.0);
            T::lemma_range();
        }
        let zero = T::zero();
        let q = if is_zero(&rhs.0) {
            None
        } else {
            self.0.checked_div_element(rhs.0)
        };
        let v = match q {
            Some(v) => {
                proof {
                    lemma_saturate_value(Saturating(v), trunc_div(self.as_int(), rhs.as_int()));
                }
                Saturating(v)
            },
            None => {
                let negative = self.0.less_than(&zero) != rhs.0.less_than(&zero);
                let e = overflow_extreme(!negative);
                proof {
                    if negative {
                        lemma_saturate_value(e, T::min_int());
                    } else {
                        lemma_saturate_value(e, T::max_int());
                    }
                }
                e
            },
        };
        Ok(v)
    }
}

/// Whether `v` is the zero element.
fn is_zero<T: Element>(v: &T) -> (r: bool)
    ensures
        r == (v.as_int() == 0),
{
    let z = T::zero();
    v.less_or_equal(&z) && z.less_or_equal(v)
}

/// The bound type of a product: closed when either factor is a closed
/// zero (it absorbs), otherwise the meet.
pub open spec fn mul_kind<T: Element>(a: FiniteBound<T>, b: FiniteBound<T>) -> BoundType {
    if (a.kind() == BoundType::Closed && a.lim() == 0) || (b.kind() == BoundType::Closed
        && b.lim() == 0) {
        BoundType::Closed
    } else {
        a.kind().met(b.kind())
    }
}

/// The bound type of a quotient: closed when the numerator is a closed zero,
/// otherwise the meet.
pub open spec fn div_kind<T: Element>(a: FiniteBound<T>, b: FiniteBound<T>) -> BoundType {
    if a.kind() == BoundType::Closed && a.lim() == 0 {
        BoundType::Closed
    } else {
        a.kind().met(b.kind())
    }
}

/// An element-arithmetic error that maps into the crate's [`Error`].
pub trait BoundError {
    /// The crate error this one stands for.
    spec fn bound_error_spec(self) -> Error;

    /// Converts into the crate error.
    fn into_bound_error(self) -> (r: Error)
        ensures
            r == self.bound_error_spec(),
    ;
}

impl BoundError for MathError {
    open spec fn bound_error_spec(self) -> Error {
        Error::Math(self)
    }

    fn into_bound_error(self) -> (r: Error) {
        Error::Math(self)
    }
}

impl BoundError for Infallible {
    open spec fn bound_error_spec(self) -> Error {
        Error::InvalidElement
    }

    /// Never called: `Infallible` has no values.
    fn into_bound_error(self) -> (r: Error) {
        Error::InvalidElement
    }
}

impl<T: Element + TryAdd<Output = T>> TryAdd for FiniteBound<T> where <T as TryAdd>::Error: BoundError {
    type Output = FiniteBound<T>;

    type Error = Error;

    open spec fn add_defined(self, rhs: Self) -> bool {
        self.limit().add_defined(rhs.limit())
    }

    open spec fn add_value(self, rhs: Self) -> FiniteBound<T> {
        FiniteBound::build(self.kind().met(rhs.kind()), self.limit().add_value(rhs.limit()))
    }

    open spec fn add_failure(self, rhs: Self) -> Error {
        self.limit().add_failure(rhs.limit()).bound_error_spec()
    }

    /// The sum of the limits under the meet of the bound types.
    fn try_add(self, rhs: Self) -> (r: Result<FiniteBound<T>, Error>) {
        let (l_kind, l_val) = self.into_raw();
        let (r_kind, r_val) = rhs.into_raw();
        let val = match l_val.try_add(r_val) {
            Ok(v) => v,
            Err(e) => return Err(e.into_bound_error()),
        };
        let kind = l_kind.meet(r_kind);
        let r = FiniteBound::try_new(kind, val).unwrap();
        proof {
            FiniteBound::<T>::lemma_build(kind, val);
            FiniteBound::<T>::lemma_fields_determine(r, FiniteBound::build(kind, val));
        }
        Ok(r)
    }
}

impl<T: Element + TryAdd<Output = T>> core::ops::Add for FiniteBound<T> where <T as TryAdd>::Error: BoundError {
    type Output = Self;

    fn add(self, rhs: Self) -> (r: Self) {
        self.try_add(rhs).unwrap()
    }
}

impl<T: Element + TryAdd<Output = T>> vstd::std_specs::ops::AddSpecImpl for FiniteBound<T> where <T as TryAdd>::Error: BoundError {
    open spec fn obeys_add_spec() -> bool {
        true
    }

    open spec fn add_req(self, rhs: Self) -> bool {
        self.add_defined(rhs)
    }

    open spec fn add_spec(self, rhs: Self) -> Self {
        self.add_value(rhs)
    }
}

impl<T: Element + TrySub<Output = T>> TrySub for FiniteBound<T> where <T as TrySub>::Error: BoundError {
    type Output = FiniteBound<T>;

    type Error = Error;

    open spec fn sub_defined(self, rhs: Self) -> bool {
        self.limit().sub_defined(rhs.limit())
    }

    open spec fn sub_value(self, rhs: Self) -> FiniteBound<T> {
        FiniteBound::build(self.kind().met(rhs.kind()), self.limit().sub_value(rhs.limit()))
    }

    open spec fn sub_failure(self, rhs: Self) -> Error {
        self.limit().sub_failure(rhs.limit()).bound_error_spec()
    }

    /// The difference of the limits under the meet of the bound types.
    fn try_sub(self, rhs: Self) -> (r: Result<FiniteBound<T>, Error>) {
        let (l_kind, l_val) = self.into_raw();
        let (r_kind, r_val) = rhs.into_raw();
        let val = match l_val.try_sub(r_val) {
            Ok(v) => v,
            Err(e) => return Err(e.into_bound_error()),
        };
        let kind = l_kind.meet(r_kind);
        let r = FiniteBound::try_new(kind, val).unwrap();
        proof {
            FiniteBound::<T>::lemma_build(kind, val);
            FiniteBound::<T>::lemma_fields_determine(r, FiniteBound::build(kind, val));
        }
        Ok(r)
    }
}

impl<T: Element + TrySub<Output = T>> core::ops::Sub for FiniteBound<T> where <T as TrySub>::Error: BoundError {
    type Output = Self;

    fn sub(self, rhs: Self) -> (r: Self) {
        self.try_sub(rhs).unwrap()
    }
}

impl<T: Element + TrySub<Output = T>> vstd::std_specs::ops::SubSpecImpl for FiniteBound<T> where <T as TrySub>::Error: BoundError {
    open spec fn obeys_sub_spec() -> bool {
        true
    }

    open spec fn sub_req(self, rhs: Self) -> bool {
        self.sub_defined(rhs)
    }

    open spec fn sub_spec(self, rhs: Self) -> Self {
        self.sub_value(rhs)
    }
}

impl<T: Element + TryMul<Output = T>> TryMul for FiniteBound<T> where <T as TryMul>::Error: BoundError {
    type Output = FiniteBound<T>;

    type Error = Error;

    open spec fn mul_defined(self, rhs: Self) -> bool {
        self.limit().mul_defined(rhs.limit())
    }

    open spec fn mul_value(self, rhs: Self) -> FiniteBound<T> {
        FiniteBound::build(mul_kind(self, rhs), self.limit().mul_value(rhs.limit()))
    }

    open spec fn mul_failure(self, rhs: Self) -> Error {
        self.limit().mul_failure(rhs.limit()).bound_error_spec()
    }

    /// The product of the limits; a closed zero factor absorbs, making the
    /// product closed, otherwise the bound types meet.
    fn try_mul(self, rhs: Self) -> (r: Result<FiniteBound<T>, Error>) {
        let absorbing = (self.is_closed() && is_zero(self.value())) || (rhs.is_closed()
            && is_zero(rhs.value()));
        let (l_kind, l_val) = self.into_raw();
        let (r_kind, r_val) = rhs.into_raw();
        let val = match l_val.try_mul(r_val) {
            Ok(v) => v,
            Err(e) => return Err(e.into_bound_error()),
        };
        let kind = if absorbing {
            BoundType::Closed
        } else {
            l_kind.meet(r_kind)
        };
        let r = FiniteBound::try_new(kind, val).unwrap();
        proof {
            FiniteBound::<T>::lemma_build(kind, val);
            FiniteBound::<T>::lemma_fields_determine(r, FiniteBound::build(kind, val));
        }
        Ok(r)
    }
}

impl<T: Element + TryMul<Output = T>> core::ops::Mul for FiniteBound<T> where <T as TryMul>::Error: BoundError {
    type Output = Self;

    fn mul(self, rhs: Self) -> (r: Self) {
        self.try_mul(rhs).unwrap()
    }
}

impl<T: Element + TryMul<Output = T>> vstd::std_specs::ops::MulSpecImpl for FiniteBound<T> where <T as TryMul>::Error: BoundError {
    open spec fn obeys_mul_spec() -> bool {
        true
    }

    open spec fn mul_req(self, rhs: Self) -> bool {
        self.mul_defined(rhs)
    }

    open spec fn mul_spec(self, rhs: Self) -> Self {
        self.mul_value(rhs)
    }
}

impl<T: Element + TryDiv<Output = T>> TryDiv for FiniteBound<T> where <T as TryDiv>::Error: BoundError {
    type Output = FiniteBound<T>;

    type Error = Error;

    open spec fn div_defined(self, rhs: Self) -> bool {
        self.limit().div_defined(rhs.limit())
    }

    open spec fn div_value(self, rhs: Self) -> FiniteBound<T> {
        FiniteBound::build(div_kind(self, rhs), self.limit().div_value(rhs.limit()))
    }

    open spec fn div_failure(self, rhs: Self) -> Error {
        self.limit().div_failure(rhs.limit()).bound_error_spec()
    }

    /// The quotient of the limits; a closed zero numerator absorbs, otherwise
    /// the bound types meet.
    fn try_div(self, rhs: Self) -> (r: Result<FiniteBound<T>, Error>) {
        let absorbing = self.is_closed() && is_zero(self.value());
        let (l_kind, l_val) = self.into_raw();
        let (r_kind, r_val) = rhs.into_raw();
        let val = match l_val.try_div(r_val) {
            Ok(v) => v,
            Err(e) => return Err(e.into_bound_error()),
        };
        let kind = if absorbing {
            BoundType::Closed
        } else {
            l_kind.meet(r_kind)
        };
        let r = FiniteBound::try_new(kind, val).unwrap();
        proof {
            FiniteBound::<T>::lemma_build(kind, val);
            FiniteBound::<T>::lemma_fields_determine(r, FiniteBound::build(kind, val));
        }
        Ok(r)
    }
}

impl<T: Element + TryDiv<Output = T>> core::ops::Div for FiniteBound<T> where <T as TryDiv>::Error: BoundError {
    type Output = Self;

    fn div(self, rhs: Self) -> (r: Self) {
        self.try_div(rhs).unwrap()
    }
}

impl<T: Element + TryDiv<Output = T>> vstd::std_specs::ops::DivSpecImpl for FiniteBound<T> where <T as TryDiv>::Error: BoundError {
    open spec fn obeys_div_spec() -> bool {
        true
    }

    open spec fn div_req(self, rhs: Self) -> bool {
        self.div_defined(rhs)
    }

    open spec fn div_spec(self, rhs: Self) -> Self {
        self.div_value(rhs)
    }
}

impl<T: Element + TryAdd<Output = T>> TryAdd for FiniteInterval<T> where <T as TryAdd>::Error: BoundError {
    type Output = FiniteInterval<T>;

    type Error = Error;

    open spec fn add_defined(self, rhs: Self) -> bool {
        if self.is_empty_spec() || rhs.is_empty_spec() {
            true
        } else {
            let (a, b) = (self.bounds().unwrap().0.limit(), self.bounds().unwrap().1.limit());
            let (c, d) = (rhs.bounds().unwrap().0.limit(), rhs.bounds().unwrap().1.limit());
            a.add_defined(c) && b.add_defined(d) && a.add_value(c).as_int()
                <= b.add_value(d).as_int()
        }
    }

    open spec fn add_value(self, rhs: Self) -> FiniteInterval<T> {
        if self.is_empty_spec() || rhs.is_empty_spec() {
            FiniteInterval::from_range(1, 0)
        } else {
            let (a, b) = (self.bounds().unwrap().0.limit(), self.bounds().unwrap().1.limit());
            let (c, d) = (rhs.bounds().unwrap().0.limit(), rhs.bounds().unwrap().1.limit());
            FiniteInterval::from_range(a.add_value(c).as_int(), b.add_value(d).as_int())
        }
    }

    open spec fn add_failure(self, rhs: Self) -> Error {
        let (a, b) = (self.bounds().unwrap().0.limit(), self.bounds().unwrap().1.limit());
        let (c, d) = (rhs.bounds().unwrap().0.limit(), rhs.bounds().unwrap().1.limit());
        if !a.add_defined(c) {
            a.add_failure(c).bound_error_spec()
        } else if !b.add_defined(d) {
            b.add_failure(d).bound_error_spec()
        } else {
            Error::InvalidBoundPair
        }
    }

    /// `[a, b] + [c, d] = [a + c, b + d]`; the sum with an empty set is empty.
    fn try_add(self, rhs: Self) -> (r: Result<FiniteInterval<T>, Error>) {
        match (self.into_raw(), rhs.into_raw()) {
            (Some((a, b)), Some((c, d))) => {
                let lo = match a.try_add(c) {
                    Ok(x) => x,
                    Err(e) => return Err(e),
                };
                let hi = match b.try_add(d) {
                    Ok(x) => x,
                    Err(e) => return Err(e),
                };
                proof {
                    FiniteBound::<T>::lemma_build(
                        a.kind().met(c.kind()),
                        a.limit().add_value(c.limit()),
                    );
                    FiniteBound::<T>::lemma_build(
                        b.kind().met(d.kind()),
                        b.limit().add_value(d.limit()),
                    );
                    T::lemma_as_int(lo.limit());
                    T::lemma_as_int(hi.limit());
                }
                let r = FiniteInterval::try_new(lo, hi);
                proof {
                    if let Ok(i) = r {
                        use_type_invariant(&i);
                        FiniteInterval::lemma_from_view(i, lo.lim(), hi.lim());
                    }
                }
                r
            },
            _ => {
                let e = FiniteInterval::empty();
                Ok(e)
            },
        }
    }
}

impl<T: Element + TrySub<Output = T>> TrySub for FiniteInterval<T> where <T as TrySub>::Error: BoundError {
    type Output = FiniteInterval<T>;

    type Error = Error;

    open spec fn sub_defined(self, rhs: Self) -> bool {
        if self.is_empty_spec() || rhs.is_empty_spec() {
            true
        } else {
            let (a, b) = (self.bounds().unwrap().0.limit(), self.bounds().unwrap().1.limit());
            let (c, d) = (rhs.bounds().unwrap().0.limit(), rhs.bounds().unwrap().1.limit());
            a.sub_defined(d) && b.sub_defined(c) && a.sub_value(d).as_int()
                <= b.sub_value(c).as_int()
        }
    }

    open spec fn sub_value(self, rhs: Self) -> FiniteInterval<T> {
        if self.is_empty_spec() || rhs.is_empty_spec() {
            FiniteInterval::from_range(1, 0)
        } else {
            let (a, b) = (self.bounds().unwrap().0.limit(), self.bounds().unwrap().1.limit());
            let (c, d) = (rhs.bounds().unwrap().0.limit(), rhs.bounds().unwrap().1.limit());
            FiniteInterval::from_range(a.sub_value(d).as_int(), b.sub_value(c).as_int())
        }
    }

    open spec fn sub_failure(self, rhs: Self) -> Error {
        let (a, b) = (self.bounds().unwrap().0.limit(), self.bounds().unwrap().1.limit());
        let (c, d) = (rhs.bounds().unwrap().0.limit(), rhs.bounds().unwrap().1.limit());
        if !a.sub_defined(d) {
            a.sub_failure(d).bound_error_spec()
        } else if !b.sub_defined(c) {
            b.sub_failure(c).bound_error_spec()
        } else {
            Error::InvalidBoundPair
        }
    }

    /// `[a, b] - [c, d] = [a - d, b - c]`; the difference with an empty set is
    /// empty.
    fn try_sub(self, rhs: Self) -> (r: Result<FiniteInterval<T>, Error>) {
        match (self.into_raw(), rhs.into_raw()) {
            (Some((a, b)), Some((c, d))) => {
                let lo = match a.try_sub(d) {
                    Ok(x) => x,
                    Err(e) => return Err(e),
                };
                let hi = match b.try_sub(c) {
                    Ok(x) => x,
                    Err(e) => return Err(e),
                };
                proof {
                    FiniteBound::<T>::lemma_build(
                        a.kind().met(d.kind()),
                        a.limit().sub_value(d.limit()),
                    );
                    FiniteBound::<T>::lemma_build(
                        b.kind().met(c.kind()),
                        b.limit().sub_value(c.limit()),
                    );
                    T::lemma_as_int(lo.limit());
                    T::lemma_as_int(hi.limit());
                }
                let r = FiniteInterval::try_new(lo, hi);
                proof {
                    if let Ok(i) = r {
                        use_type_invariant(&i);
                        FiniteInterval::lemma_from_view(i, lo.lim(), hi.lim());
                    }
                }
                r
            },
            _ => {
                let e = FiniteInterval::empty();
                Ok(e)
            },
        }
    }
}

/// Saturating interval arithmetic never fails: clamping is monotone, so the
/// sum and the difference of two intervals of `Saturating<T>` are again
/// intervals.
pub proof fn lemma_saturating_interval_ops_total<T: Element + Primitive>(
    x: FiniteInterval<Saturating<T>>,
    y: FiniteInterval<Saturating<T>>,
)
    requires
        x.wf(),
        y.wf(),
    ensures
        x.add_defined(y),
        x.sub_defined(y),
{
    if !x.is_empty_spec() && !y.is_empty_spec() {
        let (a, b) = (x.bounds().unwrap().0.limit(), x.bounds().unwrap().1.limit());
        let (c, d) = (y.bounds().unwrap().0.limit(), y.bounds().unwrap().1.limit());
        T::lemma_range();
        let lo_sum = clamp_int(a.as_int() + c.as_int(), T::min_int(), T::max_int());
        let hi_sum = clamp_int(b.as_int() + d.as_int(), T::min_int(), T::max_int());
        T::lemma_from_int_value(lo_sum);
        T::lemma_from_int_value(hi_sum);
        let lo_diff = clamp_int(a.as_int() - d.as_int(), T::min_int(), T::max_int());
        let hi_diff = clamp_int(b.as_int() - c.as_int(), T::min_int(), T::max_int());
        T::lemma_from_int_value(lo_diff);
        T::lemma_from_int_value(hi_diff);
    }
}

/// The bound type of bound arithmetic, stated on the operands' types: a
/// sum, difference or quotient is closed only when both operands are
/// closed, and an open operand makes it open, except that a closed zero
/// numerator makes a quotient closed; a product is closed when both factors
/// are closed or either is a closed zero, and open otherwise. The value is
/// the element arithmetic on the limits.
pub proof fn lemma_bound_arithmetic_kinds<T>(a: FiniteBound<T>, b: FiniteBound<T>) where
    T: Element + TryAdd<Output = T> + TrySub<Output = T> + TryMul<Output = T> + TryDiv<Output = T>,
    <T as TryAdd>::Error: BoundError,
    <T as TrySub>::Error: BoundError,
    <T as TryMul>::Error: BoundError,
    <T as TryDiv>::Error: BoundError,

    ensures
        (a.add_value(b).kind() == BoundType::Closed) <==> (a.kind() == BoundType::Closed
            && b.kind() == BoundType::Closed),
        (a.sub_value(b).kind() == BoundType::Closed) <==> (a.kind() == BoundType::Closed
            && b.kind() == BoundType::Closed),
        (a.mul_value(b).kind() == BoundType::Closed) <==> ((a.kind() == BoundType::Closed
            && b.kind() == BoundType::Closed) || (a.kind() == BoundType::Closed && a.lim() == 0)
            || (b.kind() == BoundType::Closed && b.lim() == 0)),
        (a.div_value(b).kind() == BoundType::Closed) <==> ((a.kind() == BoundType::Closed
            && b.kind() == BoundType::Closed) || (a.kind() == BoundType::Closed && a.lim() == 0)),
        a.kind() == BoundType::Open || b.kind() == BoundType::Open ==> a.add_value(b).kind()
            == BoundType::Open && a.sub_value(b).kind() == BoundType::Open,
        !(a.kind() == BoundType::Closed && a.lim() == 0) && (a.kind() == BoundType::Open
            || b.kind() == BoundType::Open) ==> a.div_value(b).kind() == BoundType::Open,
        a.add_value(b).limit() == a.limit().add_value(b.limit()),
        a.sub_value(b).limit() == a.limit().sub_value(b.limit()),
        a.mul_value(b).limit() == a.limit().mul_value(b.limit()),
        a.div_value(b).limit() == a.limit().div_value(b.limit()),
{
    FiniteBound::<T>::lemma_build(a.kind().met(b.kind()), a.limit().add_value(b.limit()));
    FiniteBound::<T>::lemma_build(a.kind().met(b.kind()), a.limit().sub_value(b.limit()));
    FiniteBound::<T>::lemma_build(mul_kind(a, b), a.limit().mul_value(b.limit()));
    FiniteBound::<T>::lemma_build(div_kind(a, b), a.limit().div_value(b.limit()));
}

/// Interval sums and differences over the primitive integers are the set
/// sums and differences: where defined, `p + q` holds exactly the values
/// `x + y` and `p - q` exactly the values `x - y` for `x` in `p`, `y` in `q`.
pub proof fn lemma_interval_sum_difference<T: Element + Primitive>(
    p: FiniteInterval<T>,
    q: FiniteInterval<T>,
    z: int,
)
    requires
        p.wf(),
        q.wf(),
    ensures
        p.add_defined(q) ==> (p.add_value(q)@.contains(z) <==> exists|x: int, y: int|
            #![trigger p@.contains(x), q@.contains(y)]
            p@.contains(x) && q@.contains(y) && z == x + y),
        p.sub_defined(q) ==> (p.sub_value(q)@.contains(z) <==> exists|x: int, y: int|
            #![trigger p@.contains(x), q@.contains(y)]
            p@.contains(x) && q@.contains(y) && z == x - y),
{
    FiniteInterval::<T>::lemma_from_range_view(1, 0);
    if p.is_empty_spec() || q.is_empty_spec() {
        assert(p.add_value(q)@ =~= Set::<int>::empty());
        assert(p.sub_value(q)@ =~= Set::<int>::empty());
    } else {
        let a = p.bounds().unwrap().0.limit();
        let b = p.bounds().unwrap().1.limit();
        let c = q.bounds().unwrap().0.limit();
        let d = q.bounds().unwrap().1.limit();
        T::lemma_as_int(a);
        T::lemma_as_int(b);
        T::lemma_as_int(c);
        T::lemma_as_int(d);
        if p.add_defined(q) {
            T::lemma_from_int_value(a.as_int() + c.as_int());
            T::lemma_from_int_value(b.as_int() + d.as_int());
            FiniteInterval::<T>::lemma_from_range_view(
                a.add_value(c).as_int(),
                b.add_value(d).as_int(),
            );
            if p.add_value(q)@.contains(z) {
                let x: int = if z - c.as_int() <= b.as_int() { z - c.as_int() } else { b.as_int() };
                let y: int = z - x;
                assert(p@.contains(x) && q@.contains(y) && z == x + y);
            }
        }
        if p.sub_defined(q) {
            T::lemma_from_int_value(a.as_int() - d.as_int());
            T::lemma_from_int_value(b.as_int() - c.as_int());
            FiniteInterval::<T>::lemma_from_range_view(
                a.sub_value(d).as_int(),
                b.sub_value(c).as_int(),
            );
            if p.sub_value(q)@.contains(z) {
                let x: int = if z + d.as_int() <= b.as_int() { z + d.as_int() } else { b.as_int() };
                let y: int = x - z;
                assert(p@.contains(x) && q@.contains(y) && z == x - y);
            }
        }
    }
}

} // verus!
