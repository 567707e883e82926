//! A measurement that is either finite or infinite.
use vstd::prelude::*;

use crate::error::MathError;
use crate::numeric::Magnitude;
use crate::ops::math::TryAdd;

verus! {

/// A finite value, or infinity.
#[derive(Debug, Copy, Clone, PartialEq, Eq, Hash, PartialOrd, Ord)]
pub enum Extent<T> {
    /// A finite measurement.
    Finite(T),
    /// An infinite measurement.
    Infinite,
}

impl<T> Extent<T> {
    /// Whether this is `Infinite`.
    pub fn is_infinite(&self) -> (r: bool)
        ensures
            r == (*self is Infinite),
    {
        matches!(self, Extent::Infinite)
    }

    /// Whether this is `Finite`.
    pub fn is_finite(&self) -> (r: bool)
        ensures
            r == (*self is Finite),
    {
        matches!(self, Extent::Finite(_))
    }

    /// The finite value; requires the extent to be finite.
    pub fn finite(self) -> (r: T)
        requires
            self is Finite,
        ensures
            self == Extent::Finite(r),
    {
        let o: Option<T> = match self {
            Extent::Finite(t) => Some(t),
            Extent::Infinite => None,
        };
        o.expect("Extent::finite called on Infinite")
    }

    /// Applies a fallible binary operation to two finite values; any
    /// infinite operand makes the result `Ok(Infinite)` without calling
    /// `func`.
    pub fn try_binop_map<E, F: FnOnce(T, T) -> Result<T, E>>(self, rhs: Self, func: F) -> (r:
        Result<Self, E>)
        requires
            (self is Finite && rhs is Finite) ==> call_requires(
                func,
                (self->Finite_0, rhs->Finite_0),
            ),
        ensures
            !(self is Finite && rhs is Finite) ==> r == Ok::<Extent<T>, E>(Extent::Infinite),
            (self is Finite && rhs is Finite) ==> exists|res: Result<T, E>|
                call_ensures(func, (self->Finite_0, rhs->Finite_0), res) && r == match res {
                    Ok(v) => Ok::<Extent<T>, E>(Extent::Finite(v)),
                    Err(e) => Err::<Extent<T>, E>(e),
                },
    {
        match (self, rhs) {
            (Extent::Finite(a), Extent::Finite(b)) => {
                let res = func(a, b);
                match res {
                    Ok(v) => Ok(Extent::Finite(v)),
                    Err(e) => Err(e),
                }
            },
            _ => Ok(Extent::Infinite),
        }
    }
}

impl<T> From<Extent<T>> for Option<T> {
    fn from(extent: Extent<T>) -> (r: Self)
        ensures
            r == extent_to_option(extent),
    {
        match extent {
            Extent::Finite(t) => Some(t),
            Extent::Infinite => None,
        }
    }
}

/// The option an extent converts to: `Some` of a finite value.
pub open spec fn extent_to_option<T>(e: Extent<T>) -> Option<T> {
    match e {
        Extent::Finite(t) => Some(t),
        Extent::Infinite => None,
    }
}

/// The extent an option converts to: `None` is infinite.
pub open spec fn option_to_extent<T>(o: Option<T>) -> Extent<T> {
    match o {
        Some(t) => Extent::Finite(t),
        None => Extent::Infinite,
    }
}

impl<T> vstd::std_specs::convert::FromSpecImpl<Extent<T>> for Option<T> {
    open spec fn obeys_from_spec() -> bool {
        true
    }

    open spec fn from_spec(v: Extent<T>) -> Self {
        extent_to_option(v)
    }
}

impl<T> From<Option<T>> for Extent<T> {
    fn from(opt: Option<T>) -> (r: Self)
        ensures
            r == option_to_extent(opt),
    {
        match opt {
            Some(t) => Extent::Finite(t),
            None => Extent::Infinite,
        }
    }
}

impl<T> vstd::std_specs::convert::FromSpecImpl<Option<T>> for Extent<T> {
    open spec fn obeys_from_spec() -> bool {
        true
    }

    open spec fn from_spec(v: Option<T>) -> Self {
        option_to_extent(v)
    }
}

/// Converting an extent to an option and back gives the same extent, and
/// the other way round.
pub proof fn lemma_option_round_trip<T>(e: Extent<T>, o: Option<T>)
    ensures
        option_to_extent(extent_to_option(e)) == e,
        extent_to_option(option_to_extent(o)) == o,
{
}

impl<T: core::ops::Add<Output = T>> core::ops::Add for Extent<T> {
    type Output = Self;

    fn add(self, rhs: Self) -> (r: Self) {
        match (self, rhs) {
            (Extent::Finite(a), Extent::Finite(b)) => Extent::Finite(a + b),
            _ => Extent::Infinite,
        }
    }
}

impl<T: core::ops::Add<Output = T>> vstd::std_specs::ops::AddSpecImpl for Extent<T> {
    open spec fn obeys_add_spec() -> bool {
        <T as vstd::std_specs::ops::AddSpec>::obeys_add_spec()
    }

    open spec fn add_req(self, rhs: Self) -> bool {
        match (self, rhs) {
            (Extent::Finite(a), Extent::Finite(b)) => <T as vstd::std_specs::ops::AddSpec>::add_req(a, b),
            _ => true,
        }
    }

    open spec fn add_spec(self, rhs: Self) -> Self {
        match (self, rhs) {
            (Extent::Finite(a), Extent::Finite(b)) => Extent::Finite(<T as vstd::std_specs::ops::AddSpec>::add_spec(a, b)),
            _ => Extent::Infinite,
        }
    }
}

impl<T: Magnitude> TryAdd for Extent<T> {
    type Output = Self;

    type Error = MathError;

    open spec fn add_defined(self, rhs: Self) -> bool {
        match (self, rhs) {
            (Extent::Finite(a), Extent::Finite(b)) => a.as_nat() + b.as_nat() <= T::max_nat(),
            _ => true,
        }
    }

    open spec fn add_value(self, rhs: Self) -> Self {
        match (self, rhs) {
            (Extent::Finite(a), Extent::Finite(b)) => Extent::Finite(
                T::from_nat(a.as_nat() + b.as_nat()),
            ),
            _ => Extent::Infinite,
        }
    }

    open spec fn add_failure(self, rhs: Self) -> MathError {
        MathError::Range
    }

    /// Infinity absorbs; two finite values add with overflow checking.
    fn try_add(self, rhs: Self) -> (r: Result<Self, MathError>)
        ensures
            !(self is Finite && rhs is Finite) ==> r == Ok::<Self, MathError>(Extent::Infinite),
            (self is Finite && rhs is Finite) ==> (r is Err <==> self->Finite_0.as_nat()
                + rhs->Finite_0.as_nat() > T::max_nat()),
            (self is Finite && rhs is Finite) ==> (r matches Ok(e) ==> e is Finite),
            r matches Ok(Extent::Finite(v)) ==> self is Finite && rhs is Finite && v.as_nat()
                == self->Finite_0.as_nat() + rhs->Finite_0.as_nat(),
            r matches Err(e) ==> e == MathError::Range,
    {
        match (self, rhs) {
            (Extent::Finite(a), Extent::Finite(b)) => match a.checked_sum(b) {
                Some(v) => {
                    proof {
                        T::lemma_from_nat(v);
                        assert(self.add_defined(rhs));
                        assert(Extent::Finite(v) == self.add_value(rhs));
                    }
                    Ok(Extent::Finite(v))
                },
                None => {
                    assert(MathError::Range == self.add_failure(rhs));
                    Err(MathError::Range)
                },
            },
            _ => Ok(Extent::Infinite),
        }
    }
}

} // verus!
