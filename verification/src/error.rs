//! Error types surfaced by interval construction, arithmetic and
//! conversions.
use vstd::prelude::*;

verus! {

/// Failures of interval and bound construction.
#[derive(Debug, Copy, Clone, PartialEq, Eq, Hash)]
#[non_exhaustive]
pub enum Error {
    /// Bound-pair invariants violated: crossed bounds in a finite
    /// interval (after normalization), a half-line that holds no element,
    /// or a structurally invalid `OrdBoundPair`.
    InvalidBoundPair,
    /// A limit value was rejected by `Element::validate`.
    InvalidBoundLimit,
    /// Two element values could not be compared.
    InvalidElement,
    /// Arithmetic-on-bounds failure.
    Math(MathError),
}

/// Arithmetic-on-bounds failure: `Range` is a result outside the
/// representable range, `Domain` an operation undefined for its inputs.
#[derive(Debug, Copy, Clone, PartialEq, Eq, Hash)]
#[non_exhaustive]
pub enum MathError {
    /// Result outside the representable range (overflow).
    Range,
    /// Operation undefined for the given inputs (e.g. division by zero).
    Domain,
}

/// Failed comparison of partially ordered values.
#[derive(Debug, Copy, Clone, PartialEq, Eq, Hash)]
pub struct TotalOrderError;

/// Failure parsing an interval from its string form; `E` is the element
/// parser's own error.
#[derive(Debug, Copy, Clone, PartialEq, Eq, Hash)]
#[non_exhaustive]
pub enum ParseIntervalError<E> {
    /// Top-level grammar didn't match.
    Syntax,
    /// A bound's value text was rejected by the element parser.
    Element(E),
    /// An element was rejected by `Element::validate`.
    InvalidElement,
    /// The bound pair was rejected (crossed bounds).
    InvalidBoundPair,
}

impl From<MathError> for Error {
    fn from(value: MathError) -> (r: Self)
        ensures
            r == Error::Math(value),
    {
        Error::Math(value)
    }
}

impl vstd::std_specs::convert::FromSpecImpl<MathError> for Error {
    open spec fn obeys_from_spec() -> bool {
        true
    }

    open spec fn from_spec(v: MathError) -> Self {
        Error::Math(v)
    }
}

impl From<TotalOrderError> for Error {
    fn from(value: TotalOrderError) -> (r: Self)
        ensures
            r == Error::InvalidBoundLimit,
    {
        Error::InvalidBoundLimit
    }
}

impl vstd::std_specs::convert::FromSpecImpl<TotalOrderError> for Error {
    open spec fn obeys_from_spec() -> bool {
        true
    }

    open spec fn from_spec(v: TotalOrderError) -> Self {
        Error::InvalidBoundLimit
    }
}

impl<E> ParseIntervalError<E> {
    /// Lifts a construction error into the parse error: the two
    /// `Invalid*` cases map onto their namesakes, every other error is a
    /// syntax-shaped failure.
    pub fn from_error(e: Error) -> (r: Self)
        ensures
            e == Error::InvalidBoundPair ==> r == ParseIntervalError::<E>::InvalidBoundPair,
            e == Error::InvalidElement ==> r == ParseIntervalError::<E>::InvalidElement,
            e != Error::InvalidBoundPair && e != Error::InvalidElement ==> r
                == ParseIntervalError::<E>::Syntax,
    {
        match e {
            Error::InvalidBoundPair => ParseIntervalError::InvalidBoundPair,
            Error::InvalidElement => ParseIntervalError::InvalidElement,
            _ => ParseIntervalError::Syntax,
        }
    }
}

} // verus!
