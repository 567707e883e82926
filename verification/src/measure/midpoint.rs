//! The midpoint of a finite interval.
use vstd::prelude::*;

use crate::disjoint::MaybeDisjoint;
use crate::error::MathError;
use crate::numeric::{mid_int, Element};
use crate::sets::{EnumInterval, FiniteInterval, HalfInterval};

verus! {

impl<T: Element> FiniteInterval<T> {
    /// The midpoint of the least and greatest elements, rounded toward zero;
    /// `Err(Domain)` for the empty set.
    pub fn midpoint(&self) -> (r: Result<T, MathError>)
        ensures
            r is Err <==> self.is_empty_spec(),
            r matches Err(e) ==> e == MathError::Domain,
            r matches Ok(m) ==> m.as_int() == mid_int(self.lo(), self.hi()),
    {
        match self.view_raw() {
            None => Err(MathError::Domain),
            Some((l, r)) => Ok(l.value().midpoint_element(*r.value())),
        }
    }
}

impl<T: Element> HalfInterval<T> {
    /// A half-bounded interval has no midpoint: always `Err(Domain)`.
    pub fn midpoint(&self) -> (r: Result<T, MathError>)
        ensures
            r == Err::<T, MathError>(MathError::Domain),
    {
        Err(MathError::Domain)
    }
}

impl<T: Element> EnumInterval<T> {
    /// The midpoint of a non-empty finite interval; `Err(Domain)` for every
    /// other shape.
    pub fn midpoint(&self) -> (r: Result<T, MathError>)
        ensures
            r is Err <==> !(*self is Finite) || self.is_empty_spec(),
            r matches Err(e) ==> e == MathError::Domain,
            r matches Ok(m) ==> m.as_int() == mid_int(self.lo(), self.hi()),
    {
        match self {
            EnumInterval::Finite(inner) => inner.midpoint(),
            EnumInterval::Half(_) | EnumInterval::Unbounded => Err(MathError::Domain),
        }
    }
}

impl<T: Element> MaybeDisjoint<T> {
    /// The midpoint of a single connected finite interval; `Err(Domain)`
    /// for the empty set, two disjoint pieces, or an unbounded piece.
    pub fn midpoint(&self) -> (r: Result<T, MathError>)
        ensures
            r is Ok <==> (*self matches MaybeDisjoint::Connected(i) && i is Finite
                && !i.is_empty_spec()),
            r matches Err(e) ==> e == MathError::Domain,
            r matches Ok(m) ==> m.as_int() == mid_int(self->Connected_0.lo(), self->Connected_0.hi()),
    {
        match self {
            MaybeDisjoint::Connected(iv) => iv.midpoint(),
            _ => Err(MathError::Domain),
        }
    }
}

/// The midpoint of a non-empty finite interval is one of its elements, and
/// does not depend on the order of the ends.
pub proof fn lemma_midpoint_within<T: Element>(f: FiniteInterval<T>)
    requires
        f.wf(),
        !f.is_empty_spec(),
    ensures
        f@.contains(mid_int(f.lo(), f.hi())),
        mid_int(f.lo(), f.hi()) == mid_int(f.hi(), f.lo()),
        f.lo() + f.hi() >= 0 ==> 2 * mid_int(f.lo(), f.hi()) <= f.lo() + f.hi() <= 2 * mid_int(
            f.lo(),
            f.hi(),
        ) + 1,
        f.lo() + f.hi() < 0 ==> 2 * mid_int(f.lo(), f.hi()) - 1 <= f.lo() + f.hi() <= 2 * mid_int(
            f.lo(),
            f.hi(),
        ),
{
    crate::numeric::lemma_mid_int_between(f.lo(), f.hi());
}

} // verus!
