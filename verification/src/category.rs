//! Classification of sets relative to zero.
use vstd::prelude::*;

use crate::bound::{SetBounds, Side};
use crate::error::TotalOrderError;
use crate::numeric::Element;
use crate::sets::{EnumInterval, FiniteInterval, HalfInterval};

verus! {

/// Marker if a set or bound contains the 0 element.
#[derive(Debug, Copy, Clone, PartialEq, Eq, Structural)]
pub enum MaybeZero {
    /// The extreme element is 0.
    Zero,
    /// The extreme element is not 0.
    NonZero,
}

/// Set elements category.
#[derive(Debug, Copy, Clone, PartialEq, Eq, Structural)]
pub enum ECat {
    /// No elements.
    Empty,
    /// The singleton set of 0.
    Zero,
    /// The set reaches both below and above zero; an interval of this kind
    /// holds 0.
    NegPos,
    /// All elements are non-negative; with `MaybeZero::Zero` the least
    /// element is 0.
    Pos(MaybeZero),
    /// All elements are non-positive; with `MaybeZero::Zero` the greatest
    /// element is 0.
    Neg(MaybeZero),
}

/// The category of the non-empty closed range `[lo, hi]`.
pub open spec fn range_category(lo: int, hi: int) -> ECat {
    if lo > 0 {
        ECat::Pos(MaybeZero::NonZero)
    } else if lo == 0 {
        if hi > 0 {
            ECat::Pos(MaybeZero::Zero)
        } else {
            ECat::Zero
        }
    } else if hi > 0 {
        ECat::NegPos
    } else if hi == 0 {
        ECat::Neg(MaybeZero::Zero)
    } else {
        ECat::Neg(MaybeZero::NonZero)
    }
}

/// The sign of `v` relative to zero: -1, 0 or 1.
fn sign<T: Element>(v: &T) -> (r: i8)
    ensures
        r == (if v.as_int() < 0 {
            -1int
        } else if v.as_int() == 0 {
            0int
        } else {
            1int
        }),
{
    let zero = T::zero();
    if v.less_than(&zero) {
        -1
    } else if zero.less_than(v) {
        1
    } else {
        0
    }
}

/// The category of the non-empty range from `lo` to `hi`.
fn range_class<T: Element>(lo: &T, hi: &T) -> (r: ECat)
    ensures
        r == range_category(lo.as_int(), hi.as_int()),
{
    let l = sign(lo);
    if l > 0 {
        ECat::Pos(MaybeZero::NonZero)
    } else if l == 0 {
        if sign(hi) > 0 {
            ECat::Pos(MaybeZero::Zero)
        } else {
            ECat::Zero
        }
    } else {
        let r = sign(hi);
        if r > 0 {
            ECat::NegPos
        } else if r == 0 {
            ECat::Neg(MaybeZero::Zero)
        } else {
            ECat::Neg(MaybeZero::NonZero)
        }
    }
}

impl<T: Element> FiniteInterval<T> {
    /// The category of this interval.
    pub open spec fn category_spec(self) -> ECat {
        if self.is_empty_spec() {
            ECat::Empty
        } else {
            range_category(self.lo(), self.hi())
        }
    }

    /// Classify this interval relative to zero.
    pub fn category(&self) -> (r: ECat)
        ensures
            r == self.category_spec(),
    {
        self.try_category().unwrap()
    }

    /// Classify this interval relative to zero; every integer bound is
    /// comparable to zero, so this always succeeds.
    pub fn try_category(&self) -> (r: Result<ECat, TotalOrderError>)
        ensures
            r == Ok::<ECat, TotalOrderError>(self.category_spec()),
    {
        let (lhs, rhs) = match self.view_raw() {
            None => return Ok(ECat::Empty),
            Some(pair) => pair,
        };
        Ok(range_class(lhs.value(), rhs.value()))
    }
}

impl<T: Element> HalfInterval<T> {
    /// The category of this interval.
    pub open spec fn category_spec(self) -> ECat {
        if self.side_spec() == Side::Right && self.bound_spec().lim() == 0 {
            ECat::Neg(MaybeZero::Zero)
        } else {
            range_category(self.lo(), self.hi())
        }
    }

    /// Classify this interval relative to zero.
    pub fn category(&self) -> (r: ECat)
        ensures
            r == self.category_spec(),
    {
        self.try_category().unwrap()
    }

    /// Classify this interval relative to zero, over the elements it holds
    /// within the element type's range; a half-line bounded on the right
    /// at zero is `Neg(Zero)`. Always succeeds.
    pub fn try_category(&self) -> (r: Result<ECat, TotalOrderError>)
        ensures
            r == Ok::<ECat, TotalOrderError>(self.category_spec()),
    {
        let b = self.finite_bound().value();
        Ok(
            match self.side() {
                Side::Left => range_class(b, &T::max_value()),
                Side::Right => if sign(b) == 0 {
                    ECat::Neg(MaybeZero::Zero)
                } else {
                    range_class(&T::min_value(), b)
                },
            },
        )
    }
}

impl<T: Element> EnumInterval<T> {
    /// The category of this interval.
    pub open spec fn category_spec(self) -> ECat {
        match self {
            EnumInterval::Finite(f) => f.category_spec(),
            EnumInterval::Half(h) => h.category_spec(),
            EnumInterval::Unbounded => range_category(T::min_int(), T::max_int()),
        }
    }

    /// Classify this interval relative to zero.
    pub fn category(&self) -> (r: ECat)
        ensures
            r == self.category_spec(),
    {
        self.try_category().unwrap()
    }

    /// Classify this interval relative to zero; always succeeds.
    pub fn try_category(&self) -> (r: Result<ECat, TotalOrderError>)
        ensures
            r == Ok::<ECat, TotalOrderError>(self.category_spec()),
    {
        match self {
            EnumInterval::Finite(inner) => inner.try_category(),
            EnumInterval::Half(inner) => inner.try_category(),
            EnumInterval::Unbounded => Ok(range_class(&T::min_value(), &T::max_value())),
        }
    }
}

/// The category of a finite interval describes its elements: `Empty` holds
/// none, `Zero` holds exactly 0, `Pos` only non-negative elements (0 among
/// them exactly when marked `Zero`), `Neg` only non-positive ones, and
/// `NegPos` holds a negative element, 0 and a positive element.
pub proof fn lemma_category_describes_elements<T: Element>(f: FiniteInterval<T>)
    requires
        f.wf(),
    ensures
        f.category_spec() == ECat::Empty <==> f@ == Set::<int>::empty(),
        f.category_spec() == ECat::Zero ==> f@ == set![0int],
        f.category_spec() is Pos ==> forall|x: int| #[trigger] f@.contains(x) ==> x >= 0,
        f.category_spec() == ECat::Pos(MaybeZero::Zero) ==> f@.contains(0),
        f.category_spec() == ECat::Pos(MaybeZero::NonZero) ==> !f@.contains(0),
        f.category_spec() is Neg ==> forall|x: int| #[trigger] f@.contains(x) ==> x <= 0,
        f.category_spec() == ECat::Neg(MaybeZero::Zero) ==> f@.contains(0),
        f.category_spec() == ECat::Neg(MaybeZero::NonZero) ==> !f@.contains(0),
        f.category_spec() == ECat::NegPos ==> f@.contains(-1) && f@.contains(0) && f@.contains(
            1,
        ),
{
    if !f.is_empty_spec() {
        assert(f@.contains(f.lo()));
        if f.category_spec() == ECat::Zero {
            assert(f@ =~= set![0int]);
        }
    } else {
        assert(f@ =~= Set::<int>::empty());
    }
}

/// The category of any interval describes its elements within the element
/// type's range, as for finite intervals: a half-line or the whole type is
/// `Pos` when the type holds no negative value.
pub proof fn lemma_interval_category_describes_elements<T: Element>(e: EnumInterval<T>)
    requires
        e.wf(),
    ensures
        e.category_spec() == ECat::Empty <==> e@ == Set::<int>::empty(),
        e.category_spec() == ECat::Zero ==> e@ == set![0int],
        e.category_spec() is Pos ==> forall|x: int| #[trigger] e@.contains(x) ==> x >= 0,
        e.category_spec() == ECat::Pos(MaybeZero::Zero) ==> e@.contains(0),
        e.category_spec() == ECat::Pos(MaybeZero::NonZero) ==> !e@.contains(0),
        e.category_spec() is Neg ==> forall|x: int| #[trigger] e@.contains(x) ==> x <= 0,
        e.category_spec() == ECat::Neg(MaybeZero::Zero) ==> e@.contains(0),
        e.category_spec() == ECat::Neg(MaybeZero::NonZero) ==> !e@.contains(0),
        e.category_spec() == ECat::NegPos ==> e@.contains(-1) && e@.contains(0) && e@.contains(
            1,
        ),
{
    e.lemma_range();
    if !e.is_empty_spec() {
        assert(e@.contains(e.lo()));
        if e.category_spec() == ECat::Zero {
            assert(e@ =~= set![0int]);
        }
    } else {
        assert(e@ =~= Set::<int>::empty());
    }
}

} // verus!
