//! The total order on intervals as `PartialOrd`: the empty set first, then
//! by left end (an unbounded left end first), then by right end (an
//! unbounded right end last).
use vstd::prelude::*;

use core::cmp::Ordering;
use vstd::std_specs::cmp::{PartialOrdSpec, PartialOrdSpecImpl};

use super::{interval_lt, lemma_interval_order_antisymmetric, lemma_interval_order_total};
use crate::numeric::Element;
use crate::sets::EnumInterval;

verus! {

impl<T: Element + PartialEq> PartialOrd for EnumInterval<T> {
    fn partial_cmp(&self, other: &Self) -> (r: Option<Ordering>) {
        if self.ord_lt(other) {
            Some(Ordering::Less)
        } else if other.ord_lt(self) {
            Some(Ordering::Greater)
        } else {
            Some(Ordering::Equal)
        }
    }
}

impl<T: Element + PartialEq> PartialOrdSpecImpl for EnumInterval<T> {
    open spec fn obeys_partial_cmp_spec() -> bool {
        true
    }

    open spec fn partial_cmp_spec(&self, other: &Self) -> Option<Ordering> {
        if interval_lt(*self, *other) {
            Some(Ordering::Less)
        } else if interval_lt(*other, *self) {
            Some(Ordering::Greater)
        } else {
            Some(Ordering::Equal)
        }
    }
}

/// What `partial_cmp` answers, in terms of the intervals' ends: the empty
/// set sorts before every non-empty interval; a non-empty interval whose
/// left end is unbounded, or finite and strictly smaller, sorts first; with
/// equal left ends, the one whose right end is finite and strictly smaller,
/// or finite against unbounded, sorts first. `Greater` is `Less` with the
/// operands swapped, and `Equal` holds exactly for equal intervals.
pub proof fn lemma_partial_cmp_by_ends<T: Element + PartialEq>(a: EnumInterval<T>, b: EnumInterval<T>)
    requires
        a.wf(),
        b.wf(),
    ensures
        a.is_empty_spec() && !b.is_empty_spec() ==> PartialOrdSpec::partial_cmp_spec(&a, &b) == Some(Ordering::Less),
        !a.is_empty_spec() && !b.is_empty_spec() && a.left_end() is None && b.left_end() is Some
            ==> PartialOrdSpec::partial_cmp_spec(&a, &b) == Some(Ordering::Less),
        !a.is_empty_spec() && !b.is_empty_spec() && a.left_end() is Some && b.left_end() is Some
            && a.left_end().unwrap() < b.left_end().unwrap() ==> PartialOrdSpec::partial_cmp_spec(&a, &b) == Some(
            Ordering::Less,
        ),
        !a.is_empty_spec() && !b.is_empty_spec() && a.left_end() == b.left_end()
            && a.right_end() is Some && b.right_end() is Some && a.right_end().unwrap()
            < b.right_end().unwrap() ==> PartialOrdSpec::partial_cmp_spec(&a, &b) == Some(Ordering::Less),
        !a.is_empty_spec() && !b.is_empty_spec() && a.left_end() == b.left_end()
            && a.right_end() is Some && b.right_end() is None ==> PartialOrdSpec::partial_cmp_spec(&a, &b) == Some(
            Ordering::Less,
        ),
        PartialOrdSpec::partial_cmp_spec(&a, &b) == Some(Ordering::Greater) <==> PartialOrdSpec::partial_cmp_spec(&b, &a) == Some(
            Ordering::Less,
        ),
        PartialOrdSpec::partial_cmp_spec(&a, &b) == Some(Ordering::Equal) <==> a == b,
        PartialOrdSpec::partial_cmp_spec(&a, &b) is Some,
{
    a.lemma_ends_in_range();
    b.lemma_ends_in_range();
    lemma_interval_order_total(a, b, b);
    if PartialOrdSpec::partial_cmp_spec(&a, &b) == Some(Ordering::Equal) {
        lemma_interval_order_antisymmetric(a, b);
    }
}

} // verus!
