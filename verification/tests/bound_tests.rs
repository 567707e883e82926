use intervalsets_core::bound::ord::FiniteOrdBoundKind::{LeftOpen, RightOpen};
use intervalsets_core::bound::ord::OrdBound::{Finite, LeftUnbounded, RightUnbounded};
use intervalsets_core::bound::ord::{FiniteOrdBound, OrdBound, OrdBoundPair};
use intervalsets_core::bound::{BoundType, FiniteBound, Side};
use intervalsets_core::error::Error;

#[test]
fn test_add() {
    let c10 = FiniteBound::closed(10);
    let c20 = FiniteBound::closed(20);
    let o10 = FiniteBound::open(10);
    let o20 = FiniteBound::open(20);
    assert_eq!(c10 + c10, c20);
    assert_eq!(c10 + o10, o20);
    assert_eq!(o10 + c10, o20);
    assert_eq!(o10 + o10, o20);
}

#[test]
fn test_mul() {
    let c10 = FiniteBound::closed(10);
    let c100 = FiniteBound::closed(100);
    let o10 = FiniteBound::open(10);
    let o100 = FiniteBound::open(100);
    assert_eq!(c10 * c10, c100);
    assert_eq!(c10 * o10, o100);
    assert_eq!(o10 * c10, o100);
    assert_eq!(o10 * o10, o100);
}

#[test]
fn test_mul_closed_zero_absorbs() {
    let c0 = FiniteBound::closed(0);
    let c5 = FiniteBound::closed(5);
    let o5 = FiniteBound::open(5);
    let o0 = FiniteBound::open(0);

    assert_eq!(c0 * c5, FiniteBound::closed(0));
    assert_eq!(c5 * c0, FiniteBound::closed(0));
    assert_eq!(c0 * o5, FiniteBound::closed(0));
    assert_eq!(o5 * c0, FiniteBound::closed(0));
    assert_eq!(c0 * c0, FiniteBound::closed(0));

    assert_eq!(o0 * c5, FiniteBound::open(0));
    assert_eq!(c5 * o0, FiniteBound::open(0));
    assert_eq!(o0 * o5, FiniteBound::open(0));
    assert_eq!(o0 * o0, FiniteBound::open(0));
}

#[test]
fn empty_round_trips_via_try_new() {
    let pair = OrdBoundPair::<i32>::try_new(LeftUnbounded, LeftUnbounded).unwrap();
    assert_eq!(pair, OrdBoundPair::<i32>::empty());
}

#[test]
fn unbounded_pair_accepted() {
    OrdBoundPair::<i32>::try_new(LeftUnbounded, RightUnbounded).unwrap();
}

#[test]
fn closed_equal_values_accepted() {
    OrdBoundPair::<i32>::try_new(
        OrdBound::closed_assume_valid(5),
        OrdBound::closed_assume_valid(5),
    )
    .unwrap();
}

#[test]
fn bound_rejects_right_unbounded_on_left() {
    let err = OrdBoundPair::<i32>::try_new(RightUnbounded, OrdBound::closed_assume_valid(0))
        .unwrap_err();
    assert!(matches!(err, Error::InvalidBoundPair));
}

#[test]
fn bound_rejects_left_unbounded_on_right() {
    let err =
        OrdBoundPair::<i32>::try_new(OrdBound::closed_assume_valid(0), LeftUnbounded).unwrap_err();
    assert!(matches!(err, Error::InvalidBoundPair));
}

#[test]
fn bound_rejects_right_open_kind_on_left() {
    let left = Finite(FiniteOrdBound(0_i32, RightOpen));
    let right = OrdBound::closed_assume_valid(10);
    let err = OrdBoundPair::try_new(left, right).unwrap_err();
    assert!(matches!(err, Error::InvalidBoundPair));
}

#[test]
fn bound_rejects_left_open_kind_on_right() {
    let left = OrdBound::closed_assume_valid(0);
    let right = Finite(FiniteOrdBound(10_i32, LeftOpen));
    let err = OrdBoundPair::try_new(left, right).unwrap_err();
    assert!(matches!(err, Error::InvalidBoundPair));
}

#[test]
fn rejects_swapped_value_order() {
    let err = OrdBoundPair::<i32>::try_new(
        OrdBound::closed_assume_valid(10),
        OrdBound::closed_assume_valid(0),
    )
    .unwrap_err();
    assert!(matches!(err, Error::InvalidBoundPair));
}

#[test]
#[should_panic(expected = "OrdBoundPair invariants violated")]
fn new_panics_on_malformed() {
    let _ = OrdBoundPair::<i32>::new(
        OrdBound::closed_assume_valid(10),
        OrdBound::closed_assume_valid(0),
    );
}

#[test]
#[should_panic(expected = "left must not be RightUnbounded")]
fn rejects_right_unbounded_on_left() {
    let _ = OrdBoundPair::<i32>::new_assume_valid(RightUnbounded, OrdBound::closed_assume_valid(0));
}

#[test]
#[should_panic(expected = "right must not be LeftUnbounded outside the canonical empty pair")]
fn rejects_left_unbounded_on_right() {
    let _ = OrdBoundPair::<i32>::new_assume_valid(OrdBound::closed_assume_valid(0), LeftUnbounded);
}

#[test]
#[should_panic(expected = "left Finite must not be RightOpen")]
fn rejects_right_open_kind_on_left() {
    let _ = OrdBoundPair::<i32>::new_assume_valid(
        Finite(FiniteOrdBound(0, RightOpen)),
        OrdBound::closed_assume_valid(10),
    );
}

#[test]
#[should_panic(expected = "right Finite must not be LeftOpen")]
fn rejects_left_open_kind_on_right() {
    let _ = OrdBoundPair::<i32>::new_assume_valid(
        OrdBound::closed_assume_valid(0),
        Finite(FiniteOrdBound(10, LeftOpen)),
    );
}

#[test]
fn test_bound_min_max() {
    assert_eq!(
        FiniteBound::min_assume_valid(Side::Left, &FiniteBound::closed(0), &FiniteBound::closed(10)),
        &FiniteBound::closed(0)
    );

    assert_eq!(
        FiniteBound::min_assume_valid(Side::Left, &FiniteBound::closed(0), &FiniteBound::open(0)),
        &FiniteBound::closed(0)
    );

    assert_eq!(
        FiniteBound::max_assume_valid(Side::Left, &FiniteBound::closed(0), &FiniteBound::closed(10)),
        &FiniteBound::closed(10)
    );

    assert_eq!(
        FiniteBound::max_assume_valid(Side::Left, &FiniteBound::closed(0), &FiniteBound::open(0)),
        &FiniteBound::open(0)
    );

    assert_eq!(
        FiniteBound::min_assume_valid(Side::Right, &FiniteBound::closed(0), &FiniteBound::closed(10)),
        &FiniteBound::closed(0)
    );

    assert_eq!(
        FiniteBound::min_assume_valid(Side::Right, &FiniteBound::closed(0), &FiniteBound::open(0)),
        &FiniteBound::open(0)
    );

    assert_eq!(
        FiniteBound::max_assume_valid(Side::Right, &FiniteBound::closed(0), &FiniteBound::closed(10)),
        &FiniteBound::closed(10)
    );

    assert_eq!(
        FiniteBound::max_assume_valid(Side::Right, &FiniteBound::closed(0), &FiniteBound::open(0)),
        &FiniteBound::closed(0)
    )
}

#[test]
fn default_validate_accepts_integers() {
    assert_eq!(FiniteBound::<i64>::try_closed(5).unwrap(), FiniteBound::closed(5));
    assert_eq!(
        FiniteBound::<i32>::try_new(BoundType::Open, -100).unwrap(),
        FiniteBound::open(-100)
    );
}
