use intervalsets_core::bound::{FiniteBound, Side};
use intervalsets_core::cast::{Cast, LossyCast, TryCast};
use intervalsets_core::error::Error;
use intervalsets_core::factory::{FiniteFactory, UnboundedFactory};
use intervalsets_core::{EnumInterval, FiniteInterval, HalfInterval, MaybeDisjoint, MaybeEmpty};

#[test]
fn cast_finite_interval_int_widening() {
    let x = FiniteInterval::closed(0_i32, 10);
    let y: FiniteInterval<i64> = x.cast();
    assert_eq!(y, FiniteInterval::closed(0_i64, 10));
}

#[test]
fn cast_finite_interval_empty_round_trips() {
    let x = FiniteInterval::<i32>::empty();
    let y: FiniteInterval<i64> = x.cast();
    assert!(y.is_empty());
}

#[test]
fn cast_half_interval_preserves_side() {
    let left: HalfInterval<i32> = HalfInterval::left(FiniteBound::closed(5));
    let right: HalfInterval<i32> = HalfInterval::right(FiniteBound::closed(5));
    let left_64: HalfInterval<i64> = left.cast();
    let right_64: HalfInterval<i64> = right.cast();
    assert_eq!(left_64.side(), Side::Left);
    assert_eq!(right_64.side(), Side::Right);
}

#[test]
fn lossy_cast_int_narrowing_saturates() {
    let x = FiniteInterval::closed(0_i64, i64::MAX);
    let y: FiniteInterval<i32> = x.lossy_cast();
    assert_eq!(y, FiniteInterval::closed(0_i32, i32::MAX));
}

#[test]
fn try_cast_widening_succeeds() {
    let x = FiniteInterval::closed(0_i32, 10);
    let y: FiniteInterval<i64> = x.try_cast().unwrap();
    assert_eq!(y, FiniteInterval::closed(0_i64, 10));
}

#[test]
fn try_cast_element_overflow_errors() {
    let x = FiniteInterval::closed(0_i64, i64::MAX);
    let y: Result<FiniteInterval<i32>, _> = x.try_cast();
    assert!(matches!(y, Err(Error::InvalidBoundLimit)));
}

#[test]
fn try_cast_half_interval_preserves_side() {
    let left: HalfInterval<i64> = HalfInterval::left(FiniteBound::closed(5));
    let right: HalfInterval<i64> = HalfInterval::right(FiniteBound::closed(5));
    let left_32: HalfInterval<i32> = left.try_cast().unwrap();
    let right_32: HalfInterval<i32> = right.try_cast().unwrap();
    assert_eq!(left_32.side(), Side::Left);
    assert_eq!(right_32.side(), Side::Right);
}

#[test]
fn try_cast_enum_unbounded_round_trips() {
    let x: EnumInterval<i64> = EnumInterval::unbounded();
    let y: EnumInterval<i32> = x.try_cast().unwrap();
    assert!(matches!(y, EnumInterval::Unbounded));
}

#[test]
fn cast_maybe_disjoint_consumed() {
    let x = MaybeDisjoint::<i32>::Consumed;
    let y: MaybeDisjoint<i64> = x.cast();
    assert!(matches!(y, MaybeDisjoint::Consumed));
}

#[test]
fn cast_maybe_disjoint_connected_widening() {
    let x = MaybeDisjoint::Connected(EnumInterval::closed(0_i32, 10));
    let y: MaybeDisjoint<i64> = x.cast();
    match y {
        MaybeDisjoint::Connected(i) => assert_eq!(i, EnumInterval::closed(0_i64, 10)),
        _ => panic!("expected Connected"),
    }
}

#[test]
fn cast_maybe_disjoint_disjoint_widening_preserves_invariants() {
    let x = MaybeDisjoint::Disjoint(
        EnumInterval::closed(0_i32, 10),
        EnumInterval::closed(20_i32, 30),
    );
    let y: MaybeDisjoint<i64> = x.cast();
    match y {
        MaybeDisjoint::Disjoint(a, b) => {
            assert_eq!(a, EnumInterval::closed(0_i64, 10));
            assert_eq!(b, EnumInterval::closed(20_i64, 30));
        }
        _ => panic!("expected Disjoint"),
    }
}

#[test]
fn try_cast_maybe_disjoint_widening() {
    let x = MaybeDisjoint::Disjoint(
        EnumInterval::closed(0_i32, 10),
        EnumInterval::closed(20_i32, 30),
    );
    let y: MaybeDisjoint<i64> = x.try_cast().unwrap();
    assert!(matches!(y, MaybeDisjoint::Disjoint(_, _)));
}

#[test]
fn lossy_cast_maybe_disjoint_widening_preserves_invariants() {
    let x = MaybeDisjoint::Disjoint(
        EnumInterval::closed(0_i64, 10),
        EnumInterval::closed(20_i64, 30),
    );
    let y: MaybeDisjoint<i32> = x.lossy_cast();
    match y {
        MaybeDisjoint::Disjoint(a, b) => {
            assert_eq!(a, EnumInterval::closed(0_i32, 10));
            assert_eq!(b, EnumInterval::closed(20_i32, 30));
        }
        _ => panic!("expected Disjoint after lossless widening"),
    }
}

#[test]
fn cast_consumed() {
    let x = MaybeDisjoint::<i32>::Consumed;
    let y: MaybeDisjoint<i64> = x.cast();
    assert!(matches!(y, MaybeDisjoint::Consumed));
}

#[test]
fn cast_connected_widening() {
    let x = MaybeDisjoint::Connected(EnumInterval::closed(0_i32, 10));
    let y: MaybeDisjoint<i64> = x.cast();
    match y {
        MaybeDisjoint::Connected(i) => assert_eq!(i, EnumInterval::closed(0_i64, 10)),
        _ => panic!("expected Connected"),
    }
}

#[test]
fn cast_disjoint_widening_preserves_invariants() {
    let x = MaybeDisjoint::Disjoint(
        EnumInterval::closed(0_i32, 10),
        EnumInterval::closed(20_i32, 30),
    );
    let y: MaybeDisjoint<i64> = x.cast();
    match y {
        MaybeDisjoint::Disjoint(a, b) => {
            assert_eq!(a, EnumInterval::closed(0_i64, 10));
            assert_eq!(b, EnumInterval::closed(20_i64, 30));
        }
        _ => panic!("expected Disjoint"),
    }
}

#[test]
fn try_cast_disjoint_widening() {
    let x = MaybeDisjoint::Disjoint(
        EnumInterval::closed(0_i32, 10),
        EnumInterval::closed(20_i32, 30),
    );
    let y: MaybeDisjoint<i64> = x.try_cast().unwrap();
    assert!(matches!(y, MaybeDisjoint::Disjoint(_, _)));
}

#[test]
fn lossy_cast_disjoint_widening_preserves_invariants() {
    let x = MaybeDisjoint::Disjoint(
        EnumInterval::closed(0_i64, 10),
        EnumInterval::closed(20_i64, 30),
    );
    let y: MaybeDisjoint<i32> = x.lossy_cast();
    match y {
        MaybeDisjoint::Disjoint(a, b) => {
            assert_eq!(a, EnumInterval::closed(0_i32, 10));
            assert_eq!(b, EnumInterval::closed(20_i32, 30));
        }
        _ => panic!("expected Disjoint after lossless widening"),
    }
}
