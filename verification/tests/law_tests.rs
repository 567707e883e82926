use intervalsets_core::bound::ord::{FiniteOrdBound, FiniteOrdBoundKind, OrdBound, OrdBoundPair};
use intervalsets_core::bound::{BoundType, FiniteBound, SetBounds, Side};
use intervalsets_core::cast::{LossyCast, TryCast};
use intervalsets_core::category::{ECat, MaybeZero};
use intervalsets_core::error::{Error, MathError, ParseIntervalError};
use intervalsets_core::factory::{
    FiniteFactory, HalfBoundedFactory, SatisfyFiniteInterval, TryFiniteFactory,
    TryHalfBoundedFactory, UnboundedFactory,
};
use intervalsets_core::measure::{Count, Extent, Measure, Width};
use intervalsets_core::ops::math::{TryAdd, TryDiv, TryMul, TrySub};
use intervalsets_core::ops::{Connects, Contains, Intersection, Intersects, MergeConnected};
use intervalsets_core::{EnumInterval, FiniteInterval, HalfInterval, MaybeDisjoint, MaybeEmpty};

#[test]
fn open_bounds_normalize_to_closed() {
    assert_eq!(EnumInterval::open(0, 10), EnumInterval::closed(1, 9));
    assert_eq!(EnumInterval::open_closed(0, 10), EnumInterval::closed(1, 10));
    assert_eq!(EnumInterval::closed_open(0, 10), EnumInterval::closed(0, 9));
    let x = EnumInterval::open(0, 10);
    assert_eq!(x.lval(), Some(&1));
    assert_eq!(x.rval(), Some(&9));
}

#[test]
fn strict_construction_rejects_empty_pairs() {
    assert_eq!(FiniteInterval::try_closed(10, 0), Err(Error::InvalidBoundPair));
    assert_eq!(FiniteInterval::try_open(5, 6), Err(Error::InvalidBoundPair));
    assert_eq!(
        FiniteInterval::try_new(FiniteBound::open(3), FiniteBound::open(3)),
        Err(Error::InvalidBoundPair)
    );
    assert!(FiniteInterval::try_closed(3, 3).is_ok());
}

#[test]
fn coercive_construction_collapses_to_empty() {
    let x = FiniteInterval::satisfy_bounds(FiniteBound::open(10), FiniteBound::open(0));
    assert_eq!(x, FiniteInterval::empty());
    let y = FiniteInterval::satisfy_bounds(FiniteBound::closed(0), FiniteBound::closed(10));
    assert_eq!(y, FiniteInterval::closed(0, 10));
}

#[test]
fn half_line_at_the_extreme_holds_nothing() {
    assert_eq!(
        HalfInterval::try_new(Side::Left, FiniteBound::open(i32::MAX)),
        Err(Error::InvalidBoundPair)
    );
    assert!(EnumInterval::<u8>::try_unbound_open(0).is_err());
    assert_eq!(
        EnumInterval::<u8>::try_open_unbound(254),
        Ok(EnumInterval::closed_unbound(255))
    );
}

#[test]
fn contains_matches_bounds() {
    let x = EnumInterval::closed(0, 10);
    assert!(x.contains(&0));
    assert!(x.contains(&10));
    assert!(!x.contains(&11));
    assert!(!EnumInterval::<i32>::empty().contains(&0));
    assert!(EnumInterval::<i32>::unbounded().contains(&i32::MIN));
    assert!(EnumInterval::unbound_closed(5).contains(&-100));
    assert!(!EnumInterval::unbound_closed(5).contains(&6));
}

#[test]
fn merge_connected_joins_touching_intervals() {
    let a = EnumInterval::closed(0, 5);
    assert!(a.connects(&EnumInterval::closed(6, 10)));
    assert_eq!(
        a.merge_connected(EnumInterval::closed(6, 10)),
        Some(EnumInterval::closed(0, 10))
    );
    assert!(!a.connects(&EnumInterval::closed(7, 10)));
    assert_eq!(a.merge_connected(EnumInterval::closed(7, 10)), None);
    assert_eq!(a.merge_connected(EnumInterval::empty()), Some(a));
    assert_eq!(
        EnumInterval::unbound_open(0).merge_connected(EnumInterval::closed_unbound(0)),
        Some(EnumInterval::Unbounded)
    );
    assert_eq!(
        EnumInterval::closed(0, 10).merge_connected(EnumInterval::closed(5, 20)),
        Some(EnumInterval::closed(0, 20))
    );
}

#[test]
fn intervals_are_totally_ordered() {
    let a = EnumInterval::empty();
    let b = EnumInterval::unbound_closed(10);
    let c = EnumInterval::closed(0, 10);
    let d = EnumInterval::closed_unbound(0);
    assert!(a.ord_lt(&b) && b.ord_lt(&c) && c.ord_lt(&d));
    assert!(c.ord_le(&c));
    assert!(!d.ord_le(&a));
}

#[test]
fn from_pair_orders_and_merges() {
    let x = MaybeDisjoint::from_pair(EnumInterval::closed(10, 20), EnumInterval::closed(0, 5));
    assert_eq!(
        x,
        MaybeDisjoint::Disjoint(EnumInterval::closed(0, 5), EnumInterval::closed(10, 20))
    );
    let y = MaybeDisjoint::from_pair(EnumInterval::closed(0, 5), EnumInterval::closed(6, 9));
    assert_eq!(y, MaybeDisjoint::Connected(EnumInterval::closed(0, 9)));
    let z = MaybeDisjoint::<i32>::from_pair(EnumInterval::empty(), EnumInterval::empty());
    assert_eq!(z, MaybeDisjoint::Consumed);
}

#[test]
fn next_yields_pieces_in_order() {
    let mut x = MaybeDisjoint::from_pair(EnumInterval::closed(0, 5), EnumInterval::closed(10, 20));
    assert_eq!(x.next(), Some(EnumInterval::closed(0, 5)));
    assert_eq!(x.next(), Some(EnumInterval::closed(10, 20)));
    assert_eq!(x.next(), None);
    assert_eq!(x.clone().into_interval(), Some(EnumInterval::empty()));
}

#[test]
fn measure_count_width_agree() {
    let x = EnumInterval::closed(-5, 5);
    assert_eq!(x.measure().finite(), 11_u64);
    assert_eq!(x.count().finite(), 11_u128);
    assert_eq!(x.width().finite(), 10_u128);
    let e = FiniteInterval::<i8>::empty();
    assert_eq!(e.measure().finite(), 0_u16);
    assert_eq!(e.width().finite(), 0_u128);
}

#[test]
fn category_of_negative_and_zero_sets() {
    assert_eq!(FiniteInterval::closed(0, 0).category(), ECat::Zero);
    assert_eq!(FiniteInterval::closed(-5, 0).category(), ECat::Neg(MaybeZero::Zero));
    assert_eq!(FiniteInterval::closed(-5, -1).category(), ECat::Neg(MaybeZero::NonZero));
    assert_eq!(FiniteInterval::<i32>::empty().category(), ECat::Empty);
    assert_eq!(HalfInterval::closed_unbound(-3).category(), ECat::NegPos);
    assert_eq!(HalfInterval::unbound_closed(0).category(), ECat::Neg(MaybeZero::Zero));
    assert_eq!(EnumInterval::<u8>::unbounded().category(), ECat::Pos(MaybeZero::Zero));
    assert_eq!(EnumInterval::<i8>::unbounded().category(), ECat::NegPos);
    assert_eq!(HalfInterval::unbound_closed(5_u32).category(), ECat::Pos(MaybeZero::Zero));
    assert_eq!(HalfInterval::unbound_closed(0_u32).category(), ECat::Neg(MaybeZero::Zero));
    assert_eq!(HalfInterval::closed_unbound(3_u8).category(), ECat::Pos(MaybeZero::NonZero));
}

#[test]
fn text_forms() {
    assert_eq!(EnumInterval::closed(0, 5).to_string(), "[0, 5]");
    assert_eq!(EnumInterval::closed(-12, 305).to_string(), "[-12, 305]");
    assert_eq!(EnumInterval::closed_unbound(5).to_string(), "[5, ->)");
    assert_eq!(EnumInterval::unbound_open(5).to_string(), "(<-, 4]");
    assert_eq!(Extent::Finite(42_u64).to_string(), "42");
    assert_eq!(FiniteInterval::<i64>::empty().to_string(), "{}");
}

#[test]
fn ord_bound_pair_round_trip() {
    for x in [
        EnumInterval::closed(0, 10),
        EnumInterval::empty(),
        EnumInterval::unbounded(),
        EnumInterval::closed_unbound(3),
        EnumInterval::unbound_closed(-3),
    ] {
        let pair = OrdBoundPair::from(x);
        assert_eq!(EnumInterval::try_from(pair), Ok(x));
    }
}

#[test]
fn ord_bound_pair_without_elements_is_rejected() {
    let pair = OrdBoundPair::new(
        OrdBound::Finite(FiniteOrdBound(5, FiniteOrdBoundKind::LeftOpen)),
        OrdBound::Finite(FiniteOrdBound(6, FiniteOrdBoundKind::RightOpen)),
    );
    assert_eq!(EnumInterval::try_from(pair), Err(Error::InvalidBoundPair));
}

#[test]
fn bound_arithmetic_errors() {
    assert_eq!(
        FiniteBound::closed(i32::MAX).try_add(FiniteBound::closed(1)),
        Err(Error::Math(MathError::Range))
    );
    assert_eq!(
        FiniteBound::closed(1).try_div(FiniteBound::closed(0)),
        Err(Error::Math(MathError::Domain))
    );
    assert_eq!(
        FiniteBound::closed(i32::MIN).try_div(FiniteBound::closed(-1)),
        Err(Error::Math(MathError::Range))
    );
    assert_eq!(
        FiniteBound::closed(7).try_sub(FiniteBound::open(2)),
        Ok(FiniteBound::open(5))
    );
    assert_eq!(
        FiniteBound::closed(0).try_div(FiniteBound::open(4)),
        Ok(FiniteBound::closed(0))
    );
    assert_eq!(
        FiniteBound::closed(-7).try_div(FiniteBound::closed(2)),
        Ok(FiniteBound::closed(-3))
    );
    assert_eq!(
        FiniteBound::open(3).try_mul(FiniteBound::closed(-4)),
        Ok(FiniteBound::open(-12))
    );
}

#[test]
fn interval_arithmetic() {
    let a = FiniteInterval::closed(1, 2);
    let b = FiniteInterval::closed(10, 20);
    assert_eq!(a.try_add(b), Ok(FiniteInterval::closed(11, 22)));
    assert_eq!(b.try_sub(a), Ok(FiniteInterval::closed(8, 19)));
    assert_eq!(a.try_add(FiniteInterval::empty()), Ok(FiniteInterval::empty()));
    assert_eq!(
        FiniteInterval::closed(0, i8::MAX).try_add(FiniteInterval::closed(1, 1)),
        Err(Error::Math(MathError::Range))
    );
}

#[test]
fn lossy_cast_clamps_each_end() {
    let x = FiniteInterval::closed(-1000_i64, 5);
    let y: FiniteInterval<i8> = x.lossy_cast();
    assert_eq!(y, FiniteInterval::closed(i8::MIN, 5));
    let h: HalfInterval<u8> = HalfInterval::<i32>::unbound_closed(-5).lossy_cast();
    assert_eq!(h, HalfInterval::unbound_closed(0));
}

#[test]
fn try_cast_rejects_broken_disjoint_pairs() {
    let x = MaybeDisjoint::Disjoint(EnumInterval::closed(0_i32, 10), EnumInterval::closed(5, 20));
    let y: Result<MaybeDisjoint<i64>, Error> = x.try_cast();
    assert_eq!(y, Err(Error::InvalidBoundPair));
}

#[test]
fn extent_binop_map() {
    let a = Extent::Finite(3_u32);
    let r: Result<Extent<u32>, ()> = a.try_binop_map(Extent::Finite(4), |x, y| Ok(x * y));
    assert_eq!(r, Ok(Extent::Finite(12)));
    let r: Result<Extent<u32>, ()> = a.try_binop_map(Extent::Infinite, |_, _| Err(()));
    assert_eq!(r, Ok(Extent::Infinite));
    assert!(Extent::<u32>::Infinite.is_infinite());
    assert!(a.is_finite());
}

#[test]
fn std_range_conversions() {
    let x: EnumInterval<i32> = (0..10).into();
    assert_eq!(x, EnumInterval::closed_open(0, 10));
    let y: FiniteInterval<i32> = (5..3).into();
    assert!(y.is_empty());
    let z: EnumInterval<i32> = (0..=10).into();
    assert_eq!(z, EnumInterval::closed(0, 10));
    let e: EnumInterval<i32> = ().into();
    assert!(e.is_empty());
}

#[test]
fn narrowing_conversions_check_the_shape() {
    let finite = EnumInterval::closed(0, 10);
    assert_eq!(FiniteInterval::try_from(finite), Ok(FiniteInterval::closed(0, 10)));
    let err = HalfInterval::try_from(finite).unwrap_err();
    assert_eq!(err.message(), "EnumInterval => HalfInterval");
    let half = EnumInterval::closed_unbound(0);
    assert_eq!(HalfInterval::try_from(half), Ok(HalfInterval::closed_unbound(0)));
    assert!(FiniteInterval::try_from(half).is_err());
}

#[test]
fn parse_error_from_construction_error() {
    assert_eq!(
        ParseIntervalError::<()>::from_error(Error::InvalidBoundPair),
        ParseIntervalError::InvalidBoundPair
    );
    assert_eq!(
        ParseIntervalError::<()>::from_error(Error::Math(MathError::Range)),
        ParseIntervalError::Syntax
    );
}

#[test]
fn defaults_are_empty() {
    assert!(FiniteInterval::<i32>::default().is_empty());
    assert!(EnumInterval::<i32>::default().is_empty());
}

#[test]
fn normalized_keeps_the_half_line() {
    assert_eq!(FiniteBound::open(5).normalized(Side::Left), FiniteBound::closed(6));
    assert_eq!(FiniteBound::open(5).normalized(Side::Right), FiniteBound::closed(4));
    assert_eq!(
        FiniteBound::open(u8::MAX).normalized(Side::Left),
        FiniteBound::open(u8::MAX)
    );
    assert_eq!(BoundType::Open.flip().flip(), BoundType::Open);
    assert_eq!(BoundType::Open.meet(BoundType::Closed), BoundType::Open);
    assert_eq!(Side::Left.flip(), Side::Right);
}
