use intervalsets_core::bound::ord::{OrdBound, OrdBoundPair};
use intervalsets_core::bound::FiniteBound;
use intervalsets_core::cast::{Cast, LossyCast};
use intervalsets_core::error::Error;
use intervalsets_core::factory::{
    FiniteFactory, HalfBoundedFactory, SatisfyFiniteInterval, TryFiniteFactory, UnboundedFactory,
};
use intervalsets_core::{EnumInterval, FiniteInterval, HalfInterval, MaybeDisjoint, MaybeEmpty};

#[test]
fn test_empty() {
    let empty = FiniteInterval::<u32>::empty();
    assert!(empty.is_empty());

    let not_empty = FiniteInterval::<u32>::new(FiniteBound::closed(0), FiniteBound::closed(10));
    assert!(!not_empty.is_empty());

    let empty = EnumInterval::Finite(empty);
    assert!(empty.is_empty());

    let not_empty = EnumInterval::Finite(not_empty);
    assert!(!not_empty.is_empty());
}

#[test]
fn test_from_range() {
    fn eq(a: EnumInterval<i32>, b: EnumInterval<i32>) {
        assert_eq!(a, b);
    }

    eq((0..10).into(), EnumInterval::closed_open(0, 10));
    eq((0..=10).into(), EnumInterval::closed(0, 10));

    eq((0..).into(), EnumInterval::closed_unbound(0));
    eq((..0).into(), EnumInterval::unbound_open(0));
    eq((..=0).into(), EnumInterval::unbound_closed(0));

    eq((..).into(), EnumInterval::<i32>::Unbounded);
}

#[test]
fn test_display_finite() {
    assert_eq!(EnumInterval::<i8>::empty().to_string(), "{}");

    assert_eq!(EnumInterval::closed(0, 5).to_string(), "[0, 5]");
}

#[test]
fn test_try_factory_strict() {
    assert!(EnumInterval::try_closed(10, 0).is_err());
}

#[test]
fn test_try_satisfy_bounds_coercive() {
    assert_eq!(
        FiniteInterval::satisfy_bounds(FiniteBound::open(10), FiniteBound::open(0)),
        FiniteInterval::empty()
    );

    assert_eq!(
        FiniteInterval::satisfy_bounds(FiniteBound::closed(0), FiniteBound::closed(10)),
        FiniteInterval::closed(0, 10)
    );
}

#[test]
fn test_try_from_enum_interval() -> Result<(), intervalsets_core::from::ConversionError> {
    let finite = EnumInterval::closed(0, 10);
    assert_eq!(FiniteInterval::closed(0, 10), finite.try_into()?);
    assert!(matches!(HalfInterval::try_from(finite), Err(_)));

    Ok(())
}

#[test]
fn cast_enum_unbounded_round_trips_for_any_target() {
    let x: EnumInterval<i32> = EnumInterval::unbounded();
    let y: EnumInterval<i64> = x.cast();
    assert!(matches!(y, EnumInterval::Unbounded));
}

#[test]
fn lossy_cast_disjoint_saturation_merges_pieces() {
    let x = MaybeDisjoint::Disjoint(EnumInterval::closed(200_i64, 300), EnumInterval::closed(400_i64, 500));
    let y: MaybeDisjoint<i8> = x.lossy_cast();
    assert_eq!(y, MaybeDisjoint::Connected(EnumInterval::closed(127_i8, 127)));
}

#[test]
fn range_to_conversions() {
    let h: Result<HalfInterval<u8>, Error> = (..5).try_into();
    assert_eq!(h, Ok(HalfInterval::unbound_closed(4)));
    let h: Result<HalfInterval<u8>, Error> = (..0).try_into();
    assert_eq!(h, Err(Error::InvalidBoundPair));
    let e: EnumInterval<u8> = (..0).into();
    assert!(e.is_empty());
    let e: EnumInterval<i8> = (..i8::MAX).into();
    assert_eq!(e, EnumInterval::unbound_closed(126));
}

#[test]
fn enum_tuple_and_array_conversions() -> Result<(), Error> {
    let discrete: EnumInterval<i32> = EnumInterval::open(0, 10);
    assert_eq!(discrete, (0, 10).try_into()?);
    assert_eq!(discrete, [1, 9].try_into()?);
    let crossed: Result<EnumInterval<i32>, Error> = [9, 1].try_into();
    assert_eq!(crossed, Err(Error::InvalidBoundPair));
    let by_ref: FiniteInterval<i32> = (&(0, 10)).try_into()?;
    assert_eq!(by_ref, FiniteInterval::closed(1, 9));
    let by_ref: FiniteInterval<i32> = (&[1, 9]).try_into()?;
    assert_eq!(by_ref, FiniteInterval::closed(1, 9));
    Ok(())
}

#[test]
fn ord_bound_pair_order_puts_empty_first() {
    let empty = OrdBoundPair::<i32>::empty();
    let a = OrdBoundPair::try_new(OrdBound::LeftUnbounded, OrdBound::closed_assume_valid(0)).unwrap();
    let b = OrdBoundPair::try_new(OrdBound::closed_assume_valid(-5), OrdBound::RightUnbounded).unwrap();
    let c = OrdBoundPair::try_new(OrdBound::closed_assume_valid(-5), OrdBound::closed_assume_valid(3)).unwrap();
    assert!(empty <= a && empty <= b && empty <= c);
    assert!(empty.less_or_equal(&a) && empty.less_or_equal(&b) && empty.less_or_equal(&c));
    assert!(a < c && c < b);
    assert!(a.less_or_equal(&c) && c.less_or_equal(&b) && !b.less_or_equal(&c));
}

#[test]
fn half_line_constructors_build_half_lines() {
    let h = EnumInterval::closed_unbound(0_i32);
    assert!(matches!(h, EnumInterval::Half(_)));
    let f = EnumInterval::closed(i32::MIN, i32::MAX);
    assert!(matches!(f, EnumInterval::Finite(_)));
}

#[test]
fn discrete_count_inclusive_follows_the_formula() {
    assert_eq!(intervalsets_core::numeric::default_discrete_count_inclusive(&3_i32, &3), Some(1));
    assert_eq!(intervalsets_core::numeric::default_discrete_count_inclusive(&0_u8, &254), Some(255));
    assert_eq!(intervalsets_core::numeric::default_discrete_count_inclusive(&0_u8, &255), None);
    assert_eq!(intervalsets_core::numeric::default_discrete_count_inclusive(&5_i32, &3), Some(-1));
    assert_eq!(intervalsets_core::numeric::default_discrete_count_inclusive(&5_i32, &4), Some(0));
    assert_eq!(intervalsets_core::numeric::default_discrete_count_inclusive(&5_u8, &3), None);
    assert_eq!(intervalsets_core::numeric::default_discrete_count_inclusive(&i8::MIN, &i8::MAX), None);
}
