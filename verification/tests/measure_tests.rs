use intervalsets_core::error::MathError;
use intervalsets_core::factory::{FiniteFactory, HalfBoundedFactory, UnboundedFactory};
use intervalsets_core::measure::{Count, Extent, Measure, Width};
use intervalsets_core::ops::math::TryAdd;
use intervalsets_core::bound::FiniteBound;
use intervalsets_core::{EnumInterval, FiniteInterval, HalfInterval, MaybeDisjoint};

#[test]
fn discrete_finite_cardinality() {
    let x = EnumInterval::closed(0_i32, 10);
    assert_eq!(x.measure().finite(), 11_u64);
}

#[test]
fn discrete_full_i32_range_fits_u64() {
    let x = EnumInterval::closed(i32::MIN, i32::MAX);
    assert_eq!(x.measure().finite(), 1u64 << 32);
}

#[test]
fn discrete_full_u64_range_fits_u128() {
    let x = EnumInterval::closed(0_u64, u64::MAX);
    assert_eq!(x.measure().finite(), 1u128 << 64);
}

#[test]
fn discrete_i128_min_max_overflows() {
    let x = EnumInterval::closed(i128::MIN, i128::MAX);
    assert!(matches!(x.try_measure(), Err(MathError::Range)));
}

#[test]
fn discrete_u128_full_range_overflows() {
    let x = EnumInterval::closed(0_u128, u128::MAX);
    assert!(matches!(x.try_measure(), Err(MathError::Range)));
}

#[test]
#[should_panic]
fn measure_overflow_panics() {
    let x = EnumInterval::closed(i128::MIN, i128::MAX);
    let _ = x.measure();
}

#[test]
fn half_interval_is_infinite() {
    let x = HalfInterval::<i32>::closed_unbound(0);
    assert!(x.try_measure().unwrap().is_infinite());
}

#[test]
fn unbounded_is_infinite() {
    let x = EnumInterval::<i32>::unbounded();
    assert!(x.try_measure().unwrap().is_infinite());
}

#[test]
fn md_empty_is_zero() {
    let x = MaybeDisjoint::<i32>::empty();
    assert_eq!(x.measure().finite(), 0_u64);
}

#[test]
fn measure_md_connected_delegates() {
    let x = MaybeDisjoint::from_interval(EnumInterval::closed(0_i32, 10));
    assert_eq!(x.measure().finite(), 11_u64);
}

#[test]
fn md_disjoint_sums_pieces() {
    let x = MaybeDisjoint::from_pair(EnumInterval::closed(0_i32, 5), EnumInterval::closed(10, 20));
    assert_eq!(x.measure().finite(), 17_u64);
}

#[test]
fn md_disjoint_with_half_is_infinite() {
    let x = MaybeDisjoint::from_pair(
        EnumInterval::closed(0_i32, 5),
        EnumInterval::closed_unbound(10),
    );
    assert!(x.try_measure().unwrap().is_infinite());
}

#[test]
fn measure_md_per_piece_overflow_propagates() {
    let inner = EnumInterval::closed(i128::MIN, i128::MAX);
    let md = MaybeDisjoint::from_interval(inner);
    assert!(md.try_measure().is_err());
}

#[test]
fn test_count() {
    let x = EnumInterval::closed(0, 10);
    assert_eq!(x.count().finite(), 11u128);
}

#[test]
fn test_count_signed_full_range() {
    let x = EnumInterval::closed(i32::MIN, i32::MAX);
    assert_eq!(x.count().finite(), (u32::MAX as u128) + 1);
}

#[test]
fn test_count_signed_negative_range() {
    let x = EnumInterval::closed(i32::MIN, 0);
    assert_eq!(x.count().finite(), (i32::MAX as u128) + 2);
}

#[test]
fn test_count_unsigned_full_range() {
    let x = EnumInterval::closed(0u64, u64::MAX);
    assert_eq!(x.count().finite(), (u64::MAX as u128) + 1);
}

#[test]
fn test_count_i128_full_range_overflows_u128() {
    let x = EnumInterval::closed(i128::MIN, i128::MAX);
    assert!(x.try_count().is_err());
}

#[test]
fn test_count_u128_full_range_overflows_u128() {
    let x = EnumInterval::closed(0u128, u128::MAX);
    assert!(x.try_count().is_err());
}

#[test]
#[should_panic]
fn test_count_overflow_panics() {
    let x = EnumInterval::closed(i128::MIN, i128::MAX);
    let _ = x.count();
}

#[test]
fn md_empty_count_is_zero() {
    let x = MaybeDisjoint::<i32>::empty();
    assert_eq!(x.count().finite(), 0_u128);
}

#[test]
fn md_connected_delegates_to_inner_count() {
    let x = MaybeDisjoint::from_interval(EnumInterval::closed(0, 10));
    assert_eq!(x.count().finite(), 11_u128);
}

#[test]
fn md_disjoint_count_sums_pieces() {
    let x = MaybeDisjoint::from_pair(EnumInterval::closed(0_i32, 5), EnumInterval::closed(10, 20));
    assert_eq!(x.count().finite(), 17_u128);
}

#[test]
fn count_md_disjoint_with_half_interval_is_infinite() {
    let x = MaybeDisjoint::from_pair(
        EnumInterval::closed(0_i32, 5),
        EnumInterval::closed_unbound(10),
    );
    assert!(x.try_count().unwrap().is_infinite());
}

#[test]
fn count_md_per_piece_overflow_propagates() {
    let inner = EnumInterval::closed(i128::MIN, i128::MAX);
    let md = MaybeDisjoint::from_interval(inner);
    assert!(md.try_count().is_err());
}

#[test]
fn finite_integer_width_widens_to_u128() {
    let x = EnumInterval::closed(0_i32, 10);
    assert_eq!(x.width().finite(), 10_u128);
}

#[test]
fn finite_signed_full_range_no_overflow() {
    let x = EnumInterval::closed(i32::MIN, i32::MAX);
    assert_eq!(x.width().finite(), u32::MAX as u128);
}

#[test]
fn finite_unsigned_full_range_no_overflow() {
    let x = EnumInterval::closed(0_u64, u64::MAX);
    assert_eq!(x.width().finite(), u64::MAX as u128);
}

#[test]
fn finite_i128_full_range_at_u128_max() {
    let x = EnumInterval::closed(i128::MIN, i128::MAX);
    assert_eq!(x.try_width().unwrap().finite(), u128::MAX);
}

#[test]
fn half_interval_width_is_infinite() {
    let x = HalfInterval::<i32>::left(FiniteBound::closed(0));
    assert!(x.try_width().unwrap().is_infinite());
}

#[test]
fn unbounded_width_is_infinite() {
    let x: EnumInterval<i32> = EnumInterval::Unbounded;
    assert!(x.try_width().unwrap().is_infinite());
}

#[test]
fn md_empty_width_is_zero() {
    let x = MaybeDisjoint::<i32>::empty();
    assert_eq!(x.width().finite(), 0_u128);
}

#[test]
fn md_connected_delegates_to_inner_width() {
    let x = MaybeDisjoint::from_interval(EnumInterval::closed(0, 10));
    assert_eq!(x.width().finite(), 10_u128);
}

#[test]
fn md_disjoint_width_sums_pieces() {
    let x = MaybeDisjoint::from_pair(EnumInterval::closed(0_i32, 5), EnumInterval::closed(10, 20));
    assert_eq!(x.width().finite(), 15_u128);
}

#[test]
fn width_md_disjoint_with_half_interval_is_infinite() {
    let x = MaybeDisjoint::from_pair(
        EnumInterval::closed(0_i32, 5),
        EnumInterval::closed_unbound(10),
    );
    assert!(x.try_width().unwrap().is_infinite());
}

#[test]
fn ord_finite_less_than_infinite() {
    assert!(Extent::Finite(10) < Extent::Infinite);
}

#[test]
fn from_extent_to_option() {
    assert_eq!(Option::from(Extent::Finite(7)), Some(7));
    assert_eq!(Option::<i32>::from(Extent::Infinite), None);
}

#[test]
fn from_option_to_extent() {
    assert_eq!(Extent::from(Some(7)), Extent::Finite(7));
    assert_eq!(Extent::<i32>::from(None), Extent::Infinite);
}

#[test]
fn option_roundtrip_preserves_value() {
    let e = Extent::Finite(42_u32);
    let back: Extent<u32> = Option::from(e).into();
    assert_eq!(back, Extent::Finite(42));
}

#[test]
fn add_infinite_absorbs() {
    assert_eq!(Extent::Finite(1) + Extent::Infinite, Extent::Infinite);
    assert_eq!(Extent::Infinite + Extent::Finite(1), Extent::Infinite);
    assert_eq!(Extent::<i32>::Infinite + Extent::Infinite, Extent::Infinite);
}

#[test]
fn try_add_infinite_short_circuits_to_ok_infinite() {
    let a: Extent<u8> = Extent::Finite(200);
    assert_eq!(a.try_add(Extent::Infinite), Ok(Extent::Infinite));
    assert_eq!(Extent::<u8>::Infinite.try_add(a), Ok(Extent::Infinite));
    assert_eq!(
        Extent::<u8>::Infinite.try_add(Extent::Infinite),
        Ok(Extent::Infinite)
    );
}

#[test]
fn try_add_overflow_propagates_err_not_ok_infinite() {
    let a: Extent<u8> = Extent::Finite(200);
    let b: Extent<u8> = Extent::Finite(200);
    let result = a.try_add(b);
    assert!(
        result.is_err(),
        "u8 200+200 must surface as Err, not Ok(Infinite)"
    );
}

#[test]
fn display_infinite_prints_math_symbol() {
    assert_eq!(Extent::<i32>::Infinite.to_string(), "∞");
}

#[test]
fn finite_empty_returns_domain() {
    let x: FiniteInterval<i32> = FiniteInterval::empty();
    assert_eq!(x.midpoint(), Err(MathError::Domain));
}

#[test]
fn finite_integer_midpoint() {
    let x = FiniteInterval::closed(0_i32, 10);
    assert_eq!(x.midpoint(), Ok(5));
}

#[test]
fn half_bounded_returns_domain() {
    let x = HalfInterval::<i32>::left(FiniteBound::closed(0));
    assert_eq!(x.midpoint(), Err(MathError::Domain));

    let x = HalfInterval::<i32>::right(FiniteBound::closed(0));
    assert_eq!(x.midpoint(), Err(MathError::Domain));
}

#[test]
fn enum_finite_midpoint() {
    let x = EnumInterval::closed(0_i32, 10);
    assert_eq!(x.midpoint(), Ok(5));
}

#[test]
fn enum_unbounded_returns_domain() {
    let x: EnumInterval<i32> = EnumInterval::Unbounded;
    assert_eq!(x.midpoint(), Err(MathError::Domain));
}

#[test]
fn midpoint_md_connected_delegates() {
    let x = MaybeDisjoint::from_interval(EnumInterval::closed(0_i32, 10));
    assert_eq!(x.midpoint(), Ok(5));
}

#[test]
fn md_empty_returns_domain() {
    let x = MaybeDisjoint::<i32>::empty();
    assert_eq!(x.midpoint(), Err(MathError::Domain));
}

#[test]
fn md_connected_half_returns_domain() {
    let half = EnumInterval::closed_unbound(0_i32);
    let x = MaybeDisjoint::from_interval(half);
    assert_eq!(x.midpoint(), Err(MathError::Domain));
}

#[test]
fn md_disjoint_returns_domain() {
    let x = MaybeDisjoint::from_pair(EnumInterval::closed(0_i32, 5), EnumInterval::closed(10, 15));
    assert_eq!(x.midpoint(), Err(MathError::Domain));
}

#[test]
fn md_hull_midpoint_path_works_when_caller_opts_in() {
    let x = MaybeDisjoint::from_pair(EnumInterval::closed(0_i32, 5), EnumInterval::closed(10, 15));
    assert_eq!(x.into_hull().midpoint(), Ok(7));
}
