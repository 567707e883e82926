use core::num::Saturating;

use intervalsets_core::cast::{LossyCast, TryCast};
use intervalsets_core::factory::FiniteFactory;
use intervalsets_core::measure::{Count, Width};
use intervalsets_core::numeric::Midpoint;
use intervalsets_core::ops::math::{TryAdd, TryDiv, TryMul, TrySub};
use intervalsets_core::ops::Contains;
use intervalsets_core::{EnumInterval, FiniteInterval};

#[test]
fn construct_closed_interval() {
    let x = EnumInterval::closed(Saturating(0_i32), Saturating(10));
    assert!(x.contains(&Saturating(5_i32)));
}

#[test]
fn open_open_normalizes_to_closed() {
    let open = EnumInterval::open(Saturating(0_i32), Saturating(10));
    let closed = EnumInterval::closed(Saturating(1_i32), Saturating(9));
    assert_eq!(open, closed);
}

#[test]
fn singleton_at_min_is_valid() {
    let x = FiniteInterval::closed(Saturating(i8::MIN), Saturating(i8::MIN));
    assert!(x.contains(&Saturating(i8::MIN)));
}

#[test]
fn count_matches_inner() {
    let x = EnumInterval::closed(Saturating(0_i32), Saturating(10));
    assert_eq!(x.count().finite(), 11u128);
}

#[test]
fn width_matches_inner() {
    let x = EnumInterval::closed(Saturating(0_i32), Saturating(10));
    assert_eq!(x.width().finite(), 10u128);
}

#[test]
fn midpoint_basic() {
    let m = Saturating(10_i32).midpoint(Saturating(20)).unwrap();
    assert_eq!(m, Saturating(15_i32));
}

#[test]
fn midpoint_at_extremes_does_not_overflow() {
    let m = Saturating(i8::MIN).midpoint(Saturating(i8::MAX)).unwrap();
    assert_eq!(m, Saturating(0_i8));
}

#[test]
fn try_add_saturates_at_max() {
    let r = Saturating(120_i8).try_add(Saturating(50)).unwrap();
    assert_eq!(r, Saturating(i8::MAX));
}

#[test]
fn try_sub_saturates_at_min() {
    let r = Saturating(-120_i8).try_sub(Saturating(50)).unwrap();
    assert_eq!(r, Saturating(i8::MIN));
}

#[test]
fn try_mul_saturates_at_max() {
    let r = Saturating(64_i8).try_mul(Saturating(4)).unwrap();
    assert_eq!(r, Saturating(i8::MAX));
}

#[test]
fn try_div_normal() {
    let r = Saturating(10_i32).try_div(Saturating(3)).unwrap();
    assert_eq!(r, Saturating(3));
}

#[test]
fn try_div_positive_by_zero_saturates_to_max() {
    let r = Saturating(1_i32).try_div(Saturating(0)).unwrap();
    assert_eq!(r, Saturating(i32::MAX));
}

#[test]
fn try_div_negative_by_zero_saturates_to_min() {
    let r = Saturating(-1_i32).try_div(Saturating(0)).unwrap();
    assert_eq!(r, Saturating(i32::MIN));
}

#[test]
fn try_div_zero_by_zero_saturates_to_max() {
    let r = Saturating(0_i32).try_div(Saturating(0)).unwrap();
    assert_eq!(r, Saturating(i32::MAX));
}

#[test]
fn try_div_signed_min_neg_one_saturates() {
    let r = Saturating(i8::MIN).try_div(Saturating(-1)).unwrap();
    assert_eq!(r, Saturating(i8::MAX));
}

#[test]
fn set_add_saturates_at_high_boundary() {
    let a = FiniteInterval::closed(Saturating(100_i8), Saturating(120));
    let b = FiniteInterval::closed(Saturating(50_i8), Saturating(60));
    let sum = a.try_add(b).unwrap();
    let expected = FiniteInterval::closed(Saturating(i8::MAX), Saturating(i8::MAX));
    assert_eq!(sum, expected);
}

#[test]
fn set_sub_saturates_at_low_boundary() {
    let a = FiniteInterval::closed(Saturating(-120_i8), Saturating(-100));
    let b = FiniteInterval::closed(Saturating(50_i8), Saturating(60));
    let diff = a.try_sub(b).unwrap();
    let expected = FiniteInterval::closed(Saturating(i8::MIN), Saturating(i8::MIN));
    assert_eq!(diff, expected);
}

#[test]
fn try_cast_lift_t_to_saturating() {
    let x = FiniteInterval::closed(0_i32, 10);
    let y: FiniteInterval<Saturating<i32>> = x.try_cast().unwrap();
    assert_eq!(y, FiniteInterval::closed(Saturating(0_i32), Saturating(10)));
}

#[test]
fn try_cast_unwrap_saturating_to_t() {
    let x = FiniteInterval::closed(Saturating(0_i32), Saturating(10));
    let y: FiniteInterval<i32> = x.try_cast().unwrap();
    assert_eq!(y, FiniteInterval::closed(0_i32, 10));
}

#[test]
fn lossy_cast_unwrap_saturating_to_t() {
    let x = FiniteInterval::closed(Saturating(0_i32), Saturating(10));
    let y: FiniteInterval<i32> = x.lossy_cast();
    assert_eq!(y, FiniteInterval::closed(0_i32, 10));
}

#[test]
fn try_cast_reflexive_saturating() {
    let x = FiniteInterval::closed(Saturating(0_i32), Saturating(10));
    let y: FiniteInterval<Saturating<i32>> = x.try_cast().unwrap();
    assert_eq!(y, FiniteInterval::closed(Saturating(0_i32), Saturating(10)));
}
