use intervalsets_core::factory::FiniteFactory;
use intervalsets_core::FiniteInterval;

#[test]
fn finite_full_range_no_overflow() {
    let x = FiniteInterval::closed(i32::MIN, i32::MAX);
    let m = x.midpoint().unwrap();
    assert_eq!(m, i32::midpoint(i32::MIN, i32::MAX));
}
