use intervalsets_core::category::{ECat, MaybeZero};
use intervalsets_core::factory::FiniteFactory;
use intervalsets_core::FiniteInterval;

#[test]
fn test_category_ord() {
    let x = FiniteInterval::closed(-5i32, 5i32);
    assert_eq!(x.category(), ECat::NegPos);

    let x = FiniteInterval::closed(0i32, 10i32);
    assert_eq!(x.category(), ECat::Pos(MaybeZero::Zero));

    let x = FiniteInterval::closed(1i32, 10i32);
    assert_eq!(x.category(), ECat::Pos(MaybeZero::NonZero));
}
