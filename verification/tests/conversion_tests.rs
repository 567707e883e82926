use intervalsets_core::error::Error;
use intervalsets_core::factory::{FiniteFactory, HalfBoundedFactory, UnboundedFactory};
use intervalsets_core::{EnumInterval, FiniteInterval, HalfInterval};

#[test]
fn test_convert_to_finite() -> Result<(), Error> {
    assert_eq!(FiniteInterval::closed(0, 10), [0, 10].try_into()?);
    assert_eq!(FiniteInterval::open(0, 10), (0, 10).try_into()?);

    Ok(())
}

#[test]
fn tuple_and_array_conversions_are_strict() {
    let crossed: Result<FiniteInterval<i32>, Error> = [10, 0].try_into();
    assert_eq!(crossed, Err(Error::InvalidBoundPair));
    let adjacent: Result<FiniteInterval<u8>, Error> = (4, 5).try_into();
    assert_eq!(adjacent, Err(Error::InvalidBoundPair));
    let single: Result<FiniteInterval<u8>, Error> = (4, 6).try_into();
    assert_eq!(single, Ok(FiniteInterval::closed(5, 5)));
    let point: Result<FiniteInterval<i64>, Error> = [7, 7].try_into();
    assert_eq!(point, Ok(FiniteInterval::closed(7, 7)));
}

#[test]
fn half_and_full_ranges_convert() {
    let h: HalfInterval<i32> = (5..).into();
    assert_eq!(h, HalfInterval::closed_unbound(5));
    let h: HalfInterval<u8> = (..=5).into();
    assert_eq!(h, HalfInterval::unbound_closed(5));
    let e: EnumInterval<i64> = (-3..).into();
    assert_eq!(e, EnumInterval::closed_unbound(-3));
    let e: EnumInterval<i64> = (..=-3).into();
    assert_eq!(e, EnumInterval::unbound_closed(-3));
    let u: EnumInterval<i16> = (..).into();
    assert_eq!(u, EnumInterval::unbounded());
}
