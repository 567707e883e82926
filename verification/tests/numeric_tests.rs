use intervalsets_core::bound::Side;
use intervalsets_core::numeric::Element;

#[test]
fn numeric_test_adjacent() {
    assert_eq!(10.try_adjacent(Side::Right).unwrap(), 11);
    assert_eq!(11.try_adjacent(Side::Left).unwrap(), 10);
}

#[test]
fn try_adjacent_discrete() {
    assert_eq!(10_i32.try_adjacent(Side::Right).unwrap(), 11);
    assert_eq!(11_i32.try_adjacent(Side::Left).unwrap(), 10);
    assert_eq!(i32::MAX.try_adjacent(Side::Right), None);
    assert_eq!(i32::MIN.try_adjacent(Side::Left), None);
}

#[test]
fn measure_primitive_widens_one_step() {
    let m: <i32 as Element>::Measure = i32::try_measure_finite(&0, &10).unwrap();
    assert_eq!(m, 11_u64);

    let full = i32::try_measure_finite(&i32::MIN, &i32::MAX).unwrap();
    assert_eq!(full, 1u64 << 32);
}

#[test]
fn measure_u8_widens_to_u16() {
    let m: <u8 as Element>::Measure = u8::try_measure_finite(&0, &u8::MAX).unwrap();
    assert_eq!(m, 256_u16);
}

#[test]
fn measure_i128_min_max_overflows() {
    assert_eq!(i128::try_measure_finite(&i128::MIN, &i128::MAX), None);
}

#[test]
fn measure_u128_min_max_overflows() {
    assert_eq!(u128::try_measure_finite(&0, &u128::MAX), None);
}
