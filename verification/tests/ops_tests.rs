use intervalsets_core::bound::{FiniteBound, Side};
use intervalsets_core::factory::{FiniteFactory, HalfBoundedFactory, UnboundedFactory};
use intervalsets_core::error::MathError;
use intervalsets_core::measure::{Extent, Measure};
use intervalsets_core::ops::{
    Contains, ConvexHull, Intersection, Intersects, MergeConnected, Rebound, Span, Split,
};
use intervalsets_core::{EnumInterval, FiniteInterval, MaybeEmpty};

#[test]
fn getting_started_walkthrough() {
    let a = EnumInterval::closed(0, 10);

    assert!(a.contains(&5));
    assert!(a.contains(&a));
    assert!(a.contains(&EnumInterval::closed(4, 6)));
    assert!(!a.contains(&EnumInterval::closed_unbound(5)));

    assert!(a.intersects(&EnumInterval::closed(10, 20)));
    assert!(!a.intersects(&EnumInterval::closed(11, 20)));

    let merged = a.merge_connected(EnumInterval::closed(5, 20)).unwrap();
    assert_eq!(merged, EnumInterval::closed(0, 20));

    let merge_failed = a.merge_connected(EnumInterval::closed(15, 20));
    assert_eq!(merge_failed, None);

    let intersected = a.intersection(EnumInterval::closed(-5, 5));
    assert_eq!(intersected, EnumInterval::closed(0, 5));

    let rebound_left = a.with_left_closed(7);
    assert_eq!(rebound_left, EnumInterval::closed(7, 10));

    let rebound_right = a.with_right_closed(3);
    assert_eq!(rebound_right, EnumInterval::closed(0, 3));

    let hull = EnumInterval::try_hull(&[10, 8, 0, 6, 4, 2]).unwrap();
    assert_eq!(hull, a);

    let empty = a.intersection(EnumInterval::closed(20, 30));
    assert!(empty.is_empty());

    let (left, right) = a.split(5, Side::Left);
    assert_eq!(left, EnumInterval::closed(0, 5));
    assert_eq!(right, EnumInterval::closed(6, 10));

    let m = a.measure();
    assert_eq!(m.finite(), 11_u64);

    assert_eq!(a.span().unwrap().finite(), 10_i32);

    let a = EnumInterval::empty();
    let b = EnumInterval::unbound_closed(10);
    let c = EnumInterval::closed(0, 10);
    let d = EnumInterval::closed_unbound(0);
    assert!(a < b && b < c && c < d);
    assert!(a.ord_lt(&b) && b.ord_lt(&c) && c.ord_lt(&d));
}

#[test]
fn rebound_order_matters() {
    let interval = EnumInterval::closed(0, 10);
    let oops = interval.with_left_closed(20).with_right(None);
    assert_ne!(oops, EnumInterval::closed_unbound(20));
    assert_eq!(oops, EnumInterval::empty());

    let fixed = interval.with_right(None).with_left_closed(20);
    assert_eq!(fixed, EnumInterval::closed_unbound(20));
}

#[test]
fn rebound_with_open_and_absent_bounds() {
    let x = EnumInterval::closed(0, 10);
    assert_eq!(x.with_left(Some(FiniteBound::open(3))), EnumInterval::closed(4, 10));
    assert_eq!(x.with_left(None), EnumInterval::unbound_closed(10));
    assert_eq!(x.with_right(Some(FiniteBound::open(3))), EnumInterval::closed(0, 2));
    assert_eq!(
        x.with_left(None).with_right(None),
        EnumInterval::<i32>::unbounded()
    );
    // an open left bound at the greatest value admits nothing
    let y = EnumInterval::closed_unbound(0_u8);
    assert!(y.with_left(Some(FiniteBound::open(u8::MAX))).is_empty());
    // the empty set stays empty
    let e = EnumInterval::<i32>::empty();
    assert!(e.with_left_closed(0).is_empty());
    assert!(e.with_right(None).is_empty());
}

#[test]
fn split_sides_and_edges() {
    let a = EnumInterval::closed(0, 10);
    let (l, r) = a.split(5, Side::Right);
    assert_eq!(l, EnumInterval::closed(0, 4));
    assert_eq!(r, EnumInterval::closed(5, 10));

    let (l, r) = a.split(100, Side::Left);
    assert_eq!(l, a);
    assert!(r.is_empty());

    let (l, r) = a.split(-100, Side::Right);
    assert!(l.is_empty());
    assert_eq!(r, a);

    let u = EnumInterval::<i64>::unbounded();
    let (l, r) = u.split(0, Side::Left);
    assert_eq!(l, EnumInterval::unbound_closed(0));
    assert_eq!(r, EnumInterval::closed_unbound(1));

    // cutting below the least value leaves nothing on the lower side
    let (l, r) = u.split(i64::MIN, Side::Right);
    assert!(l.is_empty());
    assert_eq!(r, EnumInterval::closed_unbound(i64::MIN));

    let e = EnumInterval::<i32>::empty();
    let (l, r) = e.split(0, Side::Left);
    assert!(l.is_empty() && r.is_empty());
}

#[test]
fn intersection_shapes() {
    let h = EnumInterval::closed_unbound(5);
    let g = EnumInterval::unbound_closed(8);
    assert_eq!(h.intersection(g), EnumInterval::closed(5, 8));
    assert_eq!(h.intersection(EnumInterval::unbounded()), h);
    assert!(h.intersection(EnumInterval::unbound_closed(4)).is_empty());
    assert!(h.intersection(EnumInterval::empty()).is_empty());
    assert!(h.intersects(&g));
    assert!(!h.intersects(&EnumInterval::unbound_open(5)));
}

#[test]
fn containment_of_intervals() {
    let u = EnumInterval::<i32>::unbounded();
    assert!(u.contains(&EnumInterval::closed(-3, 3)));
    assert!(u.contains(&EnumInterval::empty()));
    assert!(EnumInterval::<i32>::empty().contains(&EnumInterval::empty()));
    assert!(!EnumInterval::<i32>::empty().contains(&EnumInterval::closed(0, 0)));
    assert!(!EnumInterval::closed(0, 10).contains(&EnumInterval::closed(5, 11)));
}

#[test]
fn hull_of_elements() {
    assert_eq!(EnumInterval::<i32>::try_hull(&[]), None);
    assert_eq!(
        EnumInterval::try_hull(&[7_u16]),
        Some(EnumInterval::closed(7, 7))
    );
    assert_eq!(
        EnumInterval::try_hull(&[3_i8, -128, 127, 0]),
        Some(EnumInterval::closed(i8::MIN, i8::MAX))
    );
}

#[test]
fn span_of_each_shape() {
    assert_eq!(EnumInterval::<i32>::empty().span(), Ok(Extent::Finite(0)));
    assert_eq!(EnumInterval::closed_unbound(0).span(), Ok(Extent::<i32>::Infinite));
    assert_eq!(EnumInterval::<i8>::unbounded().span(), Ok(Extent::Infinite));
    assert_eq!(EnumInterval::closed(0_u8, 255).span(), Ok(Extent::Finite(255)));
    assert_eq!(EnumInterval::closed(i32::MIN, i32::MAX).span(), Err(MathError::Range));
    assert_eq!(EnumInterval::closed(-5_i64, -5).span(), Ok(Extent::Finite(0)));
}

#[test]
fn factory_intersection_example() {
    let x = EnumInterval::<u32>::closed(0, 10);
    let y = EnumInterval::<u32>::closed(5, 15);
    assert_eq!(x.intersection(y), EnumInterval::closed(5, 10));
}

#[test]
fn finite_intersection_stays_finite() {
    let x = FiniteInterval::closed(0_i16, 10);
    assert_eq!(x.intersection(FiniteInterval::closed(3, 20)), FiniteInterval::closed(3, 10));
    assert_eq!(x.intersection(FiniteInterval::closed(11, 20)), FiniteInterval::empty());
    assert_eq!(x.intersection(FiniteInterval::empty()), FiniteInterval::empty());
}

#[test]
fn interval_order_operators() {
    let x = EnumInterval::closed(0, 5);
    let y = EnumInterval::closed(0, 6);
    assert!(x < y);
    assert!(x <= x && x >= x);
    assert!(!(x < x));
    assert!(EnumInterval::unbound_closed(100) < EnumInterval::closed(-5, 0));
    assert!(EnumInterval::closed(0, 0) < EnumInterval::closed_unbound(0));
    assert!(EnumInterval::<i8>::unbounded() < EnumInterval::closed(i8::MIN, 0));
    assert_eq!(x.partial_cmp(&x), Some(core::cmp::Ordering::Equal));
}

#[test]
fn order_agrees_with_equality() {
    let a = EnumInterval::open(0, 10);
    let b = EnumInterval::closed(1, 9);
    assert!(a.ord_le(&b) && b.ord_le(&a));
    assert_eq!(a, b);
    let c = EnumInterval::closed(1, 10);
    assert!(a.ord_le(&c) && !c.ord_le(&a));
    assert_ne!(a, c);
}
