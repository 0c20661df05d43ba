use std::cmp::Ordering;

use bounded_int::num::{can_contain, smallest_num_type, Num, NumType};
use bounded_int::range::{mul_max, mul_min};
use bounded_int::{literal, Int};

fn range_of<T: Num>(x: &Int<T>) -> (i128, i128) {
    (x.min_bound(), x.max_bound())
}

#[test]
fn test_mul_add() {
    let a = literal::<u8>(10);
    let b = literal::<i32>(5);
    let _x = literal::<u8>(200).inner();
    let c: Int<u8> = a.add(b.into_type().unwrap()).unwrap().into_range(15, 16);
    let c2: Int<u8> = a.sub(b.into_type().unwrap()).unwrap();
    let d: Int<i32> = c.into(10, 20);
    let e: Int<u8> = a.mul(b.into_type().unwrap()).unwrap();
    let f: Int<i32> = e.into_type().unwrap();
    let g: Int<i16> = e.into(10, 270);
    let h: Int<i16> = g.into(10, 271);
    let i: Int<i16> = h
        .mul(c.into_type().unwrap())
        .unwrap()
        .mul(b.into_type().unwrap())
        .unwrap();
    assert_eq!(range_of(&c), (15, 16));
    assert_eq!(range_of(&c2), (5, 5));
    assert_eq!(range_of(&d), (10, 20));
    assert_eq!(range_of(&e), (50, 50));
    assert_eq!(range_of(&f), (50, 50));
    assert_eq!(range_of(&g), (10, 270));
    assert_eq!(range_of(&h), (10, 271));
    println!(
        "{}, {}, {}, {}, {}, {}",
        c2.inner(),
        d.inner(),
        f.inner(),
        g.inner(),
        h.inner(),
        i.inner()
    );
}

#[test]
fn test_ord() {
    let a = literal::<u8>(10);
    let b = literal::<i32>(5);
    assert!(a > b.into_type::<u8>().unwrap());
}

#[test]
fn add_range_and_value() {
    let a = Int::<i32>::new(-4, -5, 7).unwrap();
    let b = Int::<i32>::new(9, 2, 10).unwrap();
    let s = a.add(b).unwrap();
    assert_eq!(range_of(&s), (-3, 17));
    assert_eq!(s.inner(), 5);
}

#[test]
fn add_rejected_when_storage_too_small() {
    let a = literal::<u8>(200);
    let b = literal::<u8>(100);
    assert!(a.add(b).is_none());
    let m = literal::<i128>(i128::MAX);
    assert!(m.add(literal::<i128>(1)).is_none());
}

#[test]
fn sub_range_and_value() {
    let a = Int::<i16>::new(3, 0, 10).unwrap();
    let b = Int::<i16>::new(7, 2, 8).unwrap();
    let d = a.sub(b).unwrap();
    assert_eq!(range_of(&d), (-8, 8));
    assert_eq!(d.inner(), -4);
}

#[test]
fn sub_rejected_below_unsigned_zero() {
    let a = Int::<u8>::new(9, 5, 10).unwrap();
    let b = Int::<u8>::new(1, 1, 6).unwrap();
    assert!(a.sub(b).is_none());
}

#[test]
fn mul_corner_rule() {
    assert_eq!(mul_min(-3, 4, -2, 5), -15);
    assert_eq!(mul_max(-3, 4, -2, 5), 20);
    let a = Int::<i8>::new(-3, -3, 4).unwrap();
    let b = Int::<i8>::new(5, -2, 5).unwrap();
    let p = a.mul(b).unwrap();
    assert_eq!(range_of(&p), (-15, 20));
    assert_eq!(p.inner(), -15);
}

#[test]
fn mul_rejected_on_overflowing_corners() {
    let a = literal::<i128>(i128::MAX);
    let b = literal::<i128>(2);
    assert!(a.mul(b).is_none());
    let c = literal::<i8>(16);
    assert!(c.mul(literal::<i8>(8)).is_none());
    assert!(c.mul(literal::<i8>(7)).is_some());
}

#[test]
fn construction_rejection() {
    assert!(Int::<u8>::new(11, 0, 10).is_none());
    assert!(Int::<u8>::new(10, 0, 10).is_some());
    assert_eq!(Int::<u8>::try_from(11, 0, 10).err(), Some("Value out of bounds!"));
    assert_eq!(Int::<u8>::try_from(4, 0, 10).unwrap().inner(), 4);
}

#[test]
fn cross_representation_equality() {
    let a = Int::<u8>::new(10, 10, 10).unwrap();
    let b = Int::<i32>::new(10, 5, 50).unwrap();
    assert!(a == b);
    assert!(b == a);
    let c = Int::<i32>::new(11, 5, 50).unwrap();
    assert!(a != c);
    assert!(a < c);
    assert_eq!(c.cmp(&a), Ordering::Greater);
    assert_eq!(a.cmp(&b), Ordering::Equal);
}

#[test]
fn end_to_end_scenario() {
    let a = literal::<u8>(10);
    assert_eq!(range_of(&a), (10, 10));
    let b = literal::<i32>(5).into_type::<u8>().unwrap();
    let s = a.add(b).unwrap();
    assert_eq!(range_of(&s), (15, 15));
    assert_eq!(s.inner(), 15);
    let p = a.mul(b).unwrap();
    assert_eq!(range_of(&p), (50, 50));
    assert_eq!(p.inner(), 50);
    let w: Int<i16> = p.into(10, 270);
    assert_eq!(range_of(&w), (10, 270));
    assert_eq!(w.inner(), 50);
    let q = w
        .mul(s.into_type().unwrap())
        .unwrap()
        .mul(b.into_type().unwrap())
        .unwrap();
    assert_eq!(range_of(&q), (750, 20250));
    assert_eq!(q.inner(), 3750);
}

#[test]
fn widen_then_narrow_round_trip() {
    let x = Int::<i16>::new(-7, -10, 10).unwrap();
    let w = x.into_range(-300, 300);
    assert_eq!(range_of(&w), (-300, 300));
    let n = w.try_into_range(-10, 10).unwrap();
    assert_eq!(range_of(&n), (-10, 10));
    assert!(n == x);
    assert_eq!(n.inner(), -7);
}

#[test]
fn narrow_fails_outside() {
    let x = Int::<u16>::new(500, 0, 1000).unwrap();
    assert!(x.try_into_range(0, 499).is_none());
    let n = x.try_into_range(500, 500).unwrap();
    assert_eq!(range_of(&n), (500, 500));
}

#[test]
fn clamp_saturates() {
    let x = Int::<i32>::new(-50, -100, 100).unwrap();
    let hi = x.clamp(0, 10);
    assert_eq!(range_of(&hi), (0, 10));
    assert_eq!(hi.inner(), 0);
    let lo = x.clamp(-80, -60);
    assert_eq!(lo.inner(), -60);
    let same = x.clamp(-60, 60);
    assert_eq!(same.inner(), -50);
}

#[test]
fn change_of_storage_checks_range() {
    let x = Int::<i32>::new(3, -1, 300).unwrap();
    assert!(x.into_type::<u8>().is_none());
    assert!(x.into_type::<i8>().is_none());
    let y = x.into_type::<i16>().unwrap();
    assert_eq!(range_of(&y), (-1, 300));
    assert_eq!(y.inner(), 3i16);
}

#[test]
fn widen_into_other_storage() {
    let x = literal::<u8>(255);
    let y: Int<u64> = x.into(0, 1 << 40);
    assert_eq!(range_of(&y), (0, 1 << 40));
    assert_eq!(y.inner(), 255u64);
    assert_eq!(i128::from(y), 255);
}

#[test]
fn capacity_predicate() {
    assert!(can_contain::<u8>(0, 255));
    assert!(!can_contain::<u8>(0, 256));
    assert!(!can_contain::<u8>(-1, 10));
    assert!(!can_contain::<i8>(5, 4));
    assert!(can_contain::<i8>(-128, 127));
    assert!(can_contain::<i128>(i128::MIN, i128::MAX));
    assert!(!can_contain::<u64>(0, u64::MAX as i128 + 1));
    assert!(NumType::I16.can_contain(-300, 300));
    assert!(NumType::I16.can_contain(-3, 3));
    assert!(!NumType::I8.can_contain(-300, 300));
    assert_eq!(NumType::I64.min_big_int(), i64::MIN as i128);
    assert_eq!(NumType::U32.max_big_int(), u32::MAX as i128);
}

#[test]
fn capacity_is_monotone_on_sub_ranges() {
    assert!(can_contain::<i16>(-1000, 1000));
    assert!(can_contain::<i16>(-10, 999));
    assert!(can_contain::<i16>(7, 7));
}

#[test]
fn narrowest_storage_kind() {
    assert_eq!(smallest_num_type(0, 255), NumType::U8);
    assert_eq!(smallest_num_type(0, 256), NumType::U16);
    assert_eq!(smallest_num_type(0, 1 << 40), NumType::U64);
    assert_eq!(smallest_num_type(-1, 100), NumType::I8);
    assert_eq!(smallest_num_type(-1, 200), NumType::I16);
    assert_eq!(smallest_num_type(-(1 << 40), 0), NumType::I64);
    assert_eq!(smallest_num_type(-1, u64::MAX as i128), NumType::I128);
}

#[test]
fn literal_holds_single_point() {
    let x = literal::<i64>(-42);
    assert_eq!(range_of(&x), (-42, -42));
    assert_eq!(x.inner(), -42);
    assert_eq!(i128::from(x), -42);
}

#[test]
fn fatal_construction_in_declared_range() {
    let x = Int::<u8>::new_in_range(10, 0, 10);
    assert_eq!(range_of(&x), (0, 10));
    assert_eq!(x.inner(), 10);
    let y = Int::<i16>::new_in_range(-5, -5, 300);
    assert_eq!(range_of(&y), (-5, 300));
    assert_eq!(y.inner(), -5);
}
