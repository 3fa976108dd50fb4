use std::collections::hash_map::DefaultHasher;
use std::hash::{Hash, Hasher};

use nd_vec::{CastError, Vector, Vector32};

fn hash_of<T: Hash>(value: &T) -> u64 {
    let mut hasher = DefaultHasher::new();
    value.hash(&mut hasher);
    hasher.finish()
}

#[test]
fn test_num_cast_in_range() {
    let a = Vector::new([1i64, 2, 3]);
    assert_eq!(a.num_cast(), Some(Vector32::new([1, 2, 3])));
}

#[test]
fn test_num_cast_out_of_range() {
    let a = Vector::new([1i64, i32::MAX as i64 + 1, 3]);
    assert_eq!(a.num_cast(), None);
    let b = Vector::new([i32::MIN as i64 - 1, 0]);
    assert_eq!(b.num_cast(), None);
}

#[test]
fn test_try_cast_in_range() {
    let a = Vector::new([i32::MAX as i64, i32::MIN as i64]);
    assert_eq!(a.try_cast(), Ok(Vector32::new([i32::MAX, i32::MIN])));
}

#[test]
fn test_try_cast_out_of_range() {
    let a = Vector::new([0i64, i64::MAX]);
    assert_eq!(a.try_cast(), Err(CastError));
}

#[test]
fn test_widening_cast() {
    let v = Vector32::new([1, -2, 3]);
    assert_eq!(v.cast(), Vector::new([1, -2, 3]));
}

#[test]
fn test_cast_round_trip() {
    let a = Vector::new([1i64, -2, 3]);
    assert_eq!(a.try_cast().unwrap().cast(), a);
    assert_eq!(a.num_cast().unwrap().cast(), a);
}

#[test]
fn test_display_string() {
    let a = Vector::new([1i64, 2, 3]);
    assert_eq!(a.to_display_string(), "(1, 2, 3)");
    let b = Vector::new([-3i64, 0, 10]);
    assert_eq!(b.to_display_string(), "(-3, 0, 10)");
    let single = Vector::new([i64::MIN]);
    assert_eq!(single.to_display_string(), "(-9223372036854775808)");
    let empty: Vector<0> = Vector::new([]);
    assert_eq!(empty.to_display_string(), "()");
}

#[test]
fn test_eq_and_hash() {
    let a = Vector::new([1i64, 2, 3]);
    let b = Vector::new([1i64, 2, 3]);
    assert_eq!(a, b);
    assert_eq!(hash_of(&a), hash_of(&b));

    let shifted = a.add(&Vector::new([0, 1, 0]));
    assert_ne!(a, shifted);
}
