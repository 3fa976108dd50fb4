use nd_vec::Vector;

#[test]
fn test_bin_ops() {
    let a = Vector::new([1i64, 2, 3]);
    let b = Vector::new([4i64, 5, 6]);

    assert_eq!(a.add(&b), Vector::new([5, 7, 9]));
    assert_eq!(a.sub(&b), Vector::new([-3, -3, -3]));
    assert_eq!(a.div(&b), Vector::new([0, 0, 0]));
    assert_eq!(a.rem(&b), Vector::new([1, 2, 3]));
}

#[test]
fn test_unary_ops() {
    let a = Vector::new([1i64, 2, 3]);

    assert_eq!(a.neg(), Vector::new([-1, -2, -3]));
}

#[test]
fn test_scalar_ops() {
    let a = Vector::new([1i64, 2, 3]);

    assert_eq!(a.add_scalar(2), Vector::new([3, 4, 5]));
    assert_eq!(a.sub_scalar(2), Vector::new([-1, 0, 1]));
    assert_eq!(a.div_scalar(2), Vector::new([0, 1, 1]));
    assert_eq!(a.rem_scalar(2), Vector::new([1, 0, 1]));
    assert_eq!(a.mul(2), Vector::new([2, 4, 6]));
}

#[test]
fn test_product() {
    let a = Vector::new([1i64, 2, 3]);
    let b = Vector::new([4i64, 5, 6]);

    assert_eq!(a.dot(&b), 32);
    assert_eq!(a.hadamard_product(&b), Vector::new([4, 10, 18]));
}

#[test]
fn test_truncating_division() {
    let a = Vector::new([-7i64, 7, -9]);
    let b = Vector::new([2i64, -2, -4]);

    assert_eq!(a.div(&b), Vector::new([-3, -3, 2]));
    assert_eq!(a.rem(&b), Vector::new([-1, 1, -1]));
    assert_eq!(a.div_scalar(2), Vector::new([-3, 3, -4]));
    assert_eq!(a.rem_scalar(2), Vector::new([-1, 1, -1]));
}

#[test]
fn test_assign_ops() {
    let b = Vector::new([4i64, 5, 6]);

    let mut v = Vector::new([1i64, 2, 3]);
    v.add_assign(b);
    assert_eq!(v, Vector::new([5, 7, 9]));

    let mut v = Vector::new([1i64, 2, 3]);
    v.sub_assign(b);
    assert_eq!(v, Vector::new([-3, -3, -3]));

    let mut v = Vector::new([1i64, 2, 3]);
    v.div_assign(b);
    assert_eq!(v, Vector::new([0, 0, 0]));

    let mut v = Vector::new([1i64, 2, 3]);
    v.rem_assign(b);
    assert_eq!(v, Vector::new([1, 2, 3]));
}

#[test]
fn test_neg_involution() {
    let a = Vector::new([1i64, -2, 0, 44]);
    assert_eq!(a.neg().neg(), a);
    assert_eq!(a.opposite(), a.neg());
}

#[test]
fn test_zero_and_default() {
    let z: Vector<4> = Vector::zero();
    assert_eq!(z, Vector::new([0, 0, 0, 0]));
    assert_eq!(Vector::<4>::default(), z);
}

#[test]
fn test_from_iter_zero_fills_short_input() {
    let v = Vector::<5>::from_iter(&[1, 2, 3]);
    assert_eq!(v, Vector::new([1, 2, 3, 0, 0]));
}

#[test]
fn test_from_iter_truncates_long_input() {
    let v = Vector::<2>::from_iter(&[1, 2, 3, 4]);
    assert_eq!(v, Vector::new([1, 2]));
}

#[test]
fn test_accessors() {
    let p = Vector::new([7i64, -8]);
    assert_eq!(p.x(), 7);
    assert_eq!(p.y(), -8);

    let q = Vector::new([1i64, 2, 3]);
    assert_eq!(q.x(), 1);
    assert_eq!(q.y(), 2);
    assert_eq!(q.z(), 3);

    assert_eq!(q.as_slice(), &[1, 2, 3]);
}

#[test]
fn test_min_max() {
    let a = Vector::new([1i64, 5, -3]);
    let b = Vector::new([2i64, 4, -6]);

    assert_eq!(a.min(&b), Vector::new([1, 4, -6]));
    assert_eq!(a.max(&b), Vector::new([2, 5, -3]));
    assert_eq!(a.min_component(), -3);
    assert_eq!(a.max_component(), 5);

    let single = Vector::new([9i64]);
    assert_eq!(single.min_component(), 9);
    assert_eq!(single.max_component(), 9);
}

#[test]
fn test_sign_ops() {
    let a = Vector::new([-5i64, 0, 7]);
    assert_eq!(a.signum(), Vector::new([-1, 0, 1]));
    assert_eq!(a.abs(), Vector::new([5, 0, 7]));
    assert_eq!(a.opposite(), Vector::new([5, 0, -7]));
}

#[test]
fn test_sum_and_norms() {
    let a = Vector::new([1i64, 2, 3]);
    assert_eq!(a.sum(), 6);
    assert_eq!(a.magnitude_squared(), 14);
    assert_eq!(a.magnitude_squared(), a.dot(&a));
}

#[test]
fn test_dot_is_sum_of_hadamard() {
    let a = Vector::new([1i64, -2, 3]);
    let b = Vector::new([4i64, 5, -6]);
    assert_eq!(a.dot(&b), a.hadamard_product(&b).sum());
}

#[test]
fn test_manhattan_distance() {
    let a = Vector::new([1i64, 2, 3]);
    let b = Vector::new([4i64, 5, 6]);
    assert_eq!(a.manhattan_distance(&b), 9);
    assert_eq!(b.manhattan_distance(&a), 9);
    assert_eq!(a.manhattan_distance(&a), 0);
    assert_eq!(a.sub(&b).abs().sum(), a.manhattan_distance(&b));
}
