//! Elementwise arithmetic: binary operations between two vectors, between a
//! vector and a scalar, compound assignment, and the unary componentwise
//! operations (negation, absolute value, sign, extrema).
//!
//! Division and remainder follow the native `i64` semantics: the quotient
//! truncates toward zero and the remainder takes the sign of the dividend.
//! A zero divisor, like any overflowing component operation, is a fault of
//! the underlying integer type, so the preconditions exclude it.

use vstd::prelude::*;

use crate::model::{
    abs_int, lemma_trunc_div_in_range, lemma_trunc_rem_in_range, max_i64, min_i64, sign_int,
    trunc_div, trunc_rem,
};
use crate::vector::Vector;

verus! {

broadcast use {
    crate::vector::lemma_view_index,
    crate::vector::lemma_view_is_components,
    crate::vector::lemma_view_len,
    vstd::array::group_array_axioms,
};

impl<const N: usize> Vector<N> {
    /// Elementwise addition of two vectors.
    #[verifier::loop_isolation(false)]
    pub fn add(&self, other: &Self) -> (r: Self)
        requires
            forall|i: int| 0 <= i < N ==> i64::MIN <= #[trigger] self@[i] + other@[i] <= i64::MAX,
        ensures
            forall|i: int| 0 <= i < N ==> #[trigger] r@[i] == self@[i] + other@[i],
    {
        let mut components: [i64; N] = [0i64; N];
        let mut i: usize = 0;
        while i < N
            invariant
                0 <= i <= N,
                forall|j: int| 0 <= j < i ==> #[trigger] components@[j] == self@[j] + other@[j],
            decreases N - i,
        {
            components[i] = self.components[i] + other.components[i];
            i += 1;
        }
        Self { components }
    }

    /// Elementwise subtraction of two vectors.
    #[verifier::loop_isolation(false)]
    pub fn sub(&self, other: &Self) -> (r: Self)
        requires
            forall|i: int| 0 <= i < N ==> i64::MIN <= #[trigger] self@[i] - other@[i] <= i64::MAX,
        ensures
            forall|i: int| 0 <= i < N ==> #[trigger] r@[i] == self@[i] - other@[i],
    {
        let mut components: [i64; N] = [0i64; N];
        let mut i: usize = 0;
        while i < N
            invariant
                0 <= i <= N,
                forall|j: int| 0 <= j < i ==> #[trigger] components@[j] == self@[j] - other@[j],
            decreases N - i,
        {
            components[i] = self.components[i] - other.components[i];
            i += 1;
        }
        Self { components }
    }

    /// Elementwise division of two vectors, truncating toward zero as `i64`
    /// division does. A zero component in the divisor, or the one quotient
    /// that overflows, is a fault of the integer type and is excluded.
    #[verifier::loop_isolation(false)]
    pub fn div(&self, other: &Self) -> (r: Self)
        requires
            forall|i: int| 0 <= i < N ==> #[trigger] other@[i] != 0i64,
            forall|i: int| 0 <= i < N ==> !(#[trigger] self@[i] == i64::MIN && other@[i] == -1i64),
        ensures
            forall|i: int|
                0 <= i < N ==> #[trigger] r@[i] == trunc_div(self@[i] as int, other@[i] as int),
    {
        let mut components: [i64; N] = [0i64; N];
        let mut i: usize = 0;
        while i < N
            invariant
                0 <= i <= N,
                forall|j: int|
                    0 <= j < i ==> #[trigger] components@[j] == trunc_div(
                        self@[j] as int,
                        other@[j] as int,
                    ),
            decreases N - i,
        {
            proof {
                lemma_trunc_div_in_range(self@[i as int] as int, other@[i as int] as int);
            }
            components[i] = self.components[i].checked_div(other.components[i]).unwrap();
            i += 1;
        }
        Self { components }
    }

    /// Elementwise remainder of two vectors; as for `i64`, each remainder
    /// takes the sign of the dividend. A zero component in the divisor, or
    /// the one overflowing pair, is a fault of the integer type and is
    /// excluded.
    #[verifier::loop_isolation(false)]
    pub fn rem(&self, other: &Self) -> (r: Self)
        requires
            forall|i: int| 0 <= i < N ==> #[trigger] other@[i] != 0i64,
            forall|i: int| 0 <= i < N ==> !(#[trigger] self@[i] == i64::MIN && other@[i] == -1i64),
        ensures
            forall|i: int|
                0 <= i < N ==> #[trigger] r@[i] == trunc_rem(self@[i] as int, other@[i] as int),
    {
        let mut components: [i64; N] = [0i64; N];
        let mut i: usize = 0;
        while i < N
            invariant
                0 <= i <= N,
                forall|j: int|
                    0 <= j < i ==> #[trigger] components@[j] == trunc_rem(
                        self@[j] as int,
                        other@[j] as int,
                    ),
            decreases N - i,
        {
            proof {
                lemma_trunc_rem_in_range(self@[i as int] as int, other@[i as int] as int);
            }
            components[i] = self.components[i].checked_rem(other.components[i]).unwrap();
            i += 1;
        }
        Self { components }
    }

    /// Add a scalar to every component.
    #[verifier::loop_isolation(false)]
    pub fn add_scalar(&self, scalar: i64) -> (r: Self)
        requires
            forall|i: int| 0 <= i < N ==> i64::MIN <= #[trigger] self@[i] + scalar <= i64::MAX,
        ensures
            forall|i: int| 0 <= i < N ==> #[trigger] r@[i] == self@[i] + scalar,
    {
        let mut components: [i64; N] = [0i64; N];
        let mut i: usize = 0;
        while i < N
            invariant
                0 <= i <= N,
                forall|j: int| 0 <= j < i ==> #[trigger] components@[j] == self@[j] + scalar,
            decreases N - i,
        {
            components[i] = self.components[i] + scalar;
            i += 1;
        }
        Self { components }
    }

    /// Subtract a scalar from every component.
    #[verifier::loop_isolation(false)]
    pub fn sub_scalar(&self, scalar: i64) -> (r: Self)
        requires
            forall|i: int| 0 <= i < N ==> i64::MIN <= #[trigger] self@[i] - scalar <= i64::MAX,
        ensures
            forall|i: int| 0 <= i < N ==> #[trigger] r@[i] == self@[i] - scalar,
    {
        let mut components: [i64; N] = [0i64; N];
        let mut i: usize = 0;
        while i < N
            invariant
                0 <= i <= N,
                forall|j: int| 0 <= j < i ==> #[trigger] components@[j] == self@[j] - scalar,
            decreases N - i,
        {
            components[i] = self.components[i] - scalar;
            i += 1;
        }
        Self { components }
    }

    /// Divide every component by a scalar, truncating toward zero. A zero
    /// scalar, or the one overflowing quotient, is a fault of the integer
    /// type and is excluded.
    #[verifier::loop_isolation(false)]
    pub fn div_scalar(&self, scalar: i64) -> (r: Self)
        requires
            scalar != 0i64,
            forall|i: int| 0 <= i < N ==> !(#[trigger] self@[i] == i64::MIN && scalar == -1i64),
        ensures
            forall|i: int|
                0 <= i < N ==> #[trigger] r@[i] == trunc_div(self@[i] as int, scalar as int),
    {
        let mut components: [i64; N] = [0i64; N];
        let mut i: usize = 0;
        while i < N
            invariant
                0 <= i <= N,
                forall|j: int|
                    0 <= j < i ==> #[trigger] components@[j] == trunc_div(
                        self@[j] as int,
                        scalar as int,
                    ),
            decreases N - i,
        {
            proof {
                lemma_trunc_div_in_range(self@[i as int] as int, scalar as int);
            }
            components[i] = self.components[i].checked_div(scalar).unwrap();
            i += 1;
        }
        Self { components }
    }

    /// Remainder of every component by a scalar; each remainder takes the
    /// sign of the dividend. A zero scalar, or the one overflowing pair, is
    /// a fault of the integer type and is excluded.
    #[verifier::loop_isolation(false)]
    pub fn rem_scalar(&self, scalar: i64) -> (r: Self)
        requires
            scalar != 0i64,
            forall|i: int| 0 <= i < N ==> !(#[trigger] self@[i] == i64::MIN && scalar == -1i64),
        ensures
            forall|i: int|
                0 <= i < N ==> #[trigger] r@[i] == trunc_rem(self@[i] as int, scalar as int),
    {
        let mut components: [i64; N] = [0i64; N];
        let mut i: usize = 0;
        while i < N
            invariant
                0 <= i <= N,
                forall|j: int|
                    0 <= j < i ==> #[trigger] components@[j] == trunc_rem(
                        self@[j] as int,
                        scalar as int,
                    ),
            decreases N - i,
        {
            proof {
                lemma_trunc_rem_in_range(self@[i as int] as int, scalar as int);
            }
            components[i] = self.components[i].checked_rem(scalar).unwrap();
            i += 1;
        }
        Self { components }
    }

    /// Scale every component by a scalar.
    #[verifier::loop_isolation(false)]
    pub fn mul(&self, scalar: i64) -> (r: Self)
        requires
            forall|i: int| 0 <= i < N ==> i64::MIN <= #[trigger] self@[i] * scalar <= i64::MAX,
        ensures
            forall|i: int| 0 <= i < N ==> #[trigger] r@[i] == self@[i] * scalar,
    {
        let mut components: [i64; N] = [0i64; N];
        let mut i: usize = 0;
        while i < N
            invariant
                0 <= i <= N,
                forall|j: int| 0 <= j < i ==> #[trigger] components@[j] == self@[j] * scalar,
            decreases N - i,
        {
            components[i] = self.components[i] * scalar;
            i += 1;
        }
        Self { components }
    }

    /// Negate every component: each result component is zero minus the
    /// original. The one unrepresentable negation (of `i64::MIN`) is a
    /// fault of the integer type and is excluded.
    #[verifier::loop_isolation(false)]
    pub fn neg(&self) -> (r: Self)
        requires
            forall|i: int| 0 <= i < N ==> #[trigger] self@[i] != i64::MIN,
        ensures
            forall|i: int| 0 <= i < N ==> #[trigger] r@[i] == 0 - self@[i],
    {
        let mut components: [i64; N] = [0i64; N];
        let mut i: usize = 0;
        while i < N
            invariant
                0 <= i <= N,
                forall|j: int| 0 <= j < i ==> #[trigger] components@[j] == 0 - self@[j],
            decreases N - i,
        {
            components[i] = 0i64 - self.components[i];
            i += 1;
        }
        Self { components }
    }

    /// Calculates the opposite of a vector: the vector with all components
    /// negated. Semantically identical to [`Vector::neg`].
    pub fn opposite(&self) -> (r: Self)
        requires
            forall|i: int| 0 <= i < N ==> #[trigger] self@[i] != i64::MIN,
        ensures
            forall|i: int| 0 <= i < N ==> #[trigger] r@[i] == 0 - self@[i],
    {
        self.neg()
    }

    /// Elementwise absolute value. The one unrepresentable absolute value
    /// (of `i64::MIN`) is a fault of the integer type and is excluded.
    #[verifier::loop_isolation(false)]
    pub fn abs(&self) -> (r: Self)
        requires
            forall|i: int| 0 <= i < N ==> #[trigger] self@[i] != i64::MIN,
        ensures
            forall|i: int| 0 <= i < N ==> #[trigger] r@[i] == abs_int(self@[i] as int),
    {
        let mut components: [i64; N] = [0i64; N];
        let mut i: usize = 0;
        while i < N
            invariant
                0 <= i <= N,
                forall|j: int| 0 <= j < i ==> #[trigger] components@[j] == abs_int(self@[j] as int),
            decreases N - i,
        {
            components[i] = if self.components[i] < 0 {
                0i64 - self.components[i]
            } else {
                self.components[i]
            };
            i += 1;
        }
        Self { components }
    }

    /// Elementwise sign: -1 for a negative component, 0 for a zero one,
    /// and 1 for a positive one.
    #[verifier::loop_isolation(false)]
    pub fn signum(&self) -> (r: Self)
        ensures
            forall|i: int| 0 <= i < N ==> #[trigger] r@[i] == sign_int(self@[i] as int),
    {
        let mut components: [i64; N] = [0i64; N];
        let mut i: usize = 0;
        while i < N
            invariant
                0 <= i <= N,
                forall|j: int| 0 <= j < i ==> #[trigger] components@[j] == sign_int(self@[j] as int),
            decreases N - i,
        {
            components[i] = if self.components[i] < 0 {
                -1i64
            } else if self.components[i] == 0 {
                0i64
            } else {
                1i64
            };
            i += 1;
        }
        Self { components }
    }

    /// Takes the minimum of each component of two vectors.
    #[verifier::loop_isolation(false)]
    pub fn min(&self, other: &Self) -> (r: Self)
        ensures
            forall|i: int| 0 <= i < N ==> #[trigger] r@[i] == min_i64(self@[i], other@[i]),
    {
        let mut components: [i64; N] = [0i64; N];
        let mut i: usize = 0;
        while i < N
            invariant
                0 <= i <= N,
                forall|j: int| 0 <= j < i ==> #[trigger] components@[j] == min_i64(
                    self@[j],
                    other@[j],
                ),
            decreases N - i,
        {
            components[i] = if self.components[i] <= other.components[i] {
                self.components[i]
            } else {
                other.components[i]
            };
            i += 1;
        }
        Self { components }
    }

    /// Takes the maximum of each component of two vectors.
    #[verifier::loop_isolation(false)]
    pub fn max(&self, other: &Self) -> (r: Self)
        ensures
            forall|i: int| 0 <= i < N ==> #[trigger] r@[i] == max_i64(self@[i], other@[i]),
    {
        let mut components: [i64; N] = [0i64; N];
        let mut i: usize = 0;
        while i < N
            invariant
                0 <= i <= N,
                forall|j: int| 0 <= j < i ==> #[trigger] components@[j] == max_i64(
                    self@[j],
                    other@[j],
                ),
            decreases N - i,
        {
            components[i] = if self.components[i] <= other.components[i] {
                other.components[i]
            } else {
                self.components[i]
            };
            i += 1;
        }
        Self { components }
    }

    /// Computes the Hadamard product of two vectors: their componentwise
    /// multiplication.
    #[verifier::loop_isolation(false)]
    pub fn hadamard_product(&self, other: &Self) -> (r: Self)
        requires
            forall|i: int| 0 <= i < N ==> i64::MIN <= #[trigger] self@[i] * other@[i] <= i64::MAX,
        ensures
            forall|i: int| 0 <= i < N ==> #[trigger] r@[i] == self@[i] * other@[i],
    {
        let mut components: [i64; N] = [0i64; N];
        let mut i: usize = 0;
        while i < N
            invariant
                0 <= i <= N,
                forall|j: int| 0 <= j < i ==> #[trigger] components@[j] == self@[j] * other@[j],
            decreases N - i,
        {
            components[i] = self.components[i] * other.components[i];
            i += 1;
        }
        Self { components }
    }

    /// Elementwise addition in place: every component of `self` is replaced
    /// by its sum with the corresponding component of `rhs`.
    #[verifier::loop_isolation(false)]
    pub fn add_assign(&mut self, rhs: Self)
        requires
            forall|i: int| 0 <= i < N ==> i64::MIN <= #[trigger] old(self)@[i] + rhs@[i] <= i64::MAX,
        ensures
            forall|i: int| 0 <= i < N ==> #[trigger] final(self)@[i] == old(self)@[i] + rhs@[i],
    {
        let mut i: usize = 0;
        while i < N
            invariant
                0 <= i <= N,
                forall|j: int| 0 <= j < i ==> #[trigger] self@[j] == old(self)@[j] + rhs@[j],
                forall|j: int| i <= j < N ==> #[trigger] self@[j] == old(self)@[j],
            decreases N - i,
        {
            self.components[i] = self.components[i] + rhs.components[i];
            i += 1;
        }
    }

    /// Elementwise subtraction in place.
    #[verifier::loop_isolation(false)]
    pub fn sub_assign(&mut self, rhs: Self)
        requires
            forall|i: int| 0 <= i < N ==> i64::MIN <= #[trigger] old(self)@[i] - rhs@[i] <= i64::MAX,
        ensures
            forall|i: int| 0 <= i < N ==> #[trigger] final(self)@[i] == old(self)@[i] - rhs@[i],
    {
        let mut i: usize = 0;
        while i < N
            invariant
                0 <= i <= N,
                forall|j: int| 0 <= j < i ==> #[trigger] self@[j] == old(self)@[j] - rhs@[j],
                forall|j: int| i <= j < N ==> #[trigger] self@[j] == old(self)@[j],
            decreases N - i,
        {
            self.components[i] = self.components[i] - rhs.components[i];
            i += 1;
        }
    }

    /// Elementwise division in place, truncating toward zero; the same
    /// divisor faults are excluded as for [`Vector::div`].
    #[verifier::loop_isolation(false)]
    pub fn div_assign(&mut self, rhs: Self)
        requires
            forall|i: int| 0 <= i < N ==> #[trigger] rhs@[i] != 0i64,
            forall|i: int|
                0 <= i < N ==> !(#[trigger] old(self)@[i] == i64::MIN && rhs@[i] == -1i64),
        ensures
            forall|i: int|
                0 <= i < N ==> #[trigger] final(self)@[i] == trunc_div(
                    old(self)@[i] as int,
                    rhs@[i] as int,
                ),
    {
        let mut i: usize = 0;
        while i < N
            invariant
                0 <= i <= N,
                forall|j: int|
                    0 <= j < i ==> #[trigger] self@[j] == trunc_div(
                        old(self)@[j] as int,
                        rhs@[j] as int,
                    ),
                forall|j: int| i <= j < N ==> #[trigger] self@[j] == old(self)@[j],
            decreases N - i,
        {
            proof {
                lemma_trunc_div_in_range(self@[i as int] as int, rhs@[i as int] as int);
            }
            self.components[i] = self.components[i].checked_div(rhs.components[i]).unwrap();
            i += 1;
        }
    }

    /// Elementwise remainder in place; the same divisor faults are excluded
    /// as for [`Vector::rem`].
    #[verifier::loop_isolation(false)]
    pub fn rem_assign(&mut self, rhs: Self)
        requires
            forall|i: int| 0 <= i < N ==> #[trigger] rhs@[i] != 0i64,
            forall|i: int|
                0 <= i < N ==> !(#[trigger] old(self)@[i] == i64::MIN && rhs@[i] == -1i64),
        ensures
            forall|i: int|
                0 <= i < N ==> #[trigger] final(self)@[i] == trunc_rem(
                    old(self)@[i] as int,
                    rhs@[i] as int,
                ),
    {
        let mut i: usize = 0;
        while i < N
            invariant
                0 <= i <= N,
                forall|j: int|
                    0 <= j < i ==> #[trigger] self@[j] == trunc_rem(
                        old(self)@[j] as int,
                        rhs@[j] as int,
                    ),
                forall|j: int| i <= j < N ==> #[trigger] self@[j] == old(self)@[j],
            decreases N - i,
        {
            proof {
                lemma_trunc_rem_in_range(self@[i as int] as int, rhs@[i as int] as int);
            }
            self.components[i] = self.components[i].checked_rem(rhs.components[i]).unwrap();
            i += 1;
        }
    }
}

} // verus!
