//! Reductions of a vector to a scalar: sum, dot product, squared magnitude,
//! componentwise extrema, and the Manhattan distance between two vectors.
//!
//! Each reduction folds the components left to right, starting from zero,
//! and is specified against the fold [`crate::model::sum_int`] over the
//! mathematical integers. The preconditions exclude exactly the foldings in
//! which some intermediate value falls outside the `i64` range, which would
//! be an overflow fault of the integer type.

use vstd::prelude::*;

use crate::model::{
    abs_diff_ints, abs_int, dot_ints, lemma_sum_int_prefix_bounds, lemma_sum_int_take_step,
    prod_ints, sum_int, to_ints,
};
use crate::vector::Vector;

verus! {

broadcast use {
    crate::vector::lemma_view_index,
    crate::vector::lemma_view_is_components,
    crate::vector::lemma_view_len,
    vstd::array::group_array_axioms,
};

impl<const N: usize> Vector<N> {
    /// The sum of all components: the left-to-right additive fold starting
    /// from zero. Every partial sum must fit in an `i64`.
    #[verifier::loop_isolation(false)]
    pub fn sum(&self) -> (r: i64)
        requires
            forall|k: int|
                0 <= k <= N ==> i64::MIN <= #[trigger] sum_int(to_ints(self@).take(k)) <= i64::MAX,
        ensures
            r == sum_int(to_ints(self@)),
    {
        let ghost s = to_ints(self@);
        let mut acc: i64 = 0;
        let mut i: usize = 0;
        while i < N
            invariant
                0 <= i <= N,
                acc == sum_int(s.take(i as int)),
            decreases N - i,
        {
            proof {
                lemma_sum_int_take_step(s, i as int);
            }
            acc = acc + self.components[i];
            i += 1;
        }
        proof {
            assert(s.take(N as int) =~= s);
        }
        acc
    }

    /// The dot product of two vectors: the sum over all indices of the
    /// products of corresponding components. Every pairwise product and
    /// every partial sum must fit in an `i64`.
    #[verifier::loop_isolation(false)]
    pub fn dot(&self, other: &Self) -> (r: i64)
        requires
            forall|i: int| 0 <= i < N ==> i64::MIN <= #[trigger] self@[i] * other@[i] <= i64::MAX,
            forall|k: int|
                0 <= k <= N ==> i64::MIN <= #[trigger] sum_int(prod_ints(self@, other@).take(k))
                    <= i64::MAX,
        ensures
            r == dot_ints(self@, other@),
    {
        let ghost s = prod_ints(self@, other@);
        let mut acc: i64 = 0;
        let mut i: usize = 0;
        while i < N
            invariant
                0 <= i <= N,
                acc == sum_int(s.take(i as int)),
            decreases N - i,
        {
            proof {
                lemma_sum_int_take_step(s, i as int);
            }
            acc = acc + self.components[i] * other.components[i];
            i += 1;
        }
        proof {
            assert(s.take(N as int) =~= s);
        }
        acc
    }

    /// The sum of all squared components, which is the dot product of the
    /// vector with itself. Every square and the total must fit in an `i64`;
    /// the partial sums then fit as well, squares being nonnegative.
    #[verifier::loop_isolation(false)]
    pub fn magnitude_squared(&self) -> (r: i64)
        requires
            forall|i: int| 0 <= i < N ==> #[trigger] self@[i] * self@[i] <= i64::MAX,
            sum_int(prod_ints(self@, self@)) <= i64::MAX,
        ensures
            r == dot_ints(self@, self@),
            r >= 0,
    {
        let ghost s = prod_ints(self@, self@);
        proof {
            assert forall|j: int| 0 <= j < s.len() implies s[j] >= 0 by {
                assert(self@[j] * self@[j] >= 0) by (nonlinear_arith);
            }
        }
        let mut acc: i64 = 0;
        let mut i: usize = 0;
        while i < N
            invariant
                0 <= i <= N,
                acc == sum_int(s.take(i as int)),
                0 <= acc,
                forall|j: int| 0 <= j < s.len() ==> #[trigger] s[j] >= 0,
            decreases N - i,
        {
            proof {
                lemma_sum_int_take_step(s, i as int);
                lemma_sum_int_prefix_bounds(s, i + 1);
            }
            acc = acc + self.components[i] * self.components[i];
            i += 1;
        }
        proof {
            assert(s.take(N as int) =~= s);
        }
        acc
    }

    /// The smallest component of the vector; the dimension must be at
    /// least one.
    #[verifier::loop_isolation(false)]
    pub fn min_component(&self) -> (r: i64)
        requires
            N >= 1,
        ensures
            self@.contains(r),
            forall|i: int| 0 <= i < N ==> r <= #[trigger] self@[i],
    {
        let mut best: i64 = self.components[0];
        let mut i: usize = 1;
        while i < N
            invariant
                1 <= i <= N,
                self@.contains(best),
                forall|j: int| 0 <= j < i ==> best <= #[trigger] self@[j],
            decreases N - i,
        {
            if self.components[i] < best {
                best = self.components[i];
            }
            i += 1;
        }
        best
    }

    /// The largest component of the vector; the dimension must be at
    /// least one.
    #[verifier::loop_isolation(false)]
    pub fn max_component(&self) -> (r: i64)
        requires
            N >= 1,
        ensures
            self@.contains(r),
            forall|i: int| 0 <= i < N ==> #[trigger] self@[i] <= r,
    {
        let mut best: i64 = self.components[0];
        let mut i: usize = 1;
        while i < N
            invariant
                1 <= i <= N,
                self@.contains(best),
                forall|j: int| 0 <= j < i ==> #[trigger] self@[j] <= best,
            decreases N - i,
        {
            if self.components[i] > best {
                best = self.components[i];
            }
            i += 1;
        }
        best
    }

    /// The Manhattan distance between two vectors: the sum of the absolute
    /// componentwise differences. Every difference and the total must fit
    /// in an `i64`; the partial sums then fit as well, absolute values
    /// being nonnegative.
    #[verifier::loop_isolation(false)]
    pub fn manhattan_distance(&self, other: &Self) -> (r: i64)
        requires
            forall|i: int| 0 <= i < N ==> abs_int(#[trigger] self@[i] - other@[i]) <= i64::MAX,
            sum_int(abs_diff_ints(self@, other@)) <= i64::MAX,
        ensures
            r == sum_int(abs_diff_ints(self@, other@)),
            r >= 0,
    {
        let ghost s = abs_diff_ints(self@, other@);
        let mut acc: i64 = 0;
        let mut i: usize = 0;
        while i < N
            invariant
                0 <= i <= N,
                acc == sum_int(s.take(i as int)),
                0 <= acc,
            decreases N - i,
        {
            proof {
                lemma_sum_int_take_step(s, i as int);
                lemma_sum_int_prefix_bounds(s, i + 1);
            }
            let diff = if self.components[i] >= other.components[i] {
                self.components[i] - other.components[i]
            } else {
                other.components[i] - self.components[i]
            };
            acc = acc + diff;
            i += 1;
        }
        proof {
            assert(s.take(N as int) =~= s);
        }
        acc
    }
}

} // verus!
