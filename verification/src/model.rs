//! The mathematical model of vector arithmetic: spec functions over
//! sequences of mathematical integers, and the lemmas about folds that the
//! executable reductions are proved against.

use vstd::prelude::*;

verus! {

/// Absolute value of a mathematical integer.
pub open spec fn abs_int(x: int) -> int {
    if x < 0 {
        -x
    } else {
        x
    }
}

/// Sign of a mathematical integer: -1, 0 or 1.
pub open spec fn sign_int(x: int) -> int {
    if x < 0 {
        -1
    } else if x == 0 {
        0
    } else {
        1
    }
}

/// Quotient of truncating division, the semantics of `/` on `i64`:
/// the quotient rounds toward zero. Spec-mode `/` is Euclidean, so the
/// negative cases are expressed through division of absolute values.
pub open spec fn trunc_div(x: int, d: int) -> int
    recommends
        d != 0,
{
    if x >= 0 && d > 0 {
        x / d
    } else if x < 0 && d < 0 {
        (-x) / (-d)
    } else if x < 0 {
        -((-x) / d)
    } else {
        -(x / (-d))
    }
}

/// Remainder of truncating division, the semantics of `%` on `i64`:
/// the remainder takes the sign of the dividend.
pub open spec fn trunc_rem(x: int, d: int) -> int
    recommends
        d != 0,
{
    if x >= 0 {
        x % abs_int(d)
    } else {
        -((-x) % abs_int(d))
    }
}

/// The smaller of two components.
pub open spec fn min_i64(a: i64, b: i64) -> i64 {
    if a <= b {
        a
    } else {
        b
    }
}

/// The larger of two components.
pub open spec fn max_i64(a: i64, b: i64) -> i64 {
    if a <= b {
        b
    } else {
        a
    }
}

/// The quotient of truncating division of one `i64` by another fits in an
/// `i64`, except for the lone overflowing pair (`i64::MIN`, `-1`); and a
/// zero dividend yields a zero quotient.
pub proof fn lemma_trunc_div_in_range(x: int, d: int)
    requires
        i64::MIN <= x <= i64::MAX,
        i64::MIN <= d <= i64::MAX,
        d != 0,
        !(x == i64::MIN && d == -1),
    ensures
        i64::MIN <= trunc_div(x, d) <= i64::MAX,
        x == 0 ==> trunc_div(x, d) == 0,
{
    let a = abs_int(x);
    let b = abs_int(d);
    vstd::arithmetic::div_mod::lemma_div_pos_is_pos(a, b);
    vstd::arithmetic::div_mod::lemma_div_nonincreasing(a, b);
    if b >= 2 {
        vstd::arithmetic::div_mod::lemma_div_is_ordered_by_denominator(a, 2, b);
        vstd::arithmetic::div_mod::lemma_div_is_ordered(a, 0x8000_0000_0000_0000, 2);
    }
    if x == 0 {
        vstd::arithmetic::div_mod::lemma_div_of0(b);
    }
}

/// The remainder of truncating division of one `i64` by a nonzero `i64`
/// fits in an `i64`: its magnitude is below the divisor's.
pub proof fn lemma_trunc_rem_in_range(x: int, d: int)
    requires
        i64::MIN <= x <= i64::MAX,
        i64::MIN <= d <= i64::MAX,
        d != 0,
    ensures
        i64::MIN <= trunc_rem(x, d) <= i64::MAX,
        abs_int(trunc_rem(x, d)) < abs_int(d),
        x == 0 ==> trunc_rem(x, d) == 0,
{
    let a = abs_int(x);
    let b = abs_int(d);
    vstd::arithmetic::div_mod::lemma_mod_division_less_than_divisor(a, b);
    if x == 0 {
        vstd::arithmetic::div_mod::lemma_small_mod(0nat, b as nat);
    }
}

/// The components of a vector as mathematical integers.
pub open spec fn to_ints(s: Seq<i64>) -> Seq<int> {
    s.map_values(|x: i64| x as int)
}

/// Pairwise products of two component sequences.
pub open spec fn prod_ints(a: Seq<i64>, b: Seq<i64>) -> Seq<int>
    recommends
        a.len() == b.len(),
{
    Seq::new(a.len(), |i: int| a[i] * b[i])
}

/// Pairwise absolute differences of two component sequences.
pub open spec fn abs_diff_ints(a: Seq<i64>, b: Seq<i64>) -> Seq<int>
    recommends
        a.len() == b.len(),
{
    Seq::new(a.len(), |i: int| abs_int(a[i] - b[i]))
}

/// Left-to-right sum of a sequence of integers, starting from zero.
pub open spec fn sum_int(s: Seq<int>) -> int
    decreases s.len(),
{
    if s.len() == 0 {
        0
    } else {
        sum_int(s.drop_last()) + s.last()
    }
}

/// The dot product of two component sequences: the sum of their pairwise
/// products.
pub open spec fn dot_ints(a: Seq<i64>, b: Seq<i64>) -> int
    recommends
        a.len() == b.len(),
{
    sum_int(prod_ints(a, b))
}

/// Extending a partial sum by one element adds that element.
pub proof fn lemma_sum_int_take_step(s: Seq<int>, k: int)
    requires
        0 <= k < s.len(),
    ensures
        sum_int(s.take(k + 1)) == sum_int(s.take(k)) + s[k],
{
    assert(s.take(k + 1).drop_last() =~= s.take(k));
}

/// Over a sequence of nonnegative integers, every partial sum lies between
/// zero and the total.
pub proof fn lemma_sum_int_prefix_bounds(s: Seq<int>, k: int)
    requires
        0 <= k <= s.len(),
        forall|i: int| 0 <= i < s.len() ==> s[i] >= 0,
    ensures
        0 <= sum_int(s.take(k)) <= sum_int(s),
    decreases s.len() - k,
{
    if k == s.len() {
        assert(s.take(k) =~= s);
        lemma_sum_int_nonneg(s);
    } else {
        lemma_sum_int_take_step(s, k);
        lemma_sum_int_prefix_bounds(s, k + 1);
        lemma_sum_int_nonneg(s.take(k));
    }
}

/// The sum of a sequence of nonnegative integers is nonnegative.
pub proof fn lemma_sum_int_nonneg(s: Seq<int>)
    requires
        forall|i: int| 0 <= i < s.len() ==> s[i] >= 0,
    ensures
        sum_int(s) >= 0,
    decreases s.len(),
{
    if s.len() > 0 {
        lemma_sum_int_nonneg(s.drop_last());
    }
}

} // verus!
