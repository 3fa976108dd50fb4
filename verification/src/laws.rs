//! Laws relating the vector operations to one another. Each proof function
//! takes the vectors an operation chain starts from together with the
//! intermediate results, assumes of them only what the operations' own
//! contracts guarantee, and concludes the stated relation.

use vstd::prelude::*;

use crate::cast::Vector32;
use crate::model::{abs_diff_ints, abs_int, dot_ints, sum_int, to_ints};
use crate::vector::Vector;

verus! {

broadcast use {
    crate::cast::lemma_view32_len,
    crate::vector::lemma_view_is_components,
    crate::vector::lemma_view_len,
    vstd::array::group_array_axioms,
};

/// Negation is an involution: if `b` is the negation of `a` and `c` the
/// negation of `b` — componentwise zero minus the component, as
/// [`Vector::neg`] ensures — then `c` is `a` again.
pub proof fn lemma_neg_involution<const N: usize>(a: Vector<N>, b: Vector<N>, c: Vector<N>)
    requires
        forall|i: int| 0 <= i < N ==> #[trigger] b@[i] == 0 - a@[i],
        forall|i: int| 0 <= i < N ==> #[trigger] c@[i] == 0 - b@[i],
    ensures
        c == a,
{
    assert(c@ =~= a@);
    assert(c.components =~= a.components);
}

/// The dot product of two vectors is the sum of the components of their
/// Hadamard product: if `h` holds the pairwise products of `a` and `b`, as
/// [`Vector::hadamard_product`] ensures, then summing `h`'s components, as
/// [`Vector::sum`] does, yields `dot_ints(a@, b@)`, the value
/// [`Vector::dot`] returns.
pub proof fn lemma_dot_is_sum_of_hadamard<const N: usize>(
    a: Vector<N>,
    b: Vector<N>,
    h: Vector<N>,
)
    requires
        forall|i: int| 0 <= i < N ==> #[trigger] h@[i] == a@[i] * b@[i],
    ensures
        dot_ints(a@, b@) == sum_int(to_ints(h@)),
{
    assert(crate::model::prod_ints(a@, b@) =~= to_ints(h@));
}

/// Casting round trip: narrowing a vector whose components all fit in the
/// narrow type, as [`Vector::num_cast`] or [`Vector::try_cast`] ensure of a
/// successful result `v`, and widening the result back, as
/// [`Vector32::cast`] ensures of `w`, reproduces the original vector
/// exactly.
pub proof fn lemma_cast_round_trip<const N: usize>(a: Vector<N>, v: Vector32<N>, w: Vector<N>)
    requires
        forall|i: int| 0 <= i < N ==> #[trigger] v@[i] == a@[i],
        forall|i: int| 0 <= i < N ==> #[trigger] w@[i] == v@[i],
    ensures
        w == a,
{
    assert(w@ =~= a@);
    assert(w.components =~= a.components);
}

/// The Manhattan distance between two vectors is the sum of the components
/// of the absolute difference vector: if `d` holds the componentwise
/// differences of `a` and `b`, as [`Vector::sub`] ensures, and `e` their
/// absolute values, as [`Vector::abs`] ensures, then summing `e`'s
/// components, as [`Vector::sum`] does, yields the value
/// [`Vector::manhattan_distance`] returns.
pub proof fn lemma_manhattan_is_sum_of_abs_differences<const N: usize>(
    a: Vector<N>,
    b: Vector<N>,
    d: Vector<N>,
    e: Vector<N>,
)
    requires
        forall|i: int| 0 <= i < N ==> #[trigger] d@[i] == a@[i] - b@[i],
        forall|i: int| 0 <= i < N ==> #[trigger] e@[i] == abs_int(d@[i] as int),
    ensures
        sum_int(to_ints(e@)) == sum_int(abs_diff_ints(a@, b@)),
{
    assert(to_ints(e@) =~= abs_diff_ints(a@, b@));
}

} // verus!
