//! Casting vectors between component widths.
//!
//! [`Vector::num_cast`] and [`Vector::try_cast`] narrow each `i64` component
//! to an `i32`, failing — with an absent value and with a [`CastError`]
//! respectively — exactly when some component is not representable in the
//! narrower type; neither ever truncates or wraps. [`Vector32::cast`] widens
//! each `i32` component back to an `i64`, a conversion that always succeeds.

use vstd::prelude::*;

use crate::vector::Vector;

verus! {

broadcast use {
    crate::vector::lemma_view_index,
    crate::vector::lemma_view_is_components,
    crate::vector::lemma_view_len,
    vstd::array::group_array_axioms,
};

/// A fixed-dimension vector of `N` components, each an `i32`: the narrow
/// counterpart of [`Vector`], produced by the narrowing casts.
#[derive(Clone, Copy, Debug, Hash, Eq)]
pub struct Vector32<const N: usize> {
    pub(crate) components: [i32; N],
}

/// The error of a failed narrowing cast: some component of the source
/// vector is not representable in the target component type.
#[derive(Clone, Copy, Debug, PartialEq, Eq, Structural)]
pub struct CastError;

impl<const N: usize> View for Vector32<N> {
    type V = Seq<i32>;

    closed spec fn view(&self) -> Seq<i32> {
        self.components@
    }
}

/// The view of a narrow vector always has exactly `N` entries.
pub broadcast proof fn lemma_view32_len<const N: usize>(v: Vector32<N>)
    ensures
        (#[trigger] v@).len() == N,
{
}

impl<const N: usize> PartialEq for Vector32<N> {
    /// Two narrow vectors are equal exactly when their components agree
    /// pairwise, in index order.
    fn eq(&self, other: &Self) -> (r: bool) {
        let mut i: usize = 0;
        while i < N
            invariant
                0 <= i <= N,
                self@.len() == N,
                other@.len() == N,
                forall|j: int| 0 <= j < i ==> self@[j] == other@[j],
            decreases N - i,
        {
            if self.components[i] != other.components[i] {
                return false;
            }
            i += 1;
        }
        proof {
            assert(self@ =~= other@);
        }
        true
    }
}

impl<const N: usize> vstd::std_specs::cmp::PartialEqSpecImpl for Vector32<N> {
    open spec fn obeys_eq_spec() -> bool {
        true
    }

    open spec fn eq_spec(&self, other: &Self) -> bool {
        self@ == other@
    }
}

impl<const N: usize> Vector32<N> {
    /// Create a new narrow vector with the given components.
    pub fn new(components: [i32; N]) -> (r: Self)
        ensures
            r@ == components@,
    {
        Self { components }
    }

    /// Returns the components of the narrow vector as a slice.
    pub fn as_slice(&self) -> (r: &[i32])
        ensures
            r@ == self@,
    {
        self.components.as_slice()
    }

    /// Casts each component of the vector to the wide component type.
    /// Widening an `i32` to an `i64` always succeeds, so there is no
    /// failure path.
    #[verifier::loop_isolation(false)]
    pub fn cast(&self) -> (r: Vector<N>)
        ensures
            forall|i: int| 0 <= i < N ==> #[trigger] r@[i] == self@[i],
    {
        let mut components: [i64; N] = [0i64; N];
        let mut i: usize = 0;
        while i < N
            invariant
                0 <= i <= N,
                forall|j: int| 0 <= j < i ==> #[trigger] components@[j] == self@[j],
            decreases N - i,
        {
            components[i] = self.components[i] as i64;
            i += 1;
        }
        Vector::new(components)
    }
}

impl<const N: usize> Vector<N> {
    /// Numerically cast each component of the vector to the narrow
    /// component type. The cast fails, returning no vector, exactly when
    /// some component's value is not representable in an `i32`; it never
    /// truncates or wraps.
    #[verifier::loop_isolation(false)]
    pub fn num_cast(&self) -> (r: Option<Vector32<N>>)
        ensures
            r is Some <==> (forall|i: int|
                0 <= i < N ==> i32::MIN <= #[trigger] self@[i] <= i32::MAX),
            r matches Some(v) ==> forall|i: int| 0 <= i < N ==> #[trigger] v@[i] == self@[i],
    {
        let mut components: [i32; N] = [0i32; N];
        let mut i: usize = 0;
        while i < N
            invariant
                0 <= i <= N,
                forall|j: int| 0 <= j < i ==> i32::MIN <= #[trigger] self@[j] <= i32::MAX,
                forall|j: int| 0 <= j < i ==> #[trigger] components@[j] == self@[j],
            decreases N - i,
        {
            let c = self.components[i];
            if c < i32::MIN as i64 || c > i32::MAX as i64 {
                return None;
            }
            components[i] = c as i32;
            i += 1;
        }
        Some(Vector32 { components })
    }

    /// Cast each component of the vector to the narrow component type,
    /// reporting failure as an error value. The cast fails, with a
    /// [`CastError`], exactly when some component's value is not
    /// representable in an `i32`; it never truncates or wraps.
    pub fn try_cast(&self) -> (r: Result<Vector32<N>, CastError>)
        ensures
            r is Ok <==> (forall|i: int|
                0 <= i < N ==> i32::MIN <= #[trigger] self@[i] <= i32::MAX),
            r matches Ok(v) ==> forall|i: int| 0 <= i < N ==> #[trigger] v@[i] == self@[i],
    {
        match self.num_cast() {
            Some(v) => Ok(v),
            None => Err(CastError),
        }
    }
}

} // verus!
