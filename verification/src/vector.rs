use vstd::prelude::*;

verus! {

broadcast use vstd::array::group_array_axioms;

/// A fixed-dimension vector of `N` components, each an `i64`.
///
/// The dimension `N` is part of the type, so the component sequence can
/// never be resized, and every component slot is always initialized.
#[derive(Clone, Copy, Debug, Hash, Eq)]
pub struct Vector<const N: usize> {
    pub(crate) components: [i64; N],
}

impl<const N: usize> PartialEq for Vector<N> {
    /// Two vectors are equal exactly when their components agree pairwise,
    /// in index order.
    fn eq(&self, other: &Self) -> (r: bool) {
        let mut i: usize = 0;
        while i < N
            invariant
                0 <= i <= N,
                self@.len() == N,
                other@.len() == N,
                forall|j: int| 0 <= j < i ==> self@[j] == other@[j],
            decreases N - i,
        {
            if self.components[i] != other.components[i] {
                return false;
            }
            i += 1;
        }
        proof {
            assert(self@ =~= other@);
        }
        true
    }
}

impl<const N: usize> vstd::std_specs::cmp::PartialEqSpecImpl for Vector<N> {
    open spec fn obeys_eq_spec() -> bool {
        true
    }

    open spec fn eq_spec(&self, other: &Self) -> bool {
        self@ == other@
    }
}

impl<const N: usize> View for Vector<N> {
    type V = Seq<i64>;

    closed spec fn view(&self) -> Seq<i64> {
        self.components@
    }
}

/// Within the crate, the view of a vector is its component array's view.
pub(crate) broadcast proof fn lemma_view_is_components<const N: usize>(v: Vector<N>)
    ensures
        #[trigger] v@ == v.components@,
{
}

/// Within the crate, reading a component reads the view at that index.
pub(crate) broadcast proof fn lemma_view_index<const N: usize>(v: Vector<N>, i: int)
    ensures
        #[trigger] v.components@[i] == v@[i],
{
}

/// The view of a vector always has exactly `N` entries.
pub broadcast proof fn lemma_view_len<const N: usize>(v: Vector<N>)
    ensures
        (#[trigger] v@).len() == N,
{
}

impl<const N: usize> Vector<N> {
    /// Create a new vector with the given components.
    pub fn new(components: [i64; N]) -> (r: Self)
        ensures
            r@ == components@,
    {
        Self { components }
    }

    /// Create a new vector with zeroed components.
    pub fn zero() -> (r: Self)
        ensures
            r@.len() == N,
            forall|i: int| 0 <= i < N ==> r@[i] == 0i64,
    {
        Self { components: [0i64; N] }
    }

    /// Returns the components of the vector as a slice.
    pub fn as_slice(&self) -> (r: &[i64])
        ensures
            r@ == self@,
    {
        self.components.as_slice()
    }

    /// Create a new vector from a sequence of items.
    /// If the sequence has fewer than `N` items, the remaining components
    /// are zeroed; if it has more, the items beyond the first `N` are
    /// ignored.
    pub fn from_iter(items: &[i64]) -> (r: Self)
        ensures
            r@.len() == N,
            forall|i: int| 0 <= i < N && i < items@.len() ==> r@[i] == items@[i],
            forall|i: int| items@.len() <= i < N ==> r@[i] == 0i64,
    {
        let mut components: [i64; N] = [0i64; N];
        let bound: usize = if items.len() < N { items.len() } else { N };
        let mut i: usize = 0;
        while i < bound
            invariant
                0 <= i <= bound,
                bound <= N,
                bound <= items@.len(),
                components@.len() == N,
                forall|j: int| 0 <= j < i ==> components@[j] == items@[j],
                forall|j: int| i <= j < N ==> components@[j] == 0i64,
            decreases bound - i,
        {
            components[i] = items[i];
            i += 1;
        }
        Self { components }
    }
}

impl<const N: usize> Default for Vector<N> {
    /// Create a new vector with zeroed components.
    fn default() -> (r: Self)
        ensures
            r@.len() == N,
            forall|i: int| 0 <= i < N ==> r@[i] == 0i64,
    {
        Self { components: [0i64; N] }
    }
}

impl Vector<2> {
    /// The first component of a two-dimensional vector.
    pub fn x(&self) -> (r: i64)
        ensures
            r == self@[0],
    {
        self.components[0]
    }

    /// The second component of a two-dimensional vector.
    pub fn y(&self) -> (r: i64)
        ensures
            r == self@[1],
    {
        self.components[1]
    }
}

impl Vector<3> {
    /// The first component of a three-dimensional vector.
    pub fn x(&self) -> (r: i64)
        ensures
            r == self@[0],
    {
        self.components[0]
    }

    /// The second component of a three-dimensional vector.
    pub fn y(&self) -> (r: i64)
        ensures
            r == self@[1],
    {
        self.components[1]
    }

    /// The third component of a three-dimensional vector.
    pub fn z(&self) -> (r: i64)
        ensures
            r == self@[2],
    {
        self.components[2]
    }
}

} // verus!
