//! Typed handles over raw slot indices.

use core::marker::PhantomData;
use vstd::prelude::*;
use vstd::std_specs::cmp::PartialEqSpec;

verus! {

/// An opaque, copyable handle to a value stored in a pool, tagged at compile
/// time with the static type `T` of the value it denotes.
///
/// A handle wraps a raw slot index and nothing else: the type parameter is a
/// purely compile-time label and carries no runtime discriminant. Two handles
/// of the same static type compare equal exactly when their raw indices are
/// equal. A handle is meaningful only against the pool instance that minted
/// it, and only at the static type it was minted with; mixing handles across
/// pools or static types is a caller error that no runtime check guards.
pub struct Id<T> {
    idx: usize,
    _marker: PhantomData<T>,
}

impl<T> Id<T> {
    /// The raw slot index this handle wraps.
    pub closed spec fn idx(self) -> usize {
        self.idx
    }

    /// Mints a handle from a raw slot index.
    ///
    /// This is the reinterpretation point: a handle of any static type can be
    /// rebuilt at any other static type from the same raw index. The library
    /// does so deliberately at the narrow/wide boundary of the variadic pool;
    /// any other use is a caller error.
    pub fn new(idx: usize) -> (r: Id<T>)
        ensures
            r.idx() == idx,
    {
        Id { idx, _marker: PhantomData }
    }

    /// Extracts the raw slot index, for cross-type reinterpretation.
    pub fn raw(&self) -> (r: usize)
        ensures
            r == self.idx(),
    {
        self.idx
    }
}

impl<T> Clone for Id<T> {
    fn clone(&self) -> (r: Self)
        ensures
            r == *self,
    {
        Id { idx: self.idx, _marker: PhantomData }
    }
}

impl<T> Copy for Id<T> {}

impl<T> PartialEq for Id<T> {
    fn eq(&self, other: &Self) -> (r: bool) {
        self.idx == other.idx
    }
}

impl<T> Eq for Id<T> {}

impl<T> vstd::std_specs::cmp::PartialEqSpecImpl for Id<T> {
    open spec fn obeys_eq_spec() -> bool {
        true
    }

    open spec fn eq_spec(&self, other: &Self) -> bool {
        self.idx() == other.idx()
    }
}

/// Handle comparison law: two handles of one static type compare equal
/// exactly when their raw indices are equal — the type parameter carries no
/// runtime discriminant, and handles of different static types cannot be
/// compared at all. Together with the fresh index every insertion mints, this
/// is why values inserted one after the other never share a handle, whatever
/// their static types.
pub proof fn lemma_handle_eq_by_index<T>(a: Id<T>, b: Id<T>)
    ensures
        a.eq_spec(&b) <==> a.idx() == b.idx(),
{
}

} // verus!
