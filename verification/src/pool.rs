//! The arena capability and the store/access capability.

use crate::id::Id;
use vstd::prelude::*;

verus! {

/// An append-only arena over one concrete value type `T`.
///
/// The arena owns a growable sequence of slots, each holding one `T` and
/// addressed by the raw index of the handle minted at insertion. Insertion
/// always appends a fresh slot and never touches an existing one, so a handle,
/// once minted, stays valid for the arena's whole lifetime and the value
/// behind it is never moved or mutated. There is no removal.
pub trait Pool<T>: Sized {
    /// The slots the arena holds, in insertion order: the value behind the
    /// handle of raw index `i` is `contents()[i]`.
    spec fn contents(self) -> Seq<T>;

    /// Builds an arena with no slots.
    fn empty() -> (p: Self)
        ensures
            p.contents() == Seq::<T>::empty(),
    ;

    /// Appends `value` as a fresh slot and mints its handle.
    ///
    /// The handle's raw index is the number of slots before the call; every
    /// existing slot is left unchanged.
    fn insert(&mut self, value: T) -> (id: Id<T>)
        ensures
            final(self).contents() == old(self).contents().push(value),
            id.idx() == old(self).contents().len(),
    ;

    /// Returns a reference to the value behind `id`.
    fn get(&self, id: Id<T>) -> (r: &T)
        requires
            id.idx() < self.contents().len(),
        ensures
            *r == self.contents()[id.idx() as int],
    ;
}

/// The store/access capability: lets a value type define how it is stored
/// into, and retrieved from, an arena-like target `P`.
///
/// The variadic pool both implements this capability (for its container type,
/// so it can stand wherever a plain arena of that type is expected) and relies
/// on the arena it owns satisfying the same slot discipline.
pub trait Storable<P>: Sized where P: Pool<Self> {
    /// Stores `self` into `pool`, minting the handle of a fresh slot.
    fn store(self, pool: &mut P) -> (id: Id<Self>)
        ensures
            final(pool).contents() == old(pool).contents().push(self),
            id.idx() == old(pool).contents().len(),
    ;

    /// Retrieves a reference to the value behind `id` from `pool`.
    fn access(pool: &P, id: Id<Self>) -> (r: &Self)
        requires
            id.idx() < pool.contents().len(),
        ensures
            *r == pool.contents()[id.idx() as int],
    ;
}

/// The default store/access behavior for a type storing into its own matching
/// arena: insert and get directly.
impl<T, P: Pool<T>> Storable<P> for T {
    fn store(self, pool: &mut P) -> (id: Id<T>) {
        pool.insert(self)
    }

    fn access(pool: &P, id: Id<T>) -> (r: &T) {
        pool.get(id)
    }
}

} // verus!
