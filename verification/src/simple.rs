//! A plain vector-backed arena.

use crate::id::Id;
use crate::pool::Pool;
use vstd::prelude::*;

verus! {

/// The plain arena: a growable vector of slots, one per inserted value.
///
/// Raw indices are vector positions, assigned in insertion order. Insertion
/// pushes at the end and never reuses or disturbs a slot, which is exactly the
/// discipline the [`Pool`] contract demands.
pub struct Simple<T> {
    items: Vec<T>,
}

impl<T> Pool<T> for Simple<T> {
    closed spec fn contents(self) -> Seq<T> {
        self.items@
    }

    fn empty() -> (p: Self) {
        Simple { items: Vec::new() }
    }

    fn insert(&mut self, value: T) -> (id: Id<T>) {
        let idx = self.items.len();
        self.items.push(value);
        Id::new(idx)
    }

    fn get(&self, id: Id<T>) -> (r: &T) {
        &self.items[id.raw()]
    }
}

} // verus!
