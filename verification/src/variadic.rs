//! The conversion boundary and the variadic pool.

use core::marker::PhantomData;
use crate::id::Id;
use crate::pool::Pool;
use vstd::prelude::*;

verus! {

/// The conversion boundary between a narrow member type and a wider
/// tagged-union container type `Container`.
///
/// `packed` is the mathematical image of a narrow value inside the container:
/// the matching arm wrapping exactly that value. Packing is total and
/// injective, so a container value determines the narrow value it was packed
/// from; unpacking demands a container value that is the image of some narrow
/// value and returns that value. A mismatched arm is therefore ruled out
/// before the fact, not detected after it: the unreachable mismatch arm of an
/// implementation never runs under these contracts.
pub trait Variant<Container>: Sized {
    /// The container value that represents the narrow value `v`.
    spec fn packed(v: Self) -> Container;

    /// Packing is injective: the container arm determines its narrow value.
    proof fn packed_injective(v1: Self, v2: Self)
        requires
            Self::packed(v1) == Self::packed(v2),
        ensures
            v1 == v2,
    ;

    /// Wraps the narrow value into its arm of the container. Total: always
    /// succeeds, with no error path.
    fn pack(self) -> (c: Container)
        ensures
            c == Self::packed(self),
    ;

    /// Returns the narrow value inside a container value whose active arm
    /// matches `Self`.
    fn unpack(from: &Container) -> (r: &Self)
        requires
            exists|v: Self| *from == #[trigger] Self::packed(v),
        ensures
            *from == Self::packed(*r),
    ;
}

/// Every type is trivially a variant of itself: packing is the identity and
/// unpacking returns the same reference. This lets a caller that already holds
/// a container value skip the narrow-type layer and use the same API surface
/// on the union value directly.
impl<C> Variant<C> for C {
    open spec fn packed(v: C) -> C {
        v
    }

    proof fn packed_injective(v1: C, v2: C) {
    }

    fn pack(self) -> (c: C) {
        self
    }

    fn unpack(from: &C) -> (r: &C) {
        from
    }
}

/// A pool that stores values of several static types in one arena.
///
/// The pool owns a single arena of the tagged-union type `Container` and has
/// no state beyond that ownership. Narrow-typed values enter through
/// [`Variadic::insert_s`], which packs them into the union and reinterprets
/// the arena's container-typed handle as a narrow-typed one; lookups through
/// [`Variadic::get_s`] reverse both steps. Every narrow-typed handle is thus
/// representation-compatible with a container-typed handle into the same
/// arena: same raw index, different compile-time tag.
pub struct Variadic<Container, InnerPool> where InnerPool: Pool<Container> {
    pool: InnerPool,
    _containers: PhantomData<Container>,
}

impl<Container, InnerPool: Pool<Container>> Variadic<Container, InnerPool> {
    /// Returns the narrow value behind a handle minted by
    /// [`Variadic::insert_s`] at the same static type on this same pool.
    ///
    /// The handle's raw index is reinterpreted as a container-typed handle,
    /// the arena yields the stored union value, and that value is unpacked
    /// back to the narrow type. The preconditions say exactly that the handle
    /// denotes a slot of this pool whose union value was packed from a `Type`;
    /// a handle from `insert_s` on this pool satisfies both.
    pub fn get_s<Type: Variant<Container>>(&self, id: Id<Type>) -> (r: &Type)
        requires
            id.idx() < self.contents().len(),
            exists|v: Type| self.contents()[id.idx() as int] == #[trigger] Type::packed(v),
        ensures
            self.contents()[id.idx() as int] == Type::packed(*r),
    {
        let container_id: Id<Container> = Id::new(id.raw());
        Type::unpack(self.pool.get(container_id))
    }

    /// Packs `value` into the container type, appends it to the owned arena,
    /// and mints a narrow-typed handle carrying the fresh slot's raw index.
    ///
    /// The arena grows by exactly one slot holding `Type::packed(value)`; no
    /// existing slot changes, so earlier handles stay valid and the fresh
    /// handle's index differs from every index already in use.
    pub fn insert_s<Type: Variant<Container>>(&mut self, value: Type) -> (id: Id<Type>)
        ensures
            final(self).contents() == old(self).contents().push(Type::packed(value)),
            id.idx() == old(self).contents().len(),
    {
        let packed = Type::pack(value);
        let container_id = self.pool.insert(packed);
        Id::new(container_id.raw())
    }
}

/// The variadic pool is itself an arena of its container type, by delegating
/// straight to the arena it owns: whole union values can be inserted and read
/// without narrowing, and the pool can stand wherever a plain arena of the
/// union type is expected — including as the inner pool of another variadic
/// pool.
impl<Container, InnerPool: Pool<Container>> Pool<Container> for Variadic<Container, InnerPool> {
    closed spec fn contents(self) -> Seq<Container> {
        self.pool.contents()
    }

    fn empty() -> (p: Self) {
        Variadic { pool: InnerPool::empty(), _containers: PhantomData }
    }

    fn insert(&mut self, value: Container) -> (id: Id<Container>) {
        self.pool.insert(value)
    }

    fn get(&self, id: Id<Container>) -> (r: &Container) {
        self.pool.get(id)
    }
}

impl<Container, InnerPool: Pool<Container>> Default for Variadic<Container, InnerPool> {
    /// Builds a pool over an empty arena.
    fn default() -> (r: Self)
        ensures
            r.contents() == Seq::<Container>::empty(),
    {
        <Variadic<Container, InnerPool> as Pool<Container>>::empty()
    }
}

/// Round-trip law: reading a slot back at the type it was inserted with yields
/// the inserted value.
///
/// After `insert_s(v)` the fresh slot holds the container value
/// `Type::packed(v)`, and `get_s` on the minted handle returns an `r` with
/// that same slot equal to `Type::packed(r)`; since packing is injective, `r`
/// equals `v`.
pub proof fn lemma_round_trip<Container, Type: Variant<Container>>(c: Container, v: Type, r: Type)
    requires
        c == Type::packed(v),
        c == Type::packed(r),
    ensures
        r == v,
{
    Type::packed_injective(v, r);
}

/// Reflexive variant law: for the container type itself, packing is the
/// identity, so unpacking a packed container value gives back that value
/// unchanged.
pub proof fn lemma_reflexive_pack_identity<C>(c: C)
    ensures
        <C as Variant<C>>::packed(c) == c,
{
}

/// Insertion monotonicity and handle distinctness: an insertion appends
/// exactly one slot, mints a handle whose index differs from the index of
/// every slot already in use, and leaves every existing slot unchanged — so
/// no handle is ever invalidated by a later, unrelated insertion.
pub proof fn lemma_insert_monotonic<Container>(contents: Seq<Container>, c: Container, i: int)
    requires
        0 <= i < contents.len(),
    ensures
        contents.push(c).len() == contents.len() + 1,
        i != contents.len() as int,
        contents.push(c)[i] == contents[i],
{
}

/// Container pass-through law: a union value stored through the
/// container-typed path is read back identical, active arm and contents
/// unchanged — the fresh slot holds exactly the inserted container value.
pub proof fn lemma_container_pass_through<Container>(contents: Seq<Container>, c: Container)
    ensures
        contents.push(c)[contents.len() as int] == c,
{
}

} // verus!
