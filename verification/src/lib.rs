//! A pool of heterogeneous values behind one homogeneous arena.
//!
//! The library stores values of several static types in a single append-only
//! arena by multiplexing them through one tagged-union container type. Callers
//! keep strongly typed opaque handles; a handle is a raw slot index with a
//! compile-time type tag, and the variadic pool reinterprets that index across
//! the narrow/wide type boundary on every insert and lookup.

pub mod id;
pub mod pool;
pub mod simple;
pub mod text_number;
pub mod variadic;

pub use id::Id;
pub use pool::Pool;
pub use pool::Storable;
pub use simple::Simple;
pub use text_number::TextNumber;
pub use variadic::Variadic;
pub use variadic::Variant;
