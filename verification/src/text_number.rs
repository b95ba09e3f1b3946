//! A tagged union over text and number members.
//!
//! This is the pattern the library's generator contract prescribes, written
//! out for one representative member list: one arm per member type, each arm
//! owning exactly one value of that member type, plus one [`Variant`]
//! implementation per member type. Packing wraps the member into its arm;
//! unpacking matches on the union and, on the one arm the contract admits,
//! returns the inner reference. The mismatch arms are unreachable under the
//! [`Variant`] contract and terminate rather than return unrelated data.

use crate::variadic::Variant;
use vstd::prelude::*;

verus! {

/// A closed union over two member types: a text and a signed number.
///
/// At most one arm is active per instance and the active arm never changes
/// after construction, consistent with an insert-only arena.
#[derive(Clone, Debug, PartialEq)]
pub enum TextNumber {
    /// The text arm, owning one `String`.
    Text(String),
    /// The number arm, owning one `i64`.
    Number(i64),
}

impl Variant<TextNumber> for String {
    open spec fn packed(v: String) -> TextNumber {
        TextNumber::Text(v)
    }

    proof fn packed_injective(v1: String, v2: String) {
    }

    fn pack(self) -> (c: TextNumber) {
        TextNumber::Text(self)
    }

    fn unpack(from: &TextNumber) -> (r: &String) {
        match from {
            TextNumber::Text(s) => s,
            TextNumber::Number(_) => unreached(),
        }
    }
}

impl Variant<TextNumber> for i64 {
    open spec fn packed(v: i64) -> TextNumber {
        TextNumber::Number(v)
    }

    proof fn packed_injective(v1: i64, v2: i64) {
    }

    fn pack(self) -> (c: TextNumber) {
        TextNumber::Number(self)
    }

    fn unpack(from: &TextNumber) -> (r: &i64) {
        match from {
            TextNumber::Number(n) => n,
            TextNumber::Text(_) => unreached(),
        }
    }
}

} // verus!
