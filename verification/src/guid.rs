//! Partition identifiers.

use crate::wire::{read_u128_le, spec_u128_le};
use vstd::prelude::*;

verus! {

/// A 128-bit globally unique identifier.
///
/// `value` is the little-endian reading of the identifier's sixteen bytes as
/// they lie on disk and in firmware records. The reading loses nothing, so
/// two identifiers are equal exactly when those bytes are.
#[derive(Clone, Copy, Debug, PartialEq, Eq, Structural)]
pub struct Guid {
    pub value: u128,
}

impl Guid {
    /// The identifier whose on-disk bytes are `bytes`.
    pub fn from_bytes(bytes: [u8; 16]) -> (g: Guid)
        ensures
            g.value == spec_u128_le(bytes@, 0),
    {
        Guid { value: read_u128_le(bytes.as_slice(), 0) }
    }

    /// The identifier stored in the sixteen bytes of `bytes` that start at `at`.
    pub fn read(bytes: &[u8], at: usize) -> (g: Guid)
        requires
            at + 16 <= bytes.len(),
        ensures
            g.value == spec_u128_le(bytes@, at as int),
    {
        Guid { value: read_u128_le(bytes, at) }
    }
}

} // verus!
