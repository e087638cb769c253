//! Amounts of value.

use vstd::bytes::{spec_u64_to_le_bytes, u64_to_le_bytes};
use vstd::prelude::*;

verus! {

/// A signed amount of value, in the smallest unit.
#[derive(Clone, Copy, Debug, PartialEq, Eq)]
pub struct Amount(pub i64);

impl Amount {
    /// The eight bytes of the amount: its two's complement, little-endian.
    pub open spec fn spec_to_i64_le_bytes(&self) -> Seq<u8> {
        spec_u64_to_le_bytes(self.0 as u64)
    }

    /// The eight bytes of the amount: its two's complement, little-endian.
    pub fn to_i64_le_bytes(&self) -> (bytes: Vec<u8>)
        ensures
            bytes@ == self.spec_to_i64_le_bytes(),
            bytes@.len() == 8,
    {
        proof {
            vstd::bytes::lemma_auto_spec_u64_to_from_le_bytes();
        }
        u64_to_le_bytes(self.0 as u64)
    }
}

} // verus!
