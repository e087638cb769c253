//! The transparent part of a transaction: inputs that spend earlier outputs
//! in the open, and outputs that pay to an address in the open.

use crate::transaction::components::amount::Amount;
use vstd::bytes::{spec_u32_to_le_bytes, u32_to_le_bytes};
use vstd::prelude::*;

verus! {

/// A stage of authorization of the transparent inputs: which form the
/// signature of an input has at that stage.
pub trait Authorization {
    type ScriptSig;
}

/// Not yet signed: an input carries no signature.
#[derive(Clone, Copy, Debug, PartialEq, Eq)]
pub struct Unauthorized;

/// Signed: an input carries the bytes of its signature.
#[derive(Clone, Copy, Debug, PartialEq, Eq)]
pub struct Authorized;

impl Authorization for Unauthorized {
    type ScriptSig = ();
}

impl Authorization for Authorized {
    type ScriptSig = Vec<u8>;
}

/// The output of an earlier transaction that an input spends.
#[derive(Clone, Copy, Debug, PartialEq, Eq)]
pub struct OutPoint {
    pub hash: [u8; 32],
    pub n: u32,
}

/// The address that a transparent output pays to.
#[derive(Clone, Copy, Debug, PartialEq, Eq)]
pub struct TransparentAddress(pub [u8; 20]);

/// An input: the outpoint that it spends, its signature and its sequence
/// number.
pub struct TxIn<A: Authorization> {
    pub prevout: OutPoint,
    pub script_sig: A::ScriptSig,
    pub sequence: u32,
}

/// An output: a value and the address that it is paid to.
#[derive(Clone, Copy, Debug, PartialEq, Eq)]
pub struct TxOut {
    pub value: Amount,
    pub address: TransparentAddress,
}

/// The transparent inputs and outputs of a transaction.
pub struct Bundle<A: Authorization> {
    pub vin: Vec<TxIn<A>>,
    pub vout: Vec<TxOut>,
}

impl OutPoint {
    /// The bytes that stand for the outpoint in a digest: the hash of the
    /// transaction, then the index of the output, little-endian.
    pub open spec fn encoding(&self) -> Seq<u8> {
        self.hash@ + spec_u32_to_le_bytes(self.n)
    }

    /// Appends `encoding()` to `writer`.
    pub fn write(&self, writer: &mut Vec<u8>)
        ensures
            final(writer)@ == old(writer)@ + self.encoding(),
    {
        let ghost before = writer@;
        writer.extend_from_slice(self.hash.as_slice());
        let n = u32_to_le_bytes(self.n);
        writer.extend_from_slice(n.as_slice());
        assert(writer@ =~= before + self.encoding());
    }
}

impl TxOut {
    /// The bytes that stand for the output in a digest: the value, then the
    /// address.
    pub open spec fn encoding(&self) -> Seq<u8> {
        self.value.spec_to_i64_le_bytes() + self.address.0@
    }

    /// Appends `encoding()` to `writer`.
    pub fn write(&self, writer: &mut Vec<u8>)
        ensures
            final(writer)@ == old(writer)@ + self.encoding(),
    {
        let ghost before = writer@;
        let value = self.value.to_i64_le_bytes();
        writer.extend_from_slice(value.as_slice());
        writer.extend_from_slice(self.address.0.as_slice());
        assert(writer@ =~= before + self.encoding());
    }
}

} // verus!
