//! The shielded action records: spends, outputs and asset conversions.

use crate::curve::{Point, Scalar};
use crate::encoding::WireFormat;
use crate::redjubjub::{PublicKey, Signature};
use crate::sapling::Nullifier;
use crate::transaction::components::amount::Amount;
use vstd::prelude::*;

verus! {

/// The number of bytes of a Groth16 proof: two points of G1 and one of G2,
/// compressed.
pub const GROTH_PROOF_SIZE: usize = 192;

/// The number of bytes of the encrypted note of an output.
pub const ENC_CIPHERTEXT_SIZE: usize = 612;

/// The number of bytes of the payload that lets the sender recover an output.
pub const OUT_CIPHERTEXT_SIZE: usize = 80;

/// A proof in the form in which it travels.
pub type GrothProofBytes = [u8; 192];

/// A stage of authorization: which form the proof and the spend
/// authorization signature of a record have at that stage.
pub trait Authorization {
    type Proof: WireFormat;

    type AuthSig: WireFormat;
}

/// Proved, but not yet signed: the signature takes no room.
#[derive(Clone, Copy, Debug, PartialEq, Eq)]
pub struct Unauthorized;

/// Proved and signed.
#[derive(Clone, Copy, Debug, PartialEq, Eq)]
pub struct Authorized;

impl Authorization for Unauthorized {
    type Proof = GrothProofBytes;

    type AuthSig = ();
}

impl Authorization for Authorized {
    type Proof = GrothProofBytes;

    type AuthSig = Signature;
}

/// The spending of a note.
#[derive(Clone, Debug, PartialEq, Eq)]
pub struct SpendDescription<A: Authorization> {
    /// The commitment to the value of the spent note.
    pub cv: Point,
    /// The root of the note commitment tree that the spend was proved against.
    pub anchor: Scalar,
    /// The tag that marks the note as spent.
    pub nullifier: Nullifier,
    /// The randomized key that the signature is verified with.
    pub rk: PublicKey,
    pub zkproof: A::Proof,
    pub spend_auth_sig: A::AuthSig,
}

/// The creation of a note.
#[derive(Clone, Debug, PartialEq, Eq)]
pub struct OutputDescription<Proof: WireFormat> {
    /// The commitment to the value of the new note.
    pub cv: Point,
    /// The commitment to the new note.
    pub cmu: Scalar,
    /// The key that the receiver derives the shared secret from.
    pub ephemeral_key: Point,
    pub enc_ciphertext: [u8; 612],
    pub out_ciphertext: [u8; 80],
    pub zkproof: Proof,
}

/// The conversion of value between asset types. It carries no signature: it
/// is authorized by the value balance of the whole transaction.
#[derive(Clone, Debug, PartialEq, Eq)]
pub struct ConvertDescription<Proof: WireFormat> {
    /// The commitment to the converted value.
    pub cv: Point,
    /// The root of the tree of allowed conversions.
    pub anchor: Scalar,
    pub zkproof: Proof,
}

/// The shielded actions of a transaction.
pub struct Bundle<A: Authorization> {
    pub shielded_spends: Vec<SpendDescription<A>>,
    pub shielded_converts: Vec<ConvertDescription<A::Proof>>,
    pub shielded_outputs: Vec<OutputDescription<A::Proof>>,
    pub value_balance: Amount,
}

} // verus!
