//! The descriptor of the input being authorized and the signature hash.

use crate::transaction::components::amount::Amount;
use crate::transaction::components::sapling::{self, GrothProofBytes};
use crate::transaction::components::transparent;
use crate::transaction::sighash_v5::{spec_v5_signature_hash, v5_signature_hash};
use crate::transaction::{Authorization, TransactionData, TxDigests, TxVersion};
use vstd::prelude::*;

verus! {

/// Sign all of the inputs and outputs.
pub const SIGHASH_ALL: u8 = 0x01;

/// Sign the inputs and none of the outputs.
pub const SIGHASH_NONE: u8 = 0x02;

/// Sign the inputs and the one output at the index of the input.
pub const SIGHASH_SINGLE: u8 = 0x03;

/// The bits of a hash type that hold one of the three kinds above.
pub const SIGHASH_MASK: u8 = 0x1f;

/// Sign only the input itself; may be set together with any kind.
pub const SIGHASH_ANYONECANPAY: u8 = 0x80;

/// What a signature is being made for.
#[derive(Clone, Copy, Debug, PartialEq, Eq)]
pub enum SignableInput {
    /// A shielded action: the signature commits to the whole transaction.
    Shielded,
    /// The transparent input at `index`, which spends `value`, with the
    /// flags that say what the signature commits to.
    Transparent { hash_type: u8, index: usize, value: Amount },
}

impl SignableInput {
    /// The hash type in effect: `SIGHASH_ALL` for a shielded action, and for
    /// a transparent input the flags that it carries, unchanged.
    pub open spec fn spec_hash_type(&self) -> u8 {
        match self {
            SignableInput::Shielded => SIGHASH_ALL,
            SignableInput::Transparent { hash_type, .. } => *hash_type,
        }
    }

    /// The hash type in effect.
    #[verifier::when_used_as_spec(spec_hash_type)]
    pub fn hash_type(&self) -> (flags: u8)
        ensures
            flags == self.spec_hash_type(),
    {
        match self {
            SignableInput::Shielded => SIGHASH_ALL,
            SignableInput::Transparent { hash_type, .. } => *hash_type,
        }
    }
}

/// The 32 bytes that a signature is made over.
#[derive(Clone, Copy, Debug, PartialEq, Eq)]
pub struct SignatureHash(pub(crate) [u8; 32]);

impl View for SignatureHash {
    type V = Seq<u8>;

    closed spec fn view(&self) -> Seq<u8> {
        self.0@
    }
}

impl AsRef<[u8; 32]> for SignatureHash {
    fn as_ref(&self) -> (bytes: &[u8; 32])
        ensures
            bytes@ == self@,
    {
        &self.0
    }
}

/// Marks the stages of transparent authorization that a signature hash can
/// be made at. It asks nothing beyond `transparent::Authorization`.
pub trait TransparentAuthorizingContext: transparent::Authorization {

}

impl TransparentAuthorizingContext for transparent::Unauthorized {

}

impl TransparentAuthorizingContext for transparent::Authorized {

}

/// Whether the descriptor and the digests fit the transaction: the digests
/// of the transparent part are there exactly when that part is, and a
/// transparent descriptor points at an input that exists.
pub open spec fn signable<A: Authorization>(
    tx: &TransactionData<A>,
    signable_input: &SignableInput,
    txid_parts: &TxDigests<[u8; 32]>,
) -> bool {
    &&& tx.transparent_bundle is Some <==> txid_parts.transparent_digests is Some
    &&& match signable_input {
        SignableInput::Shielded => true,
        SignableInput::Transparent { index, .. } => {
            &&& tx.transparent_bundle is Some
            &&& *index < tx.transparent_bundle->Some_0.vin@.len()
        },
    }
}

/// The signature hash of `tx` for `signable_input`: what the algorithm of
/// the transaction's version makes of the three.
pub open spec fn spec_signature_hash<A: Authorization>(
    tx: &TransactionData<A>,
    signable_input: &SignableInput,
    txid_parts: &TxDigests<[u8; 32]>,
) -> Seq<u8> {
    match tx.version {
        TxVersion::MASPv5 => spec_v5_signature_hash(tx, signable_input, txid_parts),
    }
}

/// Computes the signature hash for an input to a transaction, given the full
/// data of the transaction, the input being signed, and the digests that
/// were made of the transaction's parts.
pub fn signature_hash<
    TA: TransparentAuthorizingContext,
    SA: sapling::Authorization<Proof = GrothProofBytes>,
    A: Authorization<SaplingAuth = SA, TransparentAuth = TA>,
>(
    tx: &TransactionData<A>,
    signable_input: &SignableInput,
    txid_parts: &TxDigests<[u8; 32]>,
) -> (hash: SignatureHash)
    requires
        signable(tx, signable_input, txid_parts),
    ensures
        hash@ == spec_signature_hash(tx, signable_input, txid_parts),
{
    SignatureHash(
        match tx.version {
            TxVersion::MASPv5 => v5_signature_hash(tx, signable_input, txid_parts),
        },
    )
}

/// Whether two transactions agree on all that a signature hash reads from a
/// transaction itself: the version, the consensus branch, and of the
/// transparent part the outpoints, the sequence numbers and the outputs. They
/// may differ in the signatures of their inputs and in the stage of
/// authorization.
pub open spec fn same_signed_data<A: Authorization, B: Authorization>(
    a: &TransactionData<A>,
    b: &TransactionData<B>,
) -> bool {
    &&& a.version == b.version
    &&& a.consensus_branch_id == b.consensus_branch_id
    &&& match (a.transparent_bundle, b.transparent_bundle) {
        (None, None) => true,
        (Some(x), Some(y)) => {
            &&& x.vin@.len() == y.vin@.len()
            &&& forall|i: int|
                0 <= i < x.vin@.len() ==> x.vin@[i].prevout == y.vin@[i].prevout
                    && x.vin@[i].sequence == y.vin@[i].sequence
            &&& x.vout@ == y.vout@
        },
        _ => false,
    }
}

/// The signature hash is a function of the transaction, the descriptor and
/// the digests: equal inputs have equal hashes.
pub proof fn lemma_signature_hash_deterministic<A: Authorization>(
    tx1: &TransactionData<A>,
    tx2: &TransactionData<A>,
    input1: &SignableInput,
    input2: &SignableInput,
    parts1: &TxDigests<[u8; 32]>,
    parts2: &TxDigests<[u8; 32]>,
)
    requires
        tx1 == tx2,
        input1 == input2,
        parts1 == parts2,
    ensures
        spec_signature_hash(tx1, input1, parts1) == spec_signature_hash(tx2, input2, parts2),
{
}

/// The signature hash for an input does not change when the signature of
/// any input is altered, nor when the transaction moves to another stage of
/// authorization: with the same descriptor and digests, transactions that
/// agree on the signed data have the same hash.
pub proof fn lemma_signature_hash_ignores_signatures<A: Authorization, B: Authorization>(
    a: &TransactionData<A>,
    b: &TransactionData<B>,
    signable_input: &SignableInput,
    txid_parts: &TxDigests<[u8; 32]>,
)
    requires
        same_signed_data(a, b),
        signable(a, signable_input, txid_parts),
    ensures
        signable(b, signable_input, txid_parts),
        spec_signature_hash(a, signable_input, txid_parts) == spec_signature_hash(
            b,
            signable_input,
            txid_parts,
        ),
{
}

} // verus!
