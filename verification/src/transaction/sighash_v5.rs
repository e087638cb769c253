//! The signature hash of version 5: a BLAKE2b hash, under a tag that holds
//! the consensus branch, of the header digest, of a digest of the transparent
//! part that leaves out what the hash type does not commit to, and of the
//! digest of the shielded part.

use crate::transaction::components::amount::Amount;
use crate::transaction::components::transparent::{Bundle, OutPoint};
use crate::transaction::sighash::{
    signable, SignableInput, SIGHASH_ANYONECANPAY, SIGHASH_MASK, SIGHASH_NONE, SIGHASH_SINGLE,
};
use crate::transaction::{Authorization, TransactionData, TransparentDigests, TxDigests};
use crate::transaction::components::transparent;
use vstd::bytes::{spec_u32_to_le_bytes, u32_to_le_bytes};
use vstd::prelude::*;

verus! {

/// `MASP_TxHash_`: the tag of the signature hash, without the branch.
pub const TX_PERSONALIZATION_PREFIX: [u8; 12] = [
    0x4d, 0x41, 0x53, 0x50, 0x5f, 0x54, 0x78, 0x48, 0x61, 0x73, 0x68, 0x5f,
];

/// `ZTxIdTranspaHash`
pub const TRANSPARENT_HASH_PERSONALIZATION: [u8; 16] = [
    0x5a, 0x54, 0x78, 0x49, 0x64, 0x54, 0x72, 0x61, 0x6e, 0x73, 0x70, 0x61, 0x48, 0x61, 0x73, 0x68,
];

/// `ZTxIdPrevoutHash`
pub const PREVOUTS_HASH_PERSONALIZATION: [u8; 16] = [
    0x5a, 0x54, 0x78, 0x49, 0x64, 0x50, 0x72, 0x65, 0x76, 0x6f, 0x75, 0x74, 0x48, 0x61, 0x73, 0x68,
];

/// `ZTxIdSequencHash`
pub const SEQUENCE_HASH_PERSONALIZATION: [u8; 16] = [
    0x5a, 0x54, 0x78, 0x49, 0x64, 0x53, 0x65, 0x71, 0x75, 0x65, 0x6e, 0x63, 0x48, 0x61, 0x73, 0x68,
];

/// `ZTxIdOutputsHash`
pub const OUTPUTS_HASH_PERSONALIZATION: [u8; 16] = [
    0x5a, 0x54, 0x78, 0x49, 0x64, 0x4f, 0x75, 0x74, 0x70, 0x75, 0x74, 0x73, 0x48, 0x61, 0x73, 0x68,
];

/// `ZTxIdSaplingHash`
pub const SAPLING_HASH_PERSONALIZATION: [u8; 16] = [
    0x5a, 0x54, 0x78, 0x49, 0x64, 0x53, 0x61, 0x70, 0x6c, 0x69, 0x6e, 0x67, 0x48, 0x61, 0x73, 0x68,
];

/// `Zcash___TxInHash`
pub const TXIN_HASH_PERSONALIZATION: [u8; 16] = [
    0x5a, 0x63, 0x61, 0x73, 0x68, 0x5f, 0x5f, 0x5f, 0x54, 0x78, 0x49, 0x6e, 0x48, 0x61, 0x73, 0x68,
];

/// The BLAKE2b hash of `input`, 32 bytes long, without key or salt, under
/// the personalization `personal`.
pub uninterp spec fn blake2b_256(personal: Seq<u8>, input: Seq<u8>) -> Seq<u8>;

/// Calls `blake2b_simd`: `Params::new()`, `hash_length(32)`, `personal(..)`
/// and `hash(..)`, and copies the 32 bytes of the `Hash` out. The contract
/// only names the result: it is a function of the personalization and the
/// input alone.
#[verifier::external_body]
fn blake2b_256_hash(personal: &[u8; 16], input: &[u8]) -> (digest: [u8; 32])
    ensures
        digest@ == blake2b_256(personal@, input@),
{
    let hash = blake2b_simd::Params::new().hash_length(32).personal(personal).hash(input);
    let mut digest = [0u8; 32];
    digest.copy_from_slice(hash.as_bytes());
    digest
}

/// The tag of the signature hash: the prefix, then the consensus branch,
/// little-endian.
pub open spec fn tx_personalization(consensus_branch_id: u32) -> Seq<u8> {
    TX_PERSONALIZATION_PREFIX@ + spec_u32_to_le_bytes(consensus_branch_id)
}

/// What is hashed of the one input being signed: its outpoint, the value
/// that it spends and its sequence number.
pub open spec fn spec_txin_sig_preimage(prevout: OutPoint, value: Amount, sequence: u32) -> Seq<u8> {
    prevout.encoding() + value.spec_to_i64_le_bytes() + spec_u32_to_le_bytes(sequence)
}

/// What is hashed of the transparent part: the hash type, then the four
/// digests.
pub open spec fn spec_transparent_sig_preimage(
    hash_type: u8,
    prevouts: Seq<u8>,
    sequence: Seq<u8>,
    outputs: Seq<u8>,
    txin: Seq<u8>,
) -> Seq<u8> {
    seq![hash_type] + prevouts + sequence + outputs + txin
}

/// What is hashed of the whole transaction: the digests of its header, of
/// its transparent part and of its shielded part.
pub open spec fn spec_signature_preimage(
    header: Seq<u8>,
    transparent: Seq<u8>,
    sapling: Seq<u8>,
) -> Seq<u8> {
    header + transparent + sapling
}

/// The digest that commits to the one input being signed. For a shielded
/// action it is the digest of nothing.
pub open spec fn spec_txin_sig_digest<A: transparent::Authorization>(
    bundle: &Bundle<A>,
    signable_input: &SignableInput,
) -> Seq<u8> {
    match signable_input {
        SignableInput::Shielded => blake2b_256(TXIN_HASH_PERSONALIZATION@, Seq::empty()),
        SignableInput::Transparent { index, value, .. } => {
            let txin = bundle.vin@[*index as int];
            blake2b_256(
                TXIN_HASH_PERSONALIZATION@,
                spec_txin_sig_preimage(txin.prevout, *value, txin.sequence),
            )
        },
    }
}

/// The digest of the outputs that the signature commits to: the one output
/// at the input's index under `SIGHASH_SINGLE` (none where there is no such
/// output), none under `SIGHASH_NONE`, and otherwise all of them.
pub open spec fn spec_outputs_sig_digest<A: transparent::Authorization>(
    bundle: &Bundle<A>,
    digests: &TransparentDigests<[u8; 32]>,
    signable_input: &SignableInput,
) -> Seq<u8> {
    match signable_input {
        SignableInput::Shielded => digests.outputs_digest@,
        SignableInput::Transparent { hash_type, index, .. } => {
            if *hash_type & SIGHASH_MASK == SIGHASH_SINGLE {
                if *index < bundle.vout@.len() {
                    blake2b_256(
                        OUTPUTS_HASH_PERSONALIZATION@,
                        bundle.vout@[*index as int].encoding(),
                    )
                } else {
                    blake2b_256(OUTPUTS_HASH_PERSONALIZATION@, Seq::empty())
                }
            } else if *hash_type & SIGHASH_MASK == SIGHASH_NONE {
                blake2b_256(OUTPUTS_HASH_PERSONALIZATION@, Seq::empty())
            } else {
                digests.outputs_digest@
            }
        },
    }
}

/// The digest of the transparent part as a signature for `signable_input`
/// sees it: the hash type, then the digests of the outpoints, of the
/// sequence numbers and of the outputs, each replaced by the digest of
/// nothing where the hash type does not commit to it, then the digest of
/// the input being signed.
pub open spec fn spec_transparent_sig_digest<A: transparent::Authorization>(
    bundle: &Bundle<A>,
    digests: &TransparentDigests<[u8; 32]>,
    signable_input: &SignableInput,
) -> Seq<u8> {
    let hash_type = signable_input.hash_type();
    let anyone_can_pay = hash_type & SIGHASH_ANYONECANPAY != 0;
    let single = hash_type & SIGHASH_MASK == SIGHASH_SINGLE;
    let none = hash_type & SIGHASH_MASK == SIGHASH_NONE;
    let prevouts = if anyone_can_pay {
        blake2b_256(PREVOUTS_HASH_PERSONALIZATION@, Seq::empty())
    } else {
        digests.prevouts_digest@
    };
    let sequence = if anyone_can_pay || single || none {
        blake2b_256(SEQUENCE_HASH_PERSONALIZATION@, Seq::empty())
    } else {
        digests.sequence_digest@
    };
    blake2b_256(
        TRANSPARENT_HASH_PERSONALIZATION@,
        spec_transparent_sig_preimage(
            hash_type,
            prevouts,
            sequence,
            spec_outputs_sig_digest(bundle, digests, signable_input),
            spec_txin_sig_digest(bundle, signable_input),
        ),
    )
}

/// The signature hash of version 5.
pub open spec fn spec_v5_signature_hash<A: Authorization>(
    tx: &TransactionData<A>,
    signable_input: &SignableInput,
    txid_parts: &TxDigests<[u8; 32]>,
) -> Seq<u8> {
    let transparent = match (tx.transparent_bundle, txid_parts.transparent_digests) {
        (Some(bundle), Some(digests)) => spec_transparent_sig_digest(
            &bundle,
            &digests,
            signable_input,
        ),
        _ => blake2b_256(TRANSPARENT_HASH_PERSONALIZATION@, Seq::empty()),
    };
    let sapling = match txid_parts.sapling_digest {
        Some(digest) => digest@,
        None => blake2b_256(SAPLING_HASH_PERSONALIZATION@, Seq::empty()),
    };
    blake2b_256(
        tx_personalization(tx.consensus_branch_id),
        spec_signature_preimage(txid_parts.header_digest@, transparent, sapling),
    )
}

/// Lays out what is hashed of the one input being signed.
pub fn txin_sig_preimage(prevout: &OutPoint, value: &Amount, sequence: u32) -> (data: Vec<u8>)
    ensures
        data@ == spec_txin_sig_preimage(*prevout, *value, sequence),
{
    let mut data: Vec<u8> = Vec::new();
    prevout.write(&mut data);
    let value_bytes = value.to_i64_le_bytes();
    data.extend_from_slice(value_bytes.as_slice());
    let sequence_bytes = u32_to_le_bytes(sequence);
    data.extend_from_slice(sequence_bytes.as_slice());
    assert(data@ =~= spec_txin_sig_preimage(*prevout, *value, sequence));
    data
}

/// Lays out what is hashed of the transparent part.
pub fn transparent_sig_preimage(
    hash_type: u8,
    prevouts: &[u8; 32],
    sequence: &[u8; 32],
    outputs: &[u8; 32],
    txin: &[u8; 32],
) -> (data: Vec<u8>)
    ensures
        data@ == spec_transparent_sig_preimage(hash_type, prevouts@, sequence@, outputs@, txin@),
{
    let mut data: Vec<u8> = Vec::new();
    data.push(hash_type);
    data.extend_from_slice(prevouts.as_slice());
    data.extend_from_slice(sequence.as_slice());
    data.extend_from_slice(outputs.as_slice());
    data.extend_from_slice(txin.as_slice());
    assert(data@ =~= seq![hash_type] + prevouts@ + sequence@ + outputs@ + txin@);
    data
}

/// Lays out what is hashed of the whole transaction.
pub fn signature_preimage(header: &[u8; 32], transparent: &[u8; 32], sapling: &[u8; 32]) -> (data:
    Vec<u8>)
    ensures
        data@ == spec_signature_preimage(header@, transparent@, sapling@),
{
    let mut data: Vec<u8> = Vec::new();
    data.extend_from_slice(header.as_slice());
    data.extend_from_slice(transparent.as_slice());
    data.extend_from_slice(sapling.as_slice());
    assert(data@ =~= header@ + transparent@ + sapling@);
    data
}

fn empty_digest(personal: &[u8; 16]) -> (digest: [u8; 32])
    ensures
        digest@ == blake2b_256(personal@, Seq::empty()),
{
    let nothing: Vec<u8> = Vec::new();
    blake2b_256_hash(personal, nothing.as_slice())
}

fn txin_sig_digest<A: transparent::Authorization>(
    bundle: &Bundle<A>,
    signable_input: &SignableInput,
) -> (digest: [u8; 32])
    requires
        signable_input matches SignableInput::Transparent { index, .. } ==> index
            < bundle.vin@.len(),
    ensures
        digest@ == spec_txin_sig_digest(bundle, signable_input),
{
    match signable_input {
        SignableInput::Shielded => empty_digest(&TXIN_HASH_PERSONALIZATION),
        SignableInput::Transparent { index, value, .. } => {
            let txin = &bundle.vin[*index];
            let data = txin_sig_preimage(&txin.prevout, value, txin.sequence);
            blake2b_256_hash(&TXIN_HASH_PERSONALIZATION, data.as_slice())
        },
    }
}

fn outputs_sig_digest<A: transparent::Authorization>(
    bundle: &Bundle<A>,
    digests: &TransparentDigests<[u8; 32]>,
    signable_input: &SignableInput,
) -> (digest: [u8; 32])
    ensures
        digest@ == spec_outputs_sig_digest(bundle, digests, signable_input),
{
    match signable_input {
        SignableInput::Shielded => digests.outputs_digest,
        SignableInput::Transparent { hash_type, index, .. } => {
            if *hash_type & SIGHASH_MASK == SIGHASH_SINGLE {
                if *index < bundle.vout.len() {
                    let mut data: Vec<u8> = Vec::new();
                    bundle.vout[*index].write(&mut data);
                    assert(data@ =~= bundle.vout@[*index as int].encoding());
                    blake2b_256_hash(&OUTPUTS_HASH_PERSONALIZATION, data.as_slice())
                } else {
                    empty_digest(&OUTPUTS_HASH_PERSONALIZATION)
                }
            } else if *hash_type & SIGHASH_MASK == SIGHASH_NONE {
                empty_digest(&OUTPUTS_HASH_PERSONALIZATION)
            } else {
                digests.outputs_digest
            }
        },
    }
}

fn transparent_sig_digest<A: transparent::Authorization>(
    bundle: &Bundle<A>,
    digests: &TransparentDigests<[u8; 32]>,
    signable_input: &SignableInput,
) -> (digest: [u8; 32])
    requires
        signable_input matches SignableInput::Transparent { index, .. } ==> index
            < bundle.vin@.len(),
    ensures
        digest@ == spec_transparent_sig_digest(bundle, digests, signable_input),
{
    let hash_type = signable_input.hash_type();
    let anyone_can_pay = hash_type & SIGHASH_ANYONECANPAY != 0;
    let single = hash_type & SIGHASH_MASK == SIGHASH_SINGLE;
    let none = hash_type & SIGHASH_MASK == SIGHASH_NONE;
    let prevouts = if anyone_can_pay {
        empty_digest(&PREVOUTS_HASH_PERSONALIZATION)
    } else {
        digests.prevouts_digest
    };
    let sequence = if anyone_can_pay || single || none {
        empty_digest(&SEQUENCE_HASH_PERSONALIZATION)
    } else {
        digests.sequence_digest
    };
    let outputs = outputs_sig_digest(bundle, digests, signable_input);
    let txin = txin_sig_digest(bundle, signable_input);
    let data = transparent_sig_preimage(hash_type, &prevouts, &sequence, &outputs, &txin);
    blake2b_256_hash(&TRANSPARENT_HASH_PERSONALIZATION, data.as_slice())
}

/// The tag of the signature hash for a consensus branch.
pub fn tx_personalization_bytes(consensus_branch_id: u32) -> (personal: [u8; 16])
    ensures
        personal@ == tx_personalization(consensus_branch_id),
{
    let branch = u32_to_le_bytes(consensus_branch_id);
    proof {
        vstd::bytes::lemma_auto_spec_u32_to_from_le_bytes();
    }
    let p = TX_PERSONALIZATION_PREFIX;
    let personal: [u8; 16] = [
        p[0],
        p[1],
        p[2],
        p[3],
        p[4],
        p[5],
        p[6],
        p[7],
        p[8],
        p[9],
        p[10],
        p[11],
        branch[0],
        branch[1],
        branch[2],
        branch[3],
    ];
    assert(personal@ =~= tx_personalization(consensus_branch_id));
    personal
}

/// Computes the signature hash of version 5.
pub fn v5_signature_hash<A: Authorization>(
    tx: &TransactionData<A>,
    signable_input: &SignableInput,
    txid_parts: &TxDigests<[u8; 32]>,
) -> (digest: [u8; 32])
    requires
        signable(tx, signable_input, txid_parts),
    ensures
        digest@ == spec_v5_signature_hash(tx, signable_input, txid_parts),
{
    let transparent = match (&tx.transparent_bundle, &txid_parts.transparent_digests) {
        (Some(bundle), Some(digests)) => transparent_sig_digest(bundle, digests, signable_input),
        _ => empty_digest(&TRANSPARENT_HASH_PERSONALIZATION),
    };
    let sapling = match &txid_parts.sapling_digest {
        Some(digest) => *digest,
        None => empty_digest(&SAPLING_HASH_PERSONALIZATION),
    };
    let personal = tx_personalization_bytes(tx.consensus_branch_id);
    let data = signature_preimage(&txid_parts.header_digest, &transparent, &sapling);
    blake2b_256_hash(&personal, data.as_slice())
}

} // verus!
