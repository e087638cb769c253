use masp_primitives::transaction::components::transparent::{
    self, Bundle, OutPoint, TransparentAddress, TxIn, TxOut,
};
use masp_primitives::transaction::components::Amount;
use masp_primitives::transaction::sighash::{
    signature_hash, SignableInput, SIGHASH_ALL, SIGHASH_ANYONECANPAY, SIGHASH_MASK, SIGHASH_NONE,
    SIGHASH_SINGLE,
};
use masp_primitives::transaction::sighash_v5::{
    signature_preimage, transparent_sig_preimage, tx_personalization_bytes, txin_sig_preimage,
    v5_signature_hash, TX_PERSONALIZATION_PREFIX,
};
use masp_primitives::transaction::{
    Authorized, TransactionData, TransparentDigests, TxDigests, TxVersion, Unauthorized,
};

fn blake2b(personal: &[u8], data: &[u8]) -> [u8; 32] {
    let hash = blake2b_simd::Params::new().hash_length(32).personal(personal).hash(data);
    let mut out = [0u8; 32];
    out.copy_from_slice(hash.as_bytes());
    out
}

fn digests() -> TxDigests<[u8; 32]> {
    TxDigests {
        header_digest: [0x11; 32],
        transparent_digests: Some(TransparentDigests {
            prevouts_digest: [0x22; 32],
            sequence_digest: [0x33; 32],
            outputs_digest: [0x44; 32],
        }),
        sapling_digest: Some([0x55; 32]),
    }
}

fn signed_tx() -> TransactionData<Authorized> {
    TransactionData {
        version: TxVersion::MASPv5,
        consensus_branch_id: 0xe9ff_75a6,
        lock_time: 0,
        expiry_height: 100,
        transparent_bundle: Some(Bundle {
            vin: vec![
                TxIn {
                    prevout: OutPoint { hash: [0xa1; 32], n: 1 },
                    script_sig: vec![1, 2, 3],
                    sequence: 0xffff_fffe,
                },
                TxIn {
                    prevout: OutPoint { hash: [0xa2; 32], n: 7 },
                    script_sig: vec![4, 5, 6],
                    sequence: 0xffff_ffff,
                },
            ],
            vout: vec![TxOut { value: Amount(5000), address: TransparentAddress([0xb1; 20]) }],
        }),
        sapling_bundle: None,
    }
}

fn unsigned_tx() -> TransactionData<Unauthorized> {
    let signed = signed_tx();
    let bundle = signed.transparent_bundle.unwrap();
    TransactionData {
        version: signed.version,
        consensus_branch_id: signed.consensus_branch_id,
        lock_time: signed.lock_time,
        expiry_height: signed.expiry_height,
        transparent_bundle: Some(Bundle::<transparent::Unauthorized> {
            vin: bundle
                .vin
                .iter()
                .map(|txin| TxIn { prevout: txin.prevout, script_sig: (), sequence: txin.sequence })
                .collect(),
            vout: bundle.vout,
        }),
        sapling_bundle: None,
    }
}

fn shielded_only_tx() -> TransactionData<Authorized> {
    TransactionData {
        version: TxVersion::MASPv5,
        consensus_branch_id: 0xe9ff_75a6,
        lock_time: 0,
        expiry_height: 100,
        transparent_bundle: None,
        sapling_bundle: None,
    }
}

fn transparent(hash_type: u8, index: usize) -> SignableInput {
    SignableInput::Transparent { hash_type, index, value: Amount(70_000) }
}

/// The hash as the rules of version 5 give it, computed apart from the
/// library.
fn expected(tx: &TransactionData<Authorized>, input: &SignableInput, parts: &TxDigests<[u8; 32]>) -> [u8; 32] {
    let transparent_part = match (&tx.transparent_bundle, &parts.transparent_digests) {
        (Some(bundle), Some(d)) => {
            let hash_type = input.hash_type();
            let acp = hash_type & 0x80 != 0;
            let single = hash_type & 0x1f == 0x03;
            let none = hash_type & 0x1f == 0x02;
            let prevouts =
                if acp { blake2b(b"ZTxIdPrevoutHash", &[]) } else { d.prevouts_digest };
            let sequence = if acp || single || none {
                blake2b(b"ZTxIdSequencHash", &[])
            } else {
                d.sequence_digest
            };
            let outputs = match input {
                SignableInput::Transparent { index, .. } if single => {
                    if *index < bundle.vout.len() {
                        let out = &bundle.vout[*index];
                        let mut data = out.value.0.to_le_bytes().to_vec();
                        data.extend_from_slice(&out.address.0);
                        blake2b(b"ZTxIdOutputsHash", &data)
                    } else {
                        blake2b(b"ZTxIdOutputsHash", &[])
                    }
                }
                SignableInput::Transparent { .. } if none => blake2b(b"ZTxIdOutputsHash", &[]),
                _ => d.outputs_digest,
            };
            let txin = match input {
                SignableInput::Shielded => blake2b(b"Zcash___TxInHash", &[]),
                SignableInput::Transparent { index, value, .. } => {
                    let txin = &bundle.vin[*index];
                    let mut data = txin.prevout.hash.to_vec();
                    data.extend_from_slice(&txin.prevout.n.to_le_bytes());
                    data.extend_from_slice(&value.0.to_le_bytes());
                    data.extend_from_slice(&txin.sequence.to_le_bytes());
                    blake2b(b"Zcash___TxInHash", &data)
                }
            };
            let mut data = vec![hash_type];
            data.extend_from_slice(&prevouts);
            data.extend_from_slice(&sequence);
            data.extend_from_slice(&outputs);
            data.extend_from_slice(&txin);
            blake2b(b"ZTxIdTranspaHash", &data)
        }
        _ => blake2b(b"ZTxIdTranspaHash", &[]),
    };
    let sapling = match parts.sapling_digest {
        Some(d) => d,
        None => blake2b(b"ZTxIdSaplingHash", &[]),
    };
    let mut personal = b"MASP_TxHash_".to_vec();
    personal.extend_from_slice(&tx.consensus_branch_id.to_le_bytes());
    let mut data = parts.header_digest.to_vec();
    data.extend_from_slice(&transparent_part);
    data.extend_from_slice(&sapling);
    blake2b(&personal, &data)
}

#[test]
fn hash_type_of_shielded_is_all() {
    assert_eq!(SignableInput::Shielded.hash_type(), 0x01);
    assert_eq!(SignableInput::Shielded.hash_type(), SIGHASH_ALL);
}

#[test]
fn hash_type_of_transparent_is_passed_through() {
    assert_eq!(transparent(0x83, 0).hash_type(), 0x83);
    for flags in 0..=255u8 {
        assert_eq!(transparent(flags, 3).hash_type(), flags);
    }
}

#[test]
fn sighash_constants() {
    assert_eq!(SIGHASH_ALL, 0x01);
    assert_eq!(SIGHASH_NONE, 0x02);
    assert_eq!(SIGHASH_SINGLE, 0x03);
    assert_eq!(SIGHASH_MASK, 0x1f);
    assert_eq!(SIGHASH_ANYONECANPAY, 0x80);
    assert_eq!(SIGHASH_SINGLE | SIGHASH_ANYONECANPAY, 0x83);
}

#[test]
fn signature_hash_is_deterministic() {
    let parts = digests();
    for input in [SignableInput::Shielded, transparent(SIGHASH_ALL, 0), transparent(0x83, 1)] {
        let first = signature_hash(&signed_tx(), &input, &parts);
        let second = signature_hash(&signed_tx(), &input, &digests());
        assert_eq!(first.as_ref(), second.as_ref());
    }
}

#[test]
fn signature_hash_test_vector() {
    let hash = signature_hash(&signed_tx(), &transparent(SIGHASH_ALL, 0), &digests());
    let expected: [u8; 32] = [
        91, 144, 119, 64, 79, 95, 244, 158, 230, 39, 176, 113, 58, 109, 96, 209, 166, 213, 219, 37,
        244, 80, 193, 178, 172, 81, 15, 211, 53, 66, 158, 254,
    ];
    assert_eq!(hash.as_ref(), &expected);
}

#[test]
fn signature_hash_shielded_test_vector() {
    let parts = TxDigests { header_digest: [0x11; 32], transparent_digests: None, sapling_digest: None };
    let hash = signature_hash(&shielded_only_tx(), &SignableInput::Shielded, &parts);
    let expected: [u8; 32] = [
        27, 20, 238, 28, 45, 167, 229, 27, 85, 158, 77, 102, 116, 144, 114, 10, 233, 222, 54, 31,
        36, 212, 184, 18, 226, 78, 180, 247, 8, 122, 220, 192,
    ];
    assert_eq!(hash.as_ref(), &expected);
}

#[test]
fn signature_hash_follows_the_rules_of_version_5() {
    let tx = signed_tx();
    let parts = digests();
    let inputs = [
        SignableInput::Shielded,
        transparent(SIGHASH_ALL, 0),
        transparent(SIGHASH_ALL, 1),
        transparent(SIGHASH_NONE, 0),
        transparent(SIGHASH_SINGLE, 0),
        transparent(SIGHASH_SINGLE, 1),
        transparent(SIGHASH_ALL | SIGHASH_ANYONECANPAY, 1),
        transparent(SIGHASH_NONE | SIGHASH_ANYONECANPAY, 0),
        transparent(SIGHASH_SINGLE | SIGHASH_ANYONECANPAY, 0),
        transparent(0x00, 0),
        transparent(0x7f, 1),
    ];
    for input in inputs.iter() {
        assert_eq!(signature_hash(&tx, input, &parts).as_ref(), &expected(&tx, input, &parts));
    }
    let mut hashes: Vec<[u8; 32]> =
        inputs.iter().map(|input| *signature_hash(&tx, input, &parts).as_ref()).collect();
    hashes.sort();
    hashes.dedup();
    assert_eq!(hashes.len(), inputs.len());

    let shielded = shielded_only_tx();
    let parts = TxDigests { header_digest: [0x11; 32], transparent_digests: None, sapling_digest: None };
    assert_eq!(
        signature_hash(&shielded, &SignableInput::Shielded, &parts).as_ref(),
        &expected(&shielded, &SignableInput::Shielded, &parts)
    );
}

#[test]
fn signature_hash_ignores_the_signature_of_another_input() {
    let parts = digests();
    let input = transparent(SIGHASH_ALL, 0);
    let before = signature_hash(&signed_tx(), &input, &parts);
    let mut tx = signed_tx();
    tx.transparent_bundle.as_mut().unwrap().vin[1].script_sig = vec![0xde, 0xad, 0xbe, 0xef];
    let after = signature_hash(&tx, &input, &parts);
    assert_eq!(before.as_ref(), after.as_ref());
    // Nor does its own signature enter.
    tx.transparent_bundle.as_mut().unwrap().vin[0].script_sig = Vec::new();
    assert_eq!(before.as_ref(), signature_hash(&tx, &input, &parts).as_ref());
}

#[test]
fn signature_hash_is_the_same_before_and_after_signing() {
    let parts = digests();
    for input in [SignableInput::Shielded, transparent(SIGHASH_ALL, 1), transparent(0x83, 0)] {
        assert_eq!(
            signature_hash(&unsigned_tx(), &input, &parts).as_ref(),
            signature_hash(&signed_tx(), &input, &parts).as_ref()
        );
    }
}

#[test]
fn signature_hash_depends_on_what_is_signed() {
    let parts = digests();
    let input = transparent(SIGHASH_ALL, 0);
    let base = *signature_hash(&signed_tx(), &input, &parts).as_ref();

    let mut tx = signed_tx();
    tx.consensus_branch_id = 1;
    assert_ne!(&base, signature_hash(&tx, &input, &parts).as_ref());

    let mut tx = signed_tx();
    tx.transparent_bundle.as_mut().unwrap().vin[0].sequence = 5;
    assert_ne!(&base, signature_hash(&tx, &input, &parts).as_ref());

    let mut tx = signed_tx();
    tx.transparent_bundle.as_mut().unwrap().vin[0].prevout.n = 2;
    assert_ne!(&base, signature_hash(&tx, &input, &parts).as_ref());

    let other_value = SignableInput::Transparent { hash_type: SIGHASH_ALL, index: 0, value: Amount(-1) };
    assert_ne!(&base, signature_hash(&signed_tx(), &other_value, &parts).as_ref());

    let mut other = digests();
    other.header_digest = [0x12; 32];
    assert_ne!(&base, signature_hash(&signed_tx(), &input, &other).as_ref());
    let mut other = digests();
    other.sapling_digest = None;
    assert_ne!(&base, signature_hash(&signed_tx(), &input, &other).as_ref());
}

#[test]
fn signature_hash_single_commits_to_its_output_only() {
    let parts = digests();
    let input = transparent(SIGHASH_SINGLE, 0);
    let base = *signature_hash(&signed_tx(), &input, &parts).as_ref();
    let mut tx = signed_tx();
    tx.transparent_bundle.as_mut().unwrap().vout[0].value = Amount(5001);
    assert_ne!(&base, signature_hash(&tx, &input, &parts).as_ref());
    // The second input has no output at its index: the outputs do not enter.
    let input = transparent(SIGHASH_SINGLE, 1);
    assert_eq!(
        signature_hash(&signed_tx(), &input, &parts).as_ref(),
        signature_hash(&tx, &input, &parts).as_ref()
    );
}

#[test]
fn amount_bytes_are_little_endian_twos_complement() {
    assert_eq!(Amount(1).to_i64_le_bytes(), vec![1u8, 0, 0, 0, 0, 0, 0, 0]);
    assert_eq!(Amount(-2).to_i64_le_bytes(), vec![0xfeu8, 0xff, 0xff, 0xff, 0xff, 0xff, 0xff, 0xff]);
    assert_eq!(Amount(0x0102_0304_0506_0708).to_i64_le_bytes(), vec![8u8, 7, 6, 5, 4, 3, 2, 1]);
}

#[test]
fn outpoint_and_output_bytes() {
    let mut bytes = Vec::new();
    OutPoint { hash: [7; 32], n: 0x0102_0304 }.write(&mut bytes);
    assert_eq!(bytes.len(), 36);
    assert_eq!(bytes[..32], [7u8; 32]);
    assert_eq!(bytes[32..], [4u8, 3, 2, 1]);
    let mut bytes = vec![0xee];
    TxOut { value: Amount(258), address: TransparentAddress([9; 20]) }.write(&mut bytes);
    assert_eq!(bytes.len(), 1 + 28);
    assert_eq!(bytes[..9], [0xeeu8, 2, 1, 0, 0, 0, 0, 0, 0]);
    assert_eq!(bytes[9..], [9u8; 20]);
}

#[test]
fn personalization_holds_the_branch() {
    assert_eq!(&TX_PERSONALIZATION_PREFIX, b"MASP_TxHash_");
    assert_eq!(&tx_personalization_bytes(0xe9ff_75a6), b"MASP_TxHash_\xa6\x75\xff\xe9");
    assert_eq!(&tx_personalization_bytes(0), b"MASP_TxHash_\x00\x00\x00\x00");
}

#[test]
fn preimages_are_laid_out_in_order() {
    let data = signature_preimage(&[1; 32], &[2; 32], &[3; 32]);
    assert_eq!(data.len(), 96);
    assert_eq!(data[..32], [1u8; 32]);
    assert_eq!(data[32..64], [2u8; 32]);
    assert_eq!(data[64..], [3u8; 32]);

    let data = transparent_sig_preimage(0x83, &[1; 32], &[2; 32], &[3; 32], &[4; 32]);
    assert_eq!(data.len(), 129);
    assert_eq!(data[0], 0x83);
    assert_eq!(data[1..33], [1u8; 32]);
    assert_eq!(data[33..65], [2u8; 32]);
    assert_eq!(data[65..97], [3u8; 32]);
    assert_eq!(data[97..], [4u8; 32]);

    let data = txin_sig_preimage(&OutPoint { hash: [9; 32], n: 2 }, &Amount(3), 0xffff_fffe);
    assert_eq!(data.len(), 48);
    assert_eq!(data[..32], [9u8; 32]);
    assert_eq!(data[32..36], [2u8, 0, 0, 0]);
    assert_eq!(data[36..44], [3u8, 0, 0, 0, 0, 0, 0, 0]);
    assert_eq!(data[44..], [0xfeu8, 0xff, 0xff, 0xff]);
}

#[test]
fn signature_hash_is_that_of_version_5() {
    let parts = digests();
    for input in [SignableInput::Shielded, transparent(SIGHASH_SINGLE, 0)] {
        assert_eq!(
            signature_hash(&signed_tx(), &input, &parts).as_ref(),
            &v5_signature_hash(&signed_tx(), &input, &parts)
        );
    }
}
