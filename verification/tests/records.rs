use swap::bitcoin::{Amount, EncryptedSignature};
use swap::database::alice::{Alice, AliceEndState};
use swap::database::bob::{Bob, BobEndState};
use swap::database::encoding::{
    get_blob, get_state3, get_u128, get_u32, get_u64, put_blob, put_state3, put_u128, put_u32,
    put_u64, DecodeError, VERSION,
};
use swap::monero::{BlockHeight, PrivateKey, TransferProof};
use swap::protocol::bob::BobState;
use swap::protocol::{copy_bytes, State3};

fn small_state3() -> State3 {
    State3 {
        swap_id: 1,
        peer: vec![0xaa],
        alice_bitcoin_key: vec![],
        bob_bitcoin_key: vec![0xbb, 0xcc],
        alice_monero_key: vec![],
        bob_monero_key: vec![],
        btc: 2,
        xmr: 3,
        cancel_timelock: 4,
        punish_timelock: 5,
        tx_cancel: vec![],
        tx_refund: vec![],
        tx_punish: vec![],
        xmr_lock: vec![0xdd],
    }
}

fn small_state3_bytes() -> Vec<u8> {
    let mut bytes = vec![1u8];
    bytes.extend(vec![0u8; 15]);
    bytes.extend(vec![1, 0, 0, 0, 0, 0, 0, 0, 0xaa]);
    bytes.extend(vec![0u8; 8]);
    bytes.extend(vec![2, 0, 0, 0, 0, 0, 0, 0, 0xbb, 0xcc]);
    bytes.extend(vec![0u8; 8]);
    bytes.extend(vec![0u8; 8]);
    bytes.extend(vec![2, 0, 0, 0, 0, 0, 0, 0]);
    bytes.extend(vec![3, 0, 0, 0, 0, 0, 0, 0]);
    bytes.extend(vec![4, 0, 0, 0]);
    bytes.extend(vec![5, 0, 0, 0]);
    bytes.extend(vec![0u8; 8]);
    bytes.extend(vec![0u8; 8]);
    bytes.extend(vec![0u8; 8]);
    bytes.extend(vec![1, 0, 0, 0, 0, 0, 0, 0, 0xdd]);
    bytes
}

fn all_alice_records() -> Vec<Alice> {
    let height = BlockHeight { height: 0x0102_0304 };
    vec![
        Alice::WatchingForTxLockInMempool { state3: small_state3() },
        Alice::WaitingForTxLockConfirmations { state3: small_state3() },
        Alice::WaitingForEncSig { monero_wallet_restore_blockheight: height, state3: small_state3() },
        Alice::EncSigLearned {
            monero_wallet_restore_blockheight: height,
            encrypted_signature: EncryptedSignature { bytes: vec![1, 2, 3, 4, 5] },
            state3: small_state3(),
        },
        Alice::CancelTimelockExpired {
            monero_wallet_restore_blockheight: height,
            state3: small_state3(),
        },
        Alice::BtcCancelled { monero_wallet_restore_blockheight: height, state3: small_state3() },
        Alice::BtcPunishable { monero_wallet_restore_blockheight: height, state3: small_state3() },
        Alice::BtcRefunded {
            monero_wallet_restore_blockheight: height,
            state3: small_state3(),
            spend_key: PrivateKey { bytes: vec![9; 32] },
        },
        Alice::Done(AliceEndState::SafelyAborted),
        Alice::Done(AliceEndState::BtcRedeemed),
        Alice::Done(AliceEndState::XmrRefunded),
        Alice::Done(AliceEndState::BtcPunished),
    ]
}

fn all_bob_records() -> Vec<Bob> {
    vec![
        Bob::Started { btc: Amount { sat: 1_000_000 } },
        Bob::ExecutionSetupDone { state3: small_state3() },
        Bob::BtcLocked { state3: small_state3() },
        Bob::XmrLockProofReceived {
            state3: small_state3(),
            lock_transfer_proof: TransferProof { tx_hash: vec![7; 32], tx_key: vec![8; 32] },
        },
        Bob::XmrLocked { state3: small_state3() },
        Bob::EncSigSent { state3: small_state3() },
        Bob::CancelTimelockExpired { state3: small_state3() },
        Bob::BtcCancelled { state3: small_state3() },
        Bob::Done(BobEndState::SafelyAborted),
        Bob::Done(BobEndState::BtcRedeemed),
        Bob::Done(BobEndState::BtcRefunded),
        Bob::Done(BobEndState::BtcPunished),
    ]
}

#[test]
fn every_alice_record_survives_encoding() {
    for record in all_alice_records() {
        let bytes = record.encode();
        assert_eq!(bytes[0], VERSION);
        assert_eq!(Alice::decode(&bytes), Ok(record));
    }
}

#[test]
fn every_bob_record_survives_encoding() {
    for record in all_bob_records() {
        let bytes = record.encode();
        assert_eq!(bytes[0], VERSION);
        assert_eq!(Bob::decode(&bytes), Ok(record));
    }
}

#[test]
fn alice_records_have_the_stated_layout() {
    assert_eq!(Alice::Done(AliceEndState::SafelyAborted).encode(), vec![1, 8, 0]);
    assert_eq!(Alice::Done(AliceEndState::BtcRedeemed).encode(), vec![1, 8, 1]);
    assert_eq!(Alice::Done(AliceEndState::XmrRefunded).encode(), vec![1, 8, 2]);
    assert_eq!(Alice::Done(AliceEndState::BtcPunished).encode(), vec![1, 8, 3]);

    let mut watching = vec![1u8, 0];
    watching.extend(small_state3_bytes());
    assert_eq!(Alice::WatchingForTxLockInMempool { state3: small_state3() }.encode(), watching);

    let mut learned = vec![1u8, 3, 4, 3, 2, 1, 2, 0, 0, 0, 0, 0, 0, 0, 0xee, 0xff];
    learned.extend(small_state3_bytes());
    assert_eq!(
        Alice::EncSigLearned {
            monero_wallet_restore_blockheight: BlockHeight { height: 0x0102_0304 },
            encrypted_signature: EncryptedSignature { bytes: vec![0xee, 0xff] },
            state3: small_state3(),
        }
        .encode(),
        learned
    );

    let mut refunded = vec![1u8, 7, 4, 3, 2, 1];
    refunded.extend(small_state3_bytes());
    refunded.extend(vec![1, 0, 0, 0, 0, 0, 0, 0, 0x11]);
    assert_eq!(
        Alice::BtcRefunded {
            monero_wallet_restore_blockheight: BlockHeight { height: 0x0102_0304 },
            state3: small_state3(),
            spend_key: PrivateKey { bytes: vec![0x11] },
        }
        .encode(),
        refunded
    );
}

#[test]
fn bob_records_have_the_stated_layout() {
    assert_eq!(
        Bob::Started { btc: Amount { sat: 0x0102 } }.encode(),
        vec![1, 0, 2, 1, 0, 0, 0, 0, 0, 0]
    );
    assert_eq!(Bob::Done(BobEndState::BtcRefunded).encode(), vec![1, 8, 2]);
    let mut proof = vec![1u8, 3];
    proof.extend(small_state3_bytes());
    proof.extend(vec![1, 0, 0, 0, 0, 0, 0, 0, 0x21]);
    proof.extend(vec![2, 0, 0, 0, 0, 0, 0, 0, 0x22, 0x23]);
    assert_eq!(
        Bob::XmrLockProofReceived {
            state3: small_state3(),
            lock_transfer_proof: TransferProof { tx_hash: vec![0x21], tx_key: vec![0x22, 0x23] },
        }
        .encode(),
        proof
    );
}

#[test]
fn unknown_version_is_told_apart() {
    assert_eq!(Alice::decode(&[2, 8, 0]), Err(DecodeError::UnknownVersion));
    assert_eq!(Alice::decode(&[0, 0]), Err(DecodeError::UnknownVersion));
    assert_eq!(Bob::decode(&[9, 8, 0]), Err(DecodeError::UnknownVersion));
}

#[test]
fn unknown_variant_is_told_apart() {
    assert_eq!(Alice::decode(&[1, 9]), Err(DecodeError::UnknownVariant));
    assert_eq!(Alice::decode(&[1, 255, 0, 0]), Err(DecodeError::UnknownVariant));
    assert_eq!(Alice::decode(&[1, 8, 4]), Err(DecodeError::UnknownVariant));
    assert_eq!(Bob::decode(&[1, 9, 0]), Err(DecodeError::UnknownVariant));
    assert_eq!(Bob::decode(&[1, 8, 200]), Err(DecodeError::UnknownVariant));
}

#[test]
fn short_and_long_records_are_malformed() {
    assert_eq!(Alice::decode(&[]), Err(DecodeError::Malformed));
    assert_eq!(Alice::decode(&[1]), Err(DecodeError::Malformed));
    assert_eq!(Alice::decode(&[1, 8]), Err(DecodeError::Malformed));
    assert_eq!(Alice::decode(&[1, 8, 0, 0]), Err(DecodeError::Malformed));
    assert_eq!(Bob::decode(&[1, 0, 1, 2, 3]), Err(DecodeError::Malformed));
    assert_eq!(Bob::decode(&[1, 0, 1, 2, 3, 4, 5, 6, 7, 8, 9]), Err(DecodeError::Malformed));
    for record in all_alice_records() {
        let bytes = record.encode();
        if bytes.len() > 3 {
            assert_eq!(Alice::decode(&bytes[..bytes.len() - 1]), Err(DecodeError::Malformed));
            assert_eq!(Alice::decode(&bytes[..2]), Err(DecodeError::Malformed));
        }
        let mut longer = bytes.clone();
        longer.push(0);
        assert_eq!(Alice::decode(&longer), Err(DecodeError::Malformed));
    }
    for record in all_bob_records() {
        let bytes = record.encode();
        if bytes.len() > 3 {
            assert_eq!(Bob::decode(&bytes[..bytes.len() - 1]), Err(DecodeError::Malformed));
        }
        let mut longer = bytes.clone();
        longer.push(0);
        assert_eq!(Bob::decode(&longer), Err(DecodeError::Malformed));
    }
}

#[test]
fn a_blob_longer_than_the_rest_is_malformed() {
    let mut bytes = vec![1u8, 0];
    bytes.extend(vec![0u8; 16]);
    bytes.extend(vec![0xff; 8]);
    bytes.extend(vec![0u8; 200]);
    assert_eq!(Alice::decode(&bytes), Err(DecodeError::Malformed));
}

#[test]
fn parts_are_laid_out_and_read_back() {
    let mut out = vec![0x55u8];
    put_u32(&mut out, 0x0a0b_0c0d);
    put_u64(&mut out, 0x0102_0304_0506_0708);
    put_u128(&mut out, 0x1112_1314_1516_1718_191a_1b1c_1d1e_1f20);
    put_blob(&mut out, &vec![1, 2, 3]);
    put_state3(&mut out, &small_state3());
    let mut expected = vec![0x55u8, 0x0d, 0x0c, 0x0b, 0x0a];
    expected.extend(vec![8, 7, 6, 5, 4, 3, 2, 1]);
    expected.extend(vec![
        0x20, 0x1f, 0x1e, 0x1d, 0x1c, 0x1b, 0x1a, 0x19, 0x18, 0x17, 0x16, 0x15, 0x14, 0x13, 0x12,
        0x11,
    ]);
    expected.extend(vec![3, 0, 0, 0, 0, 0, 0, 0, 1, 2, 3]);
    expected.extend(small_state3_bytes());
    assert_eq!(out, expected);

    assert_eq!(get_u32(&out, 1), Some((0x0a0b_0c0d, 5)));
    assert_eq!(get_u64(&out, 5), Some((0x0102_0304_0506_0708, 13)));
    assert_eq!(get_u128(&out, 13), Some((0x1112_1314_1516_1718_191a_1b1c_1d1e_1f20, 29)));
    assert_eq!(get_blob(&out, 29), Some((vec![1, 2, 3], 40)));
    assert_eq!(get_state3(&out, 40), Some((small_state3(), out.len())));
    assert_eq!(get_u32(&out, out.len() - 3), None);
    assert_eq!(get_u64(&out, out.len()), None);
    assert_eq!(get_u128(&out, out.len() - 15), None);
    assert_eq!(get_blob(&out, out.len() - 8), None);
    assert_eq!(get_state3(&out, 41), None);
}

#[test]
fn bob_record_survives_load_and_store() {
    for record in all_bob_records() {
        let bytes = record.encode();
        let state = BobState::from(record);
        let again = Bob::from(&state);
        assert_eq!(again.encode(), bytes);
        assert_eq!(again.done(), state.terminal());
        assert_eq!(BobState::from(again), state);
    }
    assert_eq!(BobEndState::BtcRefunded.to_string(), "BtcRefunded");
    assert_eq!(BobEndState::SafelyAborted.to_string(), "SafelyAborted");
    assert_eq!(BobEndState::BtcRedeemed.to_string(), "BtcRedeemed");
    assert_eq!(BobEndState::BtcPunished.to_string(), "BtcPunished");
}

#[test]
fn copies_hold_what_their_source_holds() {
    let state3 = small_state3();
    assert_eq!(state3.clone(), state3);
    assert_eq!(copy_bytes(&vec![1, 2, 3]), vec![1, 2, 3]);
    let signature = EncryptedSignature { bytes: vec![4, 5] };
    assert_eq!(signature.clone(), signature);
    let key = PrivateKey { bytes: vec![6] };
    assert_eq!(key.clone(), key);
    let proof = TransferProof { tx_hash: vec![7], tx_key: vec![8, 9] };
    assert_eq!(proof.clone(), proof);
    let disordered = State3 { cancel_timelock: 5, punish_timelock: 5, ..small_state3() };
    assert!(!disordered.timelocks_ordered());
    let zero = State3 { cancel_timelock: 0, punish_timelock: 5, ..small_state3() };
    assert!(!zero.timelocks_ordered());
    assert!(small_state3().timelocks_ordered());
}
