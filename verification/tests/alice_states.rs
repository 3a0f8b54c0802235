use swap::bitcoin::EncryptedSignature;
use swap::database::alice::{Alice, AliceEndState};
use swap::monero::{BlockHeight, PrivateKey};
use swap::protocol::alice::{AliceState, Environment, Observation, ObservationKind, Outcome};
use swap::protocol::State3;

fn state3() -> State3 {
    State3 {
        swap_id: 0x1234_5678_9abc_def0_0fed_cba9_8765_4321,
        peer: vec![1, 2, 3],
        alice_bitcoin_key: vec![2; 33],
        bob_bitcoin_key: vec![3; 33],
        alice_monero_key: vec![4; 32],
        bob_monero_key: vec![5; 32],
        btc: 1_000_000,
        xmr: 5_000_000_000_000,
        cancel_timelock: 72,
        punish_timelock: 144,
        tx_cancel: vec![10, 11],
        tx_refund: vec![12, 13, 14],
        tx_punish: vec![15],
        xmr_lock: vec![],
    }
}

fn env() -> Environment {
    Environment {
        bitcoin_finality_confirmations: 2,
        monero_wallet_height: BlockHeight { height: 700 },
    }
}

fn height() -> BlockHeight {
    BlockHeight { height: 700 }
}

fn advanced(outcome: Outcome) -> AliceState {
    match outcome {
        Outcome::Advanced(state) => state,
        Outcome::Ignored(state) => panic!("ignored in {:?}", state),
    }
}

#[test]
fn resume_from_waiting_for_tx_lock_confirmations_keeps_the_state() {
    let record = Alice::WaitingForTxLockConfirmations { state3: state3() };
    let resumed = AliceState::from(record);
    assert_eq!(
        resumed,
        AliceState::WaitingForTxLockConfirmations { state3: Box::new(state3()) }
    );
    assert_eq!(
        Alice::from(&resumed),
        Alice::WaitingForTxLockConfirmations { state3: state3() }
    );
}

#[test]
fn every_record_survives_load_and_store() {
    let records = vec![
        Alice::WatchingForTxLockInMempool { state3: state3() },
        Alice::WaitingForTxLockConfirmations { state3: state3() },
        Alice::WaitingForEncSig { monero_wallet_restore_blockheight: height(), state3: state3() },
        Alice::EncSigLearned {
            monero_wallet_restore_blockheight: height(),
            encrypted_signature: EncryptedSignature { bytes: vec![9, 9, 9] },
            state3: state3(),
        },
        Alice::CancelTimelockExpired {
            monero_wallet_restore_blockheight: height(),
            state3: state3(),
        },
        Alice::BtcCancelled { monero_wallet_restore_blockheight: height(), state3: state3() },
        Alice::BtcPunishable { monero_wallet_restore_blockheight: height(), state3: state3() },
        Alice::BtcRefunded {
            monero_wallet_restore_blockheight: height(),
            state3: state3(),
            spend_key: PrivateKey { bytes: vec![7; 32] },
        },
        Alice::Done(AliceEndState::SafelyAborted),
        Alice::Done(AliceEndState::BtcRedeemed),
        Alice::Done(AliceEndState::XmrRefunded),
        Alice::Done(AliceEndState::BtcPunished),
    ];
    for record in records {
        let text = record.to_string();
        let state = AliceState::from(record);
        let again = Alice::from(&state);
        assert_eq!(again.to_string(), text);
        assert_eq!(AliceState::from(again), state);
    }
}

#[test]
fn records_describe_themselves() {
    assert_eq!(
        Alice::WatchingForTxLockInMempool { state3: state3() }.to_string(),
        "Watching for TxLock in mempool"
    );
    assert_eq!(
        Alice::WaitingForTxLockConfirmations { state3: state3() }.to_string(),
        "Waiting for TxLock confirmations"
    );
    assert_eq!(
        Alice::WaitingForEncSig { monero_wallet_restore_blockheight: height(), state3: state3() }
            .to_string(),
        "Waiting Bob to send EncSig"
    );
    assert_eq!(
        Alice::BtcRefunded {
            monero_wallet_restore_blockheight: height(),
            state3: state3(),
            spend_key: PrivateKey { bytes: vec![] },
        }
        .to_string(),
        "Monero refundable"
    );
    assert_eq!(Alice::Done(AliceEndState::BtcPunished).to_string(), "Done: BtcPunished");
    assert_eq!(Alice::Done(AliceEndState::SafelyAborted).to_string(), "Done: SafelyAborted");
    assert_eq!(AliceEndState::XmrRefunded.to_string(), "XmrRefunded");
    assert!(Alice::Done(AliceEndState::BtcRedeemed).done());
    assert!(!Alice::WatchingForTxLockInMempool { state3: state3() }.done());
}

#[test]
fn happy_path_ends_with_bitcoin_redeemed() {
    let state = AliceState::WatchingForTxLockInMempool { state3: Box::new(state3()) };
    let state = advanced(state.step(Observation::TxLockSeenInMempool, env()));
    assert_eq!(state, AliceState::WaitingForTxLockConfirmations { state3: Box::new(state3()) });
    let state = match state.step(Observation::TxLockConfirmations { confirmations: 1 }, env()) {
        Outcome::Ignored(state) => state,
        Outcome::Advanced(state) => panic!("advanced to {:?}", state),
    };
    let state = advanced(state.step(Observation::TxLockConfirmations { confirmations: 2 }, env()));
    assert_eq!(
        state,
        AliceState::WaitingForEncSig {
            monero_wallet_restore_blockheight: height(),
            state3: Box::new(state3()),
        }
    );
    let state = advanced(state.step(
        Observation::EncSigReceived { encrypted_signature: EncryptedSignature { bytes: vec![8] } },
        env(),
    ));
    assert_eq!(
        state,
        AliceState::EncSigLearned {
            monero_wallet_restore_blockheight: height(),
            encrypted_signature: Box::new(EncryptedSignature { bytes: vec![8] }),
            state3: Box::new(state3()),
        }
    );
    let state = advanced(state.step(Observation::TxRedeemConfirmed, env()));
    assert_eq!(state, AliceState::BtcRedeemed);
    assert!(state.terminal());
    assert_eq!(Alice::from(&state), Alice::Done(AliceEndState::BtcRedeemed));
}

#[test]
fn setup_timeout_aborts_safely() {
    let state = AliceState::WatchingForTxLockInMempool { state3: Box::new(state3()) };
    let state = advanced(state.step(Observation::SetupTimeout, env()));
    assert_eq!(state, AliceState::SafelyAborted);
    assert_eq!(Alice::from(&state), Alice::Done(AliceEndState::SafelyAborted));
}

#[test]
fn refund_path_ends_with_monero_refunded() {
    let state = AliceState::WaitingForEncSig {
        monero_wallet_restore_blockheight: height(),
        state3: Box::new(state3()),
    };
    let state = match state.step(Observation::TxLockConfirmations { confirmations: 71 }, env()) {
        Outcome::Ignored(state) => state,
        Outcome::Advanced(state) => panic!("advanced to {:?}", state),
    };
    let state = advanced(state.step(Observation::TxLockConfirmations { confirmations: 72 }, env()));
    assert_eq!(
        state,
        AliceState::CancelTimelockExpired {
            monero_wallet_restore_blockheight: height(),
            state3: Box::new(state3()),
        }
    );
    let state =
        advanced(state.step(Observation::TxCancelConfirmations { confirmations: 1 }, env()));
    assert_eq!(
        state,
        AliceState::BtcCancelled {
            monero_wallet_restore_blockheight: height(),
            state3: Box::new(state3()),
        }
    );
    let state = advanced(state.step(
        Observation::TxRefundSeen { spend_key: PrivateKey { bytes: vec![6; 32] } },
        env(),
    ));
    assert_eq!(
        state,
        AliceState::BtcRefunded {
            monero_wallet_restore_blockheight: height(),
            spend_key: PrivateKey { bytes: vec![6; 32] },
            state3: Box::new(state3()),
        }
    );
    let state = advanced(state.step(Observation::XmrRefundConfirmed, env()));
    assert_eq!(state, AliceState::XmrRefunded);
}

#[test]
fn punish_path_ends_with_bitcoin_punished() {
    let state = AliceState::BtcCancelled {
        monero_wallet_restore_blockheight: height(),
        state3: Box::new(state3()),
    };
    let state = match state.step(Observation::TxCancelConfirmations { confirmations: 143 }, env())
    {
        Outcome::Ignored(state) => state,
        Outcome::Advanced(state) => panic!("advanced to {:?}", state),
    };
    let state =
        advanced(state.step(Observation::TxCancelConfirmations { confirmations: 144 }, env()));
    assert_eq!(
        state,
        AliceState::BtcPunishable {
            monero_wallet_restore_blockheight: height(),
            state3: Box::new(state3()),
        }
    );
    let state = advanced(state.step(Observation::TxPunishConfirmed, env()));
    assert_eq!(state, AliceState::BtcPunished);
}

#[test]
fn crash_after_monero_lock_derives_the_same_state_again() {
    let persisted = Alice::WaitingForTxLockConfirmations { state3: state3() };
    let first = advanced(
        AliceState::from(Alice::WaitingForTxLockConfirmations { state3: state3() })
            .step(Observation::TxLockConfirmations { confirmations: 3 }, env()),
    );
    let replayed = advanced(
        AliceState::from(persisted)
            .step(Observation::TxLockConfirmations { confirmations: 3 }, env()),
    );
    assert_eq!(first, replayed);
    assert_eq!(
        Alice::from(&replayed),
        Alice::WaitingForEncSig { monero_wallet_restore_blockheight: height(), state3: state3() }
    );
}

#[test]
fn finished_swap_ignores_every_observation() {
    for state in [
        AliceState::BtcRedeemed,
        AliceState::XmrRefunded,
        AliceState::BtcPunished,
        AliceState::SafelyAborted,
    ] {
        assert!(state.terminal());
        assert!(state.state3().is_none());
        assert!(state.expected_observations().is_empty());
        assert!(!state.advances_on(&Observation::TxRedeemConfirmed, env()));
        match state.step(Observation::AbortRequested, env()) {
            Outcome::Ignored(same) => assert!(same.terminal()),
            Outcome::Advanced(next) => panic!("advanced to {:?}", next),
        }
    }
}

#[test]
fn refund_wins_over_expired_punish_timelock() {
    let state = AliceState::BtcCancelled {
        monero_wallet_restore_blockheight: height(),
        state3: Box::new(state3()),
    };
    let observations = vec![
        Observation::TxPunishConfirmed,
        Observation::TxCancelConfirmations { confirmations: 500 },
        Observation::TxRefundSeen { spend_key: PrivateKey { bytes: vec![1] } },
        Observation::TxRefundSeen { spend_key: PrivateKey { bytes: vec![2] } },
    ];
    assert_eq!(state.resolve(&observations, env()), Some(2));
    assert_eq!(state.precedence_of(ObservationKind::TxRefundSeen), 0);
    assert_eq!(state.precedence_of(ObservationKind::TxCancelConfirmations), 1);
    assert_eq!(state.precedence_of(ObservationKind::SetupTimeout), 2);
    let too_early = vec![Observation::TxCancelConfirmations { confirmations: 143 }];
    assert_eq!(state.resolve(&too_early, env()), None);
    assert_eq!(state.resolve(&Vec::new(), env()), None);
    assert_eq!(
        state.expected_observations(),
        vec![ObservationKind::TxRefundSeen, ObservationKind::TxCancelConfirmations]
    );
    assert_eq!(state.state3(), Some(&state3()));
    assert!(state3().timelocks_ordered());
}

#[test]
fn abort_is_honoured_only_before_the_bitcoin_lock() {
    let before = AliceState::WatchingForTxLockInMempool { state3: Box::new(state3()) };
    assert!(before.advances_on(&Observation::AbortRequested, env()));
    assert_eq!(
        advanced(before.step(Observation::AbortRequested, env())),
        AliceState::SafelyAborted
    );
    let after = AliceState::WaitingForTxLockConfirmations { state3: Box::new(state3()) };
    assert!(!after.advances_on(&Observation::AbortRequested, env()));
    assert_eq!(Observation::AbortRequested.kind(), ObservationKind::AbortRequested);
    let dropped = advanced(after.step(Observation::TxLockDropped, env()));
    assert_eq!(dropped, AliceState::SafelyAborted);
}
