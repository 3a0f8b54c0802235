use swap::bitcoin::Amount;
use swap::database::bob::{Bob, BobEndState};
use swap::monero::TransferProof;
use swap::protocol::bob::{BobState, Environment, Observation, Outcome};
use swap::protocol::State3;

fn state3() -> State3 {
    State3 {
        swap_id: 42,
        peer: vec![1, 2, 3],
        alice_bitcoin_key: vec![2; 33],
        bob_bitcoin_key: vec![3; 33],
        alice_monero_key: vec![4; 32],
        bob_monero_key: vec![5; 32],
        btc: 1_000_000,
        xmr: 5_000_000_000_000,
        cancel_timelock: 72,
        punish_timelock: 144,
        tx_cancel: vec![10, 11],
        tx_refund: vec![12, 13, 14],
        tx_punish: vec![15],
        xmr_lock: vec![16],
    }
}

fn env() -> Environment {
    Environment { monero_finality_confirmations: 10 }
}

fn advanced(outcome: Outcome) -> BobState {
    match outcome {
        Outcome::Advanced(state) => state,
        Outcome::Ignored(state) => panic!("ignored in {:?}", state),
    }
}

fn ignored(outcome: Outcome) -> BobState {
    match outcome {
        Outcome::Ignored(state) => state,
        Outcome::Advanced(state) => panic!("advanced to {:?}", state),
    }
}

#[test]
fn bob_happy_path_ends_with_bitcoin_redeemed() {
    let state = BobState::Started { btc: Amount { sat: 1_000_000 } };
    assert!(state.state3().is_none());
    let state =
        advanced(state.step(Observation::ExecutionSetupCompleted { state3: state3() }, env()));
    assert_eq!(state, BobState::ExecutionSetupDone { state3: Box::new(state3()) });
    let state = advanced(state.step(Observation::TxLockPublished, env()));
    assert_eq!(state, BobState::BtcLocked { state3: Box::new(state3()) });
    let proof = TransferProof { tx_hash: vec![1; 32], tx_key: vec![2; 32] };
    let state = advanced(
        state.step(Observation::TransferProofReceived { lock_transfer_proof: proof.clone() }, env()),
    );
    assert_eq!(
        state,
        BobState::XmrLockProofReceived { state3: Box::new(state3()), lock_transfer_proof: proof }
    );
    let state = ignored(state.step(Observation::XmrLockConfirmations { confirmations: 9 }, env()));
    let state = advanced(state.step(Observation::XmrLockConfirmations { confirmations: 10 }, env()));
    assert_eq!(state, BobState::XmrLocked { state3: Box::new(state3()) });
    let state = advanced(state.step(Observation::EncSigAcknowledged, env()));
    assert_eq!(state, BobState::EncSigSent { state3: Box::new(state3()) });
    assert_eq!(state.state3(), Some(&state3()));
    let state = advanced(state.step(Observation::TxRedeemSeen, env()));
    assert_eq!(state, BobState::BtcRedeemed);
    assert!(state.terminal());
    assert_eq!(Bob::from(&state), Bob::Done(BobEndState::BtcRedeemed));
}

#[test]
fn bob_refund_path_ends_with_bitcoin_refunded() {
    let state = BobState::BtcLocked { state3: Box::new(state3()) };
    let state = ignored(state.step(Observation::TxLockConfirmations { confirmations: 71 }, env()));
    let state = advanced(state.step(Observation::TxLockConfirmations { confirmations: 72 }, env()));
    assert_eq!(state, BobState::CancelTimelockExpired { state3: Box::new(state3()) });
    let state = ignored(state.step(Observation::TxCancelConfirmations { confirmations: 0 }, env()));
    let state = advanced(state.step(Observation::TxCancelConfirmations { confirmations: 1 }, env()));
    assert_eq!(state, BobState::BtcCancelled { state3: Box::new(state3()) });
    let state = advanced(state.step(Observation::TxRefundConfirmed, env()));
    assert_eq!(state, BobState::BtcRefunded);
    assert_eq!(Bob::from(&state), Bob::Done(BobEndState::BtcRefunded));
}

#[test]
fn bob_is_punished_after_staying_away() {
    let state = BobState::BtcCancelled { state3: Box::new(state3()) };
    let state = advanced(state.step(Observation::TxPunishSeen, env()));
    assert_eq!(state, BobState::BtcPunished);
    assert_eq!(Bob::from(&state), Bob::Done(BobEndState::BtcPunished));
}

#[test]
fn cancel_timelock_ends_every_wait_after_the_lock() {
    let proof = TransferProof { tx_hash: vec![1], tx_key: vec![2] };
    let waiting = vec![
        BobState::BtcLocked { state3: Box::new(state3()) },
        BobState::XmrLockProofReceived { state3: Box::new(state3()), lock_transfer_proof: proof },
        BobState::XmrLocked { state3: Box::new(state3()) },
        BobState::EncSigSent { state3: Box::new(state3()) },
    ];
    for state in waiting {
        let state =
            advanced(state.step(Observation::TxLockConfirmations { confirmations: 100 }, env()));
        assert_eq!(state, BobState::CancelTimelockExpired { state3: Box::new(state3()) });
    }
}

#[test]
fn bob_aborts_only_before_the_bitcoin_lock() {
    let started = BobState::Started { btc: Amount { sat: 1 } };
    assert_eq!(advanced(started.step(Observation::AbortRequested, env())), BobState::SafelyAborted);
    let ready = BobState::ExecutionSetupDone { state3: Box::new(state3()) };
    assert_eq!(advanced(ready.step(Observation::AbortRequested, env())), BobState::SafelyAborted);
    let locked = BobState::BtcLocked { state3: Box::new(state3()) };
    assert_eq!(
        ignored(locked.step(Observation::AbortRequested, env())),
        BobState::BtcLocked { state3: Box::new(state3()) }
    );
}

#[test]
fn setup_with_timelocks_out_of_order_is_not_taken() {
    let disordered = State3 { cancel_timelock: 144, punish_timelock: 72, ..state3() };
    let started = BobState::Started { btc: Amount { sat: 1 } };
    let state =
        ignored(started.step(Observation::ExecutionSetupCompleted { state3: disordered }, env()));
    assert_eq!(state, BobState::Started { btc: Amount { sat: 1 } });
}

#[test]
fn finished_bob_ignores_every_observation() {
    for state in [
        BobState::BtcRedeemed,
        BobState::BtcRefunded,
        BobState::BtcPunished,
        BobState::SafelyAborted,
    ] {
        assert!(state.terminal());
        assert!(ignored(state.step(Observation::TxRefundConfirmed, env())).terminal());
    }
}
