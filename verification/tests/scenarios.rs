use swap::asb::config::{query_user_for_initial_config, Answers, GetDefaults, SystemDirs};
use swap::bitcoin::{Amount, EncryptedSignature};
use swap::database::alice::{Alice, AliceEndState};
use swap::database::bob::{Bob, BobEndState};
use swap::database::encoding::DecodeError;
use swap::database::store::{Database, StoreError};
use swap::env::Testnet;
use swap::monero::{BlockHeight, PrivateKey, TransferProof};
use swap::protocol::alice::AliceState;
use swap::protocol::bob::BobState;
use swap::protocol::{alice, bob, BeginError, State3};

fn state3(btc: u64) -> State3 {
    State3 {
        swap_id: 77,
        peer: vec![1, 2, 3],
        alice_bitcoin_key: vec![2; 33],
        bob_bitcoin_key: vec![3; 33],
        alice_monero_key: vec![4; 32],
        bob_monero_key: vec![5; 32],
        btc,
        xmr: 5_000_000_000_000,
        cancel_timelock: 72,
        punish_timelock: 144,
        tx_cancel: vec![10, 11],
        tx_refund: vec![12, 13, 14],
        tx_punish: vec![15],
        xmr_lock: vec![16],
    }
}

fn alice_env() -> alice::Environment {
    alice::Environment {
        bitcoin_finality_confirmations: 1,
        monero_wallet_height: BlockHeight { height: 900 },
    }
}

fn bob_env() -> bob::Environment {
    bob::Environment { monero_finality_confirmations: 10 }
}

fn alice_on(
    db: &mut Database,
    state: AliceState,
    observations: Vec<alice::Observation>,
) -> AliceState {
    let mut state = state;
    for observation in observations {
        state = alice::swap::advance(db, 77, state, observation, alice_env()).unwrap();
    }
    state
}

fn bob_on(db: &mut Database, state: BobState, observations: Vec<bob::Observation>) -> BobState {
    let mut state = state;
    for observation in observations {
        state = bob::swap::advance(db, 77, state, observation, bob_env()).unwrap();
    }
    state
}

fn alice_until_xmr_locked(db: &mut Database) -> AliceState {
    let state = alice::swap::begin(db, state3(1_000_000)).unwrap();
    alice_on(
        db,
        state,
        vec![
            alice::Observation::TxLockSeenInMempool,
            alice::Observation::TxLockConfirmations { confirmations: 1 },
        ],
    )
}

fn bob_until_xmr_locked(db: &mut Database) -> BobState {
    let state = bob::swap::begin(db, state3(1_000_000)).unwrap();
    bob_on(
        db,
        state,
        vec![
            bob::Observation::TxLockPublished,
            bob::Observation::TransferProofReceived {
                lock_transfer_proof: TransferProof { tx_hash: vec![1; 32], tx_key: vec![2; 32] },
            },
            bob::Observation::XmrLockConfirmations { confirmations: 10 },
        ],
    )
}

#[test]
fn happy_path_on_testnet() {
    let dirs = SystemDirs { config: Some("/c".to_string()), data: Some("/d".to_string()) };
    let defaults = Testnet::getConfigFileDefaults(&dirs).unwrap();
    let answers = Answers::from_defaults(&defaults);
    let config = query_user_for_initial_config(true, defaults, answers).unwrap();
    assert_eq!(config.maker.min_buy_btc, Amount { sat: 200_000 });
    assert_eq!(config.maker.max_buy_btc, Amount { sat: 2_000_000 });
    assert_eq!(config.maker.ask_spread.mantissa, 2);
    assert_eq!(config.maker.ask_spread.scale, 2);
    assert!(config.maker.buys(Amount { sat: 1_000_000 }));

    let mut maker = Database::new();
    let mut taker = Database::new();
    let alice = alice_until_xmr_locked(&mut maker);
    let bob = bob_until_xmr_locked(&mut taker);
    assert_eq!(
        alice,
        AliceState::WaitingForEncSig {
            monero_wallet_restore_blockheight: BlockHeight { height: 900 },
            state3: Box::new(state3(1_000_000)),
        }
    );
    assert_eq!(bob, BobState::XmrLocked { state3: Box::new(state3(1_000_000)) });

    let bob = bob_on(&mut taker, bob, vec![bob::Observation::EncSigAcknowledged]);
    let alice = alice_on(
        &mut maker,
        alice,
        vec![
            alice::Observation::EncSigReceived {
                encrypted_signature: EncryptedSignature { bytes: vec![9; 64] },
            },
            alice::Observation::TxRedeemConfirmed,
        ],
    );
    let bob = bob_on(&mut taker, bob, vec![bob::Observation::TxRedeemSeen]);

    assert_eq!(alice, AliceState::BtcRedeemed);
    assert_eq!(bob, BobState::BtcRedeemed);
    assert_eq!(maker.get::<Alice>(77), Ok(Alice::Done(AliceEndState::BtcRedeemed)));
    assert_eq!(taker.get::<Bob>(77), Ok(Bob::Done(BobEndState::BtcRedeemed)));
    assert_eq!(maker.list_unfinished::<Alice>(), Ok(vec![]));
    assert_eq!(taker.list_unfinished::<Bob>(), Ok(vec![]));
}

#[test]
fn bob_aborts_before_the_bitcoin_lock() {
    let mut maker = Database::new();
    let alice = alice::swap::begin(&mut maker, state3(1_000_000)).unwrap();
    let alice = alice_on(&mut maker, alice, vec![alice::Observation::SetupTimeout]);
    assert_eq!(alice, AliceState::SafelyAborted);
    assert_eq!(maker.get::<Alice>(77), Ok(Alice::Done(AliceEndState::SafelyAborted)));

    let mut taker = Database::new();
    let bob = bob::swap::begin(&mut taker, state3(1_000_000)).unwrap();
    let bob = bob_on(&mut taker, bob, vec![bob::Observation::AbortRequested]);
    assert_eq!(bob, BobState::SafelyAborted);
    assert_eq!(taker.get::<Bob>(77), Ok(Bob::Done(BobEndState::SafelyAborted)));
}

#[test]
fn refund_path_of_both_sides() {
    let mut maker = Database::new();
    let mut taker = Database::new();
    let alice = alice_until_xmr_locked(&mut maker);
    let bob = bob_until_xmr_locked(&mut taker);

    let alice = alice_on(
        &mut maker,
        alice,
        vec![
            alice::Observation::TxLockConfirmations { confirmations: 72 },
            alice::Observation::TxCancelConfirmations { confirmations: 1 },
        ],
    );
    assert_eq!(
        maker.get::<Alice>(77),
        Ok(Alice::BtcCancelled {
            monero_wallet_restore_blockheight: BlockHeight { height: 900 },
            state3: state3(1_000_000),
        })
    );
    let bob = bob_on(
        &mut taker,
        bob,
        vec![
            bob::Observation::TxLockConfirmations { confirmations: 72 },
            bob::Observation::TxCancelConfirmations { confirmations: 1 },
            bob::Observation::TxRefundConfirmed,
        ],
    );
    let alice = alice_on(
        &mut maker,
        alice,
        vec![alice::Observation::TxRefundSeen { spend_key: PrivateKey { bytes: vec![8; 32] } }],
    );
    assert_eq!(
        maker.get::<Alice>(77),
        Ok(Alice::BtcRefunded {
            monero_wallet_restore_blockheight: BlockHeight { height: 900 },
            state3: state3(1_000_000),
            spend_key: PrivateKey { bytes: vec![8; 32] },
        })
    );
    let alice = alice_on(&mut maker, alice, vec![alice::Observation::XmrRefundConfirmed]);

    assert_eq!(alice, AliceState::XmrRefunded);
    assert_eq!(bob, BobState::BtcRefunded);
    assert_eq!(maker.get::<Alice>(77), Ok(Alice::Done(AliceEndState::XmrRefunded)));
    assert_eq!(taker.get::<Bob>(77), Ok(Bob::Done(BobEndState::BtcRefunded)));
}

#[test]
fn punish_path_of_both_sides() {
    let mut maker = Database::new();
    let mut taker = Database::new();
    let alice = alice_until_xmr_locked(&mut maker);
    let bob = bob_until_xmr_locked(&mut taker);

    let alice = alice_on(
        &mut maker,
        alice,
        vec![
            alice::Observation::TxLockConfirmations { confirmations: 72 },
            alice::Observation::TxCancelConfirmations { confirmations: 1 },
            alice::Observation::TxCancelConfirmations { confirmations: 144 },
            alice::Observation::TxPunishConfirmed,
        ],
    );
    let bob = bob_on(
        &mut taker,
        bob,
        vec![
            bob::Observation::TxLockConfirmations { confirmations: 300 },
            bob::Observation::TxCancelConfirmations { confirmations: 200 },
            bob::Observation::TxPunishSeen,
        ],
    );
    assert_eq!(alice, AliceState::BtcPunished);
    assert_eq!(bob, BobState::BtcPunished);
    assert_eq!(maker.get::<Alice>(77), Ok(Alice::Done(AliceEndState::BtcPunished)));
    assert_eq!(taker.get::<Bob>(77), Ok(Bob::Done(BobEndState::BtcPunished)));
}

#[test]
fn crash_between_monero_lock_and_its_record() {
    let mut maker = Database::new();
    let alice = alice::swap::begin(&mut maker, state3(1_000_000)).unwrap();
    let alice = alice_on(&mut maker, alice, vec![alice::Observation::TxLockSeenInMempool]);

    // What the process held in memory when it went down is lost; the store
    // has the state before the Monero lock.
    let lost = match alice.step(
        alice::Observation::TxLockConfirmations { confirmations: 1 },
        alice_env(),
    ) {
        alice::Outcome::Advanced(state) => state,
        alice::Outcome::Ignored(state) => panic!("ignored in {:?}", state),
    };
    let kept = maker.raw(77).unwrap().clone();
    let mut restarted = Database::new();
    assert_eq!(restarted.restore(77, kept), Ok(()));

    let resumed = alice::swap::resume(&restarted, 77).unwrap();
    assert_eq!(
        resumed,
        AliceState::WaitingForTxLockConfirmations { state3: Box::new(state3(1_000_000)) }
    );
    let again = alice_on(
        &mut restarted,
        resumed,
        vec![alice::Observation::TxLockConfirmations { confirmations: 1 }],
    );
    assert_eq!(again, lost);
    assert_eq!(
        restarted.get::<Alice>(77),
        Ok(Alice::WaitingForEncSig {
            monero_wallet_restore_blockheight: BlockHeight { height: 900 },
            state3: state3(1_000_000),
        })
    );
    let end = alice_on(
        &mut restarted,
        again,
        vec![
            alice::Observation::EncSigReceived {
                encrypted_signature: EncryptedSignature { bytes: vec![9; 64] },
            },
            alice::Observation::TxRedeemConfirmed,
        ],
    );
    assert_eq!(end, AliceState::BtcRedeemed);
    assert_eq!(restarted.get::<Alice>(77), Ok(Alice::Done(AliceEndState::BtcRedeemed)));
}

#[test]
fn swap_begins_once_and_with_timelocks_in_order() {
    let mut db = Database::new();
    let disordered = State3 { cancel_timelock: 144, punish_timelock: 144, ..state3(1) };
    assert_eq!(alice::swap::begin(&mut db, disordered), Err(BeginError::TimelocksOutOfOrder));
    let zero = State3 { cancel_timelock: 0, ..state3(1) };
    assert_eq!(bob::swap::begin(&mut db, zero), Err(BeginError::TimelocksOutOfOrder));
    assert_eq!(db.len(), 0);
    assert_eq!(AliceState::start(State3 { punish_timelock: 72, ..state3(1) }), None);
    assert_eq!(
        AliceState::start(state3(1)),
        Some(AliceState::WatchingForTxLockInMempool { state3: Box::new(state3(1)) })
    );

    assert!(alice::swap::begin(&mut db, state3(1)).is_ok());
    assert_eq!(alice::swap::begin(&mut db, state3(2)), Err(BeginError::AlreadyExists));
    assert_eq!(bob::swap::begin(&mut db, state3(2)), Err(BeginError::AlreadyExists));
    assert_eq!(db.get::<Alice>(77), Ok(Alice::WatchingForTxLockInMempool { state3: state3(1) }));
}

#[test]
fn a_swap_does_not_advance_without_its_record() {
    let mut db = Database::new();
    let state = AliceState::WatchingForTxLockInMempool { state3: Box::new(state3(1)) };
    assert_eq!(
        alice::swap::advance(&mut db, 77, state, alice::Observation::SetupTimeout, alice_env()),
        Err(StoreError::NotFound)
    );
    assert_eq!(db.len(), 0);
    assert_eq!(alice::swap::resume(&db, 77), Err(StoreError::NotFound));
    assert_eq!(bob::swap::resume(&db, 77), Err(StoreError::NotFound));

    let ignored = AliceState::WatchingForTxLockInMempool { state3: Box::new(state3(1)) };
    assert_eq!(
        alice::swap::advance(&mut db, 77, ignored, alice::Observation::TxRedeemConfirmed, alice_env()),
        Ok(AliceState::WatchingForTxLockInMempool { state3: Box::new(state3(1)) })
    );

    assert_eq!(db.restore(77, vec![1, 200]), Ok(()));
    assert_eq!(
        alice::swap::resume(&db, 77),
        Err(StoreError::Corrupt(DecodeError::UnknownVariant))
    );
    assert_eq!(db.restore(77, vec![1, 8, 0]), Err(StoreError::AlreadyExists));
    assert_eq!(db.raw(77), Some(&vec![1, 200]));
    assert_eq!(db.raw(78), None);
    let bob = BobState::BtcLocked { state3: Box::new(state3(1)) };
    assert_eq!(
        bob::swap::advance(&mut db, 78, bob, bob::Observation::AbortRequested, bob_env()),
        Ok(BobState::BtcLocked { state3: Box::new(state3(1)) })
    );
}

#[test]
fn bob_takes_the_refund_before_anything_else() {
    let state = BobState::BtcCancelled { state3: Box::new(state3(1)) };
    let observations = vec![
        bob::Observation::TxPunishSeen,
        bob::Observation::TxLockConfirmations { confirmations: 500 },
        bob::Observation::TxRefundConfirmed,
    ];
    assert_eq!(state.resolve(&observations, bob_env()), Some(2));
    assert_eq!(
        state.expected_observations(),
        vec![bob::ObservationKind::TxRefundConfirmed, bob::ObservationKind::TxPunishSeen]
    );
    assert_eq!(state.precedence_of(bob::ObservationKind::TxPunishSeen), 1);
    assert_eq!(state.precedence_of(bob::ObservationKind::TxRedeemSeen), 2);
    assert_eq!(bob::Observation::TxRedeemSeen.kind(), bob::ObservationKind::TxRedeemSeen);
    assert!(state.advances_on(&bob::Observation::TxPunishSeen, bob_env()));
    assert!(!state.advances_on(&bob::Observation::TxRedeemSeen, bob_env()));

    let waiting = BobState::EncSigSent { state3: Box::new(state3(1)) };
    let both = vec![
        bob::Observation::TxLockConfirmations { confirmations: 72 },
        bob::Observation::TxRedeemSeen,
    ];
    assert_eq!(waiting.resolve(&both, bob_env()), Some(1));
    let early = vec![bob::Observation::TxLockConfirmations { confirmations: 71 }];
    assert_eq!(waiting.resolve(&early, bob_env()), None);
    assert!(BobState::BtcRefunded.expected_observations().is_empty());
}
