use swap::database::alice::{Alice, AliceEndState};
use swap::database::bob::{Bob, BobEndState};
use swap::database::encoding::DecodeError;
use swap::database::store::{Database, Record, StoreError};
use swap::monero::BlockHeight;
use swap::protocol::State3;

fn state3(swap_id: u128) -> State3 {
    State3 {
        swap_id,
        peer: vec![1],
        alice_bitcoin_key: vec![2],
        bob_bitcoin_key: vec![3],
        alice_monero_key: vec![4],
        bob_monero_key: vec![5],
        btc: 100,
        xmr: 200,
        cancel_timelock: 10,
        punish_timelock: 20,
        tx_cancel: vec![6],
        tx_refund: vec![7],
        tx_punish: vec![8],
        xmr_lock: vec![9],
    }
}

#[test]
fn insert_fails_where_the_id_exists() {
    let mut db = Database::new();
    assert_eq!(db.len(), 0);
    let first = Alice::WatchingForTxLockInMempool { state3: state3(7) };
    assert_eq!(db.insert(7, &first), Ok(()));
    assert!(db.contains(7));
    assert!(!db.contains(8));
    let second = Alice::Done(AliceEndState::SafelyAborted);
    assert_eq!(db.insert(7, &second), Err(StoreError::AlreadyExists));
    assert_eq!(db.get::<Alice>(7), Ok(Alice::WatchingForTxLockInMempool { state3: state3(7) }));
    assert_eq!(db.len(), 1);
}

#[test]
fn update_replaces_the_record() {
    let mut db = Database::new();
    let first = Alice::WatchingForTxLockInMempool { state3: state3(7) };
    assert_eq!(db.update(7, &first), Err(StoreError::NotFound));
    assert_eq!(db.len(), 0);
    assert_eq!(db.insert(7, &first), Ok(()));
    assert_eq!(db.insert(9, &first), Ok(()));
    let next = Alice::WaitingForEncSig {
        monero_wallet_restore_blockheight: BlockHeight { height: 5 },
        state3: state3(7),
    };
    assert_eq!(db.update(7, &next), Ok(()));
    assert_eq!(db.len(), 2);
    assert_eq!(
        db.get::<Alice>(7),
        Ok(Alice::WaitingForEncSig {
            monero_wallet_restore_blockheight: BlockHeight { height: 5 },
            state3: state3(7),
        })
    );
    assert_eq!(db.get::<Alice>(9), Ok(Alice::WatchingForTxLockInMempool { state3: state3(7) }));
}

#[test]
fn get_tells_missing_from_unreadable() {
    let mut db = Database::new();
    assert_eq!(db.get::<Alice>(1), Err(StoreError::NotFound));
    assert_eq!(db.insert(1, &Bob::Done(BobEndState::BtcRefunded)), Ok(()));
    assert_eq!(db.get::<Bob>(1), Ok(Bob::Done(BobEndState::BtcRefunded)));
    assert_eq!(db.get::<Alice>(1), Ok(Alice::Done(AliceEndState::XmrRefunded)));
    assert_eq!(db.insert(2, &Bob::BtcLocked { state3: state3(2) }), Ok(()));
    assert_eq!(db.get::<Alice>(2), Err(StoreError::Corrupt(DecodeError::Malformed)));
}

#[test]
fn list_unfinished_leaves_finished_swaps_out() {
    let mut db = Database::new();
    assert_eq!(db.list_unfinished::<Alice>(), Ok(vec![]));
    assert_eq!(db.insert(3, &Alice::WatchingForTxLockInMempool { state3: state3(3) }), Ok(()));
    assert_eq!(db.insert(1, &Alice::Done(AliceEndState::BtcRedeemed)), Ok(()));
    assert_eq!(db.insert(2, &Alice::WaitingForTxLockConfirmations { state3: state3(2) }), Ok(()));
    assert_eq!(
        db.list_unfinished::<Alice>(),
        Ok(vec![
            (3, Alice::WatchingForTxLockInMempool { state3: state3(3) }),
            (2, Alice::WaitingForTxLockConfirmations { state3: state3(2) }),
        ])
    );
    assert_eq!(db.update(3, &Alice::Done(AliceEndState::SafelyAborted)), Ok(()));
    assert_eq!(
        db.list_unfinished::<Alice>(),
        Ok(vec![(2, Alice::WaitingForTxLockConfirmations { state3: state3(2) })])
    );
    assert_eq!(db.get::<Alice>(3), Ok(Alice::Done(AliceEndState::SafelyAborted)));
    assert_eq!(db.len(), 3);
    assert_eq!(db.list_ids(), vec![3, 1, 2]);
    assert_eq!(Database::new().list_ids(), Vec::<u128>::new());
}

#[test]
fn list_unfinished_fails_on_an_unreadable_record() {
    let mut db = Database::new();
    assert_eq!(db.insert(1, &Bob::Started { btc: swap::bitcoin::Amount { sat: 5 } }), Ok(()));
    assert_eq!(db.insert(2, &Bob::Done(BobEndState::BtcRedeemed)), Ok(()));
    assert_eq!(
        db.list_unfinished::<Bob>(),
        Ok(vec![(1, Bob::Started { btc: swap::bitcoin::Amount { sat: 5 } })])
    );
    assert_eq!(
        db.list_unfinished::<Alice>(),
        Err(StoreError::Corrupt(DecodeError::Malformed))
    );
}

#[test]
fn records_say_whether_their_swap_is_over() {
    let running = Alice::BtcCancelled {
        monero_wallet_restore_blockheight: BlockHeight { height: 1 },
        state3: state3(1),
    };
    assert!(!running.is_finished());
    assert!(Alice::Done(AliceEndState::BtcPunished).is_finished());
    assert!(Bob::Done(BobEndState::BtcPunished).is_finished());
    assert!(!Bob::EncSigSent { state3: state3(1) }.is_finished());
    assert_eq!(Alice::from_bytes(&running.to_bytes()), Ok(running));
    assert_eq!(Bob::from_bytes(&[1, 8, 1]), Ok(Bob::Done(BobEndState::BtcRedeemed)));
}
