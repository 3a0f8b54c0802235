//! The taker's swap record: what is kept of a swap's state so that a
//! restarted process can take the swap up again where it was.

use crate::bitcoin::Amount;
use crate::database::encoding::{
    DecodeError, VERSION, blob, get_blob, get_state3, get_u64, lemma_parse_blob,
    lemma_parse_state3, lemma_parse_state3_of_nothing, lemma_parse_u64, lemma_regroup,
    lemma_state3_fits, parse_blob, parse_state3, parse_u64, put_blob, put_state3, put_u64, rest_of,
    value_of,
};
use crate::monero::{TransferProof, TransferProofView};
use crate::protocol::bob::BobState;
use crate::protocol::{State3, State3View};
use vstd::bytes::spec_u64_to_le_bytes;
use vstd::prelude::*;
use vstd::std_specs::convert::FromSpecImpl;

verus! {

/// How a finished swap ended for the taker.
#[derive(Copy, Clone, Debug, PartialEq, Eq, Structural)]
pub enum BobEndState {
    SafelyAborted,
    BtcRedeemed,
    BtcRefunded,
    BtcPunished,
}

/// What a [`Bob`] record holds, as mathematical values.
pub enum BobView {
    Started { btc: Amount },
    ExecutionSetupDone { state3: State3View },
    BtcLocked { state3: State3View },
    XmrLockProofReceived { state3: State3View, lock_transfer_proof: TransferProofView },
    XmrLocked { state3: State3View },
    EncSigSent { state3: State3View },
    CancelTimelockExpired { state3: State3View },
    BtcCancelled { state3: State3View },
    Done(BobEndState),
}

/// The record of a swap on the taker's side.
///
/// A record of a running swap holds what the state holds; a finished swap
/// keeps only how it ended.
#[derive(Debug, PartialEq, Eq)]
pub enum Bob {
    Started { btc: Amount },
    ExecutionSetupDone { state3: State3 },
    BtcLocked { state3: State3 },
    XmrLockProofReceived { state3: State3, lock_transfer_proof: TransferProof },
    XmrLocked { state3: State3 },
    EncSigSent { state3: State3 },
    CancelTimelockExpired { state3: State3 },
    BtcCancelled { state3: State3 },
    Done(BobEndState),
}

impl View for Bob {
    type V = BobView;

    open spec fn view(&self) -> BobView {
        match self {
            Bob::Started { btc } => BobView::Started { btc: *btc },
            Bob::ExecutionSetupDone { state3 } => BobView::ExecutionSetupDone { state3: state3@ },
            Bob::BtcLocked { state3 } => BobView::BtcLocked { state3: state3@ },
            Bob::XmrLockProofReceived { state3, lock_transfer_proof } => {
                BobView::XmrLockProofReceived {
                    state3: state3@,
                    lock_transfer_proof: lock_transfer_proof@,
                }
            },
            Bob::XmrLocked { state3 } => BobView::XmrLocked { state3: state3@ },
            Bob::EncSigSent { state3 } => BobView::EncSigSent { state3: state3@ },
            Bob::CancelTimelockExpired { state3 } => BobView::CancelTimelockExpired {
                state3: state3@,
            },
            Bob::BtcCancelled { state3 } => BobView::BtcCancelled { state3: state3@ },
            Bob::Done(end_state) => BobView::Done(*end_state),
        }
    }
}

impl Bob {
    /// Whether the record is that of a finished swap.
    pub open spec fn is_done(&self) -> bool {
        self is Done
    }

    /// Whether the record is that of a finished swap.
    pub fn done(&self) -> (r: bool)
        ensures
            r == self.is_done(),
    {
        match self {
            Bob::Done(_) => true,
            _ => false,
        }
    }

    /// The record of a state: the same variant with the same payload, the
    /// four final states gathered under `Done`.
    pub open spec fn record_of(bob_state: &BobState) -> Bob {
        match bob_state {
            BobState::Started { btc } => Bob::Started { btc: *btc },
            BobState::ExecutionSetupDone { state3 } => Bob::ExecutionSetupDone { state3: **state3 },
            BobState::BtcLocked { state3 } => Bob::BtcLocked { state3: **state3 },
            BobState::XmrLockProofReceived { state3, lock_transfer_proof } => {
                Bob::XmrLockProofReceived {
                    state3: **state3,
                    lock_transfer_proof: *lock_transfer_proof,
                }
            },
            BobState::XmrLocked { state3 } => Bob::XmrLocked { state3: **state3 },
            BobState::EncSigSent { state3 } => Bob::EncSigSent { state3: **state3 },
            BobState::CancelTimelockExpired { state3 } => Bob::CancelTimelockExpired {
                state3: **state3,
            },
            BobState::BtcCancelled { state3 } => Bob::BtcCancelled { state3: **state3 },
            BobState::BtcRedeemed => Bob::Done(BobEndState::BtcRedeemed),
            BobState::BtcRefunded => Bob::Done(BobEndState::BtcRefunded),
            BobState::BtcPunished => Bob::Done(BobEndState::BtcPunished),
            BobState::SafelyAborted => Bob::Done(BobEndState::SafelyAborted),
        }
    }
}

impl FromSpecImpl<&BobState> for Bob {
    /// The record that `from` makes is a copy: it holds what `from_spec` says,
    /// in storage of its own, so it agrees with `from_spec` in its view and is
    /// not the same value.
    open spec fn obeys_from_spec() -> bool {
        false
    }

    open spec fn from_spec(bob_state: &BobState) -> Bob {
        Bob::record_of(bob_state)
    }
}

impl From<&BobState> for Bob {
    /// The record to store for a state.
    fn from(bob_state: &BobState) -> (r: Bob)
        ensures
            r@ == Bob::record_of(bob_state)@,
    {
        match bob_state {
            BobState::Started { btc } => Bob::Started { btc: *btc },
            BobState::ExecutionSetupDone { state3 } => Bob::ExecutionSetupDone {
                state3: (**state3).clone(),
            },
            BobState::BtcLocked { state3 } => Bob::BtcLocked { state3: (**state3).clone() },
            BobState::XmrLockProofReceived { state3, lock_transfer_proof } => {
                Bob::XmrLockProofReceived {
                    state3: (**state3).clone(),
                    lock_transfer_proof: lock_transfer_proof.clone(),
                }
            },
            BobState::XmrLocked { state3 } => Bob::XmrLocked { state3: (**state3).clone() },
            BobState::EncSigSent { state3 } => Bob::EncSigSent { state3: (**state3).clone() },
            BobState::CancelTimelockExpired { state3 } => Bob::CancelTimelockExpired {
                state3: (**state3).clone(),
            },
            BobState::BtcCancelled { state3 } => Bob::BtcCancelled { state3: (**state3).clone() },
            BobState::BtcRedeemed => Bob::Done(BobEndState::BtcRedeemed),
            BobState::BtcRefunded => Bob::Done(BobEndState::BtcRefunded),
            BobState::BtcPunished => Bob::Done(BobEndState::BtcPunished),
            BobState::SafelyAborted => Bob::Done(BobEndState::SafelyAborted),
        }
    }
}

impl BobState {
    /// The state that a record stands for: the same variant with the same
    /// payload.
    pub open spec fn state_of(db_state: Bob) -> BobState {
        match db_state {
            Bob::Started { btc } => BobState::Started { btc },
            Bob::ExecutionSetupDone { state3 } => BobState::ExecutionSetupDone {
                state3: Box::new(state3),
            },
            Bob::BtcLocked { state3 } => BobState::BtcLocked { state3: Box::new(state3) },
            Bob::XmrLockProofReceived { state3, lock_transfer_proof } => {
                BobState::XmrLockProofReceived { state3: Box::new(state3), lock_transfer_proof }
            },
            Bob::XmrLocked { state3 } => BobState::XmrLocked { state3: Box::new(state3) },
            Bob::EncSigSent { state3 } => BobState::EncSigSent { state3: Box::new(state3) },
            Bob::CancelTimelockExpired { state3 } => BobState::CancelTimelockExpired {
                state3: Box::new(state3),
            },
            Bob::BtcCancelled { state3 } => BobState::BtcCancelled { state3: Box::new(state3) },
            Bob::Done(end_state) => match end_state {
                BobEndState::SafelyAborted => BobState::SafelyAborted,
                BobEndState::BtcRedeemed => BobState::BtcRedeemed,
                BobEndState::BtcRefunded => BobState::BtcRefunded,
                BobEndState::BtcPunished => BobState::BtcPunished,
            },
        }
    }
}

impl FromSpecImpl<Bob> for BobState {
    open spec fn obeys_from_spec() -> bool {
        true
    }

    open spec fn from_spec(db_state: Bob) -> BobState {
        BobState::state_of(db_state)
    }
}

impl From<Bob> for BobState {
    /// The state to go on from, given a stored record.
    fn from(db_state: Bob) -> (r: BobState)
        ensures
            r == BobState::state_of(db_state),
    {
        match db_state {
            Bob::Started { btc } => BobState::Started { btc },
            Bob::ExecutionSetupDone { state3 } => BobState::ExecutionSetupDone {
                state3: Box::new(state3),
            },
            Bob::BtcLocked { state3 } => BobState::BtcLocked { state3: Box::new(state3) },
            Bob::XmrLockProofReceived { state3, lock_transfer_proof } => {
                BobState::XmrLockProofReceived { state3: Box::new(state3), lock_transfer_proof }
            },
            Bob::XmrLocked { state3 } => BobState::XmrLocked { state3: Box::new(state3) },
            Bob::EncSigSent { state3 } => BobState::EncSigSent { state3: Box::new(state3) },
            Bob::CancelTimelockExpired { state3 } => BobState::CancelTimelockExpired {
                state3: Box::new(state3),
            },
            Bob::BtcCancelled { state3 } => BobState::BtcCancelled { state3: Box::new(state3) },
            Bob::Done(end_state) => match end_state {
                BobEndState::SafelyAborted => BobState::SafelyAborted,
                BobEndState::BtcRedeemed => BobState::BtcRedeemed,
                BobEndState::BtcRefunded => BobState::BtcRefunded,
                BobEndState::BtcPunished => BobState::BtcPunished,
            },
        }
    }
}

/// Storing a state and loading it again gives the state back, whatever the
/// state.
pub proof fn lemma_store_then_load(state: BobState)
    ensures
        BobState::state_of(Bob::record_of(&state)) == state,
{
}

/// A transition gives the same from a state that was stored and loaded as
/// from the state itself: replaying an observation after a restart leads to
/// the state it led to before.
pub proof fn lemma_replay(
    state: BobState,
    observation: crate::protocol::bob::Observation,
    env: crate::protocol::bob::Environment,
)
    ensures
        BobState::state_of(Bob::record_of(&state)).transition(observation, env) == state.transition(
            observation,
            env,
        ),
{
}

/// Loading a record and storing the state again gives the record back,
/// whatever the record.
pub proof fn lemma_load_then_store(record: Bob)
    ensures
        Bob::record_of(&BobState::state_of(record)) == record,
{
}

impl BobEndState {
    /// The name of the end state.
    pub open spec fn name(&self) -> Seq<char> {
        match self {
            BobEndState::SafelyAborted => "SafelyAborted"@,
            BobEndState::BtcRedeemed => "BtcRedeemed"@,
            BobEndState::BtcRefunded => "BtcRefunded"@,
            BobEndState::BtcPunished => "BtcPunished"@,
        }
    }

    /// The name of the end state, as text.
    pub fn to_string(&self) -> (r: String)
        ensures
            r@ == self.name(),
    {
        match self {
            BobEndState::SafelyAborted => String::from_str("SafelyAborted"),
            BobEndState::BtcRedeemed => String::from_str("BtcRedeemed"),
            BobEndState::BtcRefunded => String::from_str("BtcRefunded"),
            BobEndState::BtcPunished => String::from_str("BtcPunished"),
        }
    }

    /// The byte that stands for the end state.
    pub open spec fn tag(self) -> u8 {
        match self {
            BobEndState::SafelyAborted => 0,
            BobEndState::BtcRedeemed => 1,
            BobEndState::BtcRefunded => 2,
            BobEndState::BtcPunished => 3,
        }
    }

    fn to_tag(&self) -> (r: u8)
        ensures
            r == self.tag(),
    {
        match self {
            BobEndState::SafelyAborted => 0,
            BobEndState::BtcRedeemed => 1,
            BobEndState::BtcRefunded => 2,
            BobEndState::BtcPunished => 3,
        }
    }
}

impl BobView {
    /// The byte that stands for the state of the record.
    pub open spec fn tag(self) -> u8 {
        match self {
            BobView::Started { .. } => 0,
            BobView::ExecutionSetupDone { .. } => 1,
            BobView::BtcLocked { .. } => 2,
            BobView::XmrLockProofReceived { .. } => 3,
            BobView::XmrLocked { .. } => 4,
            BobView::EncSigSent { .. } => 5,
            BobView::CancelTimelockExpired { .. } => 6,
            BobView::BtcCancelled { .. } => 7,
            BobView::Done(_) => 8,
        }
    }

    /// What the record holds, laid out in bytes: the parts in the order in
    /// which the state declares them, a transfer proof as its hash and its
    /// key; for a finished swap the byte of its end state.
    pub open spec fn body(self) -> Seq<u8> {
        match self {
            BobView::Started { btc } => spec_u64_to_le_bytes(btc.sat),
            BobView::ExecutionSetupDone { state3 } => state3.layout(),
            BobView::BtcLocked { state3 } => state3.layout(),
            BobView::XmrLockProofReceived { state3, lock_transfer_proof } => state3.layout() + blob(
                lock_transfer_proof.tx_hash,
            ) + blob(lock_transfer_proof.tx_key),
            BobView::XmrLocked { state3 } => state3.layout(),
            BobView::EncSigSent { state3 } => state3.layout(),
            BobView::CancelTimelockExpired { state3 } => state3.layout(),
            BobView::BtcCancelled { state3 } => state3.layout(),
            BobView::Done(end_state) => seq![end_state.tag()],
        }
    }

    /// The record in bytes: the version of the layout, the byte of the state,
    /// then what the record holds.
    pub open spec fn encoding(self) -> Seq<u8> {
        seq![VERSION, self.tag()] + self.body()
    }

    /// Whether every byte string in the record has a length that eight bytes
    /// can hold.
    pub open spec fn fits(self) -> bool {
        match self {
            BobView::Started { .. } => true,
            BobView::ExecutionSetupDone { state3 } => state3.fits(),
            BobView::BtcLocked { state3 } => state3.fits(),
            BobView::XmrLockProofReceived { state3, lock_transfer_proof } => state3.fits()
                && lock_transfer_proof.tx_hash.len() <= u64::MAX
                && lock_transfer_proof.tx_key.len() <= u64::MAX,
            BobView::XmrLocked { state3 } => state3.fits(),
            BobView::EncSigSent { state3 } => state3.fits(),
            BobView::CancelTimelockExpired { state3 } => state3.fits(),
            BobView::BtcCancelled { state3 } => state3.fits(),
            BobView::Done(_) => true,
        }
    }
}

/// The end state that a byte stands for.
pub open spec fn end_state_of(tag: u8) -> Option<BobEndState> {
    if tag == 0 {
        Some(BobEndState::SafelyAborted)
    } else if tag == 1 {
        Some(BobEndState::BtcRedeemed)
    } else if tag == 2 {
        Some(BobEndState::BtcRefunded)
    } else if tag == 3 {
        Some(BobEndState::BtcPunished)
    } else {
        None
    }
}

/// The record of a running swap in the state that `tag` stands for, read
/// from all of `s`; `None` where `s` ends too early or goes on after the
/// record.
pub open spec fn parse_running(tag: u8, s: Seq<u8>) -> Option<BobView>
    recommends
        tag < 8,
{
    if tag == 0 {
        let btc = parse_u64(s);
        if btc.is_some() && rest_of(btc).len() == 0 {
            Some(BobView::Started { btc: Amount { sat: value_of(btc) } })
        } else {
            None
        }
    } else if tag == 3 {
        let state3 = parse_state3(s);
        let tx_hash = parse_blob(rest_of(state3));
        let tx_key = parse_blob(rest_of(tx_hash));
        if tx_key.is_some() && rest_of(tx_key).len() == 0 {
            Some(
                BobView::XmrLockProofReceived {
                    state3: value_of(state3),
                    lock_transfer_proof: TransferProofView {
                        tx_hash: value_of(tx_hash),
                        tx_key: value_of(tx_key),
                    },
                },
            )
        } else {
            None
        }
    } else {
        let read = parse_state3(s);
        if read.is_some() && rest_of(read).len() == 0 {
            let state3 = value_of(read);
            Some(
                if tag == 1 {
                    BobView::ExecutionSetupDone { state3 }
                } else if tag == 2 {
                    BobView::BtcLocked { state3 }
                } else if tag == 4 {
                    BobView::XmrLocked { state3 }
                } else if tag == 5 {
                    BobView::EncSigSent { state3 }
                } else if tag == 6 {
                    BobView::CancelTimelockExpired { state3 }
                } else {
                    BobView::BtcCancelled { state3 }
                },
            )
        } else {
            None
        }
    }
}

/// The record that bytes stand for, or why they stand for none: a version
/// other than the one known, a state or end state that is not known, or
/// bytes that end too early or go on after the record.
pub open spec fn decoding(bytes: Seq<u8>) -> Result<BobView, DecodeError> {
    if bytes.len() < 2 {
        Err(DecodeError::Malformed)
    } else if bytes[0] != VERSION {
        Err(DecodeError::UnknownVersion)
    } else if bytes[1] > 8 {
        Err(DecodeError::UnknownVariant)
    } else if bytes[1] == 8 {
        if bytes.len() != 3 {
            Err(DecodeError::Malformed)
        } else {
            match end_state_of(bytes[2]) {
                Some(end_state) => Ok(BobView::Done(end_state)),
                None => Err(DecodeError::UnknownVariant),
            }
        }
    } else {
        match parse_running(bytes[1], bytes.skip(2)) {
            Some(record) => Ok(record),
            None => Err(DecodeError::Malformed),
        }
    }
}

/// What a record holds where bytes were read as one, the error where they
/// were not.
pub open spec fn record_of_read(read: Result<Bob, DecodeError>) -> Result<BobView, DecodeError> {
    match read {
        Ok(record) => Ok(record@),
        Err(e) => Err(e),
    }
}

/// A record read from the bytes it was laid out in is the record itself.
pub proof fn lemma_decode_encode(record: BobView)
    requires
        record.fits(),
    ensures
        decoding(record.encoding()) == Ok::<BobView, DecodeError>(record),
{
    let bytes = record.encoding();
    let none = Seq::<u8>::empty();
    assert(bytes.skip(2) =~= record.body());
    assert(bytes[0] == VERSION);
    assert(bytes[1] == record.tag());
    match record {
        BobView::Started { btc } => {
            lemma_parse_u64(btc.sat, none);
            assert(spec_u64_to_le_bytes(btc.sat) + none =~= spec_u64_to_le_bytes(btc.sat));
        },
        BobView::XmrLockProofReceived { state3, lock_transfer_proof } => {
            let hash = blob(lock_transfer_proof.tx_hash);
            let key = blob(lock_transfer_proof.tx_key);
            lemma_regroup(state3.layout(), hash, key);
            lemma_parse_state3(state3, hash + key);
            lemma_parse_blob(lock_transfer_proof.tx_hash, key);
            lemma_parse_blob(lock_transfer_proof.tx_key, none);
            assert(key + none =~= key);
        },
        BobView::ExecutionSetupDone { state3 }
        | BobView::BtcLocked { state3 }
        | BobView::XmrLocked { state3 }
        | BobView::EncSigSent { state3 }
        | BobView::CancelTimelockExpired { state3 }
        | BobView::BtcCancelled { state3 } => {
            lemma_parse_state3(state3, none);
            assert(state3.layout() + none =~= state3.layout());
        },
        BobView::Done(end_state) => {
            assert(bytes.len() == 3);
            assert(bytes[2] == end_state.tag());
        },
    }
}

/// What a record holds always fits the layout: no byte string in memory is
/// longer than eight bytes can say.
pub proof fn lemma_record_fits(record: Bob)
    ensures
        record@.fits(),
{
    match record {
        Bob::Started { .. } => {},
        Bob::ExecutionSetupDone { state3 } => lemma_state3_fits(state3),
        Bob::BtcLocked { state3 } => lemma_state3_fits(state3),
        Bob::XmrLockProofReceived { state3, lock_transfer_proof } => {
            lemma_state3_fits(state3);
            assert(lock_transfer_proof.tx_hash.len() <= usize::MAX);
            assert(lock_transfer_proof.tx_key.len() <= usize::MAX);
        },
        Bob::XmrLocked { state3 } => lemma_state3_fits(state3),
        Bob::EncSigSent { state3 } => lemma_state3_fits(state3),
        Bob::CancelTimelockExpired { state3 } => lemma_state3_fits(state3),
        Bob::BtcCancelled { state3 } => lemma_state3_fits(state3),
        Bob::Done(_) => {},
    }
}

/// Every record that is laid out in bytes and read again comes back as it
/// was.
pub proof fn lemma_roundtrip(record: Bob)
    ensures
        decoding(record@.encoding()) == Ok::<BobView, DecodeError>(record@),
{
    lemma_record_fits(record);
    lemma_decode_encode(record@);
}

impl Bob {
    /// The record in bytes.
    pub fn encode(&self) -> (r: Vec<u8>)
        ensures
            r@ == self@.encoding(),
    {
        let mut out: Vec<u8> = Vec::new();
        out.push(VERSION);
        match self {
            Bob::Started { btc } => {
                out.push(0);
                put_u64(&mut out, btc.sat);
            },
            Bob::ExecutionSetupDone { state3 } => {
                out.push(1);
                put_state3(&mut out, state3);
            },
            Bob::BtcLocked { state3 } => {
                out.push(2);
                put_state3(&mut out, state3);
            },
            Bob::XmrLockProofReceived { state3, lock_transfer_proof } => {
                out.push(3);
                put_state3(&mut out, state3);
                put_blob(&mut out, &lock_transfer_proof.tx_hash);
                put_blob(&mut out, &lock_transfer_proof.tx_key);
            },
            Bob::XmrLocked { state3 } => {
                out.push(4);
                put_state3(&mut out, state3);
            },
            Bob::EncSigSent { state3 } => {
                out.push(5);
                put_state3(&mut out, state3);
            },
            Bob::CancelTimelockExpired { state3 } => {
                out.push(6);
                put_state3(&mut out, state3);
            },
            Bob::BtcCancelled { state3 } => {
                out.push(7);
                put_state3(&mut out, state3);
            },
            Bob::Done(end_state) => {
                out.push(8);
                out.push(end_state.to_tag());
            },
        }
        assert(out@ =~= self@.encoding());
        out
    }

    /// The record that bytes stand for, or why they stand for none.
    pub fn decode(bytes: &[u8]) -> (r: Result<Bob, DecodeError>)
        ensures
            record_of_read(r) == decoding(bytes@),
    {
        proof {
            lemma_parse_state3_of_nothing();
        }
        if bytes.len() < 2 {
            return Err(DecodeError::Malformed);
        }
        if bytes[0] != VERSION {
            return Err(DecodeError::UnknownVersion);
        }
        let tag = bytes[1];
        if tag > 8 {
            return Err(DecodeError::UnknownVariant);
        }
        if tag == 8 {
            if bytes.len() != 3 {
                return Err(DecodeError::Malformed);
            }
            let end = bytes[2];
            return if end == 0 {
                Ok(Bob::Done(BobEndState::SafelyAborted))
            } else if end == 1 {
                Ok(Bob::Done(BobEndState::BtcRedeemed))
            } else if end == 2 {
                Ok(Bob::Done(BobEndState::BtcRefunded))
            } else if end == 3 {
                Ok(Bob::Done(BobEndState::BtcPunished))
            } else {
                Err(DecodeError::UnknownVariant)
            };
        }
        if tag == 0 {
            return match get_u64(bytes, 2) {
                Some((sat, end)) => if end == bytes.len() {
                    Ok(Bob::Started { btc: Amount { sat } })
                } else {
                    Err(DecodeError::Malformed)
                },
                None => Err(DecodeError::Malformed),
            };
        }
        let (state3, pos) = match get_state3(bytes, 2) {
            Some(read) => read,
            None => {
                return Err(DecodeError::Malformed);
            },
        };
        if tag == 3 {
            let (tx_hash, pos) = match get_blob(bytes, pos) {
                Some(read) => read,
                None => {
                    return Err(DecodeError::Malformed);
                },
            };
            return match get_blob(bytes, pos) {
                Some((tx_key, end)) => if end == bytes.len() {
                    Ok(
                        Bob::XmrLockProofReceived {
                            state3,
                            lock_transfer_proof: TransferProof { tx_hash, tx_key },
                        },
                    )
                } else {
                    Err(DecodeError::Malformed)
                },
                None => Err(DecodeError::Malformed),
            };
        }
        if pos != bytes.len() {
            return Err(DecodeError::Malformed);
        }
        if tag == 1 {
            Ok(Bob::ExecutionSetupDone { state3 })
        } else if tag == 2 {
            Ok(Bob::BtcLocked { state3 })
        } else if tag == 4 {
            Ok(Bob::XmrLocked { state3 })
        } else if tag == 5 {
            Ok(Bob::EncSigSent { state3 })
        } else if tag == 6 {
            Ok(Bob::CancelTimelockExpired { state3 })
        } else {
            Ok(Bob::BtcCancelled { state3 })
        }
    }
}

} // verus!
