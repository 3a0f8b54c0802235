//! The maker's swap record: what is kept of a swap's state so that a restarted
//! process can take the swap up again where it was.

use crate::bitcoin::EncryptedSignature;
use crate::database::encoding::{
    DecodeError, VERSION, blob, get_blob, get_state3, get_u32, lemma_parse_blob,
    lemma_parse_state3, lemma_parse_state3_of_nothing, lemma_parse_u32, lemma_regroup,
    lemma_state3_fits, parse_blob, parse_state3, parse_u32, put_blob, put_state3, put_u32,
    rest_of, value_of,
};
use crate::monero::{BlockHeight, PrivateKey};
use crate::protocol::alice::AliceState;
use crate::protocol::{State3, State3View};
use vstd::bytes::spec_u32_to_le_bytes;
use vstd::prelude::*;
use vstd::std_specs::convert::FromSpecImpl;

verus! {

/// How a finished swap ended for the maker.
#[derive(Copy, Clone, Debug, PartialEq, Eq, Structural)]
pub enum AliceEndState {
    SafelyAborted,
    BtcRedeemed,
    XmrRefunded,
    BtcPunished,
}

/// What an [`Alice`] record holds, as mathematical values.
pub enum AliceView {
    WatchingForTxLockInMempool { state3: State3View },
    WaitingForTxLockConfirmations { state3: State3View },
    WaitingForEncSig { monero_wallet_restore_blockheight: BlockHeight, state3: State3View },
    EncSigLearned {
        monero_wallet_restore_blockheight: BlockHeight,
        encrypted_signature: Seq<u8>,
        state3: State3View,
    },
    CancelTimelockExpired { monero_wallet_restore_blockheight: BlockHeight, state3: State3View },
    BtcCancelled { monero_wallet_restore_blockheight: BlockHeight, state3: State3View },
    BtcPunishable { monero_wallet_restore_blockheight: BlockHeight, state3: State3View },
    BtcRefunded {
        monero_wallet_restore_blockheight: BlockHeight,
        state3: State3View,
        spend_key: Seq<u8>,
    },
    Done(AliceEndState),
}

/// The record of a swap on the maker's side.
///
/// A record of a running swap holds the swap's parameters and what else the
/// state needs to go on: the height to restore the Monero wallet from once the
/// Monero lock is out, the encrypted signature once it was learned, the
/// recovered spend key once Bitcoin was refunded. A finished swap keeps only
/// how it ended.
#[derive(Debug, PartialEq, Eq)]
pub enum Alice {
    WatchingForTxLockInMempool { state3: State3 },
    WaitingForTxLockConfirmations { state3: State3 },
    WaitingForEncSig { monero_wallet_restore_blockheight: BlockHeight, state3: State3 },
    EncSigLearned {
        monero_wallet_restore_blockheight: BlockHeight,
        encrypted_signature: EncryptedSignature,
        state3: State3,
    },
    CancelTimelockExpired { monero_wallet_restore_blockheight: BlockHeight, state3: State3 },
    BtcCancelled { monero_wallet_restore_blockheight: BlockHeight, state3: State3 },
    BtcPunishable { monero_wallet_restore_blockheight: BlockHeight, state3: State3 },
    BtcRefunded {
        monero_wallet_restore_blockheight: BlockHeight,
        state3: State3,
        spend_key: PrivateKey,
    },
    Done(AliceEndState),
}

impl View for Alice {
    type V = AliceView;

    open spec fn view(&self) -> AliceView {
        match self {
            Alice::WatchingForTxLockInMempool { state3 } => AliceView::WatchingForTxLockInMempool {
                state3: state3@,
            },
            Alice::WaitingForTxLockConfirmations { state3 } => {
                AliceView::WaitingForTxLockConfirmations { state3: state3@ }
            },
            Alice::WaitingForEncSig { monero_wallet_restore_blockheight, state3 } => {
                AliceView::WaitingForEncSig {
                    monero_wallet_restore_blockheight: *monero_wallet_restore_blockheight,
                    state3: state3@,
                }
            },
            Alice::EncSigLearned {
                monero_wallet_restore_blockheight,
                encrypted_signature,
                state3,
            } => AliceView::EncSigLearned {
                monero_wallet_restore_blockheight: *monero_wallet_restore_blockheight,
                encrypted_signature: encrypted_signature@,
                state3: state3@,
            },
            Alice::CancelTimelockExpired { monero_wallet_restore_blockheight, state3 } => {
                AliceView::CancelTimelockExpired {
                    monero_wallet_restore_blockheight: *monero_wallet_restore_blockheight,
                    state3: state3@,
                }
            },
            Alice::BtcCancelled { monero_wallet_restore_blockheight, state3 } => {
                AliceView::BtcCancelled {
                    monero_wallet_restore_blockheight: *monero_wallet_restore_blockheight,
                    state3: state3@,
                }
            },
            Alice::BtcPunishable { monero_wallet_restore_blockheight, state3 } => {
                AliceView::BtcPunishable {
                    monero_wallet_restore_blockheight: *monero_wallet_restore_blockheight,
                    state3: state3@,
                }
            },
            Alice::BtcRefunded { monero_wallet_restore_blockheight, state3, spend_key } => {
                AliceView::BtcRefunded {
                    monero_wallet_restore_blockheight: *monero_wallet_restore_blockheight,
                    state3: state3@,
                    spend_key: spend_key@,
                }
            },
            Alice::Done(end_state) => AliceView::Done(*end_state),
        }
    }
}

impl Alice {
    /// Whether the record is that of a finished swap.
    pub open spec fn is_done(&self) -> bool {
        self is Done
    }

    /// Whether the record is that of a finished swap.
    pub fn done(&self) -> (r: bool)
        ensures
            r == self.is_done(),
    {
        match self {
            Alice::Done(_) => true,
            _ => false,
        }
    }
}

impl Alice {
    /// The record of a state: the same variant with the same payload, the four
    /// final states gathered under `Done`.
    pub open spec fn record_of(alice_state: &AliceState) -> Alice {
        match alice_state {
            AliceState::WatchingForTxLockInMempool { state3 } => Alice::WatchingForTxLockInMempool {
                state3: **state3,
            },
            AliceState::WaitingForTxLockConfirmations { state3 } => {
                Alice::WaitingForTxLockConfirmations { state3: **state3 }
            },
            AliceState::WaitingForEncSig { monero_wallet_restore_blockheight, state3 } => {
                Alice::WaitingForEncSig {
                    monero_wallet_restore_blockheight: *monero_wallet_restore_blockheight,
                    state3: **state3,
                }
            },
            AliceState::EncSigLearned {
                monero_wallet_restore_blockheight,
                encrypted_signature,
                state3,
            } => Alice::EncSigLearned {
                monero_wallet_restore_blockheight: *monero_wallet_restore_blockheight,
                encrypted_signature: **encrypted_signature,
                state3: **state3,
            },
            AliceState::BtcRedeemed => Alice::Done(AliceEndState::BtcRedeemed),
            AliceState::BtcCancelled { monero_wallet_restore_blockheight, state3 } => {
                Alice::BtcCancelled {
                    monero_wallet_restore_blockheight: *monero_wallet_restore_blockheight,
                    state3: **state3,
                }
            },
            AliceState::BtcRefunded { monero_wallet_restore_blockheight, spend_key, state3 } => {
                Alice::BtcRefunded {
                    monero_wallet_restore_blockheight: *monero_wallet_restore_blockheight,
                    state3: **state3,
                    spend_key: *spend_key,
                }
            },
            AliceState::BtcPunishable { monero_wallet_restore_blockheight, state3 } => {
                Alice::BtcPunishable {
                    monero_wallet_restore_blockheight: *monero_wallet_restore_blockheight,
                    state3: **state3,
                }
            },
            AliceState::XmrRefunded => Alice::Done(AliceEndState::XmrRefunded),
            AliceState::CancelTimelockExpired { monero_wallet_restore_blockheight, state3 } => {
                Alice::CancelTimelockExpired {
                    monero_wallet_restore_blockheight: *monero_wallet_restore_blockheight,
                    state3: **state3,
                }
            },
            AliceState::BtcPunished => Alice::Done(AliceEndState::BtcPunished),
            AliceState::SafelyAborted => Alice::Done(AliceEndState::SafelyAborted),
        }
    }
}

impl FromSpecImpl<&AliceState> for Alice {
    /// The record that `from` makes is a copy: it holds what `from_spec` says,
    /// in storage of its own, so it agrees with `from_spec` in its view and is
    /// not the same value.
    open spec fn obeys_from_spec() -> bool {
        false
    }

    open spec fn from_spec(alice_state: &AliceState) -> Alice {
        Alice::record_of(alice_state)
    }
}

impl From<&AliceState> for Alice {
    /// The record to store for a state.
    fn from(alice_state: &AliceState) -> (r: Alice)
        ensures
            r@ == Alice::record_of(alice_state)@,
    {
        match alice_state {
            AliceState::WatchingForTxLockInMempool { state3 } => Alice::WatchingForTxLockInMempool {
                state3: (**state3).clone(),
            },
            AliceState::WaitingForTxLockConfirmations { state3 } => {
                Alice::WaitingForTxLockConfirmations { state3: (**state3).clone() }
            },
            AliceState::WaitingForEncSig { monero_wallet_restore_blockheight, state3 } => {
                Alice::WaitingForEncSig {
                    monero_wallet_restore_blockheight: *monero_wallet_restore_blockheight,
                    state3: (**state3).clone(),
                }
            },
            AliceState::EncSigLearned {
                monero_wallet_restore_blockheight,
                encrypted_signature,
                state3,
            } => Alice::EncSigLearned {
                monero_wallet_restore_blockheight: *monero_wallet_restore_blockheight,
                encrypted_signature: (**encrypted_signature).clone(),
                state3: (**state3).clone(),
            },
            AliceState::BtcRedeemed => Alice::Done(AliceEndState::BtcRedeemed),
            AliceState::BtcCancelled { monero_wallet_restore_blockheight, state3 } => {
                Alice::BtcCancelled {
                    monero_wallet_restore_blockheight: *monero_wallet_restore_blockheight,
                    state3: (**state3).clone(),
                }
            },
            AliceState::BtcRefunded { monero_wallet_restore_blockheight, spend_key, state3 } => {
                Alice::BtcRefunded {
                    monero_wallet_restore_blockheight: *monero_wallet_restore_blockheight,
                    state3: (**state3).clone(),
                    spend_key: spend_key.clone(),
                }
            },
            AliceState::BtcPunishable { monero_wallet_restore_blockheight, state3 } => {
                Alice::BtcPunishable {
                    monero_wallet_restore_blockheight: *monero_wallet_restore_blockheight,
                    state3: (**state3).clone(),
                }
            },
            AliceState::XmrRefunded => Alice::Done(AliceEndState::XmrRefunded),
            AliceState::CancelTimelockExpired { monero_wallet_restore_blockheight, state3 } => {
                Alice::CancelTimelockExpired {
                    monero_wallet_restore_blockheight: *monero_wallet_restore_blockheight,
                    state3: (**state3).clone(),
                }
            },
            AliceState::BtcPunished => Alice::Done(AliceEndState::BtcPunished),
            AliceState::SafelyAborted => Alice::Done(AliceEndState::SafelyAborted),
        }
    }
}

impl AliceState {
    /// The state that a record stands for: the same variant with the same
    /// payload.
    pub open spec fn state_of(db_state: Alice) -> AliceState {
        match db_state {
            Alice::WatchingForTxLockInMempool { state3 } => AliceState::WatchingForTxLockInMempool {
                state3: Box::new(state3),
            },
            Alice::WaitingForTxLockConfirmations { state3 } => {
                AliceState::WaitingForTxLockConfirmations { state3: Box::new(state3) }
            },
            Alice::WaitingForEncSig { monero_wallet_restore_blockheight, state3 } => {
                AliceState::WaitingForEncSig {
                    monero_wallet_restore_blockheight,
                    state3: Box::new(state3),
                }
            },
            Alice::EncSigLearned {
                monero_wallet_restore_blockheight,
                encrypted_signature,
                state3,
            } => AliceState::EncSigLearned {
                monero_wallet_restore_blockheight,
                encrypted_signature: Box::new(encrypted_signature),
                state3: Box::new(state3),
            },
            Alice::CancelTimelockExpired { monero_wallet_restore_blockheight, state3 } => {
                AliceState::CancelTimelockExpired {
                    monero_wallet_restore_blockheight,
                    state3: Box::new(state3),
                }
            },
            Alice::BtcCancelled { monero_wallet_restore_blockheight, state3 } => {
                AliceState::BtcCancelled {
                    monero_wallet_restore_blockheight,
                    state3: Box::new(state3),
                }
            },
            Alice::BtcPunishable { monero_wallet_restore_blockheight, state3 } => {
                AliceState::BtcPunishable {
                    monero_wallet_restore_blockheight,
                    state3: Box::new(state3),
                }
            },
            Alice::BtcRefunded { monero_wallet_restore_blockheight, state3, spend_key } => {
                AliceState::BtcRefunded {
                    monero_wallet_restore_blockheight,
                    spend_key,
                    state3: Box::new(state3),
                }
            },
            Alice::Done(end_state) => match end_state {
                AliceEndState::SafelyAborted => AliceState::SafelyAborted,
                AliceEndState::BtcRedeemed => AliceState::BtcRedeemed,
                AliceEndState::XmrRefunded => AliceState::XmrRefunded,
                AliceEndState::BtcPunished => AliceState::BtcPunished,
            },
        }
    }
}

impl FromSpecImpl<Alice> for AliceState {
    open spec fn obeys_from_spec() -> bool {
        true
    }

    open spec fn from_spec(db_state: Alice) -> AliceState {
        AliceState::state_of(db_state)
    }
}

impl From<Alice> for AliceState {
    /// The state to go on from, given a stored record.
    fn from(db_state: Alice) -> (r: AliceState)
        ensures
            r == AliceState::state_of(db_state),
    {
        match db_state {
            Alice::WatchingForTxLockInMempool { state3 } => AliceState::WatchingForTxLockInMempool {
                state3: Box::new(state3),
            },
            Alice::WaitingForTxLockConfirmations { state3 } => {
                AliceState::WaitingForTxLockConfirmations { state3: Box::new(state3) }
            },
            Alice::WaitingForEncSig { monero_wallet_restore_blockheight, state3 } => {
                AliceState::WaitingForEncSig {
                    monero_wallet_restore_blockheight,
                    state3: Box::new(state3),
                }
            },
            Alice::EncSigLearned {
                monero_wallet_restore_blockheight,
                encrypted_signature,
                state3,
            } => AliceState::EncSigLearned {
                monero_wallet_restore_blockheight,
                encrypted_signature: Box::new(encrypted_signature),
                state3: Box::new(state3),
            },
            Alice::CancelTimelockExpired { monero_wallet_restore_blockheight, state3 } => {
                AliceState::CancelTimelockExpired {
                    monero_wallet_restore_blockheight,
                    state3: Box::new(state3),
                }
            },
            Alice::BtcCancelled { monero_wallet_restore_blockheight, state3 } => {
                AliceState::BtcCancelled {
                    monero_wallet_restore_blockheight,
                    state3: Box::new(state3),
                }
            },
            Alice::BtcPunishable { monero_wallet_restore_blockheight, state3 } => {
                AliceState::BtcPunishable {
                    monero_wallet_restore_blockheight,
                    state3: Box::new(state3),
                }
            },
            Alice::BtcRefunded { monero_wallet_restore_blockheight, state3, spend_key } => {
                AliceState::BtcRefunded {
                    monero_wallet_restore_blockheight,
                    spend_key,
                    state3: Box::new(state3),
                }
            },
            Alice::Done(end_state) => match end_state {
                AliceEndState::SafelyAborted => AliceState::SafelyAborted,
                AliceEndState::BtcRedeemed => AliceState::BtcRedeemed,
                AliceEndState::XmrRefunded => AliceState::XmrRefunded,
                AliceEndState::BtcPunished => AliceState::BtcPunished,
            },
        }
    }
}

/// Storing a state and loading it again gives the state back, whatever the
/// state: no variant is mapped to another.
pub proof fn lemma_store_then_load(state: AliceState)
    ensures
        AliceState::state_of(Alice::record_of(&state)) == state,
{
}

/// A transition gives the same from a state that was stored and loaded as
/// from the state itself: replaying an observation after a restart leads to
/// the state it led to before.
pub proof fn lemma_replay(
    state: AliceState,
    observation: crate::protocol::alice::Observation,
    env: crate::protocol::alice::Environment,
)
    ensures
        AliceState::state_of(Alice::record_of(&state)).transition(observation, env) == state.transition(
            observation,
            env,
        ),
{
}

/// Loading a record and storing the state again gives the record back,
/// whatever the record.
pub proof fn lemma_load_then_store(record: Alice)
    ensures
        Alice::record_of(&AliceState::state_of(record)) == record,
{
}

impl AliceEndState {
    /// The name of the end state.
    pub open spec fn name(&self) -> Seq<char> {
        match self {
            AliceEndState::SafelyAborted => "SafelyAborted"@,
            AliceEndState::BtcRedeemed => "BtcRedeemed"@,
            AliceEndState::XmrRefunded => "XmrRefunded"@,
            AliceEndState::BtcPunished => "BtcPunished"@,
        }
    }

    /// The name of the end state, as text.
    pub fn to_string(&self) -> (r: String)
        ensures
            r@ == self.name(),
    {
        match self {
            AliceEndState::SafelyAborted => String::from_str("SafelyAborted"),
            AliceEndState::BtcRedeemed => String::from_str("BtcRedeemed"),
            AliceEndState::XmrRefunded => String::from_str("XmrRefunded"),
            AliceEndState::BtcPunished => String::from_str("BtcPunished"),
        }
    }
}

impl Alice {
    /// What the record says of the swap, in words.
    pub open spec fn description(&self) -> Seq<char> {
        match self {
            Alice::WatchingForTxLockInMempool { .. } => "Watching for TxLock in mempool"@,
            Alice::WaitingForTxLockConfirmations { .. } => "Waiting for TxLock confirmations"@,
            Alice::WaitingForEncSig { .. } => "Waiting Bob to send EncSig"@,
            Alice::EncSigLearned { .. } => "Encrypted signature learned"@,
            Alice::CancelTimelockExpired { .. } => "Cancel timelock is expired"@,
            Alice::BtcCancelled { .. } => "Bitcoin cancel transaction published"@,
            Alice::BtcPunishable { .. } => "Bitcoin punishable"@,
            Alice::BtcRefunded { .. } => "Monero refundable"@,
            Alice::Done(end_state) => "Done: "@ + end_state.name(),
        }
    }

    /// What the record says of the swap, in words.
    pub fn to_string(&self) -> (r: String)
        ensures
            r@ == self.description(),
    {
        match self {
            Alice::WatchingForTxLockInMempool { .. } => String::from_str(
                "Watching for TxLock in mempool",
            ),
            Alice::WaitingForTxLockConfirmations { .. } => String::from_str(
                "Waiting for TxLock confirmations",
            ),
            Alice::WaitingForEncSig { .. } => String::from_str("Waiting Bob to send EncSig"),
            Alice::EncSigLearned { .. } => String::from_str("Encrypted signature learned"),
            Alice::CancelTimelockExpired { .. } => String::from_str("Cancel timelock is expired"),
            Alice::BtcCancelled { .. } => String::from_str("Bitcoin cancel transaction published"),
            Alice::BtcPunishable { .. } => String::from_str("Bitcoin punishable"),
            Alice::BtcRefunded { .. } => String::from_str("Monero refundable"),
            Alice::Done(end_state) => {
                let name = end_state.to_string();
                String::from_str("Done: ").concat(name.as_str())
            },
        }
    }
}

impl AliceEndState {
    /// The byte that stands for the end state.
    pub open spec fn tag(self) -> u8 {
        match self {
            AliceEndState::SafelyAborted => 0,
            AliceEndState::BtcRedeemed => 1,
            AliceEndState::XmrRefunded => 2,
            AliceEndState::BtcPunished => 3,
        }
    }
}

impl AliceView {
    /// The byte that stands for the state of the record.
    pub open spec fn tag(self) -> u8 {
        match self {
            AliceView::WatchingForTxLockInMempool { .. } => 0,
            AliceView::WaitingForTxLockConfirmations { .. } => 1,
            AliceView::WaitingForEncSig { .. } => 2,
            AliceView::EncSigLearned { .. } => 3,
            AliceView::CancelTimelockExpired { .. } => 4,
            AliceView::BtcCancelled { .. } => 5,
            AliceView::BtcPunishable { .. } => 6,
            AliceView::BtcRefunded { .. } => 7,
            AliceView::Done(_) => 8,
        }
    }

    /// What the record holds, laid out in bytes: the restore height where
    /// there is one, then the other parts in the order in which the state
    /// declares them; for a finished swap the byte of its end state.
    pub open spec fn body(self) -> Seq<u8> {
        match self {
            AliceView::WatchingForTxLockInMempool { state3 } => state3.layout(),
            AliceView::WaitingForTxLockConfirmations { state3 } => state3.layout(),
            AliceView::WaitingForEncSig { monero_wallet_restore_blockheight, state3 } => {
                spec_u32_to_le_bytes(monero_wallet_restore_blockheight.height) + state3.layout()
            },
            AliceView::EncSigLearned {
                monero_wallet_restore_blockheight,
                encrypted_signature,
                state3,
            } => spec_u32_to_le_bytes(monero_wallet_restore_blockheight.height) + blob(
                encrypted_signature,
            ) + state3.layout(),
            AliceView::CancelTimelockExpired { monero_wallet_restore_blockheight, state3 } => {
                spec_u32_to_le_bytes(monero_wallet_restore_blockheight.height) + state3.layout()
            },
            AliceView::BtcCancelled { monero_wallet_restore_blockheight, state3 } => {
                spec_u32_to_le_bytes(monero_wallet_restore_blockheight.height) + state3.layout()
            },
            AliceView::BtcPunishable { monero_wallet_restore_blockheight, state3 } => {
                spec_u32_to_le_bytes(monero_wallet_restore_blockheight.height) + state3.layout()
            },
            AliceView::BtcRefunded { monero_wallet_restore_blockheight, state3, spend_key } => {
                spec_u32_to_le_bytes(monero_wallet_restore_blockheight.height) + state3.layout()
                    + blob(spend_key)
            },
            AliceView::Done(end_state) => seq![end_state.tag()],
        }
    }

    /// The record in bytes: the version of the layout, the byte of the state,
    /// then what the record holds.
    pub open spec fn encoding(self) -> Seq<u8> {
        seq![VERSION, self.tag()] + self.body()
    }

    /// Whether every byte string in the record has a length that eight bytes
    /// can hold.
    pub open spec fn fits(self) -> bool {
        match self {
            AliceView::WatchingForTxLockInMempool { state3 } => state3.fits(),
            AliceView::WaitingForTxLockConfirmations { state3 } => state3.fits(),
            AliceView::WaitingForEncSig { state3, .. } => state3.fits(),
            AliceView::EncSigLearned { encrypted_signature, state3, .. } => state3.fits()
                && encrypted_signature.len() <= u64::MAX,
            AliceView::CancelTimelockExpired { state3, .. } => state3.fits(),
            AliceView::BtcCancelled { state3, .. } => state3.fits(),
            AliceView::BtcPunishable { state3, .. } => state3.fits(),
            AliceView::BtcRefunded { state3, spend_key, .. } => state3.fits() && spend_key.len()
                <= u64::MAX,
            AliceView::Done(_) => true,
        }
    }
}

/// The end state that a byte stands for.
pub open spec fn end_state_of(tag: u8) -> Option<AliceEndState> {
    if tag == 0 {
        Some(AliceEndState::SafelyAborted)
    } else if tag == 1 {
        Some(AliceEndState::BtcRedeemed)
    } else if tag == 2 {
        Some(AliceEndState::XmrRefunded)
    } else if tag == 3 {
        Some(AliceEndState::BtcPunished)
    } else {
        None
    }
}

/// The record of a running swap in the state that `tag` stands for, read
/// from all of `s`; `None` where `s` ends too early or goes on after the
/// record.
pub open spec fn parse_running(tag: u8, s: Seq<u8>) -> Option<AliceView>
    recommends
        tag < 8,
{
    if tag == 0 || tag == 1 {
        let state3 = parse_state3(s);
        if state3.is_some() && rest_of(state3).len() == 0 {
            Some(
                if tag == 0 {
                    AliceView::WatchingForTxLockInMempool { state3: value_of(state3) }
                } else {
                    AliceView::WaitingForTxLockConfirmations { state3: value_of(state3) }
                },
            )
        } else {
            None
        }
    } else if tag == 3 {
        let height = parse_u32(s);
        let encrypted_signature = parse_blob(rest_of(height));
        let state3 = parse_state3(rest_of(encrypted_signature));
        if state3.is_some() && rest_of(state3).len() == 0 {
            Some(
                AliceView::EncSigLearned {
                    monero_wallet_restore_blockheight: BlockHeight { height: value_of(height) },
                    encrypted_signature: value_of(encrypted_signature),
                    state3: value_of(state3),
                },
            )
        } else {
            None
        }
    } else if tag == 7 {
        let height = parse_u32(s);
        let state3 = parse_state3(rest_of(height));
        let spend_key = parse_blob(rest_of(state3));
        if spend_key.is_some() && rest_of(spend_key).len() == 0 {
            Some(
                AliceView::BtcRefunded {
                    monero_wallet_restore_blockheight: BlockHeight { height: value_of(height) },
                    state3: value_of(state3),
                    spend_key: value_of(spend_key),
                },
            )
        } else {
            None
        }
    } else {
        let height = parse_u32(s);
        let state3 = parse_state3(rest_of(height));
        if state3.is_some() && rest_of(state3).len() == 0 {
            let monero_wallet_restore_blockheight = BlockHeight { height: value_of(height) };
            let state3 = value_of(state3);
            Some(
                if tag == 2 {
                    AliceView::WaitingForEncSig { monero_wallet_restore_blockheight, state3 }
                } else if tag == 4 {
                    AliceView::CancelTimelockExpired { monero_wallet_restore_blockheight, state3 }
                } else if tag == 5 {
                    AliceView::BtcCancelled { monero_wallet_restore_blockheight, state3 }
                } else {
                    AliceView::BtcPunishable { monero_wallet_restore_blockheight, state3 }
                },
            )
        } else {
            None
        }
    }
}

/// The record that bytes stand for, or why they stand for none: a version
/// other than the one known, a state or end state that is not known, or
/// bytes that end too early or go on after the record.
pub open spec fn decoding(bytes: Seq<u8>) -> Result<AliceView, DecodeError> {
    if bytes.len() < 2 {
        Err(DecodeError::Malformed)
    } else if bytes[0] != VERSION {
        Err(DecodeError::UnknownVersion)
    } else if bytes[1] > 8 {
        Err(DecodeError::UnknownVariant)
    } else if bytes[1] == 8 {
        if bytes.len() != 3 {
            Err(DecodeError::Malformed)
        } else {
            match end_state_of(bytes[2]) {
                Some(end_state) => Ok(AliceView::Done(end_state)),
                None => Err(DecodeError::UnknownVariant),
            }
        }
    } else {
        match parse_running(bytes[1], bytes.skip(2)) {
            Some(record) => Ok(record),
            None => Err(DecodeError::Malformed),
        }
    }
}

/// What a record holds where bytes were read as one, the error where they
/// were not.
pub open spec fn record_of_read(read: Result<Alice, DecodeError>) -> Result<
    AliceView,
    DecodeError,
> {
    match read {
        Ok(record) => Ok(record@),
        Err(e) => Err(e),
    }
}

/// A record read from the bytes it was laid out in is the record itself.
pub proof fn lemma_decode_encode(record: AliceView)
    requires
        record.fits(),
    ensures
        decoding(record.encoding()) == Ok::<AliceView, DecodeError>(record),
{
    let bytes = record.encoding();
    let none = Seq::<u8>::empty();
    assert(bytes.skip(2) =~= record.body());
    assert(bytes[0] == VERSION);
    assert(bytes[1] == record.tag());
    match record {
        AliceView::WatchingForTxLockInMempool { state3 } => {
            lemma_parse_state3(state3, none);
            assert(state3.layout() + none =~= state3.layout());
        },
        AliceView::WaitingForTxLockConfirmations { state3 } => {
            lemma_parse_state3(state3, none);
            assert(state3.layout() + none =~= state3.layout());
        },
        AliceView::EncSigLearned {
            monero_wallet_restore_blockheight,
            encrypted_signature,
            state3,
        } => {
            let h = spec_u32_to_le_bytes(monero_wallet_restore_blockheight.height);
            lemma_regroup(h, blob(encrypted_signature), state3.layout());
            lemma_parse_u32(
                monero_wallet_restore_blockheight.height,
                blob(encrypted_signature) + state3.layout(),
            );
            lemma_parse_blob(encrypted_signature, state3.layout());
            lemma_parse_state3(state3, none);
            assert(state3.layout() + none =~= state3.layout());
        },
        AliceView::BtcRefunded { monero_wallet_restore_blockheight, state3, spend_key } => {
            let h = spec_u32_to_le_bytes(monero_wallet_restore_blockheight.height);
            lemma_regroup(h, state3.layout(), blob(spend_key));
            lemma_parse_u32(
                monero_wallet_restore_blockheight.height,
                state3.layout() + blob(spend_key),
            );
            lemma_parse_state3(state3, blob(spend_key));
            lemma_parse_blob(spend_key, none);
            assert(blob(spend_key) + none =~= blob(spend_key));
        },
        AliceView::WaitingForEncSig { monero_wallet_restore_blockheight, state3 }
        | AliceView::CancelTimelockExpired { monero_wallet_restore_blockheight, state3 }
        | AliceView::BtcCancelled { monero_wallet_restore_blockheight, state3 }
        | AliceView::BtcPunishable { monero_wallet_restore_blockheight, state3 } => {
            lemma_parse_u32(monero_wallet_restore_blockheight.height, state3.layout());
            lemma_parse_state3(state3, none);
            assert(state3.layout() + none =~= state3.layout());
        },
        AliceView::Done(end_state) => {
            assert(bytes.len() == 3);
            assert(bytes[2] == end_state.tag());
        },
    }
}

/// What a record holds always fits the layout: no byte string in memory is
/// longer than eight bytes can say.
pub proof fn lemma_record_fits(record: Alice)
    ensures
        record@.fits(),
{
    match record {
        Alice::WatchingForTxLockInMempool { state3 } => lemma_state3_fits(state3),
        Alice::WaitingForTxLockConfirmations { state3 } => lemma_state3_fits(state3),
        Alice::WaitingForEncSig { state3, .. } => lemma_state3_fits(state3),
        Alice::EncSigLearned { state3, encrypted_signature, .. } => {
            lemma_state3_fits(state3);
            assert(encrypted_signature.bytes.len() <= usize::MAX);
        },
        Alice::CancelTimelockExpired { state3, .. } => lemma_state3_fits(state3),
        Alice::BtcCancelled { state3, .. } => lemma_state3_fits(state3),
        Alice::BtcPunishable { state3, .. } => lemma_state3_fits(state3),
        Alice::BtcRefunded { state3, spend_key, .. } => {
            lemma_state3_fits(state3);
            assert(spend_key.bytes.len() <= usize::MAX);
        },
        Alice::Done(_) => {},
    }
}

/// Every record that is laid out in bytes and read again comes back as it
/// was.
pub proof fn lemma_roundtrip(record: Alice)
    ensures
        decoding(record@.encoding()) == Ok::<AliceView, DecodeError>(record@),
{
    lemma_record_fits(record);
    lemma_decode_encode(record@);
}

impl AliceEndState {
    fn to_tag(&self) -> (r: u8)
        ensures
            r == self.tag(),
    {
        match self {
            AliceEndState::SafelyAborted => 0,
            AliceEndState::BtcRedeemed => 1,
            AliceEndState::XmrRefunded => 2,
            AliceEndState::BtcPunished => 3,
        }
    }
}

impl Alice {
    /// The record in bytes.
    pub fn encode(&self) -> (r: Vec<u8>)
        ensures
            r@ == self@.encoding(),
    {
        let mut out: Vec<u8> = Vec::new();
        out.push(VERSION);
        match self {
            Alice::WatchingForTxLockInMempool { state3 } => {
                out.push(0);
                put_state3(&mut out, state3);
            },
            Alice::WaitingForTxLockConfirmations { state3 } => {
                out.push(1);
                put_state3(&mut out, state3);
            },
            Alice::WaitingForEncSig { monero_wallet_restore_blockheight, state3 } => {
                out.push(2);
                put_u32(&mut out, monero_wallet_restore_blockheight.height);
                put_state3(&mut out, state3);
            },
            Alice::EncSigLearned {
                monero_wallet_restore_blockheight,
                encrypted_signature,
                state3,
            } => {
                out.push(3);
                put_u32(&mut out, monero_wallet_restore_blockheight.height);
                put_blob(&mut out, &encrypted_signature.bytes);
                put_state3(&mut out, state3);
            },
            Alice::CancelTimelockExpired { monero_wallet_restore_blockheight, state3 } => {
                out.push(4);
                put_u32(&mut out, monero_wallet_restore_blockheight.height);
                put_state3(&mut out, state3);
            },
            Alice::BtcCancelled { monero_wallet_restore_blockheight, state3 } => {
                out.push(5);
                put_u32(&mut out, monero_wallet_restore_blockheight.height);
                put_state3(&mut out, state3);
            },
            Alice::BtcPunishable { monero_wallet_restore_blockheight, state3 } => {
                out.push(6);
                put_u32(&mut out, monero_wallet_restore_blockheight.height);
                put_state3(&mut out, state3);
            },
            Alice::BtcRefunded { monero_wallet_restore_blockheight, state3, spend_key } => {
                out.push(7);
                put_u32(&mut out, monero_wallet_restore_blockheight.height);
                put_state3(&mut out, state3);
                put_blob(&mut out, &spend_key.bytes);
            },
            Alice::Done(end_state) => {
                out.push(8);
                out.push(end_state.to_tag());
            },
        }
        assert(out@ =~= self@.encoding());
        out
    }

    /// The record that bytes stand for, or why they stand for none.
    pub fn decode(bytes: &[u8]) -> (r: Result<Alice, DecodeError>)
        ensures
            record_of_read(r) == decoding(bytes@),
    {
        proof {
            lemma_parse_state3_of_nothing();
        }
        if bytes.len() < 2 {
            return Err(DecodeError::Malformed);
        }
        if bytes[0] != VERSION {
            return Err(DecodeError::UnknownVersion);
        }
        let tag = bytes[1];
        if tag > 8 {
            return Err(DecodeError::UnknownVariant);
        }
        if tag == 8 {
            if bytes.len() != 3 {
                return Err(DecodeError::Malformed);
            }
            let end = bytes[2];
            return if end == 0 {
                Ok(Alice::Done(AliceEndState::SafelyAborted))
            } else if end == 1 {
                Ok(Alice::Done(AliceEndState::BtcRedeemed))
            } else if end == 2 {
                Ok(Alice::Done(AliceEndState::XmrRefunded))
            } else if end == 3 {
                Ok(Alice::Done(AliceEndState::BtcPunished))
            } else {
                Err(DecodeError::UnknownVariant)
            };
        }
        if tag == 0 || tag == 1 {
            return match get_state3(bytes, 2) {
                Some((state3, end)) => if end == bytes.len() {
                    if tag == 0 {
                        Ok(Alice::WatchingForTxLockInMempool { state3 })
                    } else {
                        Ok(Alice::WaitingForTxLockConfirmations { state3 })
                    }
                } else {
                    Err(DecodeError::Malformed)
                },
                None => Err(DecodeError::Malformed),
            };
        }
        let (height, pos) = match get_u32(bytes, 2) {
            Some(read) => read,
            None => {
                return Err(DecodeError::Malformed);
            },
        };
        let monero_wallet_restore_blockheight = BlockHeight { height };
        if tag == 3 {
            let (signature, pos) = match get_blob(bytes, pos) {
                Some(read) => read,
                None => {
                    return Err(DecodeError::Malformed);
                },
            };
            return match get_state3(bytes, pos) {
                Some((state3, end)) => if end == bytes.len() {
                    Ok(
                        Alice::EncSigLearned {
                            monero_wallet_restore_blockheight,
                            encrypted_signature: EncryptedSignature { bytes: signature },
                            state3,
                        },
                    )
                } else {
                    Err(DecodeError::Malformed)
                },
                None => Err(DecodeError::Malformed),
            };
        }
        let (state3, pos) = match get_state3(bytes, pos) {
            Some(read) => read,
            None => {
                return Err(DecodeError::Malformed);
            },
        };
        if tag == 7 {
            return match get_blob(bytes, pos) {
                Some((key, end)) => if end == bytes.len() {
                    Ok(
                        Alice::BtcRefunded {
                            monero_wallet_restore_blockheight,
                            state3,
                            spend_key: PrivateKey { bytes: key },
                        },
                    )
                } else {
                    Err(DecodeError::Malformed)
                },
                None => Err(DecodeError::Malformed),
            };
        }
        if pos != bytes.len() {
            return Err(DecodeError::Malformed);
        }
        if tag == 2 {
            Ok(Alice::WaitingForEncSig { monero_wallet_restore_blockheight, state3 })
        } else if tag == 4 {
            Ok(Alice::CancelTimelockExpired { monero_wallet_restore_blockheight, state3 })
        } else if tag == 5 {
            Ok(Alice::BtcCancelled { monero_wallet_restore_blockheight, state3 })
        } else {
            Ok(Alice::BtcPunishable { monero_wallet_restore_blockheight, state3 })
        }
    }
}

} // verus!
