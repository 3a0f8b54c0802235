//! The maker's side of a swap: the states it passes through.

use crate::bitcoin::EncryptedSignature;
use crate::monero::{BlockHeight, PrivateKey};
use crate::network::encrypted_signature;
use crate::protocol::State3;
use vstd::prelude::*;

pub mod swap;

verus! {

/// The state of a swap on the maker's side, as the running swap holds it.
///
/// Every state before the end carries the swap's parameters. From the moment
/// the Monero lock is published a state also carries the height from which the
/// Monero wallet can be restored.
#[derive(Debug, PartialEq, Eq)]
pub enum AliceState {
    WatchingForTxLockInMempool { state3: Box<State3> },
    WaitingForTxLockConfirmations { state3: Box<State3> },
    WaitingForEncSig { monero_wallet_restore_blockheight: BlockHeight, state3: Box<State3> },
    EncSigLearned {
        monero_wallet_restore_blockheight: BlockHeight,
        encrypted_signature: Box<EncryptedSignature>,
        state3: Box<State3>,
    },
    BtcRedeemed,
    BtcCancelled { monero_wallet_restore_blockheight: BlockHeight, state3: Box<State3> },
    BtcRefunded {
        monero_wallet_restore_blockheight: BlockHeight,
        spend_key: PrivateKey,
        state3: Box<State3>,
    },
    BtcPunishable { monero_wallet_restore_blockheight: BlockHeight, state3: Box<State3> },
    XmrRefunded,
    CancelTimelockExpired { monero_wallet_restore_blockheight: BlockHeight, state3: Box<State3> },
    BtcPunished,
    SafelyAborted,
}

/// What the maker's side of a swap can come to know while it waits.
#[derive(Debug, PartialEq, Eq)]
pub enum Observation {
    /// The Bitcoin lock transaction is in the mempool.
    TxLockSeenInMempool,
    /// The taker did not lock Bitcoin in the time allowed after setup.
    SetupTimeout,
    /// The operator asked for the swap to be abandoned.
    AbortRequested,
    /// The Bitcoin lock transaction has this many confirmations.
    TxLockConfirmations { confirmations: u32 },
    /// A reorganisation removed the Bitcoin lock transaction from the chain.
    TxLockDropped,
    /// The taker sent the encrypted signature.
    EncSigReceived { encrypted_signature: EncryptedSignature },
    /// The Bitcoin redeem transaction is published and confirmed.
    TxRedeemConfirmed,
    /// The Bitcoin cancel transaction has this many confirmations.
    TxCancelConfirmations { confirmations: u32 },
    /// The taker published the Bitcoin refund transaction; `spend_key` is the
    /// Monero spend key recovered from it.
    TxRefundSeen { spend_key: PrivateKey },
    /// The Bitcoin punish transaction is published and confirmed.
    TxPunishConfirmed,
    /// The Monero refund is published and confirmed.
    XmrRefundConfirmed,
}

/// What a transition takes from its surroundings besides the observation.
#[derive(Clone, Copy, Debug, PartialEq, Eq, Structural)]
pub struct Environment {
    /// The number of confirmations at which a Bitcoin transaction counts as
    /// final.
    pub bitcoin_finality_confirmations: u32,
    /// The current height of the Monero wallet, kept as the restore height
    /// when the Monero lock is published.
    pub monero_wallet_height: BlockHeight,
}

/// The result of handing an observation to a state.
#[derive(Debug, PartialEq, Eq)]
pub enum Outcome {
    /// The observation moved the swap to this state.
    Advanced(AliceState),
    /// The observation does not concern the state, which is handed back.
    Ignored(AliceState),
}

impl AliceState {
    /// Whether the swap is over.
    pub open spec fn is_terminal(&self) -> bool {
        self is BtcRedeemed || self is XmrRefunded || self is BtcPunished || self is SafelyAborted
    }

    /// The swap's parameters, which every state before the end carries.
    pub open spec fn parameters(&self) -> Option<State3> {
        match self {
            AliceState::WatchingForTxLockInMempool { state3 } => Some(**state3),
            AliceState::WaitingForTxLockConfirmations { state3 } => Some(**state3),
            AliceState::WaitingForEncSig { state3, .. } => Some(**state3),
            AliceState::EncSigLearned { state3, .. } => Some(**state3),
            AliceState::BtcCancelled { state3, .. } => Some(**state3),
            AliceState::BtcRefunded { state3, .. } => Some(**state3),
            AliceState::BtcPunishable { state3, .. } => Some(**state3),
            AliceState::CancelTimelockExpired { state3, .. } => Some(**state3),
            AliceState::BtcRedeemed => None,
            AliceState::XmrRefunded => None,
            AliceState::BtcPunished => None,
            AliceState::SafelyAborted => None,
        }
    }

    /// The state that follows `self` on `observation`, where there is one.
    ///
    /// A timelock has expired once the transaction it counts from has as many
    /// confirmations as the timelock has blocks.
    pub open spec fn transition(
        self,
        observation: Observation,
        env: Environment,
    ) -> Option<AliceState> {
        match (self, observation) {
            (
                AliceState::WatchingForTxLockInMempool { state3 },
                Observation::TxLockSeenInMempool,
            ) => Some(AliceState::WaitingForTxLockConfirmations { state3 }),
            (AliceState::WatchingForTxLockInMempool { .. }, Observation::SetupTimeout) => Some(
                AliceState::SafelyAborted,
            ),
            (AliceState::WatchingForTxLockInMempool { .. }, Observation::AbortRequested) => Some(
                AliceState::SafelyAborted,
            ),
            (
                AliceState::WaitingForTxLockConfirmations { state3 },
                Observation::TxLockConfirmations { confirmations },
            ) => if confirmations >= env.bitcoin_finality_confirmations {
                Some(
                    AliceState::WaitingForEncSig {
                        monero_wallet_restore_blockheight: env.monero_wallet_height,
                        state3,
                    },
                )
            } else {
                None
            },
            (AliceState::WaitingForTxLockConfirmations { .. }, Observation::TxLockDropped) => Some(
                AliceState::SafelyAborted,
            ),
            (
                AliceState::WaitingForEncSig { monero_wallet_restore_blockheight, state3 },
                Observation::EncSigReceived { encrypted_signature },
            ) => Some(
                AliceState::EncSigLearned {
                    monero_wallet_restore_blockheight,
                    encrypted_signature: Box::new(encrypted_signature),
                    state3,
                },
            ),
            (
                AliceState::WaitingForEncSig { monero_wallet_restore_blockheight, state3 },
                Observation::TxLockConfirmations { confirmations },
            ) => if confirmations >= state3.cancel_timelock {
                Some(
                    AliceState::CancelTimelockExpired { monero_wallet_restore_blockheight, state3 },
                )
            } else {
                None
            },
            (AliceState::EncSigLearned { .. }, Observation::TxRedeemConfirmed) => Some(
                AliceState::BtcRedeemed,
            ),
            (
                AliceState::EncSigLearned { monero_wallet_restore_blockheight, state3, .. },
                Observation::TxLockConfirmations { confirmations },
            ) => if confirmations >= state3.cancel_timelock {
                Some(
                    AliceState::CancelTimelockExpired { monero_wallet_restore_blockheight, state3 },
                )
            } else {
                None
            },
            (
                AliceState::CancelTimelockExpired { monero_wallet_restore_blockheight, state3 },
                Observation::TxCancelConfirmations { confirmations },
            ) => if confirmations >= 1 {
                Some(AliceState::BtcCancelled { monero_wallet_restore_blockheight, state3 })
            } else {
                None
            },
            (
                AliceState::BtcCancelled { monero_wallet_restore_blockheight, state3 },
                Observation::TxRefundSeen { spend_key },
            ) => Some(
                AliceState::BtcRefunded { monero_wallet_restore_blockheight, spend_key, state3 },
            ),
            (
                AliceState::BtcCancelled { monero_wallet_restore_blockheight, state3 },
                Observation::TxCancelConfirmations { confirmations },
            ) => if confirmations >= state3.punish_timelock {
                Some(AliceState::BtcPunishable { monero_wallet_restore_blockheight, state3 })
            } else {
                None
            },
            (AliceState::BtcPunishable { .. }, Observation::TxPunishConfirmed) => Some(
                AliceState::BtcPunished,
            ),
            (AliceState::BtcRefunded { .. }, Observation::XmrRefundConfirmed) => Some(
                AliceState::XmrRefunded,
            ),
            _ => None,
        }
    }

    /// Whether the swap is over.
    pub fn terminal(&self) -> (r: bool)
        ensures
            r == self.is_terminal(),
    {
        match self {
            AliceState::BtcRedeemed => true,
            AliceState::XmrRefunded => true,
            AliceState::BtcPunished => true,
            AliceState::SafelyAborted => true,
            _ => false,
        }
    }

    /// The swap's parameters, which every state before the end carries.
    pub fn state3(&self) -> (r: Option<&State3>)
        ensures
            r.is_some() == !self.is_terminal(),
            r matches Some(state3) ==> Some(*state3) == self.parameters(),
    {
        match self {
            AliceState::WatchingForTxLockInMempool { state3 } => Some(&**state3),
            AliceState::WaitingForTxLockConfirmations { state3 } => Some(&**state3),
            AliceState::WaitingForEncSig { state3, .. } => Some(&**state3),
            AliceState::EncSigLearned { state3, .. } => Some(&**state3),
            AliceState::BtcCancelled { state3, .. } => Some(&**state3),
            AliceState::BtcRefunded { state3, .. } => Some(&**state3),
            AliceState::BtcPunishable { state3, .. } => Some(&**state3),
            AliceState::CancelTimelockExpired { state3, .. } => Some(&**state3),
            AliceState::BtcRedeemed => None,
            AliceState::XmrRefunded => None,
            AliceState::BtcPunished => None,
            AliceState::SafelyAborted => None,
        }
    }

    /// Hands an observation to the state. Where the state waits for it, the
    /// swap advances to the state that follows; where it does not, the state
    /// comes back as it was.
    pub fn step(self, observation: Observation, env: Environment) -> (r: Outcome)
        ensures
            match self.transition(observation, env) {
                Some(next) => r == Outcome::Advanced(next),
                None => r == Outcome::Ignored(self),
            },
            r is Advanced ==> !self.is_terminal(),
    {
        match (self, observation) {
            (
                AliceState::WatchingForTxLockInMempool { state3 },
                Observation::TxLockSeenInMempool,
            ) => Outcome::Advanced(AliceState::WaitingForTxLockConfirmations { state3 }),
            (AliceState::WatchingForTxLockInMempool { .. }, Observation::SetupTimeout) => {
                Outcome::Advanced(AliceState::SafelyAborted)
            },
            (AliceState::WatchingForTxLockInMempool { .. }, Observation::AbortRequested) => {
                Outcome::Advanced(AliceState::SafelyAborted)
            },
            (
                AliceState::WaitingForTxLockConfirmations { state3 },
                Observation::TxLockConfirmations { confirmations },
            ) => if confirmations >= env.bitcoin_finality_confirmations {
                Outcome::Advanced(
                    AliceState::WaitingForEncSig {
                        monero_wallet_restore_blockheight: env.monero_wallet_height,
                        state3,
                    },
                )
            } else {
                Outcome::Ignored(AliceState::WaitingForTxLockConfirmations { state3 })
            },
            (AliceState::WaitingForTxLockConfirmations { .. }, Observation::TxLockDropped) => {
                Outcome::Advanced(AliceState::SafelyAborted)
            },
            (
                AliceState::WaitingForEncSig { monero_wallet_restore_blockheight, state3 },
                Observation::EncSigReceived { encrypted_signature },
            ) => Outcome::Advanced(
                AliceState::EncSigLearned {
                    monero_wallet_restore_blockheight,
                    encrypted_signature: Box::new(encrypted_signature),
                    state3,
                },
            ),
            (
                AliceState::WaitingForEncSig { monero_wallet_restore_blockheight, state3 },
                Observation::TxLockConfirmations { confirmations },
            ) => if confirmations >= state3.cancel_timelock {
                Outcome::Advanced(
                    AliceState::CancelTimelockExpired { monero_wallet_restore_blockheight, state3 },
                )
            } else {
                Outcome::Ignored(
                    AliceState::WaitingForEncSig { monero_wallet_restore_blockheight, state3 },
                )
            },
            (AliceState::EncSigLearned { .. }, Observation::TxRedeemConfirmed) => {
                Outcome::Advanced(AliceState::BtcRedeemed)
            },
            (
                AliceState::EncSigLearned {
                    monero_wallet_restore_blockheight,
                    encrypted_signature,
                    state3,
                },
                Observation::TxLockConfirmations { confirmations },
            ) => if confirmations >= state3.cancel_timelock {
                Outcome::Advanced(
                    AliceState::CancelTimelockExpired { monero_wallet_restore_blockheight, state3 },
                )
            } else {
                Outcome::Ignored(
                    AliceState::EncSigLearned {
                        monero_wallet_restore_blockheight,
                        encrypted_signature,
                        state3,
                    },
                )
            },
            (
                AliceState::CancelTimelockExpired { monero_wallet_restore_blockheight, state3 },
                Observation::TxCancelConfirmations { confirmations },
            ) => if confirmations >= 1 {
                Outcome::Advanced(
                    AliceState::BtcCancelled { monero_wallet_restore_blockheight, state3 },
                )
            } else {
                Outcome::Ignored(
                    AliceState::CancelTimelockExpired { monero_wallet_restore_blockheight, state3 },
                )
            },
            (
                AliceState::BtcCancelled { monero_wallet_restore_blockheight, state3 },
                Observation::TxRefundSeen { spend_key },
            ) => Outcome::Advanced(
                AliceState::BtcRefunded { monero_wallet_restore_blockheight, spend_key, state3 },
            ),
            (
                AliceState::BtcCancelled { monero_wallet_restore_blockheight, state3 },
                Observation::TxCancelConfirmations { confirmations },
            ) => if confirmations >= state3.punish_timelock {
                Outcome::Advanced(
                    AliceState::BtcPunishable { monero_wallet_restore_blockheight, state3 },
                )
            } else {
                Outcome::Ignored(
                    AliceState::BtcCancelled { monero_wallet_restore_blockheight, state3 },
                )
            },
            (AliceState::BtcPunishable { .. }, Observation::TxPunishConfirmed) => {
                Outcome::Advanced(AliceState::BtcPunished)
            },
            (AliceState::BtcRefunded { .. }, Observation::XmrRefundConfirmed) => {
                Outcome::Advanced(AliceState::XmrRefunded)
            },
            (state, _) => Outcome::Ignored(state),
        }
    }
}

impl AliceState {
    /// Whether the Monero lock is out: the states from `WaitingForEncSig` on,
    /// the end not counted.
    pub open spec fn xmr_locked(&self) -> bool {
        self is WaitingForEncSig || self is EncSigLearned || self is CancelTimelockExpired
            || self is BtcCancelled || self is BtcPunishable || self is BtcRefunded
    }

    /// Whether the swap ended with the maker made whole: Bitcoin redeemed,
    /// Bitcoin punished, or Monero refunded.
    pub open spec fn settled(&self) -> bool {
        self is BtcRedeemed || self is BtcPunished || self is XmrRefunded
    }

    /// Whether one transition leads from `self` to `next`.
    pub open spec fn steps_to(self, next: AliceState) -> bool {
        exists|observation: Observation, env: Environment|
            self.transition(observation, env) == Some(next)
    }
}

/// Whether each state of `run` but the first follows from the one before it
/// by one transition.
pub open spec fn is_run(run: Seq<AliceState>) -> bool {
    forall|i: int| 0 <= i < run.len() - 1 ==> (#[trigger] run[i]).steps_to(run[i + 1])
}

/// No transition starts at a final state.
pub proof fn lemma_no_transition_from_terminal(
    state: AliceState,
    observation: Observation,
    env: Environment,
)
    requires
        state.is_terminal(),
    ensures
        state.transition(observation, env).is_none(),
{
}

/// A transition into a state before the end keeps the swap's parameters.
pub proof fn lemma_transition_keeps_parameters(
    state: AliceState,
    observation: Observation,
    env: Environment,
)
    requires
        state.transition(observation, env).is_some(),
    ensures
        state.parameters().is_some(),
        !state.transition(observation, env)->0.is_terminal() ==> state.transition(
            observation,
            env,
        )->0.parameters() == state.parameters(),
{
}

/// A swap ends once: in a run, a final state can only stand last, so a run
/// holds at most one of them.
pub proof fn lemma_run_ends_once(run: Seq<AliceState>, i: int, j: int)
    requires
        is_run(run),
        0 <= i < run.len(),
        0 <= j < run.len(),
        run[i].is_terminal(),
        run[j].is_terminal(),
    ensures
        i == j,
        i == run.len() - 1,
{
    if i < run.len() - 1 {
        assert(run[i].steps_to(run[i + 1]));
    }
    if j < run.len() - 1 {
        assert(run[j].steps_to(run[j + 1]));
    }
}

/// Once the Monero lock is out, the swap cannot end in `SafelyAborted`: a run
/// that starts there stays among the states with the lock out until it ends
/// with Bitcoin redeemed, Bitcoin punished or Monero refunded.
pub proof fn lemma_locked_run_settles(run: Seq<AliceState>, i: int)
    requires
        is_run(run),
        run.len() > 0,
        run[0].xmr_locked(),
        0 <= i < run.len(),
    ensures
        run[i].xmr_locked() || run[i].settled(),
    decreases i,
{
    if i > 0 {
        lemma_locked_run_settles(run, i - 1);
        assert(run[i - 1].steps_to(run[i]));
    }
}

/// The run that takes a swap with the Monero lock out to the refund of the
/// Monero: the cancel timelock expires, the cancel transaction confirms, the
/// taker refunds.
pub open spec fn refund_run(state: AliceState, spend_key: PrivateKey) -> Seq<AliceState>
    recommends
        state.xmr_locked(),
{
    let state3 = Box::new(state.parameters()->0);
    match state {
        AliceState::WaitingForEncSig { monero_wallet_restore_blockheight, .. }
        | AliceState::EncSigLearned { monero_wallet_restore_blockheight, .. } => seq![
            state,
            AliceState::CancelTimelockExpired { monero_wallet_restore_blockheight, state3 },
            AliceState::BtcCancelled { monero_wallet_restore_blockheight, state3 },
            AliceState::BtcRefunded { monero_wallet_restore_blockheight, spend_key, state3 },
            AliceState::XmrRefunded,
        ],
        AliceState::CancelTimelockExpired { monero_wallet_restore_blockheight, .. } => seq![
            state,
            AliceState::BtcCancelled { monero_wallet_restore_blockheight, state3 },
            AliceState::BtcRefunded { monero_wallet_restore_blockheight, spend_key, state3 },
            AliceState::XmrRefunded,
        ],
        AliceState::BtcCancelled { monero_wallet_restore_blockheight, .. } => seq![
            state,
            AliceState::BtcRefunded { monero_wallet_restore_blockheight, spend_key, state3 },
            AliceState::XmrRefunded,
        ],
        AliceState::BtcRefunded { .. } => seq![state, AliceState::XmrRefunded],
        _ => seq![state],
    }
}

/// The run that takes a swap with the Monero lock out to the punishment of
/// the taker: the cancel timelock expires, the cancel transaction confirms,
/// the punish timelock expires, the punish transaction confirms.
pub open spec fn punish_run(state: AliceState) -> Seq<AliceState>
    recommends
        state.xmr_locked(),
{
    let state3 = Box::new(state.parameters()->0);
    match state {
        AliceState::WaitingForEncSig { monero_wallet_restore_blockheight, .. }
        | AliceState::EncSigLearned { monero_wallet_restore_blockheight, .. } => seq![
            state,
            AliceState::CancelTimelockExpired { monero_wallet_restore_blockheight, state3 },
            AliceState::BtcCancelled { monero_wallet_restore_blockheight, state3 },
            AliceState::BtcPunishable { monero_wallet_restore_blockheight, state3 },
            AliceState::BtcPunished,
        ],
        AliceState::CancelTimelockExpired { monero_wallet_restore_blockheight, .. } => seq![
            state,
            AliceState::BtcCancelled { monero_wallet_restore_blockheight, state3 },
            AliceState::BtcPunishable { monero_wallet_restore_blockheight, state3 },
            AliceState::BtcPunished,
        ],
        AliceState::BtcCancelled { monero_wallet_restore_blockheight, .. } => seq![
            state,
            AliceState::BtcPunishable { monero_wallet_restore_blockheight, state3 },
            AliceState::BtcPunished,
        ],
        AliceState::BtcPunishable { .. } => seq![state, AliceState::BtcPunished],
        _ => seq![state],
    }
}

/// The observation that the lock or cancel transaction has as many
/// confirmations as a timelock asks for moves a waiting state on.
proof fn lemma_protective_steps(state: AliceState, spend_key: PrivateKey)
    requires
        state.xmr_locked(),
    ensures
        state is WaitingForEncSig || state is EncSigLearned ==> state.steps_to(
            refund_run(state, spend_key)[1],
        ),
        state is CancelTimelockExpired ==> state.steps_to(refund_run(state, spend_key)[1]),
        state is BtcCancelled ==> state.steps_to(refund_run(state, spend_key)[1])
            && state.steps_to(punish_run(state)[1]),
        state is BtcRefunded ==> state.steps_to(AliceState::XmrRefunded),
        state is BtcPunishable ==> state.steps_to(AliceState::BtcPunished),
{
    let env = Environment {
        bitcoin_finality_confirmations: 0,
        monero_wallet_height: BlockHeight { height: 0 },
    };
    let state3 = state.parameters()->0;
    match state {
        AliceState::WaitingForEncSig { .. } | AliceState::EncSigLearned { .. } => {
            let o = Observation::TxLockConfirmations { confirmations: state3.cancel_timelock };
            assert(state.transition(o, env) == Some(refund_run(state, spend_key)[1]));
        },
        AliceState::CancelTimelockExpired { .. } => {
            let o = Observation::TxCancelConfirmations { confirmations: 1 };
            assert(state.transition(o, env) == Some(refund_run(state, spend_key)[1]));
        },
        AliceState::BtcCancelled { .. } => {
            let o = Observation::TxRefundSeen { spend_key };
            assert(state.transition(o, env) == Some(refund_run(state, spend_key)[1]));
            let o2 = Observation::TxCancelConfirmations { confirmations: state3.punish_timelock };
            assert(state.transition(o2, env) == Some(punish_run(state)[1]));
        },
        AliceState::BtcRefunded { .. } => {
            assert(state.transition(Observation::XmrRefundConfirmed, env) == Some(
                AliceState::XmrRefunded,
            ));
        },
        AliceState::BtcPunishable { .. } => {
            assert(state.transition(Observation::TxPunishConfirmed, env) == Some(
                AliceState::BtcPunished,
            ));
        },
        _ => {},
    }
}

/// From every state with the Monero lock out in which the taker can still
/// refund, the refund of the Monero is within reach: `refund_run` is a run
/// from that state to `XmrRefunded`.
pub proof fn lemma_refund_within_reach(state: AliceState, spend_key: PrivateKey)
    requires
        state.xmr_locked(),
        !(state is BtcPunishable),
    ensures
        is_run(refund_run(state, spend_key)),
        refund_run(state, spend_key)[0] == state,
        refund_run(state, spend_key).last() is XmrRefunded,
{
    let run = refund_run(state, spend_key);
    assert forall|i: int| 0 <= i < run.len() - 1 implies (#[trigger] run[i]).steps_to(
        run[i + 1],
    ) by {
        lemma_protective_steps(run[i], spend_key);
    }
}

/// From every state with the Monero lock out in which Bitcoin is not yet
/// refunded, the punishment of the taker is within reach: `punish_run` is a
/// run from that state to `BtcPunished`.
pub proof fn lemma_punish_within_reach(state: AliceState)
    requires
        state.xmr_locked(),
        !(state is BtcRefunded),
    ensures
        is_run(punish_run(state)),
        punish_run(state)[0] == state,
        punish_run(state).last() is BtcPunished,
{
    let run = punish_run(state);
    assert forall|i: int| 0 <= i < run.len() - 1 implies (#[trigger] run[i]).steps_to(
        run[i + 1],
    ) by {
        lemma_protective_steps(run[i], arbitrary());
        if run[i] is WaitingForEncSig || run[i] is EncSigLearned
            || run[i] is CancelTimelockExpired {
            assert(refund_run(run[i], arbitrary())[1] == run[i + 1]);
        }
    }
}

/// The kinds of observation, without what they carry.
#[derive(Clone, Copy, Debug, PartialEq, Eq, Structural)]
pub enum ObservationKind {
    TxLockSeenInMempool,
    SetupTimeout,
    AbortRequested,
    TxLockConfirmations,
    TxLockDropped,
    EncSigReceived,
    TxRedeemConfirmed,
    TxCancelConfirmations,
    TxRefundSeen,
    TxPunishConfirmed,
    XmrRefundConfirmed,
}

impl Observation {
    /// The kind of the observation.
    pub open spec fn kind_of(&self) -> ObservationKind {
        match self {
            Observation::TxLockSeenInMempool => ObservationKind::TxLockSeenInMempool,
            Observation::SetupTimeout => ObservationKind::SetupTimeout,
            Observation::AbortRequested => ObservationKind::AbortRequested,
            Observation::TxLockConfirmations { .. } => ObservationKind::TxLockConfirmations,
            Observation::TxLockDropped => ObservationKind::TxLockDropped,
            Observation::EncSigReceived { .. } => ObservationKind::EncSigReceived,
            Observation::TxRedeemConfirmed => ObservationKind::TxRedeemConfirmed,
            Observation::TxCancelConfirmations { .. } => ObservationKind::TxCancelConfirmations,
            Observation::TxRefundSeen { .. } => ObservationKind::TxRefundSeen,
            Observation::TxPunishConfirmed => ObservationKind::TxPunishConfirmed,
            Observation::XmrRefundConfirmed => ObservationKind::XmrRefundConfirmed,
        }
    }

    /// The kind of the observation.
    pub fn kind(&self) -> (r: ObservationKind)
        ensures
            r == self.kind_of(),
    {
        match self {
            Observation::TxLockSeenInMempool => ObservationKind::TxLockSeenInMempool,
            Observation::SetupTimeout => ObservationKind::SetupTimeout,
            Observation::AbortRequested => ObservationKind::AbortRequested,
            Observation::TxLockConfirmations { .. } => ObservationKind::TxLockConfirmations,
            Observation::TxLockDropped => ObservationKind::TxLockDropped,
            Observation::EncSigReceived { .. } => ObservationKind::EncSigReceived,
            Observation::TxRedeemConfirmed => ObservationKind::TxRedeemConfirmed,
            Observation::TxCancelConfirmations { .. } => ObservationKind::TxCancelConfirmations,
            Observation::TxRefundSeen { .. } => ObservationKind::TxRefundSeen,
            Observation::TxPunishConfirmed => ObservationKind::TxPunishConfirmed,
            Observation::XmrRefundConfirmed => ObservationKind::XmrRefundConfirmed,
        }
    }
}

impl AliceState {
    /// The kinds of observation that the state waits for, the one that takes
    /// precedence first: the cooperative outcome comes before the protective
    /// one, and an abort that the operator asked for comes last.
    pub open spec fn expected(&self) -> Seq<ObservationKind> {
        match self {
            AliceState::WatchingForTxLockInMempool { .. } => seq![
                ObservationKind::TxLockSeenInMempool,
                ObservationKind::SetupTimeout,
                ObservationKind::AbortRequested,
            ],
            AliceState::WaitingForTxLockConfirmations { .. } => seq![
                ObservationKind::TxLockConfirmations,
                ObservationKind::TxLockDropped,
            ],
            AliceState::WaitingForEncSig { .. } => seq![
                ObservationKind::EncSigReceived,
                ObservationKind::TxLockConfirmations,
            ],
            AliceState::EncSigLearned { .. } => seq![
                ObservationKind::TxRedeemConfirmed,
                ObservationKind::TxLockConfirmations,
            ],
            AliceState::CancelTimelockExpired { .. } => seq![
                ObservationKind::TxCancelConfirmations,
            ],
            AliceState::BtcCancelled { .. } => seq![
                ObservationKind::TxRefundSeen,
                ObservationKind::TxCancelConfirmations,
            ],
            AliceState::BtcPunishable { .. } => seq![ObservationKind::TxPunishConfirmed],
            AliceState::BtcRefunded { .. } => seq![ObservationKind::XmrRefundConfirmed],
            _ => seq![],
        }
    }

    /// The place of a kind of observation in the order of precedence of the
    /// state: the place it has in `expected`, or the length of `expected`
    /// where the state does not wait for it.
    pub open spec fn precedence(&self, kind: ObservationKind) -> nat {
        Self::place(self.expected(), kind)
    }

    /// The first place of `kind` in `kinds`, or the length of `kinds` where it
    /// is not there.
    pub open spec fn place(kinds: Seq<ObservationKind>, kind: ObservationKind) -> nat
        decreases kinds.len(),
    {
        if kinds.len() == 0 {
            0
        } else if kinds[0] == kind {
            0
        } else {
            1 + Self::place(kinds.skip(1), kind)
        }
    }

    /// The kinds of observation that the state waits for, the one that takes
    /// precedence first.
    pub fn expected_observations(&self) -> (r: Vec<ObservationKind>)
        ensures
            r@ == self.expected(),
    {
        let mut r: Vec<ObservationKind> = Vec::new();
        match self {
            AliceState::WatchingForTxLockInMempool { .. } => {
                r.push(ObservationKind::TxLockSeenInMempool);
                r.push(ObservationKind::SetupTimeout);
                r.push(ObservationKind::AbortRequested);
            },
            AliceState::WaitingForTxLockConfirmations { .. } => {
                r.push(ObservationKind::TxLockConfirmations);
                r.push(ObservationKind::TxLockDropped);
            },
            AliceState::WaitingForEncSig { .. } => {
                r.push(ObservationKind::EncSigReceived);
                r.push(ObservationKind::TxLockConfirmations);
            },
            AliceState::EncSigLearned { .. } => {
                r.push(ObservationKind::TxRedeemConfirmed);
                r.push(ObservationKind::TxLockConfirmations);
            },
            AliceState::CancelTimelockExpired { .. } => {
                r.push(ObservationKind::TxCancelConfirmations);
            },
            AliceState::BtcCancelled { .. } => {
                r.push(ObservationKind::TxRefundSeen);
                r.push(ObservationKind::TxCancelConfirmations);
            },
            AliceState::BtcPunishable { .. } => {
                r.push(ObservationKind::TxPunishConfirmed);
            },
            AliceState::BtcRefunded { .. } => {
                r.push(ObservationKind::XmrRefundConfirmed);
            },
            _ => {},
        }
        assert(r@ =~= self.expected());
        r
    }
}

/// A state advances only on a kind of observation that it waits for.
pub proof fn lemma_transition_is_expected(
    state: AliceState,
    observation: Observation,
    env: Environment,
)
    requires
        state.transition(observation, env).is_some(),
    ensures
        state.expected().contains(observation.kind_of()),
{
    let kinds = state.expected();
    let kind = observation.kind_of();
    assert(kinds.len() <= 3);
    assert((kinds.len() > 0 && kinds[0] == kind) || (kinds.len() > 1 && kinds[1] == kind) || (
    kinds.len() > 2 && kinds[2] == kind));
}

impl AliceState {
    /// Whether acting on the observation at place `w` of a list is in order
    /// when the one at place `j` could be acted on too: the first comes
    /// earlier in the state's order of precedence, or is of the same kind and
    /// not later in the list.
    pub open spec fn wins(
        &self,
        winner: Observation,
        w: int,
        other: Observation,
        j: int,
    ) -> bool {
        self.precedence(winner.kind_of()) < self.precedence(other.kind_of()) || (self.precedence(
            winner.kind_of(),
        ) == self.precedence(other.kind_of()) && w <= j)
    }

    /// Whether the state advances on the observation.
    pub fn advances_on(&self, observation: &Observation, env: Environment) -> (r: bool)
        ensures
            r == (*self).transition(*observation, env).is_some(),
    {
        match (self, observation) {
            (AliceState::WatchingForTxLockInMempool { .. }, Observation::TxLockSeenInMempool) => {
                true
            },
            (AliceState::WatchingForTxLockInMempool { .. }, Observation::SetupTimeout) => true,
            (AliceState::WatchingForTxLockInMempool { .. }, Observation::AbortRequested) => true,
            (
                AliceState::WaitingForTxLockConfirmations { .. },
                Observation::TxLockConfirmations { confirmations },
            ) => *confirmations >= env.bitcoin_finality_confirmations,
            (AliceState::WaitingForTxLockConfirmations { .. }, Observation::TxLockDropped) => true,
            (AliceState::WaitingForEncSig { .. }, Observation::EncSigReceived { .. }) => true,
            (
                AliceState::WaitingForEncSig { state3, .. },
                Observation::TxLockConfirmations { confirmations },
            ) => *confirmations >= state3.cancel_timelock,
            (AliceState::EncSigLearned { .. }, Observation::TxRedeemConfirmed) => true,
            (
                AliceState::EncSigLearned { state3, .. },
                Observation::TxLockConfirmations { confirmations },
            ) => *confirmations >= state3.cancel_timelock,
            (
                AliceState::CancelTimelockExpired { .. },
                Observation::TxCancelConfirmations { confirmations },
            ) => *confirmations >= 1,
            (AliceState::BtcCancelled { .. }, Observation::TxRefundSeen { .. }) => true,
            (
                AliceState::BtcCancelled { state3, .. },
                Observation::TxCancelConfirmations { confirmations },
            ) => *confirmations >= state3.punish_timelock,
            (AliceState::BtcPunishable { .. }, Observation::TxPunishConfirmed) => true,
            (AliceState::BtcRefunded { .. }, Observation::XmrRefundConfirmed) => true,
            _ => false,
        }
    }

    /// The place of a kind of observation in the state's order of precedence.
    pub fn precedence_of(&self, kind: ObservationKind) -> (r: usize)
        ensures
            r == self.precedence(kind),
    {
        let kinds = self.expected_observations();
        let mut i: usize = 0;
        assert(kinds@.skip(0) =~= kinds@);
        while i < kinds.len() && kinds[i] != kind
            invariant
                i <= kinds.len(),
                kinds@ == self.expected(),
                Self::place(kinds@, kind) == i + Self::place(kinds@.skip(i as int), kind),
            decreases kinds.len() - i,
        {
            assert(kinds@.skip(i as int).skip(1) =~= kinds@.skip(i + 1));
            i = i + 1;
        }
        i
    }

    /// Picks, among observations that are at hand together, the one to act
    /// on: of those on which the state advances, the one that comes first in
    /// the state's order of precedence, and among several of that kind the
    /// first in the list. The result is its place in the list, or `None` where
    /// the state advances on none of them.
    pub fn resolve(&self, observations: &Vec<Observation>, env: Environment) -> (r: Option<usize>)
        ensures
            match r {
                None => forall|i: int|
                    0 <= i < observations.len() ==> (*self).transition(
                        #[trigger] observations[i],
                        env,
                    ).is_none(),
                Some(w) => w < observations.len() && (*self).transition(
                    observations[w as int],
                    env,
                ).is_some() && forall|j: int|
                    0 <= j < observations.len() && (*self).transition(
                        #[trigger] observations[j],
                        env,
                    ).is_some() ==> self.wins(observations[w as int], w as int, observations[j], j),
            },
    {
        let mut best: Option<usize> = None;
        let mut best_place: usize = 0;
        let mut i: usize = 0;
        while i < observations.len()
            invariant
                i <= observations.len(),
                match best {
                    None => forall|k: int|
                        0 <= k < i ==> (*self).transition(
                            #[trigger] observations[k],
                            env,
                        ).is_none(),
                    Some(w) => w < i && best_place == self.precedence(
                        observations[w as int].kind_of(),
                    ) && (*self).transition(observations[w as int], env).is_some() && forall|
                        j: int,
                    |
                        0 <= j < i && (*self).transition(
                            #[trigger] observations[j],
                            env,
                        ).is_some() ==> self.wins(
                            observations[w as int],
                            w as int,
                            observations[j],
                            j,
                        ),
                },
            decreases observations.len() - i,
        {
            if self.advances_on(&observations[i], env) {
                let place = self.precedence_of(observations[i].kind());
                match best {
                    None => {
                        best = Some(i);
                        best_place = place;
                    },
                    Some(_) => {
                        if place < best_place {
                            best = Some(i);
                            best_place = place;
                        }
                    },
                }
            }
            i = i + 1;
        }
        best
    }
}

/// What the network tells the maker's side of a swap. `Peer`, `Id` and
/// `Channel` are the transport's own and are handed on untouched.
#[derive(Debug, PartialEq, Eq)]
pub enum OutEvent<Peer, Id, Channel> {
    /// The taker sent the encrypted signature; `channel` takes the answer.
    EncryptedSignatureReceived { msg: Box<encrypted_signature::Request>, channel: Channel, peer: Peer },
    /// The taker has the transfer proof sent as request `id`.
    TransferProofAcknowledged { peer: Peer, id: Id },
    /// The peer asked on a protocol on which the maker answers nothing.
    UnexpectedRequest { peer: Peer },
    /// The peer answered on a protocol on which the maker asks nothing.
    UnexpectedResponse { peer: Peer },
}

impl AliceState {
    /// Whether the swap's parameters, where the state carries them, have
    /// their timelocks in order.
    pub open spec fn well_formed(&self) -> bool {
        self.parameters() matches Some(state3) ==> state3@.timelocks_ordered()
    }

    /// The state in which the maker's side of a swap begins once setup gave
    /// `state3`; `None` where the timelocks are not in order.
    pub fn start(state3: State3) -> (r: Option<AliceState>)
        ensures
            r.is_some() == state3@.timelocks_ordered(),
            r matches Some(state) ==> state == (AliceState::WatchingForTxLockInMempool {
                state3: Box::new(state3),
            }),
    {
        if state3.timelocks_ordered() {
            Some(AliceState::WatchingForTxLockInMempool { state3: Box::new(state3) })
        } else {
            None
        }
    }
}

/// A swap that began with its timelocks in order keeps them in order: every
/// state of a run from a well-formed state is well-formed.
pub proof fn lemma_run_stays_well_formed(run: Seq<AliceState>, i: int)
    requires
        is_run(run),
        run.len() > 0,
        run[0].well_formed(),
        0 <= i < run.len(),
    ensures
        run[i].well_formed(),
    decreases i,
{
    if i > 0 {
        lemma_run_stays_well_formed(run, i - 1);
        assert(run[i - 1].steps_to(run[i]));
    }
}

impl<Peer, Id, Channel> OutEvent<Peer, Id, Channel> {
    /// What the swap observes when the network tells it of the event: the
    /// encrypted signature. The acknowledgement of the transfer proof and a
    /// message that is out of place let the swap observe nothing, so they
    /// change no state.
    pub open spec fn observed(self) -> Option<Observation> {
        match self {
            OutEvent::EncryptedSignatureReceived { msg, .. } => Some(
                Observation::EncSigReceived { encrypted_signature: msg.tx_redeem_encsig },
            ),
            OutEvent::TransferProofAcknowledged { .. } => None,
            OutEvent::UnexpectedRequest { .. } => None,
            OutEvent::UnexpectedResponse { .. } => None,
        }
    }

    /// What the swap observes when the network tells it of the event, and
    /// the channel on which to answer the peer.
    pub fn observation(self) -> (r: Option<(Observation, Channel)>)
        ensures
            match self {
                OutEvent::EncryptedSignatureReceived { msg, channel, .. } => r == Some(
                    (
                        Observation::EncSigReceived { encrypted_signature: msg.tx_redeem_encsig },
                        channel,
                    ),
                ),
                _ => r.is_none(),
            },
            r.is_some() == self.observed().is_some(),
            r matches Some((observation, _)) ==> Some(observation) == self.observed(),
    {
        match self {
            OutEvent::EncryptedSignatureReceived { msg, channel, .. } => {
                let request = *msg;
                Some(
                    (
                        Observation::EncSigReceived {
                            encrypted_signature: request.tx_redeem_encsig,
                        },
                        channel,
                    ),
                )
            },
            OutEvent::TransferProofAcknowledged { .. } => None,
            OutEvent::UnexpectedRequest { .. } => None,
            OutEvent::UnexpectedResponse { .. } => None,
        }
    }
}

} // verus!
