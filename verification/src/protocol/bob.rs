//! The taker's side of a swap: the states it passes through and the rules
//! that lead from one to the next.

use crate::bitcoin::Amount;
use crate::monero::TransferProof;
use crate::network::transfer_proof;
use crate::protocol::State3;
use vstd::prelude::*;

pub mod swap;

verus! {

/// What the network tells the taker's side of a swap. `Peer`, `Id` and
/// `Channel` are the transport's own and are handed on untouched.
#[derive(Debug, PartialEq, Eq)]
pub enum OutEvent<Peer, Id, Channel> {
    /// The maker sent the transfer proof; `channel` takes the answer.
    TransferProofReceived { msg: Box<transfer_proof::Request>, channel: Channel },
    /// The maker has the encrypted signature sent as request `id`.
    EncryptedSignatureAcknowledged { id: Id },
    /// The peer asked on a protocol on which the taker answers nothing.
    UnexpectedRequest { peer: Peer },
    /// The peer answered on a protocol on which the taker asks nothing.
    UnexpectedResponse { peer: Peer },
}

/// The state of a swap on the taker's side.
///
/// Setup gives the swap its parameters, which every state carries from then
/// on until the swap ends.
#[derive(Debug, PartialEq, Eq)]
pub enum BobState {
    Started { btc: Amount },
    ExecutionSetupDone { state3: Box<State3> },
    BtcLocked { state3: Box<State3> },
    XmrLockProofReceived { state3: Box<State3>, lock_transfer_proof: TransferProof },
    XmrLocked { state3: Box<State3> },
    EncSigSent { state3: Box<State3> },
    BtcRedeemed,
    CancelTimelockExpired { state3: Box<State3> },
    BtcCancelled { state3: Box<State3> },
    BtcRefunded,
    BtcPunished,
    SafelyAborted,
}

/// What the taker's side of a swap can come to know while it waits.
#[derive(Debug, PartialEq, Eq)]
pub enum Observation {
    /// Setup with the maker is complete and gave these parameters.
    ExecutionSetupCompleted { state3: State3 },
    /// The operator asked for the swap to be abandoned.
    AbortRequested,
    /// The Bitcoin lock transaction is published.
    TxLockPublished,
    /// The maker sent the transfer proof of the Monero lock.
    TransferProofReceived { lock_transfer_proof: TransferProof },
    /// The Monero lock transaction has this many confirmations.
    XmrLockConfirmations { confirmations: u64 },
    /// The maker has the encrypted signature.
    EncSigAcknowledged,
    /// The maker published the Bitcoin redeem transaction.
    TxRedeemSeen,
    /// The Bitcoin lock transaction has this many confirmations.
    TxLockConfirmations { confirmations: u32 },
    /// The Bitcoin cancel transaction has this many confirmations.
    TxCancelConfirmations { confirmations: u32 },
    /// The Bitcoin refund transaction is published and confirmed.
    TxRefundConfirmed,
    /// The maker published the Bitcoin punish transaction.
    TxPunishSeen,
}

/// What a transition takes from its surroundings besides the observation.
#[derive(Clone, Copy, Debug, PartialEq, Eq, Structural)]
pub struct Environment {
    /// The number of confirmations at which a Monero transaction counts as
    /// final.
    pub monero_finality_confirmations: u64,
}

/// The result of handing an observation to a state.
#[derive(Debug, PartialEq, Eq)]
pub enum Outcome {
    /// The observation moved the swap to this state.
    Advanced(BobState),
    /// The observation does not concern the state, which is handed back.
    Ignored(BobState),
}

impl BobState {
    /// Whether the swap is over.
    pub open spec fn is_terminal(&self) -> bool {
        self is BtcRedeemed || self is BtcRefunded || self is BtcPunished || self is SafelyAborted
    }

    /// Whether the taker's Bitcoin is locked: the states from `BtcLocked` on,
    /// the end not counted.
    pub open spec fn btc_locked(&self) -> bool {
        self is BtcLocked || self is XmrLockProofReceived || self is XmrLocked || self is EncSigSent
            || self is CancelTimelockExpired || self is BtcCancelled
    }

    /// Whether the swap ended after the Bitcoin lock was spent: Bitcoin
    /// redeemed, refunded or punished.
    pub open spec fn settled(&self) -> bool {
        self is BtcRedeemed || self is BtcRefunded || self is BtcPunished
    }

    /// The swap's parameters, which every state from setup to the end
    /// carries.
    pub open spec fn parameters(&self) -> Option<State3> {
        match self {
            BobState::ExecutionSetupDone { state3 } => Some(**state3),
            BobState::BtcLocked { state3 } => Some(**state3),
            BobState::XmrLockProofReceived { state3, .. } => Some(**state3),
            BobState::XmrLocked { state3 } => Some(**state3),
            BobState::EncSigSent { state3 } => Some(**state3),
            BobState::CancelTimelockExpired { state3 } => Some(**state3),
            BobState::BtcCancelled { state3 } => Some(**state3),
            _ => None,
        }
    }

    /// The state that follows `self` on `observation`, where there is one.
    ///
    /// Setup is taken only with timelocks in order. A timelock has expired
    /// once the transaction it counts from has as many confirmations as the
    /// timelock has blocks.
    pub open spec fn transition(
        self,
        observation: Observation,
        env: Environment,
    ) -> Option<BobState> {
        match (self, observation) {
            (BobState::Started { .. }, Observation::ExecutionSetupCompleted { state3 }) => {
                if state3@.timelocks_ordered() {
                    Some(BobState::ExecutionSetupDone { state3: Box::new(state3) })
                } else {
                    None
                }
            },
            (BobState::Started { .. }, Observation::AbortRequested) => Some(
                BobState::SafelyAborted,
            ),
            (BobState::ExecutionSetupDone { state3 }, Observation::TxLockPublished) => Some(
                BobState::BtcLocked { state3 },
            ),
            (BobState::ExecutionSetupDone { .. }, Observation::AbortRequested) => Some(
                BobState::SafelyAborted,
            ),
            (
                BobState::BtcLocked { state3 },
                Observation::TransferProofReceived { lock_transfer_proof },
            ) => Some(BobState::XmrLockProofReceived { state3, lock_transfer_proof }),
            (
                BobState::XmrLockProofReceived { state3, .. },
                Observation::XmrLockConfirmations { confirmations },
            ) => if confirmations >= env.monero_finality_confirmations {
                Some(BobState::XmrLocked { state3 })
            } else {
                None
            },
            (BobState::XmrLocked { state3 }, Observation::EncSigAcknowledged) => Some(
                BobState::EncSigSent { state3 },
            ),
            (BobState::EncSigSent { .. }, Observation::TxRedeemSeen) => Some(
                BobState::BtcRedeemed,
            ),
            (
                BobState::BtcLocked { state3 }
                | BobState::XmrLockProofReceived { state3, .. }
                | BobState::XmrLocked { state3 }
                | BobState::EncSigSent { state3 },
                Observation::TxLockConfirmations { confirmations },
            ) => if confirmations >= state3.cancel_timelock {
                Some(BobState::CancelTimelockExpired { state3 })
            } else {
                None
            },
            (
                BobState::CancelTimelockExpired { state3 },
                Observation::TxCancelConfirmations { confirmations },
            ) => if confirmations >= 1 {
                Some(BobState::BtcCancelled { state3 })
            } else {
                None
            },
            (BobState::BtcCancelled { .. }, Observation::TxRefundConfirmed) => Some(
                BobState::BtcRefunded,
            ),
            (BobState::BtcCancelled { .. }, Observation::TxPunishSeen) => Some(
                BobState::BtcPunished,
            ),
            _ => None,
        }
    }

    /// Whether one transition leads from `self` to `next`.
    pub open spec fn steps_to(self, next: BobState) -> bool {
        exists|observation: Observation, env: Environment|
            self.transition(observation, env) == Some(next)
    }

    /// Whether the swap is over.
    pub fn terminal(&self) -> (r: bool)
        ensures
            r == self.is_terminal(),
    {
        match self {
            BobState::BtcRedeemed => true,
            BobState::BtcRefunded => true,
            BobState::BtcPunished => true,
            BobState::SafelyAborted => true,
            _ => false,
        }
    }

    /// The swap's parameters, which every state from setup to the end
    /// carries.
    pub fn state3(&self) -> (r: Option<&State3>)
        ensures
            r.is_some() == self.parameters().is_some(),
            r matches Some(state3) ==> Some(*state3) == self.parameters(),
    {
        match self {
            BobState::ExecutionSetupDone { state3 } => Some(&**state3),
            BobState::BtcLocked { state3 } => Some(&**state3),
            BobState::XmrLockProofReceived { state3, .. } => Some(&**state3),
            BobState::XmrLocked { state3 } => Some(&**state3),
            BobState::EncSigSent { state3 } => Some(&**state3),
            BobState::CancelTimelockExpired { state3 } => Some(&**state3),
            BobState::BtcCancelled { state3 } => Some(&**state3),
            _ => None,
        }
    }

    /// Hands an observation to the state. Where the state waits for it, the
    /// swap advances to the state that follows; where it does not, the state
    /// comes back as it was.
    pub fn step(self, observation: Observation, env: Environment) -> (r: Outcome)
        ensures
            match self.transition(observation, env) {
                Some(next) => r == Outcome::Advanced(next),
                None => r == Outcome::Ignored(self),
            },
            r is Advanced ==> !self.is_terminal(),
    {
        match (self, observation) {
            (BobState::Started { btc }, Observation::ExecutionSetupCompleted { state3 }) => {
                if state3.timelocks_ordered() {
                    Outcome::Advanced(BobState::ExecutionSetupDone { state3: Box::new(state3) })
                } else {
                    Outcome::Ignored(BobState::Started { btc })
                }
            },
            (BobState::Started { .. }, Observation::AbortRequested) => Outcome::Advanced(
                BobState::SafelyAborted,
            ),
            (BobState::ExecutionSetupDone { state3 }, Observation::TxLockPublished) => {
                Outcome::Advanced(BobState::BtcLocked { state3 })
            },
            (BobState::ExecutionSetupDone { .. }, Observation::AbortRequested) => {
                Outcome::Advanced(BobState::SafelyAborted)
            },
            (
                BobState::BtcLocked { state3 },
                Observation::TransferProofReceived { lock_transfer_proof },
            ) => Outcome::Advanced(BobState::XmrLockProofReceived { state3, lock_transfer_proof }),
            (
                BobState::XmrLockProofReceived { state3, lock_transfer_proof },
                Observation::XmrLockConfirmations { confirmations },
            ) => if confirmations >= env.monero_finality_confirmations {
                Outcome::Advanced(BobState::XmrLocked { state3 })
            } else {
                Outcome::Ignored(BobState::XmrLockProofReceived { state3, lock_transfer_proof })
            },
            (BobState::XmrLocked { state3 }, Observation::EncSigAcknowledged) => {
                Outcome::Advanced(BobState::EncSigSent { state3 })
            },
            (BobState::EncSigSent { .. }, Observation::TxRedeemSeen) => Outcome::Advanced(
                BobState::BtcRedeemed,
            ),
            (BobState::BtcLocked { state3 }, Observation::TxLockConfirmations { confirmations }) => {
                if confirmations >= state3.cancel_timelock {
                    Outcome::Advanced(BobState::CancelTimelockExpired { state3 })
                } else {
                    Outcome::Ignored(BobState::BtcLocked { state3 })
                }
            },
            (
                BobState::XmrLockProofReceived { state3, lock_transfer_proof },
                Observation::TxLockConfirmations { confirmations },
            ) => if confirmations >= state3.cancel_timelock {
                Outcome::Advanced(BobState::CancelTimelockExpired { state3 })
            } else {
                Outcome::Ignored(BobState::XmrLockProofReceived { state3, lock_transfer_proof })
            },
            (BobState::XmrLocked { state3 }, Observation::TxLockConfirmations { confirmations }) => {
                if confirmations >= state3.cancel_timelock {
                    Outcome::Advanced(BobState::CancelTimelockExpired { state3 })
                } else {
                    Outcome::Ignored(BobState::XmrLocked { state3 })
                }
            },
            (BobState::EncSigSent { state3 }, Observation::TxLockConfirmations { confirmations }) => {
                if confirmations >= state3.cancel_timelock {
                    Outcome::Advanced(BobState::CancelTimelockExpired { state3 })
                } else {
                    Outcome::Ignored(BobState::EncSigSent { state3 })
                }
            },
            (
                BobState::CancelTimelockExpired { state3 },
                Observation::TxCancelConfirmations { confirmations },
            ) => if confirmations >= 1 {
                Outcome::Advanced(BobState::BtcCancelled { state3 })
            } else {
                Outcome::Ignored(BobState::CancelTimelockExpired { state3 })
            },
            (BobState::BtcCancelled { .. }, Observation::TxRefundConfirmed) => Outcome::Advanced(
                BobState::BtcRefunded,
            ),
            (BobState::BtcCancelled { .. }, Observation::TxPunishSeen) => Outcome::Advanced(
                BobState::BtcPunished,
            ),
            (state, _) => Outcome::Ignored(state),
        }
    }
}

/// Whether each state of `run` but the first follows from the one before it
/// by one transition.
pub open spec fn is_run(run: Seq<BobState>) -> bool {
    forall|i: int| 0 <= i < run.len() - 1 ==> (#[trigger] run[i]).steps_to(run[i + 1])
}

/// No transition starts at a final state.
pub proof fn lemma_no_transition_from_terminal(
    state: BobState,
    observation: Observation,
    env: Environment,
)
    requires
        state.is_terminal(),
    ensures
        state.transition(observation, env).is_none(),
{
}

/// A transition from a state that carries the swap's parameters into a state
/// before the end keeps them.
pub proof fn lemma_transition_keeps_parameters(
    state: BobState,
    observation: Observation,
    env: Environment,
)
    requires
        state.transition(observation, env).is_some(),
        state.parameters().is_some(),
    ensures
        !state.transition(observation, env)->0.is_terminal() ==> state.transition(
            observation,
            env,
        )->0.parameters() == state.parameters(),
{
}

/// A swap ends once: in a run, a final state can only stand last, so a run
/// holds at most one of them.
pub proof fn lemma_run_ends_once(run: Seq<BobState>, i: int, j: int)
    requires
        is_run(run),
        0 <= i < run.len(),
        0 <= j < run.len(),
        run[i].is_terminal(),
        run[j].is_terminal(),
    ensures
        i == j,
        i == run.len() - 1,
{
    if i < run.len() - 1 {
        assert(run[i].steps_to(run[i + 1]));
    }
    if j < run.len() - 1 {
        assert(run[j].steps_to(run[j + 1]));
    }
}

/// Once the taker's Bitcoin is locked, the swap cannot end in
/// `SafelyAborted`: a run that starts there stays among the states with the
/// lock in place until it ends with Bitcoin redeemed, refunded or punished.
pub proof fn lemma_locked_run_settles(run: Seq<BobState>, i: int)
    requires
        is_run(run),
        run.len() > 0,
        run[0].btc_locked(),
        0 <= i < run.len(),
    ensures
        run[i].btc_locked() || run[i].settled(),
    decreases i,
{
    if i > 0 {
        lemma_locked_run_settles(run, i - 1);
        assert(run[i - 1].steps_to(run[i]));
    }
}

/// The run that takes a swap with the taker's Bitcoin locked to its refund:
/// the cancel timelock expires, the cancel transaction confirms, the refund
/// confirms.
pub open spec fn refund_run(state: BobState) -> Seq<BobState>
    recommends
        state.btc_locked(),
{
    let state3 = Box::new(state.parameters()->0);
    match state {
        BobState::CancelTimelockExpired { .. } => seq![
            state,
            BobState::BtcCancelled { state3 },
            BobState::BtcRefunded,
        ],
        BobState::BtcCancelled { .. } => seq![state, BobState::BtcRefunded],
        _ => seq![
            state,
            BobState::CancelTimelockExpired { state3 },
            BobState::BtcCancelled { state3 },
            BobState::BtcRefunded,
        ],
    }
}

/// From every state with the taker's Bitcoin locked, its refund is within
/// reach: `refund_run` is a run from that state to `BtcRefunded`.
pub proof fn lemma_refund_within_reach(state: BobState)
    requires
        state.btc_locked(),
    ensures
        is_run(refund_run(state)),
        refund_run(state)[0] == state,
        refund_run(state).last() is BtcRefunded,
{
    let run = refund_run(state);
    let env = Environment { monero_finality_confirmations: 0 };
    let state3 = state.parameters()->0;
    let expired = Observation::TxLockConfirmations { confirmations: state3.cancel_timelock };
    let cancelled = Observation::TxCancelConfirmations { confirmations: 1 };
    assert forall|i: int| 0 <= i < run.len() - 1 implies (#[trigger] run[i]).steps_to(
        run[i + 1],
    ) by {
        let from = run[i];
        if from is BtcCancelled {
            assert(from.transition(Observation::TxRefundConfirmed, env) == Some(run[i + 1]));
        } else if from is CancelTimelockExpired {
            assert(from.transition(cancelled, env) == Some(run[i + 1]));
        } else {
            assert(from.transition(expired, env) == Some(run[i + 1]));
        }
    }
}

impl BobState {
    /// Whether the swap's parameters, where the state carries them, have
    /// their timelocks in order.
    pub open spec fn well_formed(&self) -> bool {
        self.parameters() matches Some(state3) ==> state3@.timelocks_ordered()
    }
}

/// A swap keeps its timelocks in order: every state of a run from a
/// well-formed state is well-formed, setup included.
pub proof fn lemma_run_stays_well_formed(run: Seq<BobState>, i: int)
    requires
        is_run(run),
        run.len() > 0,
        run[0].well_formed(),
        0 <= i < run.len(),
    ensures
        run[i].well_formed(),
    decreases i,
{
    if i > 0 {
        lemma_run_stays_well_formed(run, i - 1);
        assert(run[i - 1].steps_to(run[i]));
    }
}

/// The kinds of observation, without what they carry.
#[derive(Clone, Copy, Debug, PartialEq, Eq, Structural)]
pub enum ObservationKind {
    ExecutionSetupCompleted,
    AbortRequested,
    TxLockPublished,
    TransferProofReceived,
    XmrLockConfirmations,
    EncSigAcknowledged,
    TxRedeemSeen,
    TxLockConfirmations,
    TxCancelConfirmations,
    TxRefundConfirmed,
    TxPunishSeen,
}

impl Observation {
    /// The kind of the observation.
    pub open spec fn kind_of(&self) -> ObservationKind {
        match self {
            Observation::ExecutionSetupCompleted { .. } => ObservationKind::ExecutionSetupCompleted,
            Observation::AbortRequested => ObservationKind::AbortRequested,
            Observation::TxLockPublished => ObservationKind::TxLockPublished,
            Observation::TransferProofReceived { .. } => ObservationKind::TransferProofReceived,
            Observation::XmrLockConfirmations { .. } => ObservationKind::XmrLockConfirmations,
            Observation::EncSigAcknowledged => ObservationKind::EncSigAcknowledged,
            Observation::TxRedeemSeen => ObservationKind::TxRedeemSeen,
            Observation::TxLockConfirmations { .. } => ObservationKind::TxLockConfirmations,
            Observation::TxCancelConfirmations { .. } => ObservationKind::TxCancelConfirmations,
            Observation::TxRefundConfirmed => ObservationKind::TxRefundConfirmed,
            Observation::TxPunishSeen => ObservationKind::TxPunishSeen,
        }
    }

    /// The kind of the observation.
    pub fn kind(&self) -> (r: ObservationKind)
        ensures
            r == self.kind_of(),
    {
        match self {
            Observation::ExecutionSetupCompleted { .. } => ObservationKind::ExecutionSetupCompleted,
            Observation::AbortRequested => ObservationKind::AbortRequested,
            Observation::TxLockPublished => ObservationKind::TxLockPublished,
            Observation::TransferProofReceived { .. } => ObservationKind::TransferProofReceived,
            Observation::XmrLockConfirmations { .. } => ObservationKind::XmrLockConfirmations,
            Observation::EncSigAcknowledged => ObservationKind::EncSigAcknowledged,
            Observation::TxRedeemSeen => ObservationKind::TxRedeemSeen,
            Observation::TxLockConfirmations { .. } => ObservationKind::TxLockConfirmations,
            Observation::TxCancelConfirmations { .. } => ObservationKind::TxCancelConfirmations,
            Observation::TxRefundConfirmed => ObservationKind::TxRefundConfirmed,
            Observation::TxPunishSeen => ObservationKind::TxPunishSeen,
        }
    }
}

impl BobState {
    /// The kinds of observation that the state waits for, the one that takes
    /// precedence first: the cooperative outcome comes before the protective
    /// one, and an abort that the operator asked for comes last.
    pub open spec fn expected(&self) -> Seq<ObservationKind> {
        match self {
            BobState::Started { .. } => seq![
                ObservationKind::ExecutionSetupCompleted,
                ObservationKind::AbortRequested,
            ],
            BobState::ExecutionSetupDone { .. } => seq![
                ObservationKind::TxLockPublished,
                ObservationKind::AbortRequested,
            ],
            BobState::BtcLocked { .. } => seq![
                ObservationKind::TransferProofReceived,
                ObservationKind::TxLockConfirmations,
            ],
            BobState::XmrLockProofReceived { .. } => seq![
                ObservationKind::XmrLockConfirmations,
                ObservationKind::TxLockConfirmations,
            ],
            BobState::XmrLocked { .. } => seq![
                ObservationKind::EncSigAcknowledged,
                ObservationKind::TxLockConfirmations,
            ],
            BobState::EncSigSent { .. } => seq![
                ObservationKind::TxRedeemSeen,
                ObservationKind::TxLockConfirmations,
            ],
            BobState::CancelTimelockExpired { .. } => seq![ObservationKind::TxCancelConfirmations],
            BobState::BtcCancelled { .. } => seq![
                ObservationKind::TxRefundConfirmed,
                ObservationKind::TxPunishSeen,
            ],
            _ => seq![],
        }
    }

    /// The first place of `kind` in `kinds`, or the length of `kinds` where it
    /// is not there.
    pub open spec fn place(kinds: Seq<ObservationKind>, kind: ObservationKind) -> nat
        decreases kinds.len(),
    {
        if kinds.len() == 0 {
            0
        } else if kinds[0] == kind {
            0
        } else {
            1 + Self::place(kinds.skip(1), kind)
        }
    }

    /// The place of a kind of observation in the order of precedence of the
    /// state: the place it has in `expected`, or the length of `expected`
    /// where the state does not wait for it.
    pub open spec fn precedence(&self, kind: ObservationKind) -> nat {
        Self::place(self.expected(), kind)
    }

    /// Whether acting on the observation at place `w` of a list is in order
    /// when the one at place `j` could be acted on too: the first comes
    /// earlier in the state's order of precedence, or is of the same kind and
    /// not later in the list.
    pub open spec fn wins(
        &self,
        winner: Observation,
        w: int,
        other: Observation,
        j: int,
    ) -> bool {
        self.precedence(winner.kind_of()) < self.precedence(other.kind_of()) || (self.precedence(
            winner.kind_of(),
        ) == self.precedence(other.kind_of()) && w <= j)
    }

    /// The kinds of observation that the state waits for, the one that takes
    /// precedence first.
    pub fn expected_observations(&self) -> (r: Vec<ObservationKind>)
        ensures
            r@ == self.expected(),
    {
        let mut r: Vec<ObservationKind> = Vec::new();
        match self {
            BobState::Started { .. } => {
                r.push(ObservationKind::ExecutionSetupCompleted);
                r.push(ObservationKind::AbortRequested);
            },
            BobState::ExecutionSetupDone { .. } => {
                r.push(ObservationKind::TxLockPublished);
                r.push(ObservationKind::AbortRequested);
            },
            BobState::BtcLocked { .. } => {
                r.push(ObservationKind::TransferProofReceived);
                r.push(ObservationKind::TxLockConfirmations);
            },
            BobState::XmrLockProofReceived { .. } => {
                r.push(ObservationKind::XmrLockConfirmations);
                r.push(ObservationKind::TxLockConfirmations);
            },
            BobState::XmrLocked { .. } => {
                r.push(ObservationKind::EncSigAcknowledged);
                r.push(ObservationKind::TxLockConfirmations);
            },
            BobState::EncSigSent { .. } => {
                r.push(ObservationKind::TxRedeemSeen);
                r.push(ObservationKind::TxLockConfirmations);
            },
            BobState::CancelTimelockExpired { .. } => {
                r.push(ObservationKind::TxCancelConfirmations);
            },
            BobState::BtcCancelled { .. } => {
                r.push(ObservationKind::TxRefundConfirmed);
                r.push(ObservationKind::TxPunishSeen);
            },
            _ => {},
        }
        assert(r@ =~= self.expected());
        r
    }

    /// Whether the state advances on the observation.
    pub fn advances_on(&self, observation: &Observation, env: Environment) -> (r: bool)
        ensures
            r == (*self).transition(*observation, env).is_some(),
    {
        match (self, observation) {
            (BobState::Started { .. }, Observation::ExecutionSetupCompleted { state3 }) => {
                state3.timelocks_ordered()
            },
            (BobState::Started { .. }, Observation::AbortRequested) => true,
            (BobState::ExecutionSetupDone { .. }, Observation::TxLockPublished) => true,
            (BobState::ExecutionSetupDone { .. }, Observation::AbortRequested) => true,
            (BobState::BtcLocked { .. }, Observation::TransferProofReceived { .. }) => true,
            (
                BobState::XmrLockProofReceived { .. },
                Observation::XmrLockConfirmations { confirmations },
            ) => *confirmations >= env.monero_finality_confirmations,
            (BobState::XmrLocked { .. }, Observation::EncSigAcknowledged) => true,
            (BobState::EncSigSent { .. }, Observation::TxRedeemSeen) => true,
            (BobState::BtcLocked { state3 }, Observation::TxLockConfirmations { confirmations }) => {
                *confirmations >= state3.cancel_timelock
            },
            (
                BobState::XmrLockProofReceived { state3, .. },
                Observation::TxLockConfirmations { confirmations },
            ) => *confirmations >= state3.cancel_timelock,
            (BobState::XmrLocked { state3 }, Observation::TxLockConfirmations { confirmations }) => {
                *confirmations >= state3.cancel_timelock
            },
            (BobState::EncSigSent { state3 }, Observation::TxLockConfirmations { confirmations }) => {
                *confirmations >= state3.cancel_timelock
            },
            (
                BobState::CancelTimelockExpired { .. },
                Observation::TxCancelConfirmations { confirmations },
            ) => *confirmations >= 1,
            (BobState::BtcCancelled { .. }, Observation::TxRefundConfirmed) => true,
            (BobState::BtcCancelled { .. }, Observation::TxPunishSeen) => true,
            _ => false,
        }
    }

    /// The place of a kind of observation in the state's order of precedence.
    pub fn precedence_of(&self, kind: ObservationKind) -> (r: usize)
        ensures
            r == self.precedence(kind),
    {
        let kinds = self.expected_observations();
        let mut i: usize = 0;
        assert(kinds@.skip(0) =~= kinds@);
        while i < kinds.len() && kinds[i] != kind
            invariant
                i <= kinds.len(),
                kinds@ == self.expected(),
                Self::place(kinds@, kind) == i + Self::place(kinds@.skip(i as int), kind),
            decreases kinds.len() - i,
        {
            assert(kinds@.skip(i as int).skip(1) =~= kinds@.skip(i + 1));
            i = i + 1;
        }
        i
    }

    /// Picks, among observations that are at hand together, the one to act
    /// on: of those on which the state advances, the one that comes first in
    /// the state's order of precedence, and among several of that kind the
    /// first in the list. The result is its place in the list, or `None` where
    /// the state advances on none of them.
    pub fn resolve(&self, observations: &Vec<Observation>, env: Environment) -> (r: Option<usize>)
        ensures
            match r {
                None => forall|i: int|
                    0 <= i < observations.len() ==> (*self).transition(
                        #[trigger] observations[i],
                        env,
                    ).is_none(),
                Some(w) => w < observations.len() && (*self).transition(
                    observations[w as int],
                    env,
                ).is_some() && forall|j: int|
                    0 <= j < observations.len() && (*self).transition(
                        #[trigger] observations[j],
                        env,
                    ).is_some() ==> self.wins(observations[w as int], w as int, observations[j], j),
            },
    {
        let mut best: Option<usize> = None;
        let mut best_place: usize = 0;
        let mut i: usize = 0;
        while i < observations.len()
            invariant
                i <= observations.len(),
                match best {
                    None => forall|k: int|
                        0 <= k < i ==> (*self).transition(
                            #[trigger] observations[k],
                            env,
                        ).is_none(),
                    Some(w) => w < i && best_place == self.precedence(
                        observations[w as int].kind_of(),
                    ) && (*self).transition(observations[w as int], env).is_some() && forall|
                        j: int,
                    |
                        0 <= j < i && (*self).transition(
                            #[trigger] observations[j],
                            env,
                        ).is_some() ==> self.wins(
                            observations[w as int],
                            w as int,
                            observations[j],
                            j,
                        ),
                },
            decreases observations.len() - i,
        {
            if self.advances_on(&observations[i], env) {
                let place = self.precedence_of(observations[i].kind());
                match best {
                    None => {
                        best = Some(i);
                        best_place = place;
                    },
                    Some(_) => {
                        if place < best_place {
                            best = Some(i);
                            best_place = place;
                        }
                    },
                }
            }
            i = i + 1;
        }
        best
    }
}

/// A state advances only on a kind of observation that it waits for.
pub proof fn lemma_transition_is_expected(
    state: BobState,
    observation: Observation,
    env: Environment,
)
    requires
        state.transition(observation, env).is_some(),
    ensures
        state.expected().contains(observation.kind_of()),
{
    let kinds = state.expected();
    let kind = observation.kind_of();
    assert(kinds.len() <= 2);
    assert((kinds.len() > 0 && kinds[0] == kind) || (kinds.len() > 1 && kinds[1] == kind));
}

impl<Peer, Id, Channel> OutEvent<Peer, Id, Channel> {
    /// What the swap observes when the network tells it of the event: the
    /// transfer proof or the acknowledgement of the encrypted signature. A
    /// message that is out of place lets the swap observe nothing, so it
    /// changes no state.
    pub open spec fn observed(self) -> Option<Observation> {
        match self {
            OutEvent::TransferProofReceived { msg, .. } => Some(
                Observation::TransferProofReceived { lock_transfer_proof: msg.tx_lock_proof },
            ),
            OutEvent::EncryptedSignatureAcknowledged { .. } => Some(Observation::EncSigAcknowledged),
            OutEvent::UnexpectedRequest { .. } => None,
            OutEvent::UnexpectedResponse { .. } => None,
        }
    }

    /// What the swap observes when the network tells it of the event, and
    /// the channel on which to answer the peer where the event was a
    /// request.
    pub fn observation(self) -> (r: Option<(Observation, Option<Channel>)>)
        ensures
            match self {
                OutEvent::TransferProofReceived { msg, channel } => r == Some(
                    (
                        Observation::TransferProofReceived { lock_transfer_proof: msg.tx_lock_proof },
                        Some(channel),
                    ),
                ),
                OutEvent::EncryptedSignatureAcknowledged { .. } => r == Some(
                    (Observation::EncSigAcknowledged, None::<Channel>),
                ),
                _ => r.is_none(),
            },
            r.is_some() == self.observed().is_some(),
            r matches Some((observation, _)) ==> Some(observation) == self.observed(),
    {
        match self {
            OutEvent::TransferProofReceived { msg, channel } => {
                let request = *msg;
                Some(
                    (
                        Observation::TransferProofReceived {
                            lock_transfer_proof: request.tx_lock_proof,
                        },
                        Some(channel),
                    ),
                )
            },
            OutEvent::EncryptedSignatureAcknowledged { .. } => Some(
                (Observation::EncSigAcknowledged, None),
            ),
            OutEvent::UnexpectedRequest { .. } => None,
            OutEvent::UnexpectedResponse { .. } => None,
        }
    }
}

} // verus!
