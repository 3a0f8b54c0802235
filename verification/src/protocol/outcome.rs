//! How the two sides of one swap end together.
//!
//! Each side decides on what it observes. What ties the two sides to each
//! other is the Bitcoin chain that both observe: the redeem and the cancel
//! transaction each spend the lock, the refund and the punish transaction
//! each spend the cancel. So of redeem, refund and punish at most one is ever
//! on the chain, and the two sides, seeing the same chain, end alike.

use crate::protocol::alice::AliceState;
use crate::protocol::bob::BobState;
use crate::protocol::{alice, bob};
use vstd::prelude::*;

verus! {

/// Which of a swap's Bitcoin transactions, other than the lock, are on the
/// chain in the end.
pub struct Chain {
    pub redeem: bool,
    pub cancel: bool,
    pub refund: bool,
    pub punish: bool,
}

impl Chain {
    /// What the outputs allow: the lock is spent by the redeem or by the
    /// cancel transaction, not by both; refund and punish spend the cancel,
    /// so each needs it, and not both of them are there.
    pub open spec fn consistent(self) -> bool {
        &&& !(self.redeem && self.cancel)
        &&& self.refund ==> self.cancel
        &&& self.punish ==> self.cancel
        &&& !(self.refund && self.punish)
    }
}

impl alice::Observation {
    /// Whether the chain bears the observation out, as far as the
    /// observation speaks of a transaction that spends the lock or the
    /// cancel.
    pub open spec fn borne_out(self, chain: Chain) -> bool {
        match self {
            alice::Observation::TxRedeemConfirmed => chain.redeem,
            alice::Observation::TxCancelConfirmations { confirmations } => confirmations >= 1
                ==> chain.cancel,
            alice::Observation::TxRefundSeen { .. } => chain.refund,
            alice::Observation::TxPunishConfirmed => chain.punish,
            _ => true,
        }
    }
}

impl bob::Observation {
    /// Whether the chain bears the observation out, as far as the
    /// observation speaks of a transaction that spends the lock or the
    /// cancel.
    pub open spec fn borne_out(self, chain: Chain) -> bool {
        match self {
            bob::Observation::TxRedeemSeen => chain.redeem,
            bob::Observation::TxCancelConfirmations { confirmations } => confirmations >= 1
                ==> chain.cancel,
            bob::Observation::TxRefundConfirmed => chain.refund,
            bob::Observation::TxPunishSeen => chain.punish,
            _ => true,
        }
    }
}

impl AliceState {
    /// Whether one transition, on an observation that the chain bears out,
    /// leads from `self` to `next`.
    pub open spec fn steps_on(self, chain: Chain, next: AliceState) -> bool {
        exists|observation: alice::Observation, env: alice::Environment|
            observation.borne_out(chain) && self.transition(observation, env) == Some(next)
    }

    /// Whether the state is one that the chain allows: a state after the
    /// cancel needs the cancel on the chain, a state after the refund the
    /// refund, and each end with Bitcoin spent its transaction.
    pub open spec fn agrees_with(self, chain: Chain) -> bool {
        match self {
            AliceState::BtcCancelled { .. } | AliceState::BtcPunishable { .. } => chain.cancel,
            AliceState::BtcRefunded { .. } | AliceState::XmrRefunded => chain.refund,
            AliceState::BtcRedeemed => chain.redeem,
            AliceState::BtcPunished => chain.punish,
            _ => true,
        }
    }
}

impl BobState {
    /// Whether one transition, on an observation that the chain bears out,
    /// leads from `self` to `next`.
    pub open spec fn steps_on(self, chain: Chain, next: BobState) -> bool {
        exists|observation: bob::Observation, env: bob::Environment|
            observation.borne_out(chain) && self.transition(observation, env) == Some(next)
    }

    /// Whether the state is one that the chain allows: the state after the
    /// cancel needs the cancel on the chain, and each end with Bitcoin spent
    /// its transaction.
    pub open spec fn agrees_with(self, chain: Chain) -> bool {
        match self {
            BobState::BtcCancelled { .. } => chain.cancel,
            BobState::BtcRedeemed => chain.redeem,
            BobState::BtcRefunded => chain.refund,
            BobState::BtcPunished => chain.punish,
            _ => true,
        }
    }
}

/// Whether `run` is a run of the maker's side from the publication of the
/// Monero lock on, each step on an observation that the chain bears out.
pub open spec fn alice_runs_on(run: Seq<AliceState>, chain: Chain) -> bool {
    &&& run.len() > 0
    &&& run[0] is WaitingForEncSig
    &&& forall|i: int| 0 <= i < run.len() - 1 ==> (#[trigger] run[i]).steps_on(chain, run[i + 1])
}

/// Whether `run` is a run of the taker's side from the Bitcoin lock on, each
/// step on an observation that the chain bears out.
pub open spec fn bob_runs_on(run: Seq<BobState>, chain: Chain) -> bool {
    &&& run.len() > 0
    &&& run[0] is BtcLocked
    &&& forall|i: int| 0 <= i < run.len() - 1 ==> (#[trigger] run[i]).steps_on(chain, run[i + 1])
}

/// Every state of the maker's run is one that the chain allows, and none is
/// `SafelyAborted`.
pub proof fn lemma_alice_agrees(run: Seq<AliceState>, chain: Chain, i: int)
    requires
        alice_runs_on(run, chain),
        0 <= i < run.len(),
    ensures
        run[i].agrees_with(chain),
        run[i].xmr_locked() || run[i].settled(),
    decreases i,
{
    if i > 0 {
        lemma_alice_agrees(run, chain, i - 1);
        assert(run[i - 1].steps_on(chain, run[i]));
    }
}

/// Every state of the taker's run is one that the chain allows, and none is
/// `SafelyAborted`.
pub proof fn lemma_bob_agrees(run: Seq<BobState>, chain: Chain, i: int)
    requires
        bob_runs_on(run, chain),
        0 <= i < run.len(),
    ensures
        run[i].agrees_with(chain),
        run[i].btc_locked() || run[i].settled(),
    decreases i,
{
    if i > 0 {
        lemma_bob_agrees(run, chain, i - 1);
        assert(run[i - 1].steps_on(chain, run[i]));
    }
}

/// Once the Monero lock is out, the two sides of a swap end alike: where
/// both have ended on what one chain bears out, either both ended with
/// Bitcoin redeemed, or the maker has its Monero back and the taker its
/// Bitcoin, or the taker was punished and the maker holds the Bitcoin.
pub proof fn lemma_sides_end_alike(
    alice_run: Seq<AliceState>,
    bob_run: Seq<BobState>,
    chain: Chain,
)
    requires
        chain.consistent(),
        alice_runs_on(alice_run, chain),
        bob_runs_on(bob_run, chain),
        alice_run.last().is_terminal(),
        bob_run.last().is_terminal(),
    ensures
        (alice_run.last() is BtcRedeemed && bob_run.last() is BtcRedeemed) || (
        alice_run.last() is XmrRefunded && bob_run.last() is BtcRefunded) || (
        alice_run.last() is BtcPunished && bob_run.last() is BtcPunished),
{
    lemma_alice_agrees(alice_run, chain, alice_run.len() - 1);
    lemma_bob_agrees(bob_run, chain, bob_run.len() - 1);
}

} // verus!
