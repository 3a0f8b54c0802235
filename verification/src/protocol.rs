//! The swap itself: what both parties agree on during setup, the states that
//! each side passes through and the rules that lead from one state to the
//! next, and how the two sides end together.

use vstd::prelude::*;

pub mod alice;
pub mod bob;
pub mod outcome;

verus! {

/// What a [`State3`] holds, as mathematical values.
pub struct State3View {
    pub swap_id: u128,
    pub peer: Seq<u8>,
    pub alice_bitcoin_key: Seq<u8>,
    pub bob_bitcoin_key: Seq<u8>,
    pub alice_monero_key: Seq<u8>,
    pub bob_monero_key: Seq<u8>,
    pub btc: u64,
    pub xmr: u64,
    pub cancel_timelock: u32,
    pub punish_timelock: u32,
    pub tx_cancel: Seq<u8>,
    pub tx_refund: Seq<u8>,
    pub tx_punish: Seq<u8>,
    pub xmr_lock: Seq<u8>,
}

impl State3View {
    /// Both timelocks are positive and the cancel timelock is the shorter one.
    pub open spec fn timelocks_ordered(self) -> bool {
        0 < self.cancel_timelock && self.cancel_timelock < self.punish_timelock
    }
}

/// The parameters of one swap, fixed when setup completes and unchanged from
/// then on.
///
/// Keys, transactions and the Monero lock parameters are kept as the bytes
/// that the cryptography layer produced. Amounts are in the smallest unit of
/// each currency, timelocks in blocks: `cancel_timelock` counts from the
/// Bitcoin lock, `punish_timelock` from the cancel transaction.
#[derive(Debug, PartialEq, Eq)]
pub struct State3 {
    pub swap_id: u128,
    pub peer: Vec<u8>,
    pub alice_bitcoin_key: Vec<u8>,
    pub bob_bitcoin_key: Vec<u8>,
    pub alice_monero_key: Vec<u8>,
    pub bob_monero_key: Vec<u8>,
    pub btc: u64,
    pub xmr: u64,
    pub cancel_timelock: u32,
    pub punish_timelock: u32,
    pub tx_cancel: Vec<u8>,
    pub tx_refund: Vec<u8>,
    pub tx_punish: Vec<u8>,
    pub xmr_lock: Vec<u8>,
}

impl View for State3 {
    type V = State3View;

    open spec fn view(&self) -> State3View {
        State3View {
            swap_id: self.swap_id,
            peer: self.peer@,
            alice_bitcoin_key: self.alice_bitcoin_key@,
            bob_bitcoin_key: self.bob_bitcoin_key@,
            alice_monero_key: self.alice_monero_key@,
            bob_monero_key: self.bob_monero_key@,
            btc: self.btc,
            xmr: self.xmr,
            cancel_timelock: self.cancel_timelock,
            punish_timelock: self.punish_timelock,
            tx_cancel: self.tx_cancel@,
            tx_refund: self.tx_refund@,
            tx_punish: self.tx_punish@,
            xmr_lock: self.xmr_lock@,
        }
    }
}

/// A copy of a byte string.
pub fn copy_bytes(bytes: &Vec<u8>) -> (r: Vec<u8>)
    ensures
        r@ == bytes@,
{
    let r = bytes.clone();
    assert(r@ =~= bytes@);
    r
}

impl Clone for State3 {
    fn clone(&self) -> (r: Self)
        ensures
            r@ == self@,
    {
        State3 {
            swap_id: self.swap_id,
            peer: copy_bytes(&self.peer),
            alice_bitcoin_key: copy_bytes(&self.alice_bitcoin_key),
            bob_bitcoin_key: copy_bytes(&self.bob_bitcoin_key),
            alice_monero_key: copy_bytes(&self.alice_monero_key),
            bob_monero_key: copy_bytes(&self.bob_monero_key),
            btc: self.btc,
            xmr: self.xmr,
            cancel_timelock: self.cancel_timelock,
            punish_timelock: self.punish_timelock,
            tx_cancel: copy_bytes(&self.tx_cancel),
            tx_refund: copy_bytes(&self.tx_refund),
            tx_punish: copy_bytes(&self.tx_punish),
            xmr_lock: copy_bytes(&self.xmr_lock),
        }
    }
}

impl State3 {
    /// Whether the timelocks are as setup must leave them: both positive, the
    /// cancel timelock shorter than the punish timelock.
    pub fn timelocks_ordered(&self) -> (r: bool)
        ensures
            r == self@.timelocks_ordered(),
    {
        0 < self.cancel_timelock && self.cancel_timelock < self.punish_timelock
    }
}

/// Why a swap could not begin.
#[derive(Clone, Copy, Debug, PartialEq, Eq, Structural)]
pub enum BeginError {
    /// The timelocks are not in order: one is zero, or the cancel timelock is
    /// not the shorter one.
    TimelocksOutOfOrder,
    /// The store holds a swap of this id already.
    AlreadyExists,
}

} // verus!
