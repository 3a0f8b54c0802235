//! Monero-side values that a swap carries.

use vstd::prelude::*;

verus! {

/// A height of the Monero chain, from which a wallet is restored.
#[derive(Clone, Copy, Debug, PartialEq, Eq, Structural)]
pub struct BlockHeight {
    pub height: u32,
}

/// A Monero private key, as its bytes.
#[derive(Debug, PartialEq, Eq)]
pub struct PrivateKey {
    pub bytes: Vec<u8>,
}

impl View for PrivateKey {
    type V = Seq<u8>;

    open spec fn view(&self) -> Seq<u8> {
        self.bytes@
    }
}

impl Clone for PrivateKey {
    fn clone(&self) -> (r: Self)
        ensures
            r@ == self@,
    {
        let r = PrivateKey { bytes: self.bytes.clone() };
        assert(r.bytes@ =~= self.bytes@);
        r
    }
}

/// What the transfer proof of the Monero lock transaction holds.
pub struct TransferProofView {
    pub tx_hash: Seq<u8>,
    pub tx_key: Seq<u8>,
}

/// Proof that a Monero transaction paid a given address a given amount: the
/// transaction's hash and its key.
#[derive(Debug, PartialEq, Eq)]
pub struct TransferProof {
    pub tx_hash: Vec<u8>,
    pub tx_key: Vec<u8>,
}

impl View for TransferProof {
    type V = TransferProofView;

    open spec fn view(&self) -> TransferProofView {
        TransferProofView { tx_hash: self.tx_hash@, tx_key: self.tx_key@ }
    }
}

impl Clone for TransferProof {
    fn clone(&self) -> (r: Self)
        ensures
            r@ == self@,
    {
        let r = TransferProof { tx_hash: self.tx_hash.clone(), tx_key: self.tx_key.clone() };
        assert(r.tx_hash@ =~= self.tx_hash@);
        assert(r.tx_key@ =~= self.tx_key@);
        r
    }
}

/// The Monero network that a maker trades on.
#[derive(Clone, Copy, Debug, PartialEq, Eq, Structural)]
pub enum Network {
    Mainnet,
    Stagenet,
    Testnet,
}

} // verus!
