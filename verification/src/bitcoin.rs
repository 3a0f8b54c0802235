//! Bitcoin-side values that a swap carries. The cryptography behind them is
//! done elsewhere; here they are byte strings that are stored and handed on.

use vstd::prelude::*;

verus! {

/// The adaptor signature on the redeem transaction, as the taker sent it.
#[derive(Debug, PartialEq, Eq)]
pub struct EncryptedSignature {
    pub bytes: Vec<u8>,
}

impl View for EncryptedSignature {
    type V = Seq<u8>;

    open spec fn view(&self) -> Seq<u8> {
        self.bytes@
    }
}

impl Clone for EncryptedSignature {
    fn clone(&self) -> (r: Self)
        ensures
            r@ == self@,
    {
        let r = EncryptedSignature { bytes: self.bytes.clone() };
        assert(r.bytes@ =~= self.bytes@);
        r
    }
}

/// An amount of Bitcoin, in satoshi.
#[derive(Clone, Copy, Debug, PartialEq, Eq, Structural)]
pub struct Amount {
    pub sat: u64,
}

/// The Bitcoin network that a maker trades on.
#[derive(Clone, Copy, Debug, PartialEq, Eq, Structural)]
pub enum Network {
    Bitcoin,
    Testnet,
    Signet,
    Regtest,
}

} // verus!
