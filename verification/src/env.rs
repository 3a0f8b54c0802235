//! The two settings a maker can run in.

use vstd::prelude::*;

verus! {

/// The test networks: Bitcoin testnet and Monero stagenet.
#[derive(Clone, Copy, Debug, PartialEq, Eq, Structural)]
pub struct Testnet;

/// The main networks of Bitcoin and Monero.
#[derive(Clone, Copy, Debug, PartialEq, Eq, Structural)]
pub struct Mainnet;

} // verus!
