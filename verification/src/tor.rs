//! The ports on which a local Tor daemon is looked for.

use vstd::prelude::*;

verus! {

pub const DEFAULT_SOCKS5_PORT: u16 = 9050;

pub const DEFAULT_CONTROL_PORT: u16 = 9051;

} // verus!
