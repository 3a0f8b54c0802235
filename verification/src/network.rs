//! The request-response protocols that carry a swap's messages between the
//! two peers, as far as the swap decides over them: the name of each
//! protocol, which side asks and which answers, and what a message that
//! arrives means to the side that gets it.

use vstd::prelude::*;

pub mod encrypted_signature;
pub mod transfer_proof;

verus! {

/// The part that a peer takes in a protocol.
#[derive(Clone, Copy, Debug, PartialEq, Eq, Structural)]
pub enum ProtocolSupport {
    /// The peer answers requests and sends none.
    Inbound,
    /// The peer sends requests and answers none.
    Outbound,
    /// The peer does both.
    Full,
}

impl ProtocolSupport {
    /// Whether a peer with this part answers requests.
    pub open spec fn inbound(self) -> bool {
        self is Inbound || self is Full
    }

    /// Whether a peer with this part sends requests.
    pub open spec fn outbound(self) -> bool {
        self is Outbound || self is Full
    }

    /// The part of the peer at the other end, where this peer only asks or
    /// only answers.
    pub open spec fn counterpart(self) -> ProtocolSupport {
        match self {
            ProtocolSupport::Inbound => ProtocolSupport::Outbound,
            ProtocolSupport::Outbound => ProtocolSupport::Inbound,
            ProtocolSupport::Full => ProtocolSupport::Full,
        }
    }
}

/// A message that arrived on a protocol whose responses are empty: a request
/// of the peer, with the channel to answer it on, or the peer's response to a
/// request sent earlier. `Id` and `Channel` are the transport's own and are
/// handed on untouched.
#[derive(Debug, PartialEq, Eq)]
pub enum Message<Request, Id, Channel> {
    Request { request_id: Id, request: Request, channel: Channel },
    Response { request_id: Id },
}

} // verus!
