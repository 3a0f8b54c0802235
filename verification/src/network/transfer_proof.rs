//! The protocol on which the maker sends the transfer proof of the Monero
//! lock to the taker.

use crate::network::{Message, ProtocolSupport};
use crate::protocol::{alice, bob};
use vstd::prelude::*;
use vstd::std_specs::convert::{FromSpec, FromSpecImpl};
use vstd::string::StringSliceAdditionalSpecFns;

verus! {

pub const PROTOCOL: &'static str = "/comit/xmr/btc/transfer_proof/1.0.0";

/// The protocol, as the transport knows it.
#[derive(Debug, Clone, Copy, Default, PartialEq, Eq, Structural)]
pub struct TransferProofProtocol;

impl TransferProofProtocol {
    /// The name under which peers agree on the protocol.
    pub fn protocol_name(&self) -> (r: &[u8])
        ensures
            r@ == PROTOCOL.spec_bytes(),
    {
        PROTOCOL.as_bytes()
    }
}

/// What the maker sends: the proof that the Monero is locked.
#[derive(Clone, Debug, PartialEq, Eq)]
pub struct Request {
    pub tx_lock_proof: crate::monero::TransferProof,
}

/// The maker's part in the protocol: it asks.
pub open spec fn alice_part() -> ProtocolSupport {
    ProtocolSupport::Outbound
}

/// The taker's part in the protocol: it answers.
pub open spec fn bob_part() -> ProtocolSupport {
    ProtocolSupport::Inbound
}

/// The maker's part in the protocol: it asks.
pub fn alice() -> (r: Vec<(TransferProofProtocol, ProtocolSupport)>)
    ensures
        r@ == seq![(TransferProofProtocol, alice_part())],
{
    vec![(TransferProofProtocol, ProtocolSupport::Outbound)]
}

/// The taker's part in the protocol: it answers.
pub fn bob() -> (r: Vec<(TransferProofProtocol, ProtocolSupport)>)
    ensures
        r@ == seq![(TransferProofProtocol, bob_part())],
{
    vec![(TransferProofProtocol, ProtocolSupport::Inbound)]
}

impl<Peer, Id, Channel> FromSpecImpl<(Peer, Message<Request, Id, Channel>)> for alice::OutEvent<
    Peer,
    Id,
    Channel,
> {
    open spec fn obeys_from_spec() -> bool {
        true
    }

    /// To the maker a response says that the taker has the transfer proof; a
    /// request is out of place, since the maker answers none here.
    open spec fn from_spec(v: (Peer, Message<Request, Id, Channel>)) -> Self {
        match v.1 {
            Message::Request { .. } => alice::OutEvent::UnexpectedRequest { peer: v.0 },
            Message::Response { request_id } => alice::OutEvent::TransferProofAcknowledged {
                peer: v.0,
                id: request_id,
            },
        }
    }
}

impl<Peer, Id, Channel> From<(Peer, Message<Request, Id, Channel>)> for alice::OutEvent<
    Peer,
    Id,
    Channel,
> {
    fn from(v: (Peer, Message<Request, Id, Channel>)) -> (r: Self) {
        let (peer, message) = v;
        match message {
            Message::Request { .. } => alice::OutEvent::UnexpectedRequest { peer },
            Message::Response { request_id } => alice::OutEvent::TransferProofAcknowledged {
                peer,
                id: request_id,
            },
        }
    }
}

impl<Peer, Id, Channel> FromSpecImpl<(Peer, Message<Request, Id, Channel>)> for bob::OutEvent<
    Peer,
    Id,
    Channel,
> {
    open spec fn obeys_from_spec() -> bool {
        true
    }

    /// To the taker a request is the transfer proof; a response is out of
    /// place, since the taker sends no request here.
    open spec fn from_spec(v: (Peer, Message<Request, Id, Channel>)) -> Self {
        match v.1 {
            Message::Request { request, channel, .. } => bob::OutEvent::TransferProofReceived {
                msg: Box::new(request),
                channel,
            },
            Message::Response { .. } => bob::OutEvent::UnexpectedResponse { peer: v.0 },
        }
    }
}

impl<Peer, Id, Channel> From<(Peer, Message<Request, Id, Channel>)> for bob::OutEvent<
    Peer,
    Id,
    Channel,
> {
    fn from(v: (Peer, Message<Request, Id, Channel>)) -> (r: Self) {
        let (peer, message) = v;
        match message {
            Message::Request { request, channel, .. } => bob::OutEvent::TransferProofReceived {
                msg: Box::new(request),
                channel,
            },
            Message::Response { .. } => bob::OutEvent::UnexpectedResponse { peer },
        }
    }
}

/// The two sides take opposite parts, and each side takes a message for
/// what it is exactly where its part lets the message come: a request is
/// out of place for the side that does not answer, a response for the side
/// that does not ask.
pub proof fn lemma_directions<Peer, Id, Channel>(peer: Peer, message: Message<Request, Id, Channel>)
    ensures
        alice_part().counterpart() == bob_part(),
        <alice::OutEvent<Peer, Id, Channel> as FromSpec<
            (Peer, Message<Request, Id, Channel>),
        >>::from_spec((peer, message)) is UnexpectedRequest <==> message is Request
            && !alice_part().inbound(),
        <alice::OutEvent<Peer, Id, Channel> as FromSpec<
            (Peer, Message<Request, Id, Channel>),
        >>::from_spec((peer, message)) is UnexpectedResponse <==> message is Response
            && !alice_part().outbound(),
        <bob::OutEvent<Peer, Id, Channel> as FromSpec<
            (Peer, Message<Request, Id, Channel>),
        >>::from_spec((peer, message)) is UnexpectedRequest <==> message is Request
            && !bob_part().inbound(),
        <bob::OutEvent<Peer, Id, Channel> as FromSpec<
            (Peer, Message<Request, Id, Channel>),
        >>::from_spec((peer, message)) is UnexpectedResponse <==> message is Response
            && !bob_part().outbound(),
{
}

} // verus!
