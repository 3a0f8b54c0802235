//! The protocol on which the taker sends the encrypted signature to the
//! maker.

use crate::network::{Message, ProtocolSupport};
use crate::protocol::{alice, bob};
use vstd::prelude::*;
use vstd::std_specs::convert::{FromSpec, FromSpecImpl};
use vstd::string::StringSliceAdditionalSpecFns;

verus! {

pub const PROTOCOL: &'static str = "/comit/xmr/btc/encrypted_signature/1.0.0";

/// The protocol, as the transport knows it.
#[derive(Debug, Clone, Copy, Default, PartialEq, Eq, Structural)]
pub struct EncryptedSignatureProtocol;

impl EncryptedSignatureProtocol {
    /// The name under which peers agree on the protocol.
    pub fn protocol_name(&self) -> (r: &[u8])
        ensures
            r@ == PROTOCOL.spec_bytes(),
    {
        PROTOCOL.as_bytes()
    }
}

/// What the taker sends: the encrypted signature on the redeem transaction.
#[derive(Clone, Debug, PartialEq, Eq)]
pub struct Request {
    pub tx_redeem_encsig: crate::bitcoin::EncryptedSignature,
}

/// The maker's part in the protocol: it answers.
pub open spec fn alice_part() -> ProtocolSupport {
    ProtocolSupport::Inbound
}

/// The taker's part in the protocol: it asks.
pub open spec fn bob_part() -> ProtocolSupport {
    ProtocolSupport::Outbound
}

/// The maker's part in the protocol: it answers.
pub fn alice() -> (r: Vec<(EncryptedSignatureProtocol, ProtocolSupport)>)
    ensures
        r@ == seq![(EncryptedSignatureProtocol, alice_part())],
{
    vec![(EncryptedSignatureProtocol, ProtocolSupport::Inbound)]
}

/// The taker's part in the protocol: it asks.
pub fn bob() -> (r: Vec<(EncryptedSignatureProtocol, ProtocolSupport)>)
    ensures
        r@ == seq![(EncryptedSignatureProtocol, bob_part())],
{
    vec![(EncryptedSignatureProtocol, ProtocolSupport::Outbound)]
}

impl<Peer, Id, Channel> FromSpecImpl<(Peer, Message<Request, Id, Channel>)> for alice::OutEvent<
    Peer,
    Id,
    Channel,
> {
    open spec fn obeys_from_spec() -> bool {
        true
    }

    /// To the maker a request is the encrypted signature; a response is out
    /// of place, since the maker sends no request here.
    open spec fn from_spec(v: (Peer, Message<Request, Id, Channel>)) -> Self {
        match v.1 {
            Message::Request { request, channel, .. } => alice::OutEvent::EncryptedSignatureReceived {
                msg: Box::new(request),
                channel,
                peer: v.0,
            },
            Message::Response { .. } => alice::OutEvent::UnexpectedResponse { peer: v.0 },
        }
    }
}

impl<Peer, Id, Channel> From<(Peer, Message<Request, Id, Channel>)> for alice::OutEvent<
    Peer,
    Id,
    Channel,
> {
    fn from(v: (Peer, Message<Request, Id, Channel>)) -> (r: Self) {
        let (peer, message) = v;
        match message {
            Message::Request { request, channel, .. } => alice::OutEvent::EncryptedSignatureReceived {
                msg: Box::new(request),
                channel,
                peer,
            },
            Message::Response { .. } => alice::OutEvent::UnexpectedResponse { peer },
        }
    }
}

impl<Peer, Id, Channel> FromSpecImpl<(Peer, Message<Request, Id, Channel>)> for bob::OutEvent<
    Peer,
    Id,
    Channel,
> {
    open spec fn obeys_from_spec() -> bool {
        true
    }

    /// To the taker a response says that the maker has the encrypted
    /// signature; a request is out of place, since the taker answers none
    /// here.
    open spec fn from_spec(v: (Peer, Message<Request, Id, Channel>)) -> Self {
        match v.1 {
            Message::Request { .. } => bob::OutEvent::UnexpectedRequest { peer: v.0 },
            Message::Response { request_id } => bob::OutEvent::EncryptedSignatureAcknowledged {
                id: request_id,
            },
        }
    }
}

impl<Peer, Id, Channel> From<(Peer, Message<Request, Id, Channel>)> for bob::OutEvent<
    Peer,
    Id,
    Channel,
> {
    fn from(v: (Peer, Message<Request, Id, Channel>)) -> (r: Self) {
        let (peer, message) = v;
        match message {
            Message::Request { .. } => bob::OutEvent::UnexpectedRequest { peer },
            Message::Response { request_id } => bob::OutEvent::EncryptedSignatureAcknowledged {
                id: request_id,
            },
        }
    }
}

/// The two sides take opposite parts, and each side takes a message for
/// what it is exactly where its part lets the message come: a request is
/// out of place for the side that does not answer, a response for the side
/// that does not ask.
pub proof fn lemma_directions<Peer, Id, Channel>(peer: Peer, message: Message<Request, Id, Channel>)
    ensures
        alice_part().counterpart() == bob_part(),
        <alice::OutEvent<Peer, Id, Channel> as FromSpec<
            (Peer, Message<Request, Id, Channel>),
        >>::from_spec((peer, message)) is UnexpectedRequest <==> message is Request
            && !alice_part().inbound(),
        <alice::OutEvent<Peer, Id, Channel> as FromSpec<
            (Peer, Message<Request, Id, Channel>),
        >>::from_spec((peer, message)) is UnexpectedResponse <==> message is Response
            && !alice_part().outbound(),
        <bob::OutEvent<Peer, Id, Channel> as FromSpec<
            (Peer, Message<Request, Id, Channel>),
        >>::from_spec((peer, message)) is UnexpectedRequest <==> message is Request
            && !bob_part().inbound(),
        <bob::OutEvent<Peer, Id, Channel> as FromSpec<
            (Peer, Message<Request, Id, Channel>),
        >>::from_spec((peer, message)) is UnexpectedResponse <==> message is Response
            && !bob_part().outbound(),
{
}

} // verus!
