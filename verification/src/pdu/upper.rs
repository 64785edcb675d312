//! Upper transport PDUs.
use vstd::prelude::*;
use crate::address::{Address, UnicastAddress};
use crate::keys::{ApplicationKeyIdentifier, NetworkKeyHandle};
use crate::pdu::access::AccessMessage;
use crate::pdu::ParseError;

verus! {

/// An upper transport PDU, carrying either a control message or an
/// access message.
pub enum UpperPDU {
    Control(UpperControl),
    Access(UpperAccess),
}

/// The payload of an upper transport control PDU (at most 256 bytes).
pub struct UpperControl {
    pub data: Vec<u8>,
}

/// An upper transport access PDU together with the network fields it
/// arrived with or leaves with.
pub struct UpperAccess {
    pub ttl: Option<u8>,
    pub network_key: NetworkKeyHandle,
    pub ivi: u8,
    pub nid: u8,
    pub akf: bool,
    pub aid: ApplicationKeyIdentifier,
    pub src: UnicastAddress,
    pub dst: Address,
    /// The decrypted access payload (at most 380 bytes).
    pub payload: Vec<u8>,
}

impl UpperPDU {
    /// The access message this PDU carries; a control PDU carries none.
    pub fn try_into(self) -> (r: Result<AccessMessage, ParseError>)
        ensures
            self is Control ==> r == Err::<AccessMessage, ParseError>(ParseError::InvalidPDUFormat),
            self matches UpperPDU::Access(a) ==> AccessMessage::read_from(&a, r),
    {
        match self {
            UpperPDU::Control(_) => Err(ParseError::InvalidPDUFormat),
            UpperPDU::Access(inner) => AccessMessage::parse(&inner),
        }
    }
}

/// Whether a transport PDU carries a control message.
#[derive(PartialEq, Eq, Structural, Clone, Copy, Debug)]
pub enum TransportPDU {
    Control,
    NotControl,
}

/// The network MIC of a transport PDU, by the kind of message it carries.
#[derive(Clone, Copy, Debug)]
pub enum NetMIC {
    Control([u8; 4]),
    NotControl([u8; 8]),
}

} // verus!
