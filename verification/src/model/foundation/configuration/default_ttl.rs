//! Config Default TTL messages: the TTL a node puts on what it sends.
use vstd::prelude::*;
use crate::buffer::{appended, ByteBuf};
use crate::model::Message;
use crate::pdu::access::Opcode;
use crate::pdu::ParseError;
use crate::InsufficientBuffer;

verus! {

/// Opcode of the Config Default TTL Get message.
#[verifier::allow_in_spec]
pub fn config_default_ttl_get() -> Opcode
    returns
        Opcode::TwoOctet(0x80, 0x0C),
{
    Opcode::TwoOctet(0x80, 0x0C)
}

/// Opcode of the Config Default TTL Set message.
#[verifier::allow_in_spec]
pub fn config_default_ttl_set() -> Opcode
    returns
        Opcode::TwoOctet(0x80, 0x0D),
{
    Opcode::TwoOctet(0x80, 0x0D)
}

/// Opcode of the Config Default TTL Status message.
#[verifier::allow_in_spec]
pub fn config_default_ttl_status() -> Opcode
    returns
        Opcode::TwoOctet(0x80, 0x0E),
{
    Opcode::TwoOctet(0x80, 0x0E)
}

/// A Config Default TTL message.
#[derive(PartialEq, Eq, Structural, Clone, Copy, Debug)]
pub enum DefaultTTLMessage {
    Get,
    SetRequest(u8),
    Status(u8),
}

impl DefaultTTLMessage {
    /// A Get carries no parameters.
    pub open spec fn spec_parse_get(p: Seq<u8>) -> Result<DefaultTTLMessage, ParseError> {
        if p.len() == 0 { Ok(DefaultTTLMessage::Get) } else { Err(ParseError::InvalidLength) }
    }

    /// A Set carries the TTL in one byte.
    pub open spec fn spec_parse_set(p: Seq<u8>) -> Result<DefaultTTLMessage, ParseError> {
        if p.len() == 1 { Ok(DefaultTTLMessage::SetRequest(p[0])) } else { Err(ParseError::InvalidLength) }
    }

    /// Reads a Get.
    pub fn parse_get(parameters: &[u8]) -> (r: Result<Self, ParseError>)
        ensures
            r == Self::spec_parse_get(parameters@),
    {
        if parameters.len() == 0 {
            Ok(Self::Get)
        } else {
            Err(ParseError::InvalidLength)
        }
    }

    /// Reads a Set.
    pub fn parse_set(parameters: &[u8]) -> (r: Result<Self, ParseError>)
        ensures
            r == Self::spec_parse_set(parameters@),
    {
        if parameters.len() == 1 {
            Ok(Self::SetRequest(parameters[0]))
        } else {
            Err(ParseError::InvalidLength)
        }
    }

    /// The parameters of this message.
    pub fn encode(&self) -> (v: Vec<u8>)
        ensures
            v@ == self.spec_parameters(),
    {
        match self {
            Self::Get => Vec::new(),
            Self::SetRequest(val) | Self::Status(val) => {
                let v = vec![*val];
                assert(v@ =~= self.spec_parameters());
                v
            }
        }
    }
}

impl Message for DefaultTTLMessage {
    open spec fn spec_opcode(&self) -> Opcode {
        match self {
            Self::Get => config_default_ttl_get(),
            Self::SetRequest(_) => config_default_ttl_set(),
            Self::Status(_) => config_default_ttl_status(),
        }
    }

    open spec fn spec_parameters(&self) -> Seq<u8> {
        match self {
            Self::Get => Seq::empty(),
            Self::SetRequest(val) => seq![*val],
            Self::Status(val) => seq![*val],
        }
    }

    open spec fn emittable(&self) -> bool {
        true
    }

    fn opcode(&self) -> (o: Opcode) {
        match self {
            Self::Get => config_default_ttl_get(),
            Self::SetRequest(_) => config_default_ttl_set(),
            Self::Status(_) => config_default_ttl_status(),
        }
    }

    fn emit_parameters(&self, xmit: &mut ByteBuf) -> (r: Result<(), InsufficientBuffer>) {
        xmit.extend_from_slice(self.encode().as_slice())
    }
}

} // verus!
