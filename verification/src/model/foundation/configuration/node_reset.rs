//! Config Node Reset messages: a node is told to leave the network.
use vstd::prelude::*;
use crate::buffer::{appended, ByteBuf};
use crate::model::Message;
use crate::pdu::access::Opcode;
use crate::pdu::ParseError;
use crate::InsufficientBuffer;

verus! {

/// Opcode of the Config Node Reset message.
#[verifier::allow_in_spec]
pub fn config_node_reset() -> Opcode
    returns
        Opcode::TwoOctet(0x80, 0x49),
{
    Opcode::TwoOctet(0x80, 0x49)
}

/// Opcode of the Config Node Reset Status message.
#[verifier::allow_in_spec]
pub fn config_node_reset_status() -> Opcode
    returns
        Opcode::TwoOctet(0x80, 0x4A),
{
    Opcode::TwoOctet(0x80, 0x4A)
}

/// A Config Node Reset message; neither kind carries parameters.
#[derive(PartialEq, Eq, Structural, Clone, Copy, Debug)]
pub enum NodeResetMessage {
    Reset,
    Status,
}

impl NodeResetMessage {
    /// A Reset carries no parameters.
    pub open spec fn spec_parse_reset(p: Seq<u8>) -> Result<NodeResetMessage, ParseError> {
        if p.len() == 0 { Ok(NodeResetMessage::Reset) } else { Err(ParseError::InvalidLength) }
    }

    /// Reads a Reset.
    pub fn parse_reset(parameters: &[u8]) -> (r: Result<Self, ParseError>)
        ensures
            r == Self::spec_parse_reset(parameters@),
    {
        if parameters.len() == 0 {
            Ok(Self::Reset)
        } else {
            Err(ParseError::InvalidLength)
        }
    }

    /// Reads a Status.
    pub fn parse_status(parameters: &[u8]) -> (r: Result<Self, ParseError>)
        ensures
            r is Ok <==> parameters@.len() == 0,
            r is Ok ==> r == Ok::<NodeResetMessage, ParseError>(NodeResetMessage::Status),
            r is Err ==> r == Err::<NodeResetMessage, ParseError>(ParseError::InvalidLength),
    {
        if parameters.len() == 0 {
            Ok(Self::Status)
        } else {
            Err(ParseError::InvalidLength)
        }
    }
}

impl Message for NodeResetMessage {
    open spec fn spec_opcode(&self) -> Opcode {
        match self {
            Self::Reset => config_node_reset(),
            Self::Status => config_node_reset_status(),
        }
    }

    open spec fn spec_parameters(&self) -> Seq<u8> {
        Seq::empty()
    }

    open spec fn emittable(&self) -> bool {
        true
    }

    fn opcode(&self) -> (o: Opcode) {
        match self {
            Self::Reset => config_node_reset(),
            Self::Status => config_node_reset_status(),
        }
    }

    fn emit_parameters(&self, xmit: &mut ByteBuf) -> (r: Result<(), InsufficientBuffer>) {
        xmit.extend_from_slice(&[])
    }
}

} // verus!
