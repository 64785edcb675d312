//! Config Network Transmit messages: how often a node repeats what it
//! sends.
use vstd::prelude::*;
use crate::bits::lemma_three_five;
use crate::buffer::{appended, ByteBuf};
use crate::model::Message;
use crate::pdu::access::{config_network_transmit_get, config_network_transmit_set, config_network_transmit_status, Opcode};
use crate::pdu::ParseError;
use crate::InsufficientBuffer;

verus! {

/// The network transmit state: a retransmit count and the steps between
/// retransmissions.
#[derive(PartialEq, Eq, Structural, Clone, Copy, Debug)]
pub struct NetworkTransmitConfig {
    pub network_retransmit_count: u8,
    pub network_retransmit_interval_steps: u8,
}

impl Default for NetworkTransmitConfig {
    fn default() -> (c: Self)
        ensures
            c.network_retransmit_count == 2,
            c.network_retransmit_interval_steps == 10,
    {
        Self { network_retransmit_count: 2, network_retransmit_interval_steps: 10 }
    }
}

/// The byte that a 3-bit count and 5-bit steps are written as. Only the
/// bits of the count above its low five are kept, where a count never has
/// any.
pub open spec fn transmit_byte(count: u8, steps: u8) -> u8 {
    ((count / 32) * 32 + steps % 32) as u8
}

impl NetworkTransmitConfig {
    /// The state read from `p`: both fields come from the first byte, the
    /// count from its low three bits and the steps from its low five; at
    /// least two bytes are needed.
    pub open spec fn spec_parse(p: Seq<u8>) -> Result<NetworkTransmitConfig, ParseError> {
        if p.len() < 2 {
            Err(ParseError::InvalidLength)
        } else {
            Ok(NetworkTransmitConfig { network_retransmit_count: p[0] % 8, network_retransmit_interval_steps: p[0] % 32 })
        }
    }

    /// The byte this state is written as.
    pub open spec fn spec_bytes(self) -> Seq<u8> {
        seq![transmit_byte(self.network_retransmit_count, self.network_retransmit_interval_steps)]
    }

    /// Reads the state.
    pub fn parse(parameters: &[u8]) -> (r: Result<Self, ParseError>)
        ensures
            r == Self::spec_parse(parameters@),
    {
        if parameters.len() < 2 {
            Err(ParseError::InvalidLength)
        } else {
            let b = parameters[0];
            let network_retransmit_count = b & 0b11100000 >> 5;
            let network_retransmit_interval_steps = b & 0b00011111;
            proof {
                lemma_three_five(b, 0);
                assert(0b11100000u8 >> 5u8 == 0x07u8) by (bit_vector);
            }
            Ok(Self { network_retransmit_count, network_retransmit_interval_steps })
        }
    }

    /// Appends the byte of this state.
    pub fn emit(&self, xmit: &mut ByteBuf) -> (r: Result<(), InsufficientBuffer>)
        ensures
            final(xmit).cap() == old(xmit).cap(),
            appended(old(xmit)@, final(xmit)@, old(xmit).cap(), self.spec_bytes(), r is Ok),
    {
        let b = self.network_retransmit_count & 0b111 << 5 | self.network_retransmit_interval_steps & 0b11111;
        proof {
            lemma_three_five(self.network_retransmit_interval_steps, 0);
            lemma_three_five(self.network_retransmit_count, self.network_retransmit_interval_steps % 32);
            assert(0b111u8 << 5u8 == 0xE0u8) by (bit_vector);
        }
        xmit.push(b)
    }
}

/// A Config Network Transmit message.
#[derive(PartialEq, Eq, Structural, Clone, Copy, Debug)]
pub enum NetworkTransmitMessage {
    Get,
    SetRequest(NetworkTransmitConfig),
    Status(NetworkTransmitConfig),
}

impl NetworkTransmitMessage {
    /// Reads a Get, which carries no parameters.
    pub fn parse_get(parameters: &[u8]) -> (r: Result<Self, ParseError>)
        ensures
            parameters@.len() == 0 ==> r == Ok::<NetworkTransmitMessage, ParseError>(NetworkTransmitMessage::Get),
            parameters@.len() != 0 ==> r == Err::<NetworkTransmitMessage, ParseError>(ParseError::InvalidLength),
    {
        if parameters.len() == 0 {
            Ok(Self::Get)
        } else {
            Err(ParseError::InvalidLength)
        }
    }

    /// Reads a Set.
    pub fn parse_set(parameters: &[u8]) -> (r: Result<Self, ParseError>)
        ensures
            r == (match NetworkTransmitConfig::spec_parse(parameters@) {
                Ok(c) => Ok(NetworkTransmitMessage::SetRequest(c)),
                Err(e) => Err(e),
            }),
    {
        Ok(Self::SetRequest(NetworkTransmitConfig::parse(parameters)?))
    }

    /// Reads a Status; what it reads is given as a Set of the same state.
    pub fn parse_status(parameters: &[u8]) -> (r: Result<Self, ParseError>)
        ensures
            r == (match NetworkTransmitConfig::spec_parse(parameters@) {
                Ok(c) => Ok(NetworkTransmitMessage::SetRequest(c)),
                Err(e) => Err(e),
            }),
    {
        Ok(Self::SetRequest(NetworkTransmitConfig::parse(parameters)?))
    }
}

impl Message for NetworkTransmitMessage {
    open spec fn spec_opcode(&self) -> Opcode {
        match self {
            Self::Get => config_network_transmit_get(),
            Self::SetRequest(_) => config_network_transmit_set(),
            Self::Status(_) => config_network_transmit_status(),
        }
    }

    open spec fn spec_parameters(&self) -> Seq<u8> {
        match self {
            Self::Get => Seq::empty(),
            Self::SetRequest(c) => c.spec_bytes(),
            Self::Status(c) => c.spec_bytes(),
        }
    }

    open spec fn emittable(&self) -> bool {
        true
    }

    fn opcode(&self) -> (o: Opcode) {
        match self {
            Self::Get => config_network_transmit_get(),
            Self::SetRequest(_) => config_network_transmit_set(),
            Self::Status(_) => config_network_transmit_status(),
        }
    }

    fn emit_parameters(&self, xmit: &mut ByteBuf) -> (r: Result<(), InsufficientBuffer>) {
        match self {
            Self::Get => xmit.extend_from_slice(&[]),
            Self::SetRequest(inner) => inner.emit(xmit),
            Self::Status(inner) => inner.emit(xmit),
        }
    }
}

} // verus!
