//! Config Relay messages: whether a node relays, and how often it repeats
//! what it relays.
use vstd::prelude::*;
use crate::bits::lemma_three_five;
use crate::buffer::{appended, ByteBuf};
use crate::model::Message;
use crate::model::foundation::configuration::network_transmit::transmit_byte;
use crate::pdu::access::{config_relay_get, config_relay_set, config_relay_status, Opcode};
use crate::pdu::ParseError;
use crate::InsufficientBuffer;

verus! {

/// The relay feature state.
#[derive(PartialEq, Eq, Structural, Clone, Copy, Debug)]
pub enum Relay {
    SupportedDisabled,
    SupportedEnabled,
    NotSupported,
}

impl Relay {
    /// The code of a relay state.
    pub open spec fn spec_code(self) -> u8 {
        match self {
            Relay::SupportedDisabled => 0x00,
            Relay::SupportedEnabled => 0x01,
            Relay::NotSupported => 0x02,
        }
    }

    /// The relay state with code `data`, if there is one.
    pub open spec fn spec_parse(data: u8) -> Result<Relay, ParseError> {
        if data == 0x00 {
            Ok(Relay::SupportedDisabled)
        } else if data == 0x01 {
            Ok(Relay::SupportedEnabled)
        } else if data == 0x02 {
            Ok(Relay::NotSupported)
        } else {
            Err(ParseError::InvalidValue)
        }
    }

    /// Reads a relay state.
    pub fn parse(data: u8) -> (r: Result<Self, ParseError>)
        ensures
            r == Self::spec_parse(data),
    {
        if data == 0x00 {
            Ok(Self::SupportedDisabled)
        } else if data == 0x01 {
            Ok(Self::SupportedEnabled)
        } else if data == 0x02 {
            Ok(Self::NotSupported)
        } else {
            Err(ParseError::InvalidValue)
        }
    }

    /// The code of this state.
    pub fn code(&self) -> (c: u8)
        ensures
            c == self.spec_code(),
    {
        match self {
            Self::SupportedDisabled => 0x00,
            Self::SupportedEnabled => 0x01,
            Self::NotSupported => 0x02,
        }
    }

    /// Appends the code of this state.
    pub fn emit(&self, xmit: &mut ByteBuf) -> (r: Result<(), InsufficientBuffer>)
        ensures
            final(xmit).cap() == old(xmit).cap(),
            appended(old(xmit)@, final(xmit)@, old(xmit).cap(), seq![self.spec_code()], r is Ok),
    {
        xmit.push(self.code())
    }
}

/// The relay state with its retransmit count and interval steps.
#[derive(PartialEq, Eq, Structural, Clone, Copy, Debug)]
pub struct RelayConfig {
    pub relay: Relay,
    pub relay_retransmit_count: u8,
    pub relay_retransmit_interval_steps: u8,
}

impl Default for RelayConfig {
    fn default() -> (c: Self)
        ensures
            c.relay == Relay::SupportedEnabled,
            c.relay_retransmit_count == 1,
            c.relay_retransmit_interval_steps == 20,
    {
        Self { relay: Relay::SupportedEnabled, relay_retransmit_count: 1, relay_retransmit_interval_steps: 20 }
    }
}

impl RelayConfig {
    /// The state read from `p`: at least two bytes, the relay code in the
    /// first, and the count and steps also taken from the first byte, the
    /// count from its low three bits and the steps from its low five.
    pub open spec fn spec_parse(p: Seq<u8>) -> Result<RelayConfig, ParseError> {
        if p.len() < 2 {
            Err(ParseError::InvalidLength)
        } else {
            match Relay::spec_parse(p[0]) {
                Ok(relay) => Ok(RelayConfig {
                    relay,
                    relay_retransmit_count: p[0] % 8,
                    relay_retransmit_interval_steps: p[0] % 32,
                }),
                Err(e) => Err(e),
            }
        }
    }

    /// The bytes of this state: the relay code, then the count and steps.
    pub open spec fn spec_bytes(self) -> Seq<u8> {
        seq![self.relay.spec_code(), transmit_byte(self.relay_retransmit_count, self.relay_retransmit_interval_steps)]
    }

    /// Reads the state.
    pub fn parse(parameters: &[u8]) -> (r: Result<Self, ParseError>)
        ensures
            r == Self::spec_parse(parameters@),
    {
        if parameters.len() < 2 {
            Err(ParseError::InvalidLength)
        } else {
            let b = parameters[0];
            let relay = Relay::parse(b)?;
            let relay_retransmit_count = b & 0b11100000 >> 5;
            let relay_retransmit_interval_steps = b & 0b00011111;
            proof {
                lemma_three_five(b, 0);
                assert(0b11100000u8 >> 5u8 == 0x07u8) by (bit_vector);
            }
            Ok(Self { relay, relay_retransmit_count, relay_retransmit_interval_steps })
        }
    }

    /// The bytes of this state.
    pub fn encode(&self) -> (v: Vec<u8>)
        ensures
            v@ == self.spec_bytes(),
    {
        let b = self.relay_retransmit_count & 0b111 << 5 | self.relay_retransmit_interval_steps & 0b11111;
        proof {
            lemma_three_five(self.relay_retransmit_interval_steps, 0);
            lemma_three_five(self.relay_retransmit_count, self.relay_retransmit_interval_steps % 32);
            assert(0b111u8 << 5u8 == 0xE0u8) by (bit_vector);
        }
        let v = vec![self.relay.code(), b];
        assert(v@ =~= self.spec_bytes());
        v
    }

    /// Appends the bytes of this state.
    pub fn emit(&self, xmit: &mut ByteBuf) -> (r: Result<(), InsufficientBuffer>)
        ensures
            final(xmit).cap() == old(xmit).cap(),
            appended(old(xmit)@, final(xmit)@, old(xmit).cap(), self.spec_bytes(), r is Ok),
    {
        xmit.extend_from_slice(self.encode().as_slice())
    }
}

/// A Config Relay message.
#[derive(PartialEq, Eq, Structural, Clone, Copy, Debug)]
pub enum RelayMessage {
    Get,
    SetRequest(RelayConfig),
    Status(RelayConfig),
}

impl RelayMessage {
    /// Reads a Get, which carries no parameters.
    pub fn parse_get(parameters: &[u8]) -> (r: Result<Self, ParseError>)
        ensures
            parameters@.len() == 0 ==> r == Ok::<RelayMessage, ParseError>(RelayMessage::Get),
            parameters@.len() != 0 ==> r == Err::<RelayMessage, ParseError>(ParseError::InvalidLength),
    {
        if parameters.len() == 0 {
            Ok(Self::Get)
        } else {
            Err(ParseError::InvalidLength)
        }
    }

    /// Reads a Set.
    pub fn parse_set(parameters: &[u8]) -> (r: Result<Self, ParseError>)
        ensures
            r == (match RelayConfig::spec_parse(parameters@) {
                Ok(c) => Ok(RelayMessage::SetRequest(c)),
                Err(e) => Err(e),
            }),
    {
        Ok(Self::SetRequest(RelayConfig::parse(parameters)?))
    }

    /// Reads a Status; what it reads is given as a Set of the same state.
    pub fn parse_status(parameters: &[u8]) -> (r: Result<Self, ParseError>)
        ensures
            r == (match RelayConfig::spec_parse(parameters@) {
                Ok(c) => Ok(RelayMessage::SetRequest(c)),
                Err(e) => Err(e),
            }),
    {
        Ok(Self::SetRequest(RelayConfig::parse(parameters)?))
    }
}

impl Message for RelayMessage {
    open spec fn spec_opcode(&self) -> Opcode {
        match self {
            Self::Get => config_relay_get(),
            Self::SetRequest(_) => config_relay_set(),
            Self::Status(_) => config_relay_status(),
        }
    }

    open spec fn spec_parameters(&self) -> Seq<u8> {
        match self {
            Self::Get => Seq::empty(),
            Self::SetRequest(c) => c.spec_bytes(),
            Self::Status(c) => c.spec_bytes(),
        }
    }

    open spec fn emittable(&self) -> bool {
        true
    }

    fn opcode(&self) -> (o: Opcode) {
        match self {
            Self::Get => config_relay_get(),
            Self::SetRequest(_) => config_relay_set(),
            Self::Status(_) => config_relay_status(),
        }
    }

    fn emit_parameters(&self, xmit: &mut ByteBuf) -> (r: Result<(), InsufficientBuffer>) {
        match self {
            Self::Get => xmit.extend_from_slice(&[]),
            Self::SetRequest(inner) => inner.emit(xmit),
            Self::Status(inner) => inner.emit(xmit),
        }
    }
}

} // verus!
