//! Config Beacon messages: whether the node broadcasts secure network
//! beacons.
use vstd::prelude::*;
use crate::buffer::{appended, ByteBuf};
use crate::model::Message;
use crate::pdu::access::{config_beacon_get, config_beacon_set, config_beacon_status, Opcode};
use crate::pdu::ParseError;
use crate::InsufficientBuffer;

verus! {

/// A Config Beacon message.
#[derive(PartialEq, Eq, Structural, Clone, Copy, Debug)]
pub enum BeaconMessage {
    Get,
    SetRequest(bool),
    Status(bool),
}

/// The byte that carries a beacon state.
pub open spec fn beacon_byte(on: bool) -> u8 {
    if on { 1 } else { 0 }
}

impl BeaconMessage {
    /// A Get carries no parameters.
    pub open spec fn spec_parse_get(p: Seq<u8>) -> Result<BeaconMessage, ParseError> {
        if p.len() == 0 { Ok(BeaconMessage::Get) } else { Err(ParseError::InvalidLength) }
    }

    /// A Set carries one byte, 0 or 1.
    pub open spec fn spec_parse_set(p: Seq<u8>) -> Result<BeaconMessage, ParseError> {
        if p.len() != 1 {
            Err(ParseError::InvalidLength)
        } else if p[0] == 0 {
            Ok(BeaconMessage::SetRequest(false))
        } else if p[0] == 1 {
            Ok(BeaconMessage::SetRequest(true))
        } else {
            Err(ParseError::InvalidValue)
        }
    }

    /// Reads a Get.
    pub fn parse_get(parameters: &[u8]) -> (r: Result<Self, ParseError>)
        ensures
            r == Self::spec_parse_get(parameters@),
    {
        if parameters.len() == 0 {
            Ok(Self::Get)
        } else {
            Err(ParseError::InvalidLength)
        }
    }

    /// Reads a Set.
    pub fn parse_set(parameters: &[u8]) -> (r: Result<Self, ParseError>)
        ensures
            r == Self::spec_parse_set(parameters@),
    {
        if parameters.len() == 1 {
            if parameters[0] == 0x00 {
                Ok(Self::SetRequest(false))
            } else if parameters[0] == 0x01 {
                Ok(Self::SetRequest(true))
            } else {
                Err(ParseError::InvalidValue)
            }
        } else {
            Err(ParseError::InvalidLength)
        }
    }

    /// The parameters of this message.
    pub fn encode(&self) -> (v: Vec<u8>)
        ensures
            v@ == self.spec_parameters(),
    {
        match self {
            Self::Get => Vec::new(),
            Self::SetRequest(val) | Self::Status(val) => {
                let v = vec![if *val { 1u8 } else { 0u8 }];
                assert(v@ =~= self.spec_parameters());
                v
            }
        }
    }
}

impl Message for BeaconMessage {
    open spec fn spec_opcode(&self) -> Opcode {
        match self {
            Self::Get => config_beacon_get(),
            Self::SetRequest(_) => config_beacon_set(),
            Self::Status(_) => config_beacon_status(),
        }
    }

    open spec fn spec_parameters(&self) -> Seq<u8> {
        match self {
            Self::Get => Seq::empty(),
            Self::SetRequest(val) => seq![beacon_byte(*val)],
            Self::Status(val) => seq![beacon_byte(*val)],
        }
    }

    open spec fn emittable(&self) -> bool {
        true
    }

    fn opcode(&self) -> (o: Opcode) {
        match self {
            Self::Get => config_beacon_get(),
            Self::SetRequest(_) => config_beacon_set(),
            Self::Status(_) => config_beacon_status(),
        }
    }

    fn emit_parameters(&self, xmit: &mut ByteBuf) -> (r: Result<(), InsufficientBuffer>) {
        xmit.extend_from_slice(self.encode().as_slice())
    }
}

} // verus!
