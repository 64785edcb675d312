//! Proxy PDUs: how mesh PDUs travel over a GATT connection.
use vstd::prelude::*;
use crate::bits::lemma_nibbles;
use crate::buffer::{appended, ByteBuf};
use crate::pdu::ParseError;
use crate::InsufficientBuffer;

verus! {

/// How a proxy PDU is placed within a segmented message.
#[derive(PartialEq, Eq, Structural, Clone, Copy, Debug)]
pub enum SAR {
    Complete,
    First,
    Continuation,
    Last,
}

impl SAR {
    /// The two-bit code of this value.
    pub open spec fn spec_code(self) -> u8 {
        match self {
            SAR::Complete => 0b00,
            SAR::First => 0b01,
            SAR::Continuation => 0b10,
            SAR::Last => 0b11,
        }
    }

    pub open spec fn spec_parse(data: u8) -> Result<SAR, ParseError> {
        if data == 0 {
            Ok(SAR::Complete)
        } else if data == 1 {
            Ok(SAR::First)
        } else if data == 2 {
            Ok(SAR::Continuation)
        } else if data == 3 {
            Ok(SAR::Last)
        } else {
            Err(ParseError::InvalidValue)
        }
    }

    /// Reads a SAR value from its two-bit code.
    pub fn parse(data: u8) -> (r: Result<Self, ParseError>)
        ensures
            r == Self::spec_parse(data),
    {
        match data {
            0b00 => Ok(Self::Complete),
            0b01 => Ok(Self::First),
            0b10 => Ok(Self::Continuation),
            0b11 => Ok(Self::Last),
            _ => Err(ParseError::InvalidValue),
        }
    }

    /// The two-bit code of this value.
    pub fn code(&self) -> (c: u8)
        ensures
            c == self.spec_code(),
    {
        match self {
            SAR::Complete => 0b00,
            SAR::First => 0b01,
            SAR::Continuation => 0b10,
            SAR::Last => 0b11,
        }
    }
}

impl From<SAR> for u8 {
    fn from(sar: SAR) -> (c: u8) {
        sar.code()
    }
}

impl vstd::std_specs::convert::FromSpecImpl<SAR> for u8 {
    open spec fn obeys_from_spec() -> bool {
        true
    }

    open spec fn from_spec(sar: SAR) -> u8 {
        sar.spec_code()
    }
}

/// What a proxy PDU carries.
#[derive(PartialEq, Eq, Structural, Clone, Copy, Debug)]
pub enum MessageType {
    NetworkPDU,
    MeshBeacon,
    ProxyConfiguration,
    ProvisioningPDU,
}

impl MessageType {
    /// The six-bit code of this type.
    pub open spec fn spec_code(self) -> u8 {
        match self {
            MessageType::NetworkPDU => 0x00,
            MessageType::MeshBeacon => 0x01,
            MessageType::ProxyConfiguration => 0x02,
            MessageType::ProvisioningPDU => 0x03,
        }
    }

    pub open spec fn spec_parse(data: u8) -> Result<MessageType, ParseError> {
        if data == 0 {
            Ok(MessageType::NetworkPDU)
        } else if data == 1 {
            Ok(MessageType::MeshBeacon)
        } else if data == 2 {
            Ok(MessageType::ProxyConfiguration)
        } else if data == 3 {
            Ok(MessageType::ProvisioningPDU)
        } else {
            Err(ParseError::InvalidValue)
        }
    }

    /// Reads a message type from its code.
    pub fn parse(data: u8) -> (r: Result<Self, ParseError>)
        ensures
            r == Self::spec_parse(data),
    {
        match data {
            0x00 => Ok(Self::NetworkPDU),
            0x01 => Ok(Self::MeshBeacon),
            0x02 => Ok(Self::ProxyConfiguration),
            0x03 => Ok(Self::ProvisioningPDU),
            _ => Err(ParseError::InvalidValue),
        }
    }

    /// The code of this type.
    pub fn code(&self) -> (c: u8)
        ensures
            c == self.spec_code(),
    {
        match self {
            MessageType::NetworkPDU => 0x00,
            MessageType::MeshBeacon => 0x01,
            MessageType::ProxyConfiguration => 0x02,
            MessageType::ProvisioningPDU => 0x03,
        }
    }
}

impl From<MessageType> for u8 {
    fn from(t: MessageType) -> (c: u8) {
        t.code()
    }
}

impl vstd::std_specs::convert::FromSpecImpl<MessageType> for u8 {
    open spec fn obeys_from_spec() -> bool {
        true
    }

    open spec fn from_spec(t: MessageType) -> u8 {
        t.spec_code()
    }
}

/// The most bytes a proxy PDU carries.
pub const PROXY_DATA_MAX: usize = 66;

/// A proxy PDU: a SAR value and a message type in its first byte, then the
/// data it carries.
pub struct ProxyPDU {
    pub sar: SAR,
    pub message_type: MessageType,
    /// The data carried (at most 66 bytes).
    pub data: Vec<u8>,
}

impl ProxyPDU {
    /// The bytes of a proxy PDU.
    pub open spec fn spec_bytes(sar: SAR, message_type: MessageType, data: Seq<u8>) -> Seq<u8> {
        seq![(sar.spec_code() * 64 + message_type.spec_code()) as u8] + data
    }

    /// Whether reading `data` succeeds: a first byte whose low six bits
    /// name a message type, then at most 66 bytes.
    pub open spec fn spec_parse_ok(data: Seq<u8>) -> bool {
        &&& data.len() >= 1
        &&& MessageType::spec_parse(data[0] % 64) is Ok
        &&& data.len() - 1 <= PROXY_DATA_MAX
    }

    /// Appends the bytes of this PDU.
    pub fn emit(&self, xmit: &mut ByteBuf) -> (r: Result<(), InsufficientBuffer>)
        ensures
            final(xmit).cap() == old(xmit).cap(),
            appended(old(xmit)@, final(xmit)@, old(xmit).cap(),
                Self::spec_bytes(self.sar, self.message_type, self.data@), r is Ok),
    {
        let sar = self.sar.code();
        let t = self.message_type.code();
        let byte_one = (sar << 6) | t;
        proof { lemma_nibbles(sar, t); }
        let mut v = vec![byte_one];
        let mut d = self.data.clone();
        v.append(&mut d);
        assert(v@ =~= Self::spec_bytes(self.sar, self.message_type, self.data@));
        xmit.extend_from_slice(v.as_slice())
    }

    /// Reads a proxy PDU.
    pub fn parse(data: &[u8]) -> (r: Result<Self, ParseError>)
        ensures
            r is Ok <==> Self::spec_parse_ok(data@),
            r matches Ok(p) ==> {
                &&& p.sar == SAR::spec_parse(data@[0] / 64).unwrap()
                &&& p.message_type == MessageType::spec_parse(data@[0] % 64).unwrap()
                &&& p.data@ == data@.skip(1)
            },
            r matches Err(e) ==> e == (if data@.len() < 1 {
                ParseError::InvalidLength
            } else if MessageType::spec_parse(data@[0] % 64) is Err {
                ParseError::InvalidValue
            } else {
                ParseError::InsufficientBuffer
            }),
    {
        if data.len() < 1 {
            return Err(ParseError::InvalidLength);
        }
        proof { lemma_nibbles(data[0], 0); }
        let sar = SAR::parse(data[0] >> 6)?;
        let message_type = MessageType::parse(data[0] & 0b00111111)?;
        let mut proxy_data = Vec::new();
        if data.len() > 1 {
            if data.len() - 1 > PROXY_DATA_MAX {
                return Err(ParseError::InsufficientBuffer);
            }
            proxy_data = vstd::slice::slice_to_vec(vstd::slice::slice_subrange(data, 1, data.len()));
        }
        assert(proxy_data@ =~= data@.skip(1));
        Ok(Self { sar, message_type, data: proxy_data })
    }
}

/// A proxy PDU read back from the bytes it is emitted as is that PDU.
pub proof fn lemma_proxy_pdu_roundtrip(sar: SAR, message_type: MessageType, data: Seq<u8>)
    requires
        data.len() <= PROXY_DATA_MAX,
    ensures
        ProxyPDU::spec_parse_ok(ProxyPDU::spec_bytes(sar, message_type, data)),
        SAR::spec_parse(ProxyPDU::spec_bytes(sar, message_type, data)[0] / 64) == Ok::<SAR, ParseError>(sar),
        MessageType::spec_parse(ProxyPDU::spec_bytes(sar, message_type, data)[0] % 64)
            == Ok::<MessageType, ParseError>(message_type),
        ProxyPDU::spec_bytes(sar, message_type, data).skip(1) == data,
{
    let b = ProxyPDU::spec_bytes(sar, message_type, data);
    assert(b.skip(1) =~= data);
}

} // verus!
