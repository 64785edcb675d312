//! The generic battery server.
use vstd::prelude::*;
use crate::buffer::{appended, ByteBuf};
use crate::bytes::{be32_bytes, to_be32};
use crate::model::{Message, Model, ModelIdentifier};
use crate::pdu::access::Opcode;
use crate::pdu::ParseError;
use crate::InsufficientBuffer;

verus! {

/// The generic battery server model.
#[derive(PartialEq, Eq, Structural, Clone, Copy, Debug)]
pub struct GenericBatteryServer;

/// The identifier of the generic battery server.
#[verifier::allow_in_spec]
pub fn generic_battery_server() -> ModelIdentifier
    returns
        ModelIdentifier::SIG(0x100C),
{
    ModelIdentifier::SIG(0x100C)
}

/// The identifier of the generic battery client.
#[verifier::allow_in_spec]
pub fn generic_battery_client() -> ModelIdentifier
    returns
        ModelIdentifier::SIG(0x100D),
{
    ModelIdentifier::SIG(0x100D)
}

/// Opcode of the Generic Battery Get message.
#[verifier::allow_in_spec]
pub fn generic_battery_get() -> Opcode
    returns
        Opcode::TwoOctet(0x82, 0x23),
{
    Opcode::TwoOctet(0x82, 0x23)
}

/// Opcode of the Generic Battery Status message.
#[verifier::allow_in_spec]
pub fn generic_battery_status() -> Opcode
    returns
        Opcode::TwoOctet(0x82, 0x24),
{
    Opcode::TwoOctet(0x82, 0x24)
}

/// The state of a battery: its level, the minutes to discharge and to
/// charge (24 bits each) and its flags.
#[derive(PartialEq, Eq, Structural, Clone, Copy, Debug)]
pub struct BatteryStatus {
    pub battery_level: u8,
    pub time_to_discharge: u32,
    pub time_to_charge: u32,
    pub flags: u8,
}

impl BatteryStatus {
    /// The eight bytes of a status: the level, the low three bytes of each
    /// time, most significant first, then the flags.
    pub open spec fn spec_bytes(self) -> Seq<u8> {
        seq![self.battery_level] + be32_bytes(self.time_to_discharge).skip(1) + be32_bytes(self.time_to_charge).skip(1)
            + seq![self.flags]
    }

    /// Appends the bytes of this status.
    pub fn emit_parameters(&self, xmit: &mut ByteBuf) -> (r: Result<(), InsufficientBuffer>)
        ensures
            final(xmit).cap() == old(xmit).cap(),
            appended(old(xmit)@, final(xmit)@, old(xmit).cap(), self.spec_bytes(), r is Ok),
    {
        let d = to_be32(self.time_to_discharge);
        let c = to_be32(self.time_to_charge);
        let b = [self.battery_level, d[1], d[2], d[3], c[1], c[2], c[3], self.flags];
        assert(b@ =~= self.spec_bytes());
        xmit.extend_from_slice(&b)
    }
}

/// A generic battery message.
#[derive(PartialEq, Eq, Structural, Clone, Copy, Debug)]
pub enum GenericBatteryMessage {
    Get,
    Status(BatteryStatus),
}

impl Message for GenericBatteryMessage {
    open spec fn spec_opcode(&self) -> Opcode {
        match self {
            Self::Get => generic_battery_get(),
            Self::Status(_) => generic_battery_status(),
        }
    }

    open spec fn spec_parameters(&self) -> Seq<u8> {
        match self {
            Self::Get => Seq::empty(),
            Self::Status(inner) => inner.spec_bytes(),
        }
    }

    open spec fn emittable(&self) -> bool {
        true
    }

    fn opcode(&self) -> (o: Opcode) {
        match self {
            Self::Get => generic_battery_get(),
            Self::Status(_) => generic_battery_status(),
        }
    }

    fn emit_parameters(&self, xmit: &mut ByteBuf) -> (r: Result<(), InsufficientBuffer>) {
        match self {
            Self::Get => xmit.extend_from_slice(&[]),
            Self::Status(inner) => inner.emit_parameters(xmit),
        }
    }
}

impl Model for GenericBatteryServer {
    type Message = GenericBatteryMessage;

    open spec fn spec_identifier(&self) -> ModelIdentifier {
        generic_battery_server()
    }

    open spec fn accepts(&self, opcode: Opcode, parameters: Seq<u8>) -> bool {
        true
    }

    /// The server reads no message.
    open spec fn parsed(&self, opcode: Opcode, parameters: Seq<u8>, r: Result<Option<GenericBatteryMessage>, ParseError>) -> bool {
        r matches Ok(None)
    }

    fn identifier(&self) -> (m: ModelIdentifier) {
        generic_battery_server()
    }

    fn parse(&self, opcode: Opcode, parameters: &[u8]) -> (r: Result<Option<GenericBatteryMessage>, ParseError>) {
        Ok(None)
    }
}

} // verus!
