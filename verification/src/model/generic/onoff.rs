//! The generic on/off server and client.
use vstd::prelude::*;
use crate::buffer::{appended, ByteBuf};
use crate::model::{Message, Model, ModelIdentifier};
use crate::pdu::access::Opcode;
use crate::pdu::ParseError;
use crate::InsufficientBuffer;

verus! {

/// The generic on/off server model.
#[derive(PartialEq, Eq, Structural, Clone, Copy, Debug)]
pub struct GenericOnOffServer;

/// The generic on/off client model.
#[derive(PartialEq, Eq, Structural, Clone, Copy, Debug)]
pub struct GenericOnOffClient;

/// The identifier of the generic on/off server.
#[verifier::allow_in_spec]
pub fn generic_onoff_server() -> ModelIdentifier
    returns
        ModelIdentifier::SIG(0x1000),
{
    ModelIdentifier::SIG(0x1000)
}

/// The identifier of the generic on/off client.
#[verifier::allow_in_spec]
pub fn generic_onoff_client() -> ModelIdentifier
    returns
        ModelIdentifier::SIG(0x1001),
{
    ModelIdentifier::SIG(0x1001)
}

/// Opcode of the Generic OnOff Get message.
#[verifier::allow_in_spec]
pub fn generic_on_off_get() -> Opcode
    returns
        Opcode::TwoOctet(0x82, 0x01),
{
    Opcode::TwoOctet(0x82, 0x01)
}

/// Opcode of the Generic OnOff Set message.
#[verifier::allow_in_spec]
pub fn generic_on_off_set() -> Opcode
    returns
        Opcode::TwoOctet(0x82, 0x02),
{
    Opcode::TwoOctet(0x82, 0x02)
}

/// Opcode of the Generic OnOff Set Unacknowledged message.
#[verifier::allow_in_spec]
pub fn generic_on_off_set_unacknowledge() -> Opcode
    returns
        Opcode::TwoOctet(0x82, 0x03),
{
    Opcode::TwoOctet(0x82, 0x03)
}

/// Opcode of the Generic OnOff Status message.
#[verifier::allow_in_spec]
pub fn generic_on_off_status() -> Opcode
    returns
        Opcode::TwoOctet(0x82, 0x04),
{
    Opcode::TwoOctet(0x82, 0x04)
}

/// The parameters of a set: the new state, a transaction identifier, the
/// transition time and a delay.
#[derive(PartialEq, Eq, Structural, Clone, Copy, Debug)]
pub struct OnOffSet {
    pub on_off: u8,
    pub tid: u8,
    pub transition_time: u8,
    pub delay: u8,
}

impl OnOffSet {
    /// The four bytes of a set.
    pub open spec fn spec_bytes(self) -> Seq<u8> {
        seq![self.on_off, self.tid, self.transition_time, self.delay]
    }

    /// Appends the bytes of this set.
    pub fn emit_parameters(&self, xmit: &mut ByteBuf) -> (r: Result<(), InsufficientBuffer>)
        ensures
            final(xmit).cap() == old(xmit).cap(),
            appended(old(xmit)@, final(xmit)@, old(xmit).cap(), self.spec_bytes(), r is Ok),
    {
        let b = [self.on_off, self.tid, self.transition_time, self.delay];
        assert(b@ =~= self.spec_bytes());
        xmit.extend_from_slice(&b)
    }
}

/// The parameters of a status: the present and target states and the
/// remaining time.
#[derive(PartialEq, Eq, Structural, Clone, Copy, Debug)]
pub struct OnOffStatus {
    pub present_on_off: u8,
    pub target_on_off: u8,
    pub remaining_time: u8,
}

impl OnOffStatus {
    /// The three bytes of a status.
    pub open spec fn spec_bytes(self) -> Seq<u8> {
        seq![self.present_on_off, self.target_on_off, self.remaining_time]
    }

    /// Appends the bytes of this status.
    pub fn emit_parameters(&self, xmit: &mut ByteBuf) -> (r: Result<(), InsufficientBuffer>)
        ensures
            final(xmit).cap() == old(xmit).cap(),
            appended(old(xmit)@, final(xmit)@, old(xmit).cap(), self.spec_bytes(), r is Ok),
    {
        let b = [self.present_on_off, self.target_on_off, self.remaining_time];
        assert(b@ =~= self.spec_bytes());
        xmit.extend_from_slice(&b)
    }
}

/// A generic on/off message.
#[derive(PartialEq, Eq, Structural, Clone, Copy, Debug)]
pub enum GenericOnOffMessage {
    Get,
    SetRequest(OnOffSet),
    SetUnacknowledged(OnOffSet),
    Status(OnOffStatus),
}

impl Message for GenericOnOffMessage {
    open spec fn spec_opcode(&self) -> Opcode {
        match self {
            GenericOnOffMessage::Get => generic_on_off_get(),
            GenericOnOffMessage::SetRequest(_) => generic_on_off_set(),
            GenericOnOffMessage::SetUnacknowledged(_) => generic_on_off_set_unacknowledge(),
            GenericOnOffMessage::Status(_) => generic_on_off_status(),
        }
    }

    open spec fn spec_parameters(&self) -> Seq<u8> {
        match self {
            GenericOnOffMessage::Get => Seq::empty(),
            GenericOnOffMessage::SetRequest(inner) => inner.spec_bytes(),
            GenericOnOffMessage::SetUnacknowledged(inner) => inner.spec_bytes(),
            GenericOnOffMessage::Status(inner) => inner.spec_bytes(),
        }
    }

    open spec fn emittable(&self) -> bool {
        true
    }

    fn opcode(&self) -> (o: Opcode) {
        match self {
            GenericOnOffMessage::Get => generic_on_off_get(),
            GenericOnOffMessage::SetRequest(_) => generic_on_off_set(),
            GenericOnOffMessage::SetUnacknowledged(_) => generic_on_off_set_unacknowledge(),
            GenericOnOffMessage::Status(_) => generic_on_off_status(),
        }
    }

    fn emit_parameters(&self, xmit: &mut ByteBuf) -> (r: Result<(), InsufficientBuffer>) {
        match self {
            GenericOnOffMessage::Get => xmit.extend_from_slice(&[]),
            GenericOnOffMessage::SetRequest(inner) => inner.emit_parameters(xmit),
            GenericOnOffMessage::SetUnacknowledged(inner) => inner.emit_parameters(xmit),
            GenericOnOffMessage::Status(inner) => inner.emit_parameters(xmit),
        }
    }
}

impl Model for GenericOnOffServer {
    type Message = GenericOnOffMessage;

    open spec fn spec_identifier(&self) -> ModelIdentifier {
        generic_onoff_server()
    }

    open spec fn accepts(&self, opcode: Opcode, parameters: Seq<u8>) -> bool {
        true
    }

    /// The server reads no message yet.
    open spec fn parsed(&self, opcode: Opcode, parameters: Seq<u8>, r: Result<Option<GenericOnOffMessage>, ParseError>) -> bool {
        r matches Ok(None)
    }

    fn identifier(&self) -> (m: ModelIdentifier) {
        generic_onoff_server()
    }

    fn parse(&self, opcode: Opcode, parameters: &[u8]) -> (r: Result<Option<GenericOnOffMessage>, ParseError>) {
        Ok(None)
    }
}

impl Model for GenericOnOffClient {
    type Message = GenericOnOffMessage;

    open spec fn spec_identifier(&self) -> ModelIdentifier {
        generic_onoff_client()
    }

    open spec fn accepts(&self, opcode: Opcode, parameters: Seq<u8>) -> bool {
        true
    }

    /// The client reads no message yet.
    open spec fn parsed(&self, opcode: Opcode, parameters: Seq<u8>, r: Result<Option<GenericOnOffMessage>, ParseError>) -> bool {
        r matches Ok(None)
    }

    fn identifier(&self) -> (m: ModelIdentifier) {
        generic_onoff_client()
    }

    fn parse(&self, opcode: Opcode, parameters: &[u8]) -> (r: Result<Option<GenericOnOffMessage>, ParseError>) {
        Ok(None)
    }
}

} // verus!
