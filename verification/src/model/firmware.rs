//! The firmware update models: a vendor model through which a client
//! reads the firmware state of a device, controls the update and writes
//! the new firmware in pieces.
use vstd::prelude::*;
use crate::buffer::{appended, ByteBuf};
use crate::bytes::{be32, from_le32, lemma_be32_roundtrip, le32_bytes, to_le32};
use crate::model::{CompanyIdentifier, Message, Model, ModelIdentifier};
use crate::pdu::access::Opcode;
use crate::pdu::ParseError;
use crate::InsufficientBuffer;

verus! {

/// The firmware update client model.
#[derive(PartialEq, Eq, Structural, Clone, Copy, Debug)]
pub struct FirmwareUpdateClient;

/// The firmware update server model.
#[derive(PartialEq, Eq, Structural, Clone, Copy, Debug)]
pub struct FirmwareUpdateServer;

/// The identifier of the firmware update client: a vendor model of company
/// `0x0003`.
#[verifier::allow_in_spec]
pub fn firmware_update_client() -> ModelIdentifier
    returns
        ModelIdentifier::Vendor(CompanyIdentifier(0x0003), 0x11ed),
{
    ModelIdentifier::Vendor(CompanyIdentifier(0x0003), 0x11ed)
}

/// The identifier of the firmware update server.
#[verifier::allow_in_spec]
pub fn firmware_update_server() -> ModelIdentifier
    returns
        ModelIdentifier::Vendor(CompanyIdentifier(0x0003), 0x11ec),
{
    ModelIdentifier::Vendor(CompanyIdentifier(0x0003), 0x11ec)
}

/// Opcode of the Firmware Update Get message.
#[verifier::allow_in_spec]
pub fn firmware_update_get() -> Opcode
    returns
        Opcode::ThreeOctet(0xF0, 0x03, 0x00),
{
    Opcode::ThreeOctet(0xF0, 0x03, 0x00)
}

/// Opcode of the Firmware Update Status message.
#[verifier::allow_in_spec]
pub fn firmware_update_status() -> Opcode
    returns
        Opcode::ThreeOctet(0xF1, 0x03, 0x00),
{
    Opcode::ThreeOctet(0xF1, 0x03, 0x00)
}

/// Opcode of the Firmware Update Control message.
#[verifier::allow_in_spec]
pub fn firmware_update_control() -> Opcode
    returns
        Opcode::ThreeOctet(0xF2, 0x03, 0x00),
{
    Opcode::ThreeOctet(0xF2, 0x03, 0x00)
}

/// Opcode of the Firmware Update Write message.
#[verifier::allow_in_spec]
pub fn firmware_update_write() -> Opcode
    returns
        Opcode::ThreeOctet(0xF3, 0x03, 0x00),
{
    Opcode::ThreeOctet(0xF3, 0x03, 0x00)
}

/// A piece of new firmware and the offset where it goes.
pub struct Write {
    pub offset: u32,
    pub payload: Vec<u8>,
}

/// The firmware state of a device: the largest piece it takes, the offset
/// written up to and the version it runs.
pub struct Status {
    pub mtu: u8,
    pub offset: u32,
    pub version: Vec<u8>,
}

/// A step of the update: start it, apply it, mark the new firmware booted,
/// or announce the version to come.
pub enum Control {
    Start,
    Update,
    MarkBooted,
    NextVersion(Vec<u8>),
}

/// A message of the firmware update models.
pub enum FirmwareUpdateMessage {
    Get,
    Status(Status),
    Control(Control),
    Write(Write),
}

/// The four bytes at `at` of `p`, least significant first, as an integer.
pub open spec fn le32_at(p: Seq<u8>, at: int) -> u32 {
    be32(p[at + 3], p[at + 2], p[at + 1], p[at])
}

impl Control {
    /// Whether reading `p` stays within its bytes: a type octet, and for a
    /// next version its length and that many bytes.
    pub open spec fn parse_defined(p: Seq<u8>) -> bool {
        &&& p.len() >= 1
        &&& p[0] == 4 ==> p.len() >= 2 && p.len() >= 2 + p[1]
    }

    /// Whether `r` is what reading `p` gives, by its type octet.
    pub open spec fn parsed(p: Seq<u8>, r: Result<Control, ParseError>) -> bool {
        if p[0] == 1 {
            r matches Ok(Control::Start)
        } else if p[0] == 2 {
            r matches Ok(Control::Update)
        } else if p[0] == 3 {
            r matches Ok(Control::MarkBooted)
        } else if p[0] == 4 {
            r matches Ok(Control::NextVersion(v)) && v@ == p.subrange(2, 2 + p[1])
        } else {
            r matches Err(e) && e == ParseError::InvalidLength
        }
    }

    /// Reads a control step.
    pub fn parse(parameters: &[u8]) -> (r: Result<Self, ParseError>)
        requires
            Self::parse_defined(parameters@),
        ensures
            Self::parsed(parameters@, r),
    {
        let t = parameters[0];
        match t {
            1 => Ok(Control::Start),
            2 => Ok(Control::Update),
            3 => Ok(Control::MarkBooted),
            4 => {
                let len = parameters[1] as usize;
                let version = vstd::slice::slice_to_vec(vstd::slice::slice_subrange(parameters, 2, 2 + len));
                Ok(Control::NextVersion(version))
            },
            _ => Err(ParseError::InvalidLength),
        }
    }

    /// The bytes of this step: its type octet; for a next version, then
    /// the version's length (as a byte) and the version.
    pub open spec fn spec_bytes(&self) -> Seq<u8> {
        match self {
            Control::Start => seq![1u8],
            Control::Update => seq![2u8],
            Control::MarkBooted => seq![3u8],
            Control::NextVersion(v) => seq![4u8, v@.len() as u8] + v@,
        }
    }

    /// Appends the bytes of this step.
    pub fn emit_parameters(&self, xmit: &mut ByteBuf) -> (r: Result<(), InsufficientBuffer>)
        ensures
            final(xmit).cap() == old(xmit).cap(),
            appended(old(xmit)@, final(xmit)@, old(xmit).cap(), self.spec_bytes(), r is Ok),
    {
        let mut v: Vec<u8> = vec![match self {
            Control::Start => 1,
            Control::Update => 2,
            Control::MarkBooted => 3,
            Control::NextVersion(_) => 4,
        }];
        if let Control::NextVersion(version) = self {
            v.push(version.len() as u8);
            let mut rest = version.clone();
            v.append(&mut rest);
        }
        assert(v@ =~= self.spec_bytes());
        xmit.extend_from_slice(v.as_slice())
    }
}

impl Status {
    /// Whether reading `p` stays within its bytes: the MTU, the offset, the
    /// version's length and that many bytes.
    pub open spec fn parse_defined(p: Seq<u8>) -> bool {
        p.len() >= 6 && p.len() >= 6 + p[5]
    }

    /// Reads a firmware state.
    pub fn parse(parameters: &[u8]) -> (r: Result<Self, ParseError>)
        requires
            Self::parse_defined(parameters@),
        ensures
            r matches Ok(s) && s.mtu == parameters@[0] && s.offset == le32_at(parameters@, 1) && s.version@
                == parameters@.subrange(6, 6 + parameters@[5]),
    {
        let mtu = parameters[0];
        let offset = from_le32(parameters[1], parameters[2], parameters[3], parameters[4]);
        let len = parameters[5] as usize;
        let version = vstd::slice::slice_to_vec(vstd::slice::slice_subrange(parameters, 6, 6 + len));
        Ok(Status { mtu, offset, version })
    }

    /// The bytes of this state: the MTU, the offset least significant byte
    /// first, the version's length (as a byte) and the version.
    pub open spec fn spec_bytes(&self) -> Seq<u8> {
        seq![self.mtu] + le32_bytes(self.offset) + seq![self.version@.len() as u8] + self.version@
    }

    /// Appends the bytes of this state.
    pub fn emit_parameters(&self, xmit: &mut ByteBuf) -> (r: Result<(), InsufficientBuffer>)
        ensures
            final(xmit).cap() == old(xmit).cap(),
            appended(old(xmit)@, final(xmit)@, old(xmit).cap(), self.spec_bytes(), r is Ok),
    {
        let o = to_le32(self.offset);
        let mut v: Vec<u8> = vec![self.mtu, o[0], o[1], o[2], o[3], self.version.len() as u8];
        let mut rest = self.version.clone();
        v.append(&mut rest);
        assert(v@ =~= self.spec_bytes());
        xmit.extend_from_slice(v.as_slice())
    }
}

impl Write {
    /// Whether reading `p` stays within its bytes: the offset, the
    /// payload's length and that many bytes.
    pub open spec fn parse_defined(p: Seq<u8>) -> bool {
        p.len() >= 5 && p.len() >= 5 + p[4]
    }

    /// Reads a piece of firmware.
    pub fn parse(parameters: &[u8]) -> (r: Result<Self, ParseError>)
        requires
            Self::parse_defined(parameters@),
        ensures
            r matches Ok(w) && w.offset == le32_at(parameters@, 0) && w.payload@ == parameters@.subrange(
                5,
                5 + parameters@[4],
            ),
    {
        let offset = from_le32(parameters[0], parameters[1], parameters[2], parameters[3]);
        let len = parameters[4] as usize;
        let payload = vstd::slice::slice_to_vec(vstd::slice::slice_subrange(parameters, 5, 5 + len));
        Ok(Write { offset, payload })
    }

    /// The bytes of this piece: the offset least significant byte first,
    /// the payload's length (as a byte) and the payload.
    pub open spec fn spec_bytes(&self) -> Seq<u8> {
        le32_bytes(self.offset) + seq![self.payload@.len() as u8] + self.payload@
    }

    /// Appends the bytes of this piece.
    pub fn emit_parameters(&self, xmit: &mut ByteBuf) -> (r: Result<(), InsufficientBuffer>)
        ensures
            final(xmit).cap() == old(xmit).cap(),
            appended(old(xmit)@, final(xmit)@, old(xmit).cap(), self.spec_bytes(), r is Ok),
    {
        let o = to_le32(self.offset);
        let mut v: Vec<u8> = vec![o[0], o[1], o[2], o[3], self.payload.len() as u8];
        let mut rest = self.payload.clone();
        v.append(&mut rest);
        assert(v@ =~= self.spec_bytes());
        xmit.extend_from_slice(v.as_slice())
    }
}

impl Message for FirmwareUpdateMessage {
    open spec fn spec_opcode(&self) -> Opcode {
        match self {
            FirmwareUpdateMessage::Get => firmware_update_get(),
            FirmwareUpdateMessage::Status(_) => firmware_update_status(),
            FirmwareUpdateMessage::Control(_) => firmware_update_control(),
            FirmwareUpdateMessage::Write(_) => firmware_update_write(),
        }
    }

    open spec fn spec_parameters(&self) -> Seq<u8> {
        match self {
            FirmwareUpdateMessage::Get => Seq::empty(),
            FirmwareUpdateMessage::Status(inner) => inner.spec_bytes(),
            FirmwareUpdateMessage::Control(inner) => inner.spec_bytes(),
            FirmwareUpdateMessage::Write(inner) => inner.spec_bytes(),
        }
    }

    open spec fn emittable(&self) -> bool {
        true
    }

    fn opcode(&self) -> (o: Opcode) {
        match self {
            FirmwareUpdateMessage::Get => firmware_update_get(),
            FirmwareUpdateMessage::Status(_) => firmware_update_status(),
            FirmwareUpdateMessage::Control(_) => firmware_update_control(),
            FirmwareUpdateMessage::Write(_) => firmware_update_write(),
        }
    }

    fn emit_parameters(&self, xmit: &mut ByteBuf) -> (r: Result<(), InsufficientBuffer>) {
        match self {
            FirmwareUpdateMessage::Get => {
                let empty: [u8; 0] = [];
                assert(empty@ =~= Seq::<u8>::empty());
                xmit.extend_from_slice(&empty)
            },
            FirmwareUpdateMessage::Status(inner) => inner.emit_parameters(xmit),
            FirmwareUpdateMessage::Control(inner) => inner.emit_parameters(xmit),
            FirmwareUpdateMessage::Write(inner) => inner.emit_parameters(xmit),
        }
    }
}

impl Model for FirmwareUpdateServer {
    type Message = FirmwareUpdateMessage;

    open spec fn spec_identifier(&self) -> ModelIdentifier {
        firmware_update_server()
    }

    open spec fn accepts(&self, opcode: Opcode, parameters: Seq<u8>) -> bool {
        &&& opcode == firmware_update_status() ==> Status::parse_defined(parameters)
        &&& opcode == firmware_update_control() ==> Control::parse_defined(parameters)
        &&& opcode == firmware_update_write() ==> Write::parse_defined(parameters)
    }

    /// The server reads every firmware update message.
    open spec fn parsed(&self, opcode: Opcode, parameters: Seq<u8>, r: Result<Option<FirmwareUpdateMessage>, ParseError>) -> bool {
        if opcode == firmware_update_get() {
            r matches Ok(Some(FirmwareUpdateMessage::Get))
        } else if opcode == firmware_update_status() {
            r matches Ok(Some(FirmwareUpdateMessage::Status(s))) && s.mtu == parameters[0] && s.offset == le32_at(
                parameters,
                1,
            ) && s.version@ == parameters.subrange(6, 6 + parameters[5])
        } else if opcode == firmware_update_control() {
            match r {
                Ok(Some(FirmwareUpdateMessage::Control(c))) => Control::parsed(parameters, Ok(c)),
                Err(e) => Control::parsed(parameters, Err(e)),
                _ => false,
            }
        } else if opcode == firmware_update_write() {
            r matches Ok(Some(FirmwareUpdateMessage::Write(w))) && w.offset == le32_at(parameters, 0) && w.payload@
                == parameters.subrange(5, 5 + parameters[4])
        } else {
            r matches Ok(None)
        }
    }

    fn identifier(&self) -> (m: ModelIdentifier) {
        firmware_update_server()
    }

    fn parse(&self, opcode: Opcode, parameters: &[u8]) -> (r: Result<Option<FirmwareUpdateMessage>, ParseError>) {
        if opcode == firmware_update_get() {
            Ok(Some(FirmwareUpdateMessage::Get))
        } else if opcode == firmware_update_status() {
            Ok(Some(FirmwareUpdateMessage::Status(Status::parse(parameters)?)))
        } else if opcode == firmware_update_control() {
            Ok(Some(FirmwareUpdateMessage::Control(Control::parse(parameters)?)))
        } else if opcode == firmware_update_write() {
            Ok(Some(FirmwareUpdateMessage::Write(Write::parse(parameters)?)))
        } else {
            Ok(None)
        }
    }
}


/// The firmware messages that carry data are read back from the bytes they
/// are written as, when the version or payload they carry is under 256 bytes
/// (its length is written as one byte).
pub proof fn lemma_firmware_roundtrip(write: Write, status: Status, control: Control)
    requires
        write.payload@.len() < 256,
        status.version@.len() < 256,
        control matches Control::NextVersion(v) ==> v@.len() < 256,
    ensures
        Write::parse_defined(write.spec_bytes()),
        le32_at(write.spec_bytes(), 0) == write.offset,
        write.spec_bytes().subrange(5, 5 + write.spec_bytes()[4]) == write.payload@,
        Status::parse_defined(status.spec_bytes()),
        status.spec_bytes()[0] == status.mtu,
        le32_at(status.spec_bytes(), 1) == status.offset,
        status.spec_bytes().subrange(6, 6 + status.spec_bytes()[5]) == status.version@,
        Control::parse_defined(control.spec_bytes()),
        forall|r: Result<Control, ParseError>| #[trigger] Control::parsed(control.spec_bytes(), r) ==> match control {
            Control::Start => r matches Ok(Control::Start),
            Control::Update => r matches Ok(Control::Update),
            Control::MarkBooted => r matches Ok(Control::MarkBooted),
            Control::NextVersion(v) => r matches Ok(Control::NextVersion(w)) && w@ == v@,
        },
{
    lemma_be32_roundtrip(write.offset);
    lemma_be32_roundtrip(status.offset);
    let wb = write.spec_bytes();
    assert(wb.subrange(5, 5 + wb[4]) =~= write.payload@);
    let sb = status.spec_bytes();
    assert(sb.subrange(6, 6 + sb[5]) =~= status.version@);
    if let Control::NextVersion(v) = control {
        let cb = control.spec_bytes();
        assert(cb.subrange(2, 2 + cb[1]) =~= v@);
    }
}

} // verus!
