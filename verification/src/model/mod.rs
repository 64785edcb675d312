//! Models: the identifiers of models, the messages they exchange and the
//! status codes of foundation models.
use vstd::prelude::*;
use crate::buffer::{appended, ByteBuf};
use crate::bytes::{from_le16, le16_bytes, to_le16};
use crate::pdu::access::Opcode;
use crate::pdu::ParseError;
use crate::InsufficientBuffer;

pub mod firmware;
pub mod foundation;
pub mod generic;
pub mod sensor;

verus! {

/// A company identifier assigned by the Bluetooth SIG.
#[derive(PartialEq, Eq, Structural, Clone, Copy, Debug)]
pub struct CompanyIdentifier(pub u16);

impl CompanyIdentifier {
    /// Reads a company identifier from exactly two bytes, least significant
    /// first.
    pub fn parse(data: &[u8]) -> (r: Result<Self, ParseError>)
        ensures
            r is Ok <==> data@.len() == 2,
            r matches Ok(c) ==> c.0 == data@[1] as int * 256 + data@[0] as int,
            r matches Err(e) ==> e == ParseError::InvalidLength,
    {
        if data.len() == 2 {
            Ok(CompanyIdentifier(from_le16(data[0], data[1])))
        } else {
            Err(ParseError::InvalidLength)
        }
    }
}

/// Identifies a model: by a 16-bit SIG identifier, or by a company and a
/// 16-bit vendor identifier.
#[derive(PartialEq, Eq, Structural, Clone, Copy, Debug)]
pub enum ModelIdentifier {
    SIG(u16),
    Vendor(CompanyIdentifier, u16),
}

impl ModelIdentifier {
    /// The bytes of a model identifier on the wire: each 16-bit part least
    /// significant byte first, the company before the model.
    pub open spec fn spec_bytes(self) -> Seq<u8> {
        match self {
            ModelIdentifier::SIG(id) => le16_bytes(id),
            ModelIdentifier::Vendor(company, id) => le16_bytes(company.0) + le16_bytes(id),
        }
    }

    /// The model identifier that two or four bytes denote.
    pub open spec fn spec_parse(p: Seq<u8>) -> Result<ModelIdentifier, ParseError> {
        if p.len() == 2 {
            Ok(ModelIdentifier::SIG((p[1] as int * 256 + p[0] as int) as u16))
        } else if p.len() == 4 {
            Ok(ModelIdentifier::Vendor(
                CompanyIdentifier((p[1] as int * 256 + p[0] as int) as u16),
                (p[3] as int * 256 + p[2] as int) as u16,
            ))
        } else {
            Err(ParseError::InvalidLength)
        }
    }

    /// Reads a SIG model identifier from two bytes or a vendor one from four.
    pub fn parse(parameters: &[u8]) -> (r: Result<Self, ParseError>)
        ensures
            r == Self::spec_parse(parameters@),
    {
        if parameters.len() == 2 {
            Ok(ModelIdentifier::SIG(from_le16(parameters[0], parameters[1])))
        } else if parameters.len() == 4 {
            let company = CompanyIdentifier::parse(vstd::slice::slice_subrange(parameters, 0, 2))?;
            Ok(ModelIdentifier::Vendor(company, from_le16(parameters[2], parameters[3])))
        } else {
            Err(ParseError::InvalidLength)
        }
    }

    /// The bytes of this identifier on the wire.
    pub fn encode(&self) -> (v: Vec<u8>)
        ensures
            v@ == self.spec_bytes(),
    {
        match self {
            ModelIdentifier::SIG(id) => {
                let b = to_le16(*id);
                let v = vec![b[0], b[1]];
                assert(v@ =~= self.spec_bytes());
                v
            }
            ModelIdentifier::Vendor(company, id) => {
                let c = to_le16(company.0);
                let b = to_le16(*id);
                let v = vec![c[0], c[1], b[0], b[1]];
                assert(v@ =~= self.spec_bytes());
                v
            }
        }
    }

    /// Appends the bytes of this identifier.
    pub fn emit(&self, xmit: &mut ByteBuf) -> (r: Result<(), InsufficientBuffer>)
        ensures
            final(xmit).cap() == old(xmit).cap(),
            appended(old(xmit)@, final(xmit)@, old(xmit).cap(), self.spec_bytes(), r is Ok),
    {
        xmit.extend_from_slice(self.encode().as_slice())
    }
}

/// A model identifier is read back from the bytes it is emitted as.
pub proof fn lemma_model_identifier_roundtrip(m: ModelIdentifier)
    ensures
        ModelIdentifier::spec_parse(m.spec_bytes()) == Ok::<ModelIdentifier, ParseError>(m),
{
    match m {
        ModelIdentifier::SIG(id) => {}
        ModelIdentifier::Vendor(c, id) => {
            let b = m.spec_bytes();
            assert(b[0] == le16_bytes(c.0)[0] && b[1] == le16_bytes(c.0)[1]);
            assert(b[2] == le16_bytes(id)[0] && b[3] == le16_bytes(id)[1]);
        }
    }
}

/// A message that a model sends or receives: an opcode and its parameters.
pub trait Message {
    /// The opcode of this message.
    spec fn spec_opcode(&self) -> Opcode;

    /// The parameters of this message as carried on the wire.
    spec fn spec_parameters(&self) -> Seq<u8>;

    /// Whether this message has an encoding (some kinds of message are only
    /// ever received).
    spec fn emittable(&self) -> bool;

    /// The opcode of this message.
    fn opcode(&self) -> (o: Opcode)
        ensures
            o == self.spec_opcode(),
    ;

    /// Appends the parameters of this message.
    fn emit_parameters(&self, xmit: &mut ByteBuf) -> (r: Result<(), InsufficientBuffer>)
        requires
            self.emittable(),
        ensures
            final(xmit).cap() == old(xmit).cap(),
            appended(old(xmit)@, final(xmit)@, old(xmit).cap(), self.spec_parameters(), r is Ok),
    ;
}

/// Why a model could not handle a message.
#[derive(PartialEq, Eq, Structural, Clone, Copy, Debug)]
pub enum HandlerError {
    Unhandled,
    NotConnected,
}

/// A model: its identifier and how it reads the messages addressed to it.
pub trait Model {
    /// The messages of this model.
    type Message: Message;

    /// The identifier of this model.
    spec fn spec_identifier(&self) -> ModelIdentifier;

    /// The inputs that this model's reader takes (it may take all).
    spec fn accepts(&self, opcode: Opcode, parameters: Seq<u8>) -> bool;

    /// Whether `r` is what reading `parameters` under `opcode` gives.
    spec fn parsed(&self, opcode: Opcode, parameters: Seq<u8>, r: Result<Option<Self::Message>, ParseError>) -> bool;

    /// The identifier of this model.
    fn identifier(&self) -> (m: ModelIdentifier)
        ensures
            m == self.spec_identifier(),
    ;

    /// Reads the message with `opcode`, if this model handles that opcode.
    fn parse(&self, opcode: Opcode, parameters: &[u8]) -> (r: Result<Option<Self::Message>, ParseError>)
        requires
            self.accepts(opcode, parameters@),
        ensures
            self.parsed(opcode, parameters@, r),
    ;
}

/// The status codes of foundation model messages.
#[derive(PartialEq, Eq, Structural, Clone, Copy, Debug)]
pub enum Status {
    Success,
    InvalidAddress,
    InvalidModel,
    InvalidAppKeyIndex,
    InvalidNetKeyIndex,
    InsufficientResources,
    KeyIndexAlreadyStored,
    InvalidPublishParameters,
    NotASubscribeModel,
    StorageFailure,
    FeatureNotSupported,
    CannotUpdate,
    CannotRemove,
    CannotBind,
    TemporarilyUnableToChangeState,
    CannotSet,
    UnspecifiedError,
    InvalidBinding,
}

impl Status {
    /// The code of this status on the wire.
    pub open spec fn spec_code(self) -> u8 {
        match self {
            Status::Success => 0x00,
            Status::InvalidAddress => 0x01,
            Status::InvalidModel => 0x02,
            Status::InvalidAppKeyIndex => 0x03,
            Status::InvalidNetKeyIndex => 0x04,
            Status::InsufficientResources => 0x05,
            Status::KeyIndexAlreadyStored => 0x06,
            Status::InvalidPublishParameters => 0x07,
            Status::NotASubscribeModel => 0x08,
            Status::StorageFailure => 0x09,
            Status::FeatureNotSupported => 0x0A,
            Status::CannotUpdate => 0x0B,
            Status::CannotRemove => 0x0C,
            Status::CannotBind => 0x0D,
            Status::TemporarilyUnableToChangeState => 0x0E,
            Status::CannotSet => 0x0F,
            Status::UnspecifiedError => 0x10,
            Status::InvalidBinding => 0x11,
        }
    }

    /// The code of this status on the wire.
    pub fn code(&self) -> (c: u8)
        ensures
            c == self.spec_code(),
    {
        match self {
            Status::Success => 0x00,
            Status::InvalidAddress => 0x01,
            Status::InvalidModel => 0x02,
            Status::InvalidAppKeyIndex => 0x03,
            Status::InvalidNetKeyIndex => 0x04,
            Status::InsufficientResources => 0x05,
            Status::KeyIndexAlreadyStored => 0x06,
            Status::InvalidPublishParameters => 0x07,
            Status::NotASubscribeModel => 0x08,
            Status::StorageFailure => 0x09,
            Status::FeatureNotSupported => 0x0A,
            Status::CannotUpdate => 0x0B,
            Status::CannotRemove => 0x0C,
            Status::CannotBind => 0x0D,
            Status::TemporarilyUnableToChangeState => 0x0E,
            Status::CannotSet => 0x0F,
            Status::UnspecifiedError => 0x10,
            Status::InvalidBinding => 0x11,
        }
    }
}

} // verus!
