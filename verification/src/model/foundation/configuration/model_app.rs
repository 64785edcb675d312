//! Config Model App messages: an application key is bound to, or unbound
//! from, a model of an element.
use vstd::prelude::*;
use crate::address::{is_unicast, UnicastAddress};
use crate::buffer::{appended, ByteBuf};
use crate::bytes::{be16, be16_bytes};
use crate::model::foundation::configuration::{AppKeyIndex, KeyIndex};
use crate::model::{Message, ModelIdentifier, Status};
use crate::pdu::access::{config_model_app_bind, config_model_app_status, config_model_app_unbind, Opcode};
use crate::pdu::ParseError;
use crate::InsufficientBuffer;

verus! {

/// The two bytes of a unicast address as configuration messages carry it:
/// least significant first.
pub open spec fn address_le_bytes(a: UnicastAddress) -> Seq<u8> {
    seq![be16_bytes(a.value())[1], be16_bytes(a.value())[0]]
}

/// A Config Model App message.
#[derive(PartialEq, Eq, Structural, Clone, Copy, Debug)]
pub enum ModelAppMessage {
    Bind(ModelAppPayload),
    Status(ModelAppStatusMessage),
    Unbind(ModelAppPayload),
}

/// The element, application key and model that a binding names.
#[derive(PartialEq, Eq, Structural, Clone, Copy, Debug)]
pub struct ModelAppPayload {
    pub element_address: UnicastAddress,
    pub app_key_index: AppKeyIndex,
    pub model_identifier: ModelIdentifier,
}

/// The outcome of binding or unbinding.
#[derive(PartialEq, Eq, Structural, Clone, Copy, Debug)]
pub struct ModelAppStatusMessage {
    pub status: Status,
    pub payload: ModelAppPayload,
}

impl ModelAppPayload {
    /// The payload that `p` denotes: the element address, least significant
    /// byte first; the application key index; then a SIG or vendor model
    /// identifier in the remaining two or four bytes.
    pub open spec fn spec_parse(p: Seq<u8>) -> Result<ModelAppPayload, ParseError> {
        if p.len() < 6 {
            Err(ParseError::InvalidLength)
        } else if !is_unicast(be16(p[1], p[0])) {
            Err(ParseError::InvalidValue)
        } else {
            match ModelIdentifier::spec_parse(p.skip(4)) {
                Ok(model_identifier) => Ok(ModelAppPayload {
                    element_address: UnicastAddress(be16(p[1], p[0])),
                    app_key_index: AppKeyIndex(KeyIndex(((p[3] % 16) as int * 256 + p[2] as int) as u16)),
                    model_identifier,
                }),
                Err(e) => Err(e),
            }
        }
    }

    /// The bytes of a payload.
    pub open spec fn spec_bytes(self) -> Seq<u8> {
        address_le_bytes(self.element_address) + self.app_key_index.0.spec_one_bytes()
            + self.model_identifier.spec_bytes()
    }

    /// Reads a payload.
    pub fn parse(parameters: &[u8]) -> (r: Result<Self, ParseError>)
        ensures
            r == Self::spec_parse(parameters@),
    {
        if parameters.len() >= 6 {
            let element_address = match UnicastAddress::parse([parameters[1], parameters[0]]) {
                Ok(a) => a,
                Err(_) => return Err(ParseError::InvalidValue),
            };
            let key_bytes = vstd::slice::slice_subrange(parameters, 2, 4);
            let app_key_index = AppKeyIndex(KeyIndex::parse_one(key_bytes)?);
            let rest = vstd::slice::slice_subrange(parameters, 4, parameters.len());
            assert(rest@ =~= parameters@.skip(4));
            let model_identifier = ModelIdentifier::parse(rest)?;
            Ok(Self { element_address, app_key_index, model_identifier })
        } else {
            Err(ParseError::InvalidLength)
        }
    }

    /// The bytes of this payload.
    pub fn encode(&self) -> (v: Vec<u8>)
        ensures
            v@ == self.spec_bytes(),
    {
        let addr_bytes = self.element_address.as_bytes();
        let mut v: Vec<u8> = vec![addr_bytes[1], addr_bytes[0]];
        let mut k = KeyIndex::encode_one(&self.app_key_index.0);
        v.append(&mut k);
        let mut m = self.model_identifier.encode();
        v.append(&mut m);
        assert(v@ =~= self.spec_bytes());
        v
    }
}

impl ModelAppStatusMessage {
    /// The bytes of a status: the status code, then the payload.
    pub open spec fn spec_bytes(self) -> Seq<u8> {
        seq![self.status.spec_code()] + self.payload.spec_bytes()
    }

    /// The bytes of this status.
    pub fn encode(&self) -> (v: Vec<u8>)
        ensures
            v@ == self.spec_bytes(),
    {
        let mut v: Vec<u8> = vec![self.status.code()];
        let mut p = self.payload.encode();
        v.append(&mut p);
        assert(v@ =~= self.spec_bytes());
        v
    }
}

impl ModelAppMessage {
    /// Reads a Bind.
    pub fn parse_bind(parameters: &[u8]) -> (r: Result<Self, ParseError>)
        ensures
            r == (match ModelAppPayload::spec_parse(parameters@) {
                Ok(p) => Ok(ModelAppMessage::Bind(p)),
                Err(e) => Err(e),
            }),
    {
        Ok(Self::Bind(ModelAppPayload::parse(parameters)?))
    }

    /// Reads an Unbind.
    pub fn parse_unbind(parameters: &[u8]) -> (r: Result<Self, ParseError>)
        ensures
            r == (match ModelAppPayload::spec_parse(parameters@) {
                Ok(p) => Ok(ModelAppMessage::Unbind(p)),
                Err(e) => Err(e),
            }),
    {
        Ok(Self::Unbind(ModelAppPayload::parse(parameters)?))
    }
}

impl Message for ModelAppMessage {
    open spec fn spec_opcode(&self) -> Opcode {
        match self {
            Self::Bind(_) => config_model_app_bind(),
            Self::Status(_) => config_model_app_status(),
            Self::Unbind(_) => config_model_app_unbind(),
        }
    }

    open spec fn spec_parameters(&self) -> Seq<u8> {
        match self {
            Self::Bind(inner) => inner.spec_bytes(),
            Self::Status(inner) => inner.spec_bytes(),
            Self::Unbind(inner) => inner.spec_bytes(),
        }
    }

    open spec fn emittable(&self) -> bool {
        true
    }

    fn opcode(&self) -> (o: Opcode) {
        match self {
            Self::Bind(_) => config_model_app_bind(),
            Self::Status(_) => config_model_app_status(),
            Self::Unbind(_) => config_model_app_unbind(),
        }
    }

    fn emit_parameters(&self, xmit: &mut ByteBuf) -> (r: Result<(), InsufficientBuffer>) {
        match self {
            Self::Bind(inner) => xmit.extend_from_slice(inner.encode().as_slice()),
            Self::Status(inner) => xmit.extend_from_slice(inner.encode().as_slice()),
            Self::Unbind(inner) => xmit.extend_from_slice(inner.encode().as_slice()),
        }
    }
}

/// A binding payload is read back from the bytes it is emitted as, when
/// its element address is unicast and its application key index is below
/// 256 (the emitter moves the high byte of an index where the reader does
/// not look).
pub proof fn lemma_model_app_payload_roundtrip(p: ModelAppPayload)
    requires
        is_unicast(p.element_address.value()),
        p.app_key_index.0.0 < 256,
    ensures
        ModelAppPayload::spec_parse(p.spec_bytes()) == Ok::<ModelAppPayload, ParseError>(p),
{
    let b = p.spec_bytes();
    crate::bytes::lemma_be16_roundtrip(p.element_address.value());
    crate::model::lemma_model_identifier_roundtrip(p.model_identifier);
    crate::model::foundation::configuration::lemma_key_index_one_roundtrip(
        p.app_key_index.0,
        p.model_identifier.spec_bytes(),
    );
    assert(b.skip(2) =~= p.app_key_index.0.spec_one_bytes() + p.model_identifier.spec_bytes());
    assert(b.skip(4) =~= p.model_identifier.spec_bytes());
    assert(b[2] == b.skip(2)[0] && b[3] == b.skip(2)[1]);
}


/// A model app status is the status code, then the element address least
/// significant byte first, the application key index in the low byte and
/// the high nibble of the next, then the model identifier.
pub proof fn lemma_model_app_status_layout(m: ModelAppStatusMessage)
    ensures
        ({
            let b = m.spec_bytes();
            &&& b.len() >= 5
            &&& b[0] == m.status.spec_code()
            &&& (b[1] as int) + (b[2] as int) * 0x100 == m.payload.element_address.value()
            &&& (b[3] as int) + ((b[4] / 16) as int) * 0x100 == m.payload.app_key_index.0.0 % 4096
            &&& b[4] % 16 == 0
            &&& b.skip(5) == m.payload.model_identifier.spec_bytes()
        }),
{
    crate::bytes::lemma_be16_roundtrip(m.payload.element_address.value());
    let b = m.spec_bytes();
    assert(b.skip(5) =~= m.payload.model_identifier.spec_bytes());
    let i = m.payload.app_key_index.0.0;
    assert(((((i / 256) % 16) * 16) as u8) / 16 == (i / 256) % 16);
}

} // verus!
