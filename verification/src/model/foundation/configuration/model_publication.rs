//! Config Model Publication messages: where, and how often, a model
//! publishes.
use vstd::prelude::*;
use crate::address::{is_unicast, Address, GroupAddress, LabelUuid, UnicastAddress};
use crate::bits::lemma_three_five;
use crate::buffer::{appended, ByteBuf};
use crate::bytes::{be16, be16_bytes};
use crate::model::foundation::configuration::model_app::address_le_bytes;
use crate::model::foundation::configuration::{AppKeyIndex, KeyIndex};
use crate::model::{Message, ModelIdentifier, Status};
use crate::pdu::access::{
    config_model_publication_get, config_model_publication_status, config_model_publication_virtual_address_set,
    Opcode,
};
use crate::pdu::ParseError;
use crate::InsufficientBuffer;

verus! {

/// Opcode of the Config Model Publication Set message.
#[verifier::allow_in_spec]
pub fn config_model_publication_set() -> Opcode
    returns
        Opcode::OneOctet(0x03),
{
    Opcode::OneOctet(0x03)
}

/// A Config Model Publication message.
pub enum ModelPublicationMessage {
    Get(ModelPublicationGetMessage),
    SetRequest(ModelPublicationSetMessage),
    VirtualAddressSet(ModelPublicationSetMessage),
    Status(ModelPublicationStatusMessage),
}

/// A request for the publication settings of a model.
pub struct ModelPublicationGetMessage {
    pub element_address: UnicastAddress,
    pub model_identifier: ModelIdentifier,
}

/// Where a model publishes.
#[derive(Clone, Copy, Debug)]
pub enum PublishAddress {
    Unicast(UnicastAddress),
    Group(GroupAddress),
    Virtual(LabelUuid),
}

impl From<PublishAddress> for Address {
    fn from(a: PublishAddress) -> (r: Address) {
        match a {
            PublishAddress::Unicast(inner) => Address::Unicast(inner),
            PublishAddress::Group(inner) => Address::Group(inner),
            PublishAddress::Virtual(inner) => Address::LabelUuid(inner),
        }
    }
}

impl vstd::std_specs::convert::FromSpecImpl<PublishAddress> for Address {
    open spec fn obeys_from_spec() -> bool {
        true
    }

    open spec fn from_spec(a: PublishAddress) -> Address {
        match a {
            PublishAddress::Unicast(inner) => Address::Unicast(inner),
            PublishAddress::Group(inner) => Address::Group(inner),
            PublishAddress::Virtual(inner) => Address::LabelUuid(inner),
        }
    }
}

/// New publication settings for a model.
pub struct ModelPublicationSetMessage {
    pub element_address: UnicastAddress,
    pub publish_address: PublishAddress,
    pub app_key_index: AppKeyIndex,
    pub credential_flag: bool,
    pub publish_ttl: Option<u8>,
    pub publish_period: u8,
    pub publish_retransmit_count: u8,
    pub publish_retransmit_interval_steps: u8,
    pub model_identifier: ModelIdentifier,
}

/// The publication settings of a model, with the outcome of a request.
pub struct ModelPublicationStatusMessage {
    pub status: Status,
    pub element_address: UnicastAddress,
    pub publish_address: PublishAddress,
    pub app_key_index: AppKeyIndex,
    pub credential_flag: bool,
    pub publish_ttl: Option<u8>,
    pub publish_period: u8,
    pub publish_retransmit_count: u8,
    pub publish_retransmit_interval_steps: u8,
    pub model_identifier: ModelIdentifier,
}

/// Whether `m` holds the settings that `p` carries from byte `k` on: the
/// application key index in bytes `k` and `k + 1`, the credential flag in
/// bit 3 of byte `k + 1`, the TTL (`0xFF` for none), the period, the
/// retransmit count in the top three and the interval steps in the low five
/// bits of byte `k + 4`, then the model identifier.
pub open spec fn settings_match(m: ModelPublicationSetMessage, p: Seq<u8>, k: int) -> bool {
    &&& m.element_address == UnicastAddress(be16(p[1], p[0]))
    &&& m.app_key_index == AppKeyIndex(KeyIndex(((p[k + 1] % 16) as int * 256 + p[k] as int) as u16))
    &&& m.credential_flag == ((p[k + 1] / 8) % 2 == 1)
    &&& m.publish_ttl == (if p[k + 2] == 0xFF { None } else { Some(p[k + 2]) })
    &&& m.publish_period == p[k + 3]
    &&& m.publish_retransmit_count == p[k + 4] / 32
    &&& m.publish_retransmit_interval_steps == p[k + 4] % 32
    &&& ModelIdentifier::spec_parse(p.skip(k + 5)) == Ok::<ModelIdentifier, ParseError>(m.model_identifier)
}

/// The byte that carries a publish TTL.
pub open spec fn ttl_byte(ttl: Option<u8>) -> u8 {
    match ttl {
        Some(t) => t,
        None => 0xFF,
    }
}

/// The two bytes of a publish address, least significant first.
pub open spec fn publish_address_bytes(a: PublishAddress) -> Seq<u8> {
    match a {
        PublishAddress::Unicast(u) => address_le_bytes(u),
        PublishAddress::Group(g) => seq![be16_bytes(g.value())[1], be16_bytes(g.value())[0]],
        PublishAddress::Virtual(l) => seq![
            be16_bytes(l.spec_virtual_address().value())[1],
            be16_bytes(l.spec_virtual_address().value())[0],
        ],
    }
}

impl ModelPublicationSetMessage {
    /// The error of reading a Set from `p`, if it has one.
    pub open spec fn set_error(p: Seq<u8>) -> Option<ParseError> {
        if p.len() < 11 {
            Some(ParseError::InvalidLength)
        } else if !is_unicast(be16(p[1], p[0])) || !is_unicast(be16(p[3], p[2])) {
            Some(ParseError::InvalidValue)
        } else {
            match ModelIdentifier::spec_parse(p.skip(9)) {
                Ok(_) => None,
                Err(e) => Some(e),
            }
        }
    }

    /// The error of reading a Virtual Address Set from `p`, if it has one.
    pub open spec fn virtual_set_error(p: Seq<u8>) -> Option<ParseError> {
        if p.len() < 25 {
            Some(ParseError::InvalidLength)
        } else if !is_unicast(be16(p[1], p[0])) {
            Some(ParseError::InvalidValue)
        } else {
            match ModelIdentifier::spec_parse(p.skip(23)) {
                Ok(_) => None,
                Err(e) => Some(e),
            }
        }
    }

    /// Whether `r` is what reading a Set from `p` gives: the element and
    /// publish addresses, least significant byte first, then the settings.
    pub open spec fn set_parsed(p: Seq<u8>, r: Result<ModelPublicationSetMessage, ParseError>) -> bool {
        match Self::set_error(p) {
            Some(e) => r matches Err(f) && f == e,
            None => {
                &&& r matches Ok(m)
                &&& settings_match(m, p, 4)
                &&& m.publish_address matches PublishAddress::Unicast(a)
                &&& a == UnicastAddress(be16(p[3], p[2]))
            },
        }
    }

    /// Whether `r` is what reading a Virtual Address Set from `p` gives: the
    /// element address, the 16-byte label UUID, then the settings.
    pub open spec fn virtual_set_parsed(p: Seq<u8>, r: Result<ModelPublicationSetMessage, ParseError>) -> bool {
        match Self::virtual_set_error(p) {
            Some(e) => r matches Err(f) && f == e,
            None => {
                &&& r matches Ok(m)
                &&& settings_match(m, p, 18)
                &&& m.publish_address matches PublishAddress::Virtual(l)
                &&& l.label() == p.subrange(2, 18)
                &&& l.wf()
            },
        }
    }

    /// Reads the settings from byte `k` on; the element address is already
    /// known to be unicast.
    fn parse_settings(
        parameters: &[u8],
        k: usize,
        element_address: UnicastAddress,
        publish_address: PublishAddress,
    ) -> (r: Result<Self, ParseError>)
        requires
            k + 7 <= parameters.len(),
            element_address == UnicastAddress(be16(parameters@[1], parameters@[0])),
        ensures
            r matches Ok(m) ==> settings_match(m, parameters@, k as int) && m.publish_address == publish_address,
            r matches Err(e) ==> ModelIdentifier::spec_parse(parameters@.skip(k + 5)) == Err::<ModelIdentifier, ParseError>(e),
            r is Ok <==> ModelIdentifier::spec_parse(parameters@.skip(k + 5)) is Ok,
    {
        let key_bytes = vstd::slice::slice_subrange(parameters, k, k + 2);
        let app_key_index = AppKeyIndex(KeyIndex::parse_one(key_bytes)?);
        let flags = parameters[k + 1];
        let credential_flag = (flags & 0b0001000) != 0;
        let ttl = parameters[k + 2];
        let publish_ttl = if ttl == 0xFF {
            None
        } else {
            Some(ttl)
        };
        let publish_period = parameters[k + 3];
        let retransmit = parameters[k + 4];
        let publish_retransmit_count = (retransmit & 0b11100000) >> 5;
        let publish_retransmit_interval_steps = retransmit & 0b00011111;
        proof {
            lemma_three_five(flags, 0);
            lemma_three_five(retransmit, 0);
        }
        let rest = vstd::slice::slice_subrange(parameters, k + 5, parameters.len());
        assert(rest@ =~= parameters@.skip(k + 5));
        let model_identifier = ModelIdentifier::parse(rest)?;
        Ok(Self {
            element_address,
            publish_address,
            app_key_index,
            credential_flag,
            publish_ttl,
            publish_period,
            publish_retransmit_count,
            publish_retransmit_interval_steps,
            model_identifier,
        })
    }

    /// Reads a Set.
    pub fn parse(parameters: &[u8]) -> (r: Result<Self, ParseError>)
        ensures
            Self::set_parsed(parameters@, r),
    {
        if parameters.len() >= 11 {
            let element_address = UnicastAddress::parse([parameters[1], parameters[0]])?;
            let publish_address = PublishAddress::Unicast(UnicastAddress::parse([parameters[3], parameters[2]])?);
            Self::parse_settings(parameters, 4, element_address, publish_address)
        } else {
            Err(ParseError::InvalidLength)
        }
    }

    /// Reads a Virtual Address Set.
    pub fn parse_virtual_address(parameters: &[u8]) -> (r: Result<Self, ParseError>)
        ensures
            Self::virtual_set_parsed(parameters@, r),
    {
        if parameters.len() >= 25 {
            let element_address = UnicastAddress::parse([parameters[1], parameters[0]])?;
            let label = vstd::slice::slice_subrange(parameters, 2, 18);
            let publish_address = PublishAddress::Virtual(LabelUuid::parse(label)?);
            Self::parse_settings(parameters, 18, element_address, publish_address)
        } else {
            Err(ParseError::InvalidLength)
        }
    }

    /// The status that answers this request with `status`: the settings as
    /// they were asked for.
    pub fn create_status_response(&self, status: Status) -> (s: ModelPublicationStatusMessage)
        ensures
            s.status == status,
            s.element_address == self.element_address,
            s.publish_address == self.publish_address,
            s.app_key_index == self.app_key_index,
            s.credential_flag == self.credential_flag,
            s.publish_ttl == self.publish_ttl,
            s.publish_period == self.publish_period,
            s.publish_retransmit_count == self.publish_retransmit_count,
            s.publish_retransmit_interval_steps == self.publish_retransmit_interval_steps,
            s.model_identifier == self.model_identifier,
    {
        ModelPublicationStatusMessage {
            status,
            element_address: self.element_address,
            publish_address: self.publish_address,
            app_key_index: self.app_key_index,
            credential_flag: self.credential_flag,
            publish_ttl: self.publish_ttl,
            publish_period: self.publish_period,
            publish_retransmit_count: self.publish_retransmit_count,
            publish_retransmit_interval_steps: self.publish_retransmit_interval_steps,
            model_identifier: self.model_identifier,
        }
    }
}

impl ModelPublicationStatusMessage {
    /// The bytes of a status: the status code, the element and publish
    /// addresses least significant byte first, the application key index
    /// with the credential flag in bit 3 of its second byte, the TTL
    /// (`0xFF` for none), the period, the retransmit count and interval
    /// steps packed in one byte, then the model identifier.
    pub open spec fn spec_bytes(&self) -> Seq<u8> {
        let idx = self.app_key_index.0.0;
        seq![self.status.spec_code()] + address_le_bytes(self.element_address) + publish_address_bytes(
            self.publish_address,
        ) + seq![
            (idx % 256) as u8,
            (((idx / 256) % 16) * 16 + (if self.credential_flag { 8int } else { 0int })) as u8,
            ttl_byte(self.publish_ttl),
            self.publish_period,
            ((self.publish_retransmit_count % 8) * 32 + self.publish_retransmit_interval_steps % 32) as u8,
        ] + self.model_identifier.spec_bytes()
    }

    /// Whether this status has an encoding: a group publish address is not
    /// written.
    pub open spec fn emittable(&self) -> bool {
        !(self.publish_address is Group)
    }

    /// The bytes of this status.
    pub fn encode(&self) -> (v: Vec<u8>)
        requires
            self.emittable(),
        ensures
            v@ == self.spec_bytes(),
    {
        let addr_bytes = self.element_address.as_bytes();
        let mut v: Vec<u8> = vec![self.status.code(), addr_bytes[1], addr_bytes[0]];
        match self.publish_address {
            PublishAddress::Unicast(addr) => {
                let addr_bytes = addr.as_bytes();
                v.push(addr_bytes[1]);
                v.push(addr_bytes[0]);
            },
            PublishAddress::Group(_) => {},
            PublishAddress::Virtual(label) => {
                let addr_bytes = label.virtual_address().as_bytes();
                v.push(addr_bytes[1]);
                v.push(addr_bytes[0]);
            },
        }
        let key = KeyIndex::encode_one(&self.app_key_index.0);
        let second = if self.credential_flag {
            key[1] | 0b00001000
        } else {
            key[1]
        };
        proof {
            lemma_three_five(key[1], 0);
        }
        v.push(key[0]);
        v.push(second);
        match self.publish_ttl {
            Some(ttl) => v.push(ttl),
            None => v.push(0xFF),
        }
        v.push(self.publish_period);
        let retransmit = (self.publish_retransmit_count << 5) | (self.publish_retransmit_interval_steps & 0b00011111);
        proof {
            lemma_three_five(self.publish_retransmit_interval_steps, 0);
            lemma_three_five(self.publish_retransmit_count, self.publish_retransmit_interval_steps % 32);
        }
        v.push(retransmit);
        let mut m = self.model_identifier.encode();
        v.append(&mut m);
        assert(v@ =~= self.spec_bytes());
        v
    }

    /// Appends the bytes of this status.
    pub fn emit_parameters(&self, xmit: &mut ByteBuf) -> (r: Result<(), InsufficientBuffer>)
        requires
            self.emittable(),
        ensures
            final(xmit).cap() == old(xmit).cap(),
            appended(old(xmit)@, final(xmit)@, old(xmit).cap(), self.spec_bytes(), r is Ok),
    {
        xmit.extend_from_slice(self.encode().as_slice())
    }
}

impl ModelPublicationMessage {
    /// Reads a Set.
    pub fn parse_set(parameters: &[u8]) -> (r: Result<Self, ParseError>)
        ensures
            match r {
                Ok(ModelPublicationMessage::SetRequest(m)) => ModelPublicationSetMessage::set_parsed(parameters@, Ok(m)),
                Ok(_) => false,
                Err(e) => ModelPublicationSetMessage::set_parsed(parameters@, Err(e)),
            },
    {
        Ok(Self::SetRequest(ModelPublicationSetMessage::parse(parameters)?))
    }

    /// Reads a Virtual Address Set; what it reads is a Set to a virtual
    /// address.
    pub fn parse_virtual_address_set(parameters: &[u8]) -> (r: Result<Self, ParseError>)
        ensures
            match r {
                Ok(ModelPublicationMessage::SetRequest(m)) => ModelPublicationSetMessage::virtual_set_parsed(
                    parameters@,
                    Ok(m),
                ),
                Ok(_) => false,
                Err(e) => ModelPublicationSetMessage::virtual_set_parsed(parameters@, Err(e)),
            },
    {
        Ok(Self::SetRequest(ModelPublicationSetMessage::parse_virtual_address(parameters)?))
    }
}

impl Message for ModelPublicationMessage {
    open spec fn spec_opcode(&self) -> Opcode {
        match self {
            Self::Get(_) => config_model_publication_get(),
            Self::SetRequest(_) => config_model_publication_set(),
            Self::VirtualAddressSet(_) => config_model_publication_virtual_address_set(),
            Self::Status(_) => config_model_publication_status(),
        }
    }

    open spec fn spec_parameters(&self) -> Seq<u8> {
        match self {
            Self::Status(inner) => inner.spec_bytes(),
            _ => Seq::empty(),
        }
    }

    /// Only a status, to a unicast or virtual address, is ever sent.
    open spec fn emittable(&self) -> bool {
        self matches Self::Status(inner) && inner.emittable()
    }

    fn opcode(&self) -> (o: Opcode) {
        match self {
            Self::Get(_) => config_model_publication_get(),
            Self::SetRequest(_) => config_model_publication_set(),
            Self::VirtualAddressSet(_) => config_model_publication_virtual_address_set(),
            Self::Status(_) => config_model_publication_status(),
        }
    }

    fn emit_parameters(&self, xmit: &mut ByteBuf) -> (r: Result<(), InsufficientBuffer>) {
        match self {
            Self::Status(inner) => inner.emit_parameters(xmit),
            _ => Ok(()),
        }
    }
}


/// A model publication status is the status code; the element and publish
/// addresses (a virtual one as its 16-bit address), each least significant
/// byte first; the application key index in the low byte and the high
/// nibble of the next, whose bit 3 is the credential flag; the TTL (0xFF for
/// none); the period; the retransmit count in the top three bits and the
/// interval steps in the low five of one byte; then the model identifier.
pub proof fn lemma_publication_status_layout(m: ModelPublicationStatusMessage)
    ensures
        ({
            let b = m.spec_bytes();
            let publish = match m.publish_address {
                PublishAddress::Unicast(u) => u.value(),
                PublishAddress::Group(g) => g.value(),
                PublishAddress::Virtual(l) => l.spec_virtual_address().value(),
            };
            &&& b.len() >= 10
            &&& b[0] == m.status.spec_code()
            &&& (b[1] as int) + (b[2] as int) * 0x100 == m.element_address.value()
            &&& (b[3] as int) + (b[4] as int) * 0x100 == publish
            &&& (b[5] as int) + ((b[6] / 16) as int) * 0x100 == m.app_key_index.0.0 % 4096
            &&& ((b[6] / 8) % 2 == 1) == m.credential_flag
            &&& b[6] % 8 == 0
            &&& b[7] == (match m.publish_ttl { Some(t) => t, None => 0xFFu8 })
            &&& b[8] == m.publish_period
            &&& b[9] / 32 == m.publish_retransmit_count % 8
            &&& b[9] % 32 == m.publish_retransmit_interval_steps % 32
            &&& b.skip(10) == m.model_identifier.spec_bytes()
        }),
{
    crate::bytes::lemma_be16_roundtrip(m.element_address.value());
    match m.publish_address {
        PublishAddress::Unicast(u) => crate::bytes::lemma_be16_roundtrip(u.value()),
        PublishAddress::Group(g) => crate::bytes::lemma_be16_roundtrip(g.value()),
        PublishAddress::Virtual(l) => crate::bytes::lemma_be16_roundtrip(l.spec_virtual_address().value()),
    }
    let b = m.spec_bytes();
    assert(b.skip(10) =~= m.model_identifier.spec_bytes());
    let idx = m.app_key_index.0.0;
    let hi: int = ((idx / 256) % 16) as int;
    let f: int = if m.credential_flag { 8 } else { 0 };
    assert(0 <= hi * 16 + f < 256);
    assert((hi * 16 + f) / 16 == hi && ((hi * 16 + f) / 8) % 2 == f / 8 && (hi * 16 + f) % 8 == 0);
    let c: int = (m.publish_retransmit_count % 8) as int;
    let st: int = (m.publish_retransmit_interval_steps % 32) as int;
    assert(0 <= c * 32 + st < 256);
    assert((c * 32 + st) / 32 == c && (c * 32 + st) % 32 == st);
}

} // verus!
