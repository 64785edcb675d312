//! Config Model Subscription messages: the addresses a model listens to.
use vstd::prelude::*;
use crate::address::{is_unicast, GroupAddress, LabelUuid, UnicastAddress};
use crate::buffer::{appended, ByteBuf};
use crate::bytes::{be16, be16_bytes};
use crate::model::foundation::configuration::model_app::address_le_bytes;
use crate::model::{Message, ModelIdentifier, Status};
use crate::pdu::access::{
    config_model_subscription_add, config_model_subscription_delete, config_model_subscription_delete_all,
    config_model_subscription_overwrite, config_model_subscription_status,
    config_model_subscription_virtual_address_add, config_model_subscription_virtual_address_delete,
    config_model_subscription_virtual_address_overwrite, Opcode,
};
use crate::pdu::ParseError;
use crate::InsufficientBuffer;

verus! {

/// A Config Model Subscription message.
pub enum ModelSubscriptionMessage {
    Add(ModelSubscriptionAddMessage),
    Delete(ModelSubscriptionDeleteMessage),
    DeleteAll(ModelSubscriptionDeleteAllMessage),
    Overwrite(ModelSubscriptionOverwriteMessage),
    Status(ModelSubscriptionStatusMessage),
    VirtualAddressAdd(ModelSubscriptionAddMessage),
    VirtualAddressDelete(ModelSubscriptionDeleteMessage),
    VirtualAddressOverwrite(ModelSubscriptionOverwriteMessage),
}

/// An address a model subscribes to.
#[derive(Clone, Copy, Debug)]
pub enum SubscriptionAddress {
    Unicast(UnicastAddress),
    Group(GroupAddress),
    Virtual(LabelUuid),
}

/// A subscription to add to a model.
pub struct ModelSubscriptionAddMessage {
    pub element_address: UnicastAddress,
    pub subscription_address: SubscriptionAddress,
    pub model_identifier: ModelIdentifier,
}

/// A subscription to delete.
pub struct ModelSubscriptionDeleteMessage {}

/// A request to delete all subscriptions of a model.
pub struct ModelSubscriptionDeleteAllMessage {}

/// A subscription that replaces all others of a model.
pub struct ModelSubscriptionOverwriteMessage {}

/// The outcome of a subscription request.
pub struct ModelSubscriptionStatusMessage {
    pub status: Status,
    pub element_address: UnicastAddress,
    pub subscription_address: SubscriptionAddress,
    pub model_identifier: ModelIdentifier,
}

impl ModelSubscriptionAddMessage {
    /// Whether reading an Add from `p` stays within `p`: the model
    /// identifier is read from byte 9 on once both addresses have been
    /// read, while only six bytes are asked for.
    pub open spec fn add_in_bounds(p: Seq<u8>) -> bool {
        !(6 <= p.len() < 9 && is_unicast(be16(p[1], p[0])) && is_unicast(be16(p[3], p[2])))
    }

    /// The error of reading an Add from `p`, if it has one.
    pub open spec fn add_error(p: Seq<u8>) -> Option<ParseError> {
        if p.len() < 6 {
            Some(ParseError::InvalidLength)
        } else if !is_unicast(be16(p[1], p[0])) || !is_unicast(be16(p[3], p[2])) {
            Some(ParseError::InvalidValue)
        } else {
            match ModelIdentifier::spec_parse(p.skip(9)) {
                Ok(_) => None,
                Err(e) => Some(e),
            }
        }
    }

    /// Whether `r` is what reading an Add from `p` gives: the element and
    /// subscription addresses, least significant byte first, and the model
    /// identifier from byte 9 on.
    pub open spec fn add_parsed(p: Seq<u8>, r: Result<ModelSubscriptionAddMessage, ParseError>) -> bool {
        match Self::add_error(p) {
            Some(e) => r matches Err(f) && f == e,
            None => {
                &&& r matches Ok(m)
                &&& m.element_address == UnicastAddress(be16(p[1], p[0]))
                &&& m.subscription_address matches SubscriptionAddress::Unicast(a)
                &&& a == UnicastAddress(be16(p[3], p[2]))
                &&& ModelIdentifier::spec_parse(p.skip(9)) == Ok::<ModelIdentifier, ParseError>(m.model_identifier)
            },
        }
    }

    /// The error of reading a Virtual Address Add from `p`, if it has one.
    pub open spec fn virtual_add_error(p: Seq<u8>) -> Option<ParseError> {
        if p.len() < 19 {
            Some(ParseError::InvalidLength)
        } else if !is_unicast(be16(p[1], p[0])) {
            Some(ParseError::InvalidValue)
        } else {
            match ModelIdentifier::spec_parse(p.skip(18)) {
                Ok(_) => None,
                Err(e) => Some(e),
            }
        }
    }

    /// Whether `r` is what reading a Virtual Address Add from `p` gives:
    /// the element address, the 16-byte label UUID, then the model
    /// identifier.
    pub open spec fn virtual_add_parsed(p: Seq<u8>, r: Result<ModelSubscriptionAddMessage, ParseError>) -> bool {
        match Self::virtual_add_error(p) {
            Some(e) => r matches Err(f) && f == e,
            None => {
                &&& r matches Ok(m)
                &&& m.element_address == UnicastAddress(be16(p[1], p[0]))
                &&& m.subscription_address matches SubscriptionAddress::Virtual(l)
                &&& l.label() == p.subrange(2, 18)
                &&& l.wf()
                &&& ModelIdentifier::spec_parse(p.skip(18)) == Ok::<ModelIdentifier, ParseError>(m.model_identifier)
            },
        }
    }

    /// Reads an Add.
    pub fn parse(parameters: &[u8]) -> (r: Result<Self, ParseError>)
        requires
            Self::add_in_bounds(parameters@),
        ensures
            Self::add_parsed(parameters@, r),
    {
        if parameters.len() >= 6 {
            let element_address = UnicastAddress::parse([parameters[1], parameters[0]])?;
            let subscription_address = SubscriptionAddress::Unicast(
                UnicastAddress::parse([parameters[3], parameters[2]])?,
            );
            let rest = vstd::slice::slice_subrange(parameters, 9, parameters.len());
            assert(rest@ =~= parameters@.skip(9));
            let model_identifier = ModelIdentifier::parse(rest)?;
            Ok(Self { element_address, subscription_address, model_identifier })
        } else {
            Err(ParseError::InvalidLength)
        }
    }

    /// Reads a Virtual Address Add.
    pub fn parse_virtual_address(parameters: &[u8]) -> (r: Result<Self, ParseError>)
        ensures
            Self::virtual_add_parsed(parameters@, r),
    {
        if parameters.len() >= 19 {
            let element_address = UnicastAddress::parse([parameters[1], parameters[0]])?;
            let label = vstd::slice::slice_subrange(parameters, 2, 18);
            let subscription_address = SubscriptionAddress::Virtual(LabelUuid::parse(label)?);
            let rest = vstd::slice::slice_subrange(parameters, 18, parameters.len());
            assert(rest@ =~= parameters@.skip(18));
            let model_identifier = ModelIdentifier::parse(rest)?;
            Ok(Self { element_address, subscription_address, model_identifier })
        } else {
            Err(ParseError::InvalidLength)
        }
    }

    /// The status that answers this request with `status`.
    pub fn create_status_response(&self, status: Status) -> (s: ModelSubscriptionStatusMessage)
        ensures
            s.status == status,
            s.element_address == self.element_address,
            s.subscription_address == self.subscription_address,
            s.model_identifier == self.model_identifier,
    {
        ModelSubscriptionStatusMessage {
            status,
            element_address: self.element_address,
            subscription_address: self.subscription_address,
            model_identifier: self.model_identifier,
        }
    }
}

/// The two bytes of a subscription address, least significant first.
pub open spec fn subscription_address_bytes(a: SubscriptionAddress) -> Seq<u8> {
    match a {
        SubscriptionAddress::Unicast(u) => address_le_bytes(u),
        SubscriptionAddress::Group(g) => seq![be16_bytes(g.value())[1], be16_bytes(g.value())[0]],
        SubscriptionAddress::Virtual(l) => seq![
            be16_bytes(l.spec_virtual_address().value())[1],
            be16_bytes(l.spec_virtual_address().value())[0],
        ],
    }
}

impl ModelSubscriptionStatusMessage {
    /// The bytes of a status: the status code, the element and subscription
    /// addresses least significant byte first, then the model identifier.
    pub open spec fn spec_bytes(&self) -> Seq<u8> {
        seq![self.status.spec_code()] + address_le_bytes(self.element_address) + subscription_address_bytes(
            self.subscription_address,
        ) + self.model_identifier.spec_bytes()
    }

    /// Whether this status has an encoding: a group subscription address is
    /// not written.
    pub open spec fn emittable(&self) -> bool {
        !(self.subscription_address is Group)
    }

    /// The bytes of this status.
    pub fn encode(&self) -> (v: Vec<u8>)
        requires
            self.emittable(),
        ensures
            v@ == self.spec_bytes(),
    {
        let addr_bytes = self.element_address.as_bytes();
        let mut v: Vec<u8> = vec![self.status.code(), addr_bytes[1], addr_bytes[0]];
        match self.subscription_address {
            SubscriptionAddress::Unicast(addr) => {
                let addr_bytes = addr.as_bytes();
                v.push(addr_bytes[1]);
                v.push(addr_bytes[0]);
            },
            SubscriptionAddress::Group(_) => {},
            SubscriptionAddress::Virtual(label) => {
                let addr_bytes = label.virtual_address().as_bytes();
                v.push(addr_bytes[1]);
                v.push(addr_bytes[0]);
            },
        }
        let mut m = self.model_identifier.encode();
        v.append(&mut m);
        assert(v@ =~= self.spec_bytes());
        v
    }

    /// Appends the bytes of this status.
    pub fn emit_parameters(&self, xmit: &mut ByteBuf) -> (r: Result<(), InsufficientBuffer>)
        requires
            self.emittable(),
        ensures
            final(xmit).cap() == old(xmit).cap(),
            appended(old(xmit)@, final(xmit)@, old(xmit).cap(), self.spec_bytes(), r is Ok),
    {
        xmit.extend_from_slice(self.encode().as_slice())
    }
}

impl ModelSubscriptionMessage {
    /// Reads an Add.
    pub fn parse_add(parameters: &[u8]) -> (r: Result<Self, ParseError>)
        requires
            ModelSubscriptionAddMessage::add_in_bounds(parameters@),
        ensures
            match r {
                Ok(ModelSubscriptionMessage::Add(m)) => ModelSubscriptionAddMessage::add_parsed(parameters@, Ok(m)),
                Ok(_) => false,
                Err(e) => ModelSubscriptionAddMessage::add_parsed(parameters@, Err(e)),
            },
    {
        Ok(Self::Add(ModelSubscriptionAddMessage::parse(parameters)?))
    }

    /// Reads a Virtual Address Add; what it reads is an Add of a virtual
    /// address.
    pub fn parse_virtual_address_add(parameters: &[u8]) -> (r: Result<Self, ParseError>)
        ensures
            match r {
                Ok(ModelSubscriptionMessage::Add(m)) => ModelSubscriptionAddMessage::virtual_add_parsed(
                    parameters@,
                    Ok(m),
                ),
                Ok(_) => false,
                Err(e) => ModelSubscriptionAddMessage::virtual_add_parsed(parameters@, Err(e)),
            },
    {
        Ok(Self::Add(ModelSubscriptionAddMessage::parse_virtual_address(parameters)?))
    }
}

impl Message for ModelSubscriptionMessage {
    open spec fn spec_opcode(&self) -> Opcode {
        match self {
            Self::Add(_) => config_model_subscription_add(),
            Self::Delete(_) => config_model_subscription_delete(),
            Self::DeleteAll(_) => config_model_subscription_delete_all(),
            Self::Overwrite(_) => config_model_subscription_overwrite(),
            Self::Status(_) => config_model_subscription_status(),
            Self::VirtualAddressAdd(_) => config_model_subscription_virtual_address_add(),
            Self::VirtualAddressDelete(_) => config_model_subscription_virtual_address_delete(),
            Self::VirtualAddressOverwrite(_) => config_model_subscription_virtual_address_overwrite(),
        }
    }

    open spec fn spec_parameters(&self) -> Seq<u8> {
        match self {
            Self::Status(inner) => inner.spec_bytes(),
            _ => Seq::empty(),
        }
    }

    /// Only a status, of a unicast or virtual address, is ever sent.
    open spec fn emittable(&self) -> bool {
        self matches Self::Status(inner) && inner.emittable()
    }

    fn opcode(&self) -> (o: Opcode) {
        match self {
            Self::Add(_) => config_model_subscription_add(),
            Self::Delete(_) => config_model_subscription_delete(),
            Self::DeleteAll(_) => config_model_subscription_delete_all(),
            Self::Overwrite(_) => config_model_subscription_overwrite(),
            Self::Status(_) => config_model_subscription_status(),
            Self::VirtualAddressAdd(_) => config_model_subscription_virtual_address_add(),
            Self::VirtualAddressDelete(_) => config_model_subscription_virtual_address_delete(),
            Self::VirtualAddressOverwrite(_) => config_model_subscription_virtual_address_overwrite(),
        }
    }

    fn emit_parameters(&self, xmit: &mut ByteBuf) -> (r: Result<(), InsufficientBuffer>) {
        match self {
            Self::Status(inner) => inner.emit_parameters(xmit),
            _ => Ok(()),
        }
    }
}


/// A model subscription status is the status code, the element address and
/// the subscription address (a virtual one as its 16-bit address), each
/// least significant byte first, then the model identifier.
pub proof fn lemma_subscription_status_layout(m: ModelSubscriptionStatusMessage)
    ensures
        ({
            let b = m.spec_bytes();
            let sub = match m.subscription_address {
                SubscriptionAddress::Unicast(u) => u.value(),
                SubscriptionAddress::Group(g) => g.value(),
                SubscriptionAddress::Virtual(l) => l.spec_virtual_address().value(),
            };
            &&& b.len() >= 5
            &&& b[0] == m.status.spec_code()
            &&& (b[1] as int) + (b[2] as int) * 0x100 == m.element_address.value()
            &&& (b[3] as int) + (b[4] as int) * 0x100 == sub
            &&& b.skip(5) == m.model_identifier.spec_bytes()
        }),
{
    crate::bytes::lemma_be16_roundtrip(m.element_address.value());
    match m.subscription_address {
        SubscriptionAddress::Unicast(u) => crate::bytes::lemma_be16_roundtrip(u.value()),
        SubscriptionAddress::Group(g) => crate::bytes::lemma_be16_roundtrip(g.value()),
        SubscriptionAddress::Virtual(l) => crate::bytes::lemma_be16_roundtrip(l.spec_virtual_address().value()),
    }
    let b = m.spec_bytes();
    assert(b.skip(5) =~= m.model_identifier.spec_bytes());
}

} // verus!
