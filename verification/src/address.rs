//! Mesh addresses: unassigned, unicast, virtual and group addresses, and
//! the label UUIDs that virtual addresses are derived from.
use vstd::prelude::*;
use crate::bytes::{be16, be16_bytes, from_be16, to_be16};
use crate::crypto::{aes_cmac, aes_cmac_of, s1, s1_of};
use crate::pdu::ParseError;

verus! {

/// Whether a 16-bit address value names one element (`0x0001..=0x7FFF`).
pub open spec fn is_unicast(v: u16) -> bool {
    v != 0 && v < 0x8000
}

/// Whether a 16-bit address value is a virtual address (`0x8000..=0xBFFF`).
pub open spec fn is_virtual(v: u16) -> bool {
    0x8000 <= v < 0xC000
}

/// Whether a 16-bit address value is a group address (`0xC000..=0xFFFF`).
pub open spec fn is_group(v: u16) -> bool {
    0xC000 <= v
}

/// The address of a single element.
#[derive(PartialEq, Eq, Structural, Clone, Copy, Debug)]
pub struct UnicastAddress(pub u16);

/// An address that many elements may subscribe to.
#[derive(PartialEq, Eq, Structural, Clone, Copy, Debug)]
pub struct GroupAddress(pub u16);

/// A 16-bit address derived from a label UUID.
#[derive(PartialEq, Eq, Structural, Clone, Copy, Debug)]
pub struct VirtualAddress(pub u16);

impl UnicastAddress {
    /// The 16-bit value of this address.
    pub open spec fn value(self) -> u16 {
        self.0
    }

    /// The unicast address with value `v`, if `v` is one.
    pub fn new(v: u16) -> (r: Option<Self>)
        ensures
            r is Some <==> is_unicast(v),
            r matches Some(a) ==> a.value() == v,
    {
        if v != 0 && v < 0x8000 {
            Some(UnicastAddress(v))
        } else {
            None
        }
    }

    /// Reads an address from its two bytes, most significant first; refuses
    /// values that are not unicast addresses.
    pub fn parse(bytes: [u8; 2]) -> (r: Result<Self, ParseError>)
        ensures
            r is Ok <==> is_unicast(be16(bytes[0], bytes[1])),
            r matches Ok(a) ==> a.value() == be16(bytes[0], bytes[1]),
            r matches Err(e) ==> e == ParseError::InvalidValue,
    {
        let v = from_be16(bytes[0], bytes[1]);
        match Self::new(v) {
            Some(a) => Ok(a),
            None => Err(ParseError::InvalidValue),
        }
    }

    /// The two bytes of this address, most significant first.
    pub fn as_bytes(&self) -> (b: [u8; 2])
        ensures
            b@ == be16_bytes(self.value()),
    {
        to_be16(self.0)
    }

    /// The 16-bit value of this address.
    pub fn get(&self) -> (v: u16)
        ensures
            v == self.value(),
    {
        self.0
    }
}

impl GroupAddress {
    /// The 16-bit value of this address.
    pub open spec fn value(self) -> u16 {
        self.0
    }

    /// The group address with value `v`, if `v` is one.
    pub fn new(v: u16) -> (r: Option<Self>)
        ensures
            r is Some <==> is_group(v),
            r matches Some(a) ==> a.value() == v,
    {
        if v >= 0xC000 {
            Some(GroupAddress(v))
        } else {
            None
        }
    }

    /// The two bytes of this address, most significant first.
    pub fn as_bytes(&self) -> (b: [u8; 2])
        ensures
            b@ == be16_bytes(self.value()),
    {
        to_be16(self.0)
    }
}

impl VirtualAddress {
    /// The 16-bit value of this address.
    pub open spec fn value(self) -> u16 {
        self.0
    }

    /// The two bytes of this address, most significant first.
    pub fn as_bytes(&self) -> (b: [u8; 2])
        ensures
            b@ == be16_bytes(self.value()),
    {
        to_be16(self.0)
    }
}

/// The bytes of the text "vtad" that salt virtual address derivation.
pub open spec fn vtad() -> Seq<u8> {
    seq![0x76u8, 0x74u8, 0x61u8, 0x64u8]
}

/// The virtual address of a label UUID: `0x8000` with the low 14 bits of
/// the AES-CMAC of the label under the salt `s1("vtad")`.
pub open spec fn virtual_address_of(label: Seq<u8>) -> u16 {
    let hash = aes_cmac_of(s1_of(vtad()), label);
    (0x8000 + be16(hash[14], hash[15]) % 0x4000) as u16
}

/// A 128-bit label UUID together with the virtual address derived from it.
#[derive(Clone, Copy, Debug)]
pub struct LabelUuid {
    pub uuid: [u8; 16],
    pub address: VirtualAddress,
}

impl LabelUuid {
    /// The 16 bytes of the label.
    pub open spec fn label(self) -> Seq<u8> {
        self.uuid@
    }

    /// Whether the stored virtual address is the one derived from the label.
    pub open spec fn wf(self) -> bool {
        self.address.value() == virtual_address_of(self.uuid@)
    }

    /// The virtual address derived from the label.
    pub open spec fn spec_virtual_address(self) -> VirtualAddress {
        self.address
    }

    /// Builds a label UUID from its 16 bytes, deriving its virtual address.
    pub fn new(uuid: [u8; 16]) -> (l: Self)
        ensures
            l.label() == uuid@,
            l.wf(),
    {
        let salt = s1(&[0x76u8, 0x74u8, 0x61u8, 0x64u8]);
        assert([0x76u8, 0x74u8, 0x61u8, 0x64u8]@ == vtad());
        let hash = aes_cmac(&salt, &uuid);
        let low = from_be16(hash[14], hash[15]) % 0x4000;
        LabelUuid { uuid, address: VirtualAddress(0x8000 + low) }
    }

    /// Reads a label UUID from exactly 16 bytes.
    pub fn parse(data: &[u8]) -> (r: Result<Self, ParseError>)
        ensures
            r is Ok <==> data@.len() == 16,
            r matches Ok(l) ==> l.label() == data@ && l.wf(),
            r matches Err(e) ==> e == ParseError::InvalidLength,
    {
        if data.len() == 16 {
            let uuid: [u8; 16] = [
                data[0], data[1], data[2], data[3], data[4], data[5], data[6], data[7], data[8],
                data[9], data[10], data[11], data[12], data[13], data[14], data[15],
            ];
            assert(uuid@ == data@);
            Ok(Self::new(uuid))
        } else {
            Err(ParseError::InvalidLength)
        }
    }

    /// The virtual address derived from the label.
    pub fn virtual_address(&self) -> (a: VirtualAddress)
        ensures
            a == self.spec_virtual_address(),
    {
        self.address
    }

    /// The 16 bytes of the label.
    pub fn uuid(&self) -> (u: [u8; 16])
        ensures
            u@ == self.label(),
    {
        self.uuid
    }
}

/// Any destination or source address of a mesh PDU.
#[derive(Clone, Copy, Debug)]
pub enum Address {
    Unassigned,
    Unicast(UnicastAddress),
    Virtual(VirtualAddress),
    Group(GroupAddress),
    LabelUuid(LabelUuid),
}

impl Address {
    /// The address that a 16-bit value denotes.
    pub open spec fn spec_from_value(v: u16) -> Address {
        if v == 0 {
            Address::Unassigned
        } else if v < 0x8000 {
            Address::Unicast(UnicastAddress(v))
        } else if v < 0xC000 {
            Address::Virtual(VirtualAddress(v))
        } else {
            Address::Group(GroupAddress(v))
        }
    }

    /// The 16-bit value carried on the wire for this address.
    pub open spec fn value(self) -> u16 {
        match self {
            Address::Unassigned => 0,
            Address::Unicast(a) => a.value(),
            Address::Virtual(a) => a.value(),
            Address::Group(a) => a.value(),
            Address::LabelUuid(l) => l.spec_virtual_address().value(),
        }
    }

    /// Reads an address from its two bytes, most significant first.
    pub fn parse(bytes: [u8; 2]) -> (a: Self)
        ensures
            a == Self::spec_from_value(be16(bytes[0], bytes[1])),
    {
        let v = from_be16(bytes[0], bytes[1]);
        if v == 0 {
            Address::Unassigned
        } else if v < 0x8000 {
            Address::Unicast(UnicastAddress(v))
        } else if v < 0xC000 {
            Address::Virtual(VirtualAddress(v))
        } else {
            Address::Group(GroupAddress(v))
        }
    }

    /// The two bytes carried on the wire for this address, most significant
    /// first.
    pub fn as_bytes(&self) -> (b: [u8; 2])
        ensures
            b@ == be16_bytes(self.value()),
    {
        match self {
            Address::Unassigned => to_be16(0),
            Address::Unicast(a) => a.as_bytes(),
            Address::Virtual(a) => a.as_bytes(),
            Address::Group(a) => a.as_bytes(),
            Address::LabelUuid(l) => l.virtual_address().as_bytes(),
        }
    }
}

impl From<UnicastAddress> for Address {
    fn from(a: UnicastAddress) -> (r: Address) {
        Address::Unicast(a)
    }
}

impl vstd::std_specs::convert::FromSpecImpl<UnicastAddress> for Address {
    open spec fn obeys_from_spec() -> bool {
        true
    }

    open spec fn from_spec(a: UnicastAddress) -> Address {
        Address::Unicast(a)
    }
}

/// An address read back from the bytes of a unicast, virtual or group
/// address is that address.
pub proof fn lemma_address_roundtrip(a: Address)
    requires
        a matches Address::Unicast(u) ==> is_unicast(u.value()),
        a matches Address::Virtual(v) ==> is_virtual(v.value()),
        a matches Address::Group(g) ==> is_group(g.value()),
        !(a is LabelUuid),
    ensures
        Address::spec_from_value(be16(be16_bytes(a.value())[0], be16_bytes(a.value())[1])) == a,
{
    crate::bytes::lemma_be16_roundtrip(a.value());
}

} // verus!
