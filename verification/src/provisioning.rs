//! Provisioning PDUs: the messages a provisioner and an unprovisioned
//! device exchange to bring the device into a network.
use vstd::prelude::*;
use crate::address::UnicastAddress;
use crate::buffer::{appended, ByteBuf};
use crate::bytes::{
    be16, be16_bytes, be32, from_be16, from_be32, take_array16, take_array25, take_array32,
    take_array8, to_be16,
};
use crate::model::foundation::configuration::{KeyIndex, NetKeyIndex};
use crate::pdu::ParseError;
use crate::InsufficientBuffer;

verus! {

/// The type octet of a provisioning invite PDU.
pub const INVITE: u8 = 0x00;
/// The type octet of a provisioning capabilities PDU.
pub const CAPABILITIES: u8 = 0x01;
/// The type octet of a provisioning start PDU.
pub const START: u8 = 0x02;
/// The type octet of a provisioning public key PDU.
pub const PUBLIC_KEY: u8 = 0x03;
/// The type octet of a provisioning input complete PDU.
pub const INPUT_COMPLETE: u8 = 0x04;
/// The type octet of a provisioning confirmation PDU.
pub const CONFIRMATION: u8 = 0x05;
/// The type octet of a provisioning random PDU.
pub const RANDOM: u8 = 0x06;
/// The type octet of a provisioning data PDU.
pub const DATA: u8 = 0x07;
/// The type octet of a provisioning complete PDU.
pub const COMPLETE: u8 = 0x08;
/// The type octet of a provisioning failed PDU.
pub const FAILED: u8 = 0x09;

/// A provisioning PDU.
pub enum ProvisioningPDU {
    Invite(Invite),
    Capabilities(Capabilities),
    Start(Start),
    PublicKey(PublicKey),
    InputComplete,
    Confirmation(Confirmation),
    Random(Random),
    Data(Data),
    Complete,
    Failed(Failed),
}

/// What a provisioning PDU holds, with byte arrays and lists as sequences.
pub enum ProvisioningPDUView {
    Invite(Invite),
    Capabilities(CapabilitiesView),
    Start(Start),
    PublicKey(Seq<u8>, Seq<u8>),
    InputComplete,
    Confirmation(Seq<u8>),
    Random(Seq<u8>),
    Data(Seq<u8>, Seq<u8>),
    Complete,
    Failed(ErrorCode),
}

/// A provisioning invitation.
#[derive(PartialEq, Eq, Structural, Clone, Copy, Debug)]
pub struct Invite {
    pub attention_duration: u8,
}

impl Invite {
    /// The invite that exactly two bytes, the first its type, denote.
    pub open spec fn spec_parse(data: Seq<u8>) -> Result<Invite, ParseError> {
        if data.len() == 2 && data[0] == INVITE {
            Ok(Invite { attention_duration: data[1] })
        } else {
            Err(ParseError::InvalidPDUFormat)
        }
    }

    /// The bytes of this invite.
    pub open spec fn spec_bytes(self) -> Seq<u8> {
        seq![INVITE, self.attention_duration]
    }

    /// Reads an invite.
    pub fn parse(data: &[u8]) -> (r: Result<Self, ParseError>)
        ensures
            r == Self::spec_parse(data@),
    {
        if data.len() == 2 && data[0] == INVITE {
            Ok(Self { attention_duration: data[1] })
        } else {
            Err(ParseError::InvalidPDUFormat)
        }
    }

    /// Appends the bytes of this invite.
    pub fn emit(&self, xmit: &mut ByteBuf) -> (r: Result<(), InsufficientBuffer>)
        ensures
            final(xmit).cap() == old(xmit).cap(),
            appended(old(xmit)@, final(xmit)@, old(xmit).cap(), self.spec_bytes(), r is Ok),
    {
        let v = [INVITE, self.attention_duration];
        assert(v@ =~= self.spec_bytes());
        xmit.extend_from_slice(&v)
    }
}

/// The fields of the capabilities a device announces, lists as sequences.
pub struct CapabilitiesView {
    pub number_of_elements: u8,
    pub algorithms: Seq<Algorithm>,
    pub public_key_type: PublicKeyType,
    pub static_oob_type: StaticOOBType,
    pub output_oob_size: OOBSize,
    pub output_oob_action: Seq<OutputOOBAction>,
    pub input_oob_size: OOBSize,
    pub input_oob_action: Seq<InputOOBAction>,
}

/// The capabilities a device announces to its provisioner.
pub struct Capabilities {
    pub number_of_elements: u8,
    pub algorithms: Algorithms,
    pub public_key_type: PublicKeyType,
    pub static_oob_type: StaticOOBType,
    pub output_oob_size: OOBSize,
    pub output_oob_action: OutputOOBActions,
    pub input_oob_size: OOBSize,
    pub input_oob_action: InputOOBActions,
}

impl View for Capabilities {
    type V = CapabilitiesView;

    open spec fn view(&self) -> CapabilitiesView {
        CapabilitiesView {
            number_of_elements: self.number_of_elements,
            algorithms: self.algorithms@,
            public_key_type: self.public_key_type,
            static_oob_type: self.static_oob_type,
            output_oob_size: self.output_oob_size,
            output_oob_action: self.output_oob_action@,
            input_oob_size: self.input_oob_size,
            input_oob_action: self.input_oob_action@,
        }
    }
}

impl CapabilitiesView {
    /// The twelve bytes of a capabilities PDU.
    pub open spec fn spec_bytes(self) -> Seq<u8> {
        seq![CAPABILITIES, self.number_of_elements]
            + be16_bytes(Algorithms::spec_bits(self.algorithms))
            + self.public_key_type.spec_bytes()
            + self.static_oob_type.spec_bytes()
            + self.output_oob_size.spec_bytes()
            + be16_bytes(OutputOOBActions::spec_bits(self.output_oob_action))
            + self.input_oob_size.spec_bytes()
            + be16_bytes(InputOOBActions::spec_bits(self.input_oob_action))
    }
}

impl Capabilities {
    /// Whether the fields after the type octet of a twelve-byte capabilities
    /// PDU are all valid.
    pub open spec fn spec_fields_ok(data: Seq<u8>) -> bool {
        &&& Algorithms::spec_parse(be16(data[2], data[3])) is Ok
        &&& PublicKeyType::spec_parse(data[4]) is Ok
        &&& StaticOOBType::spec_parse(data[5]) is Ok
        &&& OOBSize::spec_parse(data[6]) is Ok
        &&& OutputOOBActions::spec_parse(be16(data[7], data[8])) is Ok
        &&& OOBSize::spec_parse(data[9]) is Ok
        &&& InputOOBActions::spec_parse(be16(data[10], data[11])) is Ok
    }

    /// The capabilities that twelve bytes denote.
    pub open spec fn spec_parse(data: Seq<u8>) -> Result<CapabilitiesView, ParseError> {
        if data.len() == 12 && data[0] == CAPABILITIES {
            if Self::spec_fields_ok(data) {
                Ok(CapabilitiesView {
                    number_of_elements: data[1],
                    algorithms: Algorithms::spec_parse(be16(data[2], data[3])).unwrap(),
                    public_key_type: PublicKeyType::spec_parse(data[4]).unwrap(),
                    static_oob_type: StaticOOBType::spec_parse(data[5]).unwrap(),
                    output_oob_size: OOBSize::spec_parse(data[6]).unwrap(),
                    output_oob_action: OutputOOBActions::spec_parse(be16(data[7], data[8])).unwrap(),
                    input_oob_size: OOBSize::spec_parse(data[9]).unwrap(),
                    input_oob_action: InputOOBActions::spec_parse(be16(data[10], data[11])).unwrap(),
                })
            } else {
                Err(ParseError::InvalidValue)
            }
        } else {
            Err(ParseError::InvalidPDUFormat)
        }
    }

    fn parse(data: &[u8]) -> (r: Result<Self, ParseError>)
        ensures
            r is Ok <==> Self::spec_parse(data@) is Ok,
            r matches Ok(c) ==> Self::spec_parse(data@) == Ok::<CapabilitiesView, ParseError>(c@),
            r matches Err(e) ==> Self::spec_parse(data@) == Err::<CapabilitiesView, ParseError>(e),
    {
        if data.len() == 12 && data[0] == CAPABILITIES {
            let number_of_elements = data[1];
            let algorithms = Algorithms::parse(from_be16(data[2], data[3]))?;
            let public_key_type = PublicKeyType::parse(data[4])?;
            let static_oob_type = StaticOOBType::parse(data[5])?;
            let output_oob_size = OOBSize::parse(data[6])?;
            let output_oob_action = OutputOOBActions::parse(from_be16(data[7], data[8]))?;
            let input_oob_size = OOBSize::parse(data[9])?;
            let input_oob_action = InputOOBActions::parse(from_be16(data[10], data[11]))?;
            Ok(Self {
                number_of_elements,
                algorithms,
                public_key_type,
                static_oob_type,
                output_oob_size,
                output_oob_action,
                input_oob_size,
                input_oob_action,
            })
        } else {
            Err(ParseError::InvalidPDUFormat)
        }
    }

    /// The bytes of these capabilities.
    pub fn encode(&self) -> (v: Vec<u8>)
        ensures
            v@ == self@.spec_bytes(),
    {
        let mut v = vec![CAPABILITIES, self.number_of_elements];
        let mut a = self.algorithms.encode();
        v.append(&mut a);
        let mut a = self.public_key_type.encode();
        v.append(&mut a);
        let mut a = self.static_oob_type.encode();
        v.append(&mut a);
        let mut a = self.output_oob_size.encode();
        v.append(&mut a);
        let mut a = self.output_oob_action.encode();
        v.append(&mut a);
        let mut a = self.input_oob_size.encode();
        v.append(&mut a);
        let mut a = self.input_oob_action.encode();
        v.append(&mut a);
        v
    }

    /// Appends the bytes of these capabilities.
    pub fn emit(&self, xmit: &mut ByteBuf) -> (r: Result<(), InsufficientBuffer>)
        ensures
            final(xmit).cap() == old(xmit).cap(),
            appended(old(xmit)@, final(xmit)@, old(xmit).cap(), self@.spec_bytes(), r is Ok),
    {
        xmit.extend_from_slice(self.encode().as_slice())
    }

    /// A copy of these capabilities.
    pub fn duplicate(&self) -> (c: Self)
        ensures
            c@ == self@,
    {
        Capabilities {
            number_of_elements: self.number_of_elements,
            algorithms: self.algorithms.duplicate(),
            public_key_type: self.public_key_type,
            static_oob_type: self.static_oob_type,
            output_oob_size: self.output_oob_size,
            output_oob_action: self.output_oob_action.duplicate(),
            input_oob_size: self.input_oob_size,
            input_oob_action: self.input_oob_action.duplicate(),
        }
    }
}

/// The provisioner's choice of algorithm, key and authentication.
#[derive(PartialEq, Eq, Structural, Clone, Copy, Debug)]
pub struct Start {
    pub algorithm: Algorithm,
    pub public_key: PublicKeySelected,
    pub authentication_method: AuthenticationMethod,
    pub authentication_action: OOBAction,
    pub authentication_size: OOBSize,
}

impl Start {
    /// The authentication size an octet denotes under `method`: none for the
    /// methods without out-of-band actions (where it must be zero), a size
    /// from one to eight otherwise.
    pub open spec fn spec_parse_authentication_size(method: AuthenticationMethod, octet: u8) -> Result<OOBSize, ParseError> {
        match method {
            AuthenticationMethod::NoOOBAuthentication | AuthenticationMethod::StaticOOBAuthentication => {
                if octet != 0 { Err(ParseError::InvalidValue) } else { Ok(OOBSize::NotSupported) }
            }
            AuthenticationMethod::OutputOOBAuthentication | AuthenticationMethod::InputOOBAuthentication => {
                if octet == 0 { Err(ParseError::InvalidPDUFormat) } else { OOBSize::spec_parse(octet) }
            }
        }
    }

    /// The start PDU that exactly six bytes denote.
    pub open spec fn spec_parse(data: Seq<u8>) -> Result<Start, ParseError> {
        if data.len() == 6 && data[0] == START {
            match Algorithm::spec_parse(data[1]) {
                Err(e) => Err(e),
                Ok(algorithm) => match PublicKeySelected::spec_parse(data[2]) {
                    Err(e) => Err(e),
                    Ok(public_key) => match AuthenticationMethod::spec_parse(data[3]) {
                        Err(e) => Err(e),
                        Ok(method) => match OOBAction::spec_parse(method, data[4]) {
                            Err(e) => Err(e),
                            Ok(action) => match Self::spec_parse_authentication_size(method, data[5]) {
                                Err(e) => Err(e),
                                Ok(size) => Ok(Start {
                                    algorithm,
                                    public_key,
                                    authentication_method: method,
                                    authentication_action: action,
                                    authentication_size: size,
                                }),
                            },
                        },
                    },
                },
            }
        } else {
            Err(ParseError::InvalidPDUFormat)
        }
    }

    /// The bytes of a start PDU.
    pub open spec fn spec_bytes(self) -> Seq<u8> {
        seq![START]
            + self.algorithm.spec_bytes()
            + self.public_key.spec_bytes()
            + self.authentication_method.spec_bytes()
            + self.authentication_action.spec_bytes()
            + self.authentication_size.spec_bytes()
    }

    fn parse(data: &[u8]) -> (r: Result<Self, ParseError>)
        ensures
            r == Self::spec_parse(data@),
    {
        if data.len() == 6 && data[0] == START {
            let algorithm = Algorithm::parse(data[1])?;
            let public_key = PublicKeySelected::parse(data[2])?;
            let authentication_method = AuthenticationMethod::parse(data[3])?;
            let authentication_action = OOBAction::parse(&authentication_method, data[4])?;
            let authentication_size = Self::parse_authentication_size(&authentication_method, data[5])?;
            Ok(Self {
                algorithm,
                public_key,
                authentication_method,
                authentication_action,
                authentication_size,
            })
        } else {
            Err(ParseError::InvalidPDUFormat)
        }
    }

    fn parse_authentication_size(method: &AuthenticationMethod, octet: u8) -> (r: Result<OOBSize, ParseError>)
        ensures
            r == Self::spec_parse_authentication_size(*method, octet),
    {
        match method {
            AuthenticationMethod::NoOOBAuthentication | AuthenticationMethod::StaticOOBAuthentication => {
                if octet != 0 {
                    Err(ParseError::InvalidValue)
                } else {
                    Ok(OOBSize::NotSupported)
                }
            }
            AuthenticationMethod::OutputOOBAuthentication | AuthenticationMethod::InputOOBAuthentication => {
                if octet == 0 {
                    Err(ParseError::InvalidPDUFormat)
                } else {
                    OOBSize::parse(octet)
                }
            }
        }
    }

    /// The bytes of this start PDU.
    pub fn encode(&self) -> (v: Vec<u8>)
        ensures
            v@ == self.spec_bytes(),
    {
        let mut v = vec![START];
        let mut a = self.algorithm.encode();
        v.append(&mut a);
        let mut a = self.public_key.encode();
        v.append(&mut a);
        let mut a = self.authentication_method.encode();
        v.append(&mut a);
        let mut a = self.authentication_action.encode();
        v.append(&mut a);
        let mut a = self.authentication_size.encode();
        v.append(&mut a);
        v
    }

    /// Appends the bytes of this start PDU.
    pub fn emit(&self, xmit: &mut ByteBuf) -> (r: Result<(), InsufficientBuffer>)
        ensures
            final(xmit).cap() == old(xmit).cap(),
            appended(old(xmit)@, final(xmit)@, old(xmit).cap(), self.spec_bytes(), r is Ok),
    {
        xmit.extend_from_slice(self.encode().as_slice())
    }
}

/// The two 32-byte coordinates of a P-256 public key.
#[derive(Clone, Copy, Debug)]
pub struct PublicKey {
    pub x: [u8; 32],
    pub y: [u8; 32],
}

impl PublicKey {
    /// Whether reading `data` as a public key PDU stays within its bytes:
    /// the type octet is present, and a PDU of that type holds 65 bytes or
    /// more.
    pub open spec fn parse_defined(data: Seq<u8>) -> bool {
        data.len() >= 1 && !(data[0] == PUBLIC_KEY && data.len() < 65)
    }

    /// Whether `data` is refused rather than read: it is neither 65 bytes
    /// long nor of the public key type.
    pub open spec fn spec_refused(data: Seq<u8>) -> bool {
        data.len() != 65 && data[0] != PUBLIC_KEY
    }

    /// The bytes of a public key PDU.
    pub open spec fn spec_bytes(self) -> Seq<u8> {
        seq![PUBLIC_KEY] + self.x@ + self.y@
    }

    /// Reads a public key: the 32 bytes after the type octet are the x
    /// coordinate, the 32 after those the y coordinate.
    pub fn parse(data: &[u8]) -> (r: Result<Self, ParseError>)
        requires
            Self::parse_defined(data@),
        ensures
            r is Err <==> Self::spec_refused(data@),
            r matches Err(e) ==> e == ParseError::InvalidPDUFormat,
            r matches Ok(pk) ==> pk.x@ == data@.subrange(1, 33) && pk.y@ == data@.subrange(33, 65),
    {
        if data.len() != 65 && data[0] != PUBLIC_KEY {
            Err(ParseError::InvalidPDUFormat)
        } else {
            Ok(PublicKey { x: take_array32(data, 1), y: take_array32(data, 33) })
        }
    }

    /// The bytes of this public key PDU.
    pub fn encode(&self) -> (v: Vec<u8>)
        ensures
            v@ == self.spec_bytes(),
    {
        let mut v = vec![PUBLIC_KEY];
        let mut x = vstd::slice::slice_to_vec(&self.x);
        let mut y = vstd::slice::slice_to_vec(&self.y);
        v.append(&mut x);
        v.append(&mut y);
        v
    }

    /// Appends the bytes of this public key PDU.
    pub fn emit(&self, xmit: &mut ByteBuf) -> (r: Result<(), InsufficientBuffer>)
        ensures
            final(xmit).cap() == old(xmit).cap(),
            appended(old(xmit)@, final(xmit)@, old(xmit).cap(), self.spec_bytes(), r is Ok),
    {
        xmit.extend_from_slice(self.encode().as_slice())
    }
}

/// A 16-byte confirmation value.
#[derive(Clone, Copy, Debug)]
pub struct Confirmation {
    pub confirmation: [u8; 16],
}

impl Confirmation {
    /// The bytes of a confirmation PDU.
    pub open spec fn spec_bytes(self) -> Seq<u8> {
        seq![CONFIRMATION] + self.confirmation@
    }

    fn parse(data: &[u8]) -> (r: Result<Self, ParseError>)
        requires
            data@.len() >= 1,
        ensures
            r is Ok <==> !(data@.len() != 17 && data@[0] != CONFIRMATION) && data@.len() == 17,
            r matches Ok(c) ==> c.confirmation@ == data@.skip(1),
            r matches Err(e) ==> e == (if data@.len() != 17 && data@[0] != CONFIRMATION {
                ParseError::InvalidPDUFormat
            } else {
                ParseError::InvalidLength
            }),
    {
        if data.len() != 17 && data[0] != CONFIRMATION {
            Err(ParseError::InvalidPDUFormat)
        } else if data.len() == 17 {
            let c = take_array16(data, 1);
            assert(data@.subrange(1, 17) =~= data@.skip(1));
            Ok(Self { confirmation: c })
        } else {
            Err(ParseError::InvalidLength)
        }
    }

    fn emit(&self, xmit: &mut ByteBuf) -> (r: Result<(), InsufficientBuffer>)
        ensures
            final(xmit).cap() == old(xmit).cap(),
            appended(old(xmit)@, final(xmit)@, old(xmit).cap(), self.spec_bytes(), r is Ok),
    {
        let mut v = vec![CONFIRMATION];
        let mut c = vstd::slice::slice_to_vec(&self.confirmation);
        v.append(&mut c);
        assert(v@ =~= self.spec_bytes());
        xmit.extend_from_slice(v.as_slice())
    }
}

/// A 16-byte random value.
#[derive(Clone, Copy, Debug)]
pub struct Random {
    pub random: [u8; 16],
}

impl Random {
    /// The bytes of a random PDU.
    pub open spec fn spec_bytes(self) -> Seq<u8> {
        seq![RANDOM] + self.random@
    }

    fn parse(data: &[u8]) -> (r: Result<Self, ParseError>)
        requires
            data@.len() >= 1,
        ensures
            r is Ok <==> !(data@.len() != 17 && data@[0] != RANDOM) && data@.len() == 17,
            r matches Ok(c) ==> c.random@ == data@.skip(1),
            r matches Err(e) ==> e == (if data@.len() != 17 && data@[0] != RANDOM {
                ParseError::InvalidPDUFormat
            } else {
                ParseError::InvalidLength
            }),
    {
        if data.len() != 17 && data[0] != RANDOM {
            Err(ParseError::InvalidPDUFormat)
        } else if data.len() == 17 {
            let c = take_array16(data, 1);
            assert(data@.subrange(1, 17) =~= data@.skip(1));
            Ok(Self { random: c })
        } else {
            Err(ParseError::InvalidLength)
        }
    }

    fn emit(&self, xmit: &mut ByteBuf) -> (r: Result<(), InsufficientBuffer>)
        ensures
            final(xmit).cap() == old(xmit).cap(),
            appended(old(xmit)@, final(xmit)@, old(xmit).cap(), self.spec_bytes(), r is Ok),
    {
        let mut v = vec![RANDOM];
        let mut c = vstd::slice::slice_to_vec(&self.random);
        v.append(&mut c);
        assert(v@ =~= self.spec_bytes());
        xmit.extend_from_slice(v.as_slice())
    }
}

/// The encrypted provisioning data and its 8-byte MIC.
#[derive(Clone, Copy, Debug)]
pub struct Data {
    pub encrypted: [u8; 25],
    pub mic: [u8; 8],
}

impl Data {
    /// Whether reading `data` as a data PDU stays within its bytes.
    pub open spec fn parse_defined(data: Seq<u8>) -> bool {
        data.len() >= 1 && !(data[0] == DATA && data.len() < 34)
    }

    fn parse(data: &[u8]) -> (r: Result<Self, ParseError>)
        requires
            Self::parse_defined(data@),
        ensures
            r is Err <==> data@.len() != 34 && data@[0] != DATA,
            r matches Err(e) ==> e == ParseError::InvalidPDUFormat,
            r matches Ok(d) ==> d.encrypted@ == data@.subrange(1, 26) && d.mic@ == data@.subrange(26, 34),
    {
        if data.len() != 34 && data[0] != DATA {
            Err(ParseError::InvalidPDUFormat)
        } else {
            Ok(Self { encrypted: take_array25(data, 1), mic: take_array8(data, 26) })
        }
    }
}

/// Whether a key refresh is in progress.
#[derive(PartialEq, Eq, Structural, Clone, Copy, Debug)]
pub enum KeyRefreshFlag {
    Phase0,
    Phase2,
}

impl KeyRefreshFlag {
    fn parse(data: u8) -> (f: Self)
        ensures
            f == (if data == 0 { KeyRefreshFlag::Phase0 } else { KeyRefreshFlag::Phase2 }),
    {
        if data == 0 {
            Self::Phase0
        } else {
            Self::Phase2
        }
    }
}

impl Default for KeyRefreshFlag {
    fn default() -> (f: Self)
        ensures
            f == KeyRefreshFlag::Phase0,
    {
        Self::Phase0
    }
}

/// Whether an IV update is in progress.
#[derive(PartialEq, Eq, Structural, Clone, Copy, Debug)]
pub enum IVUpdateFlag {
    NormalOperation,
    UpdateActive,
}

impl IVUpdateFlag {
    fn parse(data: u8) -> (f: Self)
        ensures
            f == (if data == 0 { IVUpdateFlag::NormalOperation } else { IVUpdateFlag::UpdateActive }),
    {
        if data == 0 {
            Self::NormalOperation
        } else {
            Self::UpdateActive
        }
    }
}

impl Default for IVUpdateFlag {
    fn default() -> (f: Self)
        ensures
            f == IVUpdateFlag::NormalOperation,
    {
        Self::NormalOperation
    }
}

/// The provisioning data, decrypted from a data PDU.
#[derive(Clone, Copy, Debug)]
pub struct ProvisioningData {
    pub network_key: [u8; 16],
    pub key_index: NetKeyIndex,
    pub key_refresh_flag: KeyRefreshFlag,
    pub iv_update_flag: IVUpdateFlag,
    pub iv_index: u32,
    pub unicast_address: UnicastAddress,
}

impl ProvisioningData {
    /// Whether provisioning data holds what the first 25 bytes of `data`
    /// carry: the network key, its index, the flags, the IV index and the
    /// device's unicast address.
    pub open spec fn read_from(self, data: Seq<u8>) -> bool {
        &&& self.network_key@ == data.subrange(0, 16)
        &&& self.key_index == NetKeyIndex(KeyIndex(be16(data[16], data[17])))
        &&& self.key_refresh_flag == (if data[18] & 0b01 == 0 { KeyRefreshFlag::Phase0 } else { KeyRefreshFlag::Phase2 })
        &&& self.iv_update_flag == (if data[18] & 0b10 == 0 { IVUpdateFlag::NormalOperation } else { IVUpdateFlag::UpdateActive })
        &&& self.iv_index == be32(data[19], data[20], data[21], data[22])
        &&& self.unicast_address.value() == be16(data[23], data[24])
    }

    /// Whether provisioning data can be read from `data`.
    pub open spec fn readable(data: Seq<u8>) -> bool {
        data.len() >= 25 && crate::address::is_unicast(be16(data[23], data[24]))
    }

    /// The error of reading provisioning data from `data` that is not
    /// readable.
    pub open spec fn read_error(data: Seq<u8>) -> ParseError {
        if data.len() < 25 { ParseError::InvalidLength } else { ParseError::InvalidValue }
    }

    /// Reads provisioning data: the network key, its index, the flags, the
    /// IV index and the device's unicast address, from 25 bytes or more.
    pub fn parse(data: &[u8]) -> (r: Result<Self, ParseError>)
        ensures
            r is Ok <==> Self::readable(data@),
            r matches Ok(p) ==> p.read_from(data@),
            r matches Ok(p) ==> {
                &&& p.network_key@ == data@.subrange(0, 16)
                &&& p.key_index == NetKeyIndex(KeyIndex(be16(data@[16], data@[17])))
                &&& p.key_refresh_flag == (if data@[18] & 0b01 == 0 { KeyRefreshFlag::Phase0 } else { KeyRefreshFlag::Phase2 })
                &&& p.iv_update_flag == (if data@[18] & 0b10 == 0 { IVUpdateFlag::NormalOperation } else { IVUpdateFlag::UpdateActive })
                &&& p.iv_index == be32(data@[19], data@[20], data@[21], data@[22])
                &&& p.unicast_address.value() == be16(data@[23], data@[24])
            },
            r matches Err(e) ==> e == (if data@.len() < 25 { ParseError::InvalidLength } else { ParseError::InvalidValue }),
    {
        if data.len() < 25 {
            Err(ParseError::InvalidLength)
        } else {
            let network_key = take_array16(data, 0);
            let key_index = NetKeyIndex::new(from_be16(data[16], data[17]));
            let flags = data[18];
            let iv_index = from_be32(data[19], data[20], data[21], data[22]);
            let unicast_address = UnicastAddress::parse([data[23], data[24]])?;
            Ok(Self {
                network_key,
                key_index,
                key_refresh_flag: KeyRefreshFlag::parse(flags & 0b00000001),
                iv_update_flag: IVUpdateFlag::parse(flags & 0b00000010),
                iv_index,
                unicast_address,
            })
        }
    }
}

/// A provisioning failure and its reason.
#[derive(PartialEq, Eq, Structural, Clone, Copy, Debug)]
pub struct Failed {
    pub error_code: ErrorCode,
}

impl Failed {
    /// Whether reading `data` as a failed PDU stays within its bytes.
    pub open spec fn parse_defined(data: Seq<u8>) -> bool {
        data.len() >= 1 && !(data[0] == FAILED && data.len() < 2)
    }

    /// The failed PDU that `data` denotes.
    pub open spec fn spec_parse(data: Seq<u8>) -> Result<Failed, ParseError> {
        if data.len() != 2 && data[0] != FAILED {
            Err(ParseError::InvalidPDUFormat)
        } else {
            match ErrorCode::spec_parse(data[1]) {
                Ok(error_code) => Ok(Failed { error_code }),
                Err(e) => Err(e),
            }
        }
    }

    fn parse(data: &[u8]) -> (r: Result<Self, ParseError>)
        requires
            Self::parse_defined(data@),
        ensures
            r == Self::spec_parse(data@),
    {
        if data.len() != 2 && data[0] != FAILED {
            Err(ParseError::InvalidPDUFormat)
        } else {
            Ok(Self { error_code: ErrorCode::parse(data[1])? })
        }
    }
}

impl ProvisioningPDU {
    /// Whether reading `data` as a provisioning PDU stays within its bytes:
    /// the public key, data and failed PDUs must be long enough for the
    /// fields they are read from.
    pub open spec fn parse_defined(data: Seq<u8>) -> bool {
        data.len() >= 1 ==> {
            &&& data[0] == PUBLIC_KEY ==> data.len() >= 65
            &&& data[0] == DATA ==> data.len() >= 34
            &&& data[0] == FAILED ==> data.len() >= 2
        }
    }

    /// Whether reading `data` stays within its bytes.
    pub fn parse_is_defined(data: &[u8]) -> (b: bool)
        ensures
            b == Self::parse_defined(data@),
    {
        if data.len() == 0 {
            true
        } else {
            let t = data[0];
            (t != PUBLIC_KEY || data.len() >= 65) && (t != DATA || data.len() >= 34) && (t != FAILED || data.len() >= 2)
        }
    }

    /// The provisioning PDU that `data` denotes, by its type octet.
    pub open spec fn spec_parse(data: Seq<u8>) -> Result<ProvisioningPDUView, ParseError> {
        if data.len() >= 1 {
            if data[0] == INVITE {
                match Invite::spec_parse(data) {
                    Ok(i) => Ok(ProvisioningPDUView::Invite(i)),
                    Err(e) => Err(e),
                }
            } else if data[0] == CAPABILITIES {
                match Capabilities::spec_parse(data) {
                    Ok(c) => Ok(ProvisioningPDUView::Capabilities(c)),
                    Err(e) => Err(e),
                }
            } else if data[0] == START {
                match Start::spec_parse(data) {
                    Ok(s) => Ok(ProvisioningPDUView::Start(s)),
                    Err(e) => Err(e),
                }
            } else if data[0] == PUBLIC_KEY {
                Ok(ProvisioningPDUView::PublicKey(data.subrange(1, 33), data.subrange(33, 65)))
            } else if data[0] == INPUT_COMPLETE {
                if data.len() == 1 { Ok(ProvisioningPDUView::InputComplete) } else { Err(ParseError::InvalidPDUFormat) }
            } else if data[0] == CONFIRMATION {
                if data.len() == 17 { Ok(ProvisioningPDUView::Confirmation(data.skip(1))) } else { Err(ParseError::InvalidLength) }
            } else if data[0] == RANDOM {
                if data.len() == 17 { Ok(ProvisioningPDUView::Random(data.skip(1))) } else { Err(ParseError::InvalidLength) }
            } else if data[0] == DATA {
                Ok(ProvisioningPDUView::Data(data.subrange(1, 26), data.subrange(26, 34)))
            } else if data[0] == COMPLETE {
                Ok(ProvisioningPDUView::Complete)
            } else if data[0] == FAILED {
                match ErrorCode::spec_parse(data[1]) {
                    Ok(c) => Ok(ProvisioningPDUView::Failed(c)),
                    Err(e) => Err(e),
                }
            } else {
                Err(ParseError::InvalidPDUFormat)
            }
        } else {
            Err(ParseError::InvalidLength)
        }
    }

    /// Reads a provisioning PDU.
    pub fn parse(data: &[u8]) -> (r: Result<Self, ParseError>)
        requires
            Self::parse_defined(data@),
        ensures
            r is Ok <==> Self::spec_parse(data@) is Ok,
            r matches Ok(p) ==> Self::spec_parse(data@) == Ok::<ProvisioningPDUView, ParseError>(p@),
            r matches Err(e) ==> Self::spec_parse(data@) == Err::<ProvisioningPDUView, ParseError>(e),
    {
        if data.len() >= 1 {
            let t = data[0];
            if t == INVITE {
                Ok(Self::Invite(Invite::parse(data)?))
            } else if t == CAPABILITIES {
                Ok(Self::Capabilities(Capabilities::parse(data)?))
            } else if t == START {
                Ok(Self::Start(Start::parse(data)?))
            } else if t == PUBLIC_KEY {
                Ok(Self::PublicKey(PublicKey::parse(data)?))
            } else if t == INPUT_COMPLETE {
                Self::parse_provisioning_input_complete(data)
            } else if t == CONFIRMATION {
                let c = Confirmation::parse(data)?;
                Ok(Self::Confirmation(c))
            } else if t == RANDOM {
                let c = Random::parse(data)?;
                Ok(Self::Random(c))
            } else if t == DATA {
                Ok(Self::Data(Data::parse(data)?))
            } else if t == COMPLETE {
                Self::parse_complete(data)
            } else if t == FAILED {
                Ok(Self::Failed(Failed::parse(data)?))
            } else {
                Err(ParseError::InvalidPDUFormat)
            }
        } else {
            Err(ParseError::InvalidLength)
        }
    }

    /// Whether this PDU has an encoding: invitations, start, data and
    /// failure PDUs are only ever received by a device.
    pub open spec fn emittable(&self) -> bool {
        !(self is Invite || self is Start || self is Data || self is Failed)
    }

    /// The bytes of the PDUs a device sends.
    pub open spec fn spec_bytes(&self) -> Seq<u8> {
        match self {
            ProvisioningPDU::Capabilities(c) => c@.spec_bytes(),
            ProvisioningPDU::PublicKey(pk) => pk.spec_bytes(),
            ProvisioningPDU::InputComplete => seq![INPUT_COMPLETE],
            ProvisioningPDU::Confirmation(c) => c.spec_bytes(),
            ProvisioningPDU::Random(r) => r.spec_bytes(),
            ProvisioningPDU::Complete => seq![COMPLETE],
            _ => Seq::empty(),
        }
    }

    /// Appends the bytes of a PDU that a device sends.
    pub fn emit(&self, xmit: &mut ByteBuf) -> (r: Result<(), InsufficientBuffer>)
        requires
            self.emittable(),
        ensures
            final(xmit).cap() == old(xmit).cap(),
            appended(old(xmit)@, final(xmit)@, old(xmit).cap(), self.spec_bytes(), r is Ok),
    {
        match self {
            ProvisioningPDU::Capabilities(capabilities) => capabilities.emit(xmit),
            ProvisioningPDU::PublicKey(public_key) => public_key.emit(xmit),
            ProvisioningPDU::InputComplete => xmit.push(INPUT_COMPLETE),
            ProvisioningPDU::Confirmation(confirmation) => confirmation.emit(xmit),
            ProvisioningPDU::Random(random) => random.emit(xmit),
            ProvisioningPDU::Complete => xmit.push(COMPLETE),
            _ => {
                assert(false);
                Ok(())
            }
        }
    }

    fn parse_provisioning_input_complete(data: &[u8]) -> (r: Result<Self, ParseError>)
        ensures
            r is Ok <==> data@.len() == 1 && data@[0] == INPUT_COMPLETE,
            r matches Ok(p) ==> p is InputComplete,
            r matches Err(e) ==> e == ParseError::InvalidPDUFormat,
    {
        if data.len() == 1 && data[0] == INPUT_COMPLETE {
            Ok(Self::InputComplete)
        } else {
            Err(ParseError::InvalidPDUFormat)
        }
    }

    fn parse_complete(data: &[u8]) -> (r: Result<Self, ParseError>)
        requires
            data@.len() >= 1,
        ensures
            r is Ok <==> !(data@.len() != 1 && data@[0] != COMPLETE),
            r matches Ok(p) ==> p is Complete,
            r matches Err(e) ==> e == ParseError::InvalidPDUFormat,
    {
        if data.len() != 1 && data[0] != COMPLETE {
            Err(ParseError::InvalidPDUFormat)
        } else {
            Ok(Self::Complete)
        }
    }
}

impl View for ProvisioningPDU {
    type V = ProvisioningPDUView;

    open spec fn view(&self) -> ProvisioningPDUView {
        match self {
            ProvisioningPDU::Invite(i) => ProvisioningPDUView::Invite(*i),
            ProvisioningPDU::Capabilities(c) => ProvisioningPDUView::Capabilities(c@),
            ProvisioningPDU::Start(s) => ProvisioningPDUView::Start(*s),
            ProvisioningPDU::PublicKey(pk) => ProvisioningPDUView::PublicKey(pk.x@, pk.y@),
            ProvisioningPDU::InputComplete => ProvisioningPDUView::InputComplete,
            ProvisioningPDU::Confirmation(c) => ProvisioningPDUView::Confirmation(c.confirmation@),
            ProvisioningPDU::Random(r) => ProvisioningPDUView::Random(r.random@),
            ProvisioningPDU::Data(d) => ProvisioningPDUView::Data(d.encrypted@, d.mic@),
            ProvisioningPDU::Complete => ProvisioningPDUView::Complete,
            ProvisioningPDU::Failed(f) => ProvisioningPDUView::Failed(f.error_code),
        }
    }
}

/// A public key algorithm.
#[derive(PartialEq, Eq, Structural, Clone, Copy, Debug)]
pub enum Algorithm {
    P256,
}

impl Algorithm {
    pub open spec fn spec_parse(octet: u8) -> Result<Algorithm, ParseError> {
        if octet == 0x00 { Ok(Algorithm::P256) } else { Err(ParseError::InvalidValue) }
    }

    pub open spec fn spec_bytes(self) -> Seq<u8> {
        seq![0x00u8]
    }

    /// Reads an algorithm from its octet.
    pub fn parse(octet: u8) -> (r: Result<Self, ParseError>)
        ensures
            r == Self::spec_parse(octet),
    {
        if octet == 0x00 {
            Ok(Self::P256)
        } else {
            Err(ParseError::InvalidValue)
        }
    }

    /// The octet of this algorithm.
    pub fn encode(&self) -> (v: Vec<u8>)
        ensures
            v@ == self.spec_bytes(),
    {
        let v = vec![0x00u8];
        assert(v@ =~= self.spec_bytes());
        v
    }

    /// Appends the octet of this algorithm.
    pub fn emit(&self, xmit: &mut ByteBuf) -> (r: Result<(), InsufficientBuffer>)
        ensures
            final(xmit).cap() == old(xmit).cap(),
            appended(old(xmit)@, final(xmit)@, old(xmit).cap(), self.spec_bytes(), r is Ok),
    {
        xmit.push(0x00)
    }
}

/// The set of algorithms a device supports (at most 16).
pub struct Algorithms(Vec<Algorithm>);

impl View for Algorithms {
    type V = Seq<Algorithm>;

    closed spec fn view(&self) -> Seq<Algorithm> {
        self.0@
    }
}

impl Algorithms {
    #[verifier::type_invariant]
    spec fn inv(self) -> bool {
        self.0@.len() <= 16
    }

    /// The 16-bit field announcing a list of algorithms: bit 0 for P-256.
    pub open spec fn spec_bits(algos: Seq<Algorithm>) -> u16 {
        if algos.len() > 0 { 1 } else { 0 }
    }

    /// The algorithms a 16-bit field announces; only bit 0 may be set.
    pub open spec fn spec_parse(bits: u16) -> Result<Seq<Algorithm>, ParseError> {
        if bits > 1 {
            Err(ParseError::InvalidValue)
        } else if bits == 1 {
            Ok(seq![Algorithm::P256])
        } else {
            Ok(Seq::empty())
        }
    }

    /// No algorithms.
    pub fn new() -> (a: Self)
        ensures
            a@ == Seq::<Algorithm>::empty(),
    {
        Self(Vec::new())
    }

    fn push(&mut self, algo: Algorithm) -> (r: Result<(), Algorithm>)
        ensures
            r is Ok <==> old(self)@.len() < 16,
            r is Ok ==> final(self)@ == old(self)@.push(algo),
            r matches Err(a) ==> final(self)@ == old(self)@ && a == algo,
    {
        proof { use_type_invariant(&*self); }
        if self.0.len() < 16 {
            let mut v = Vec::new();
            std::mem::swap(&mut v, &mut self.0);
            v.push(algo);
            self.0 = v;
            Ok(())
        } else {
            Err(algo)
        }
    }

    /// Reads the algorithms a 16-bit field announces.
    pub fn parse(bits: u16) -> (r: Result<Self, ParseError>)
        ensures
            r is Ok <==> Self::spec_parse(bits) is Ok,
            r matches Ok(a) ==> Self::spec_parse(bits) == Ok::<Seq<Algorithm>, ParseError>(a@),
            r matches Err(e) ==> e == ParseError::InvalidValue,
    {
        if bits > 1 {
            return Err(ParseError::InvalidValue);
        }
        let mut algos = Algorithms::new();
        if bits == 1 {
            match algos.push(Algorithm::P256) {
                Ok(()) => {}
                Err(_) => return Err(ParseError::InsufficientBuffer),
            }
        }
        assert(algos@ =~= Self::spec_parse(bits).unwrap());
        Ok(algos)
    }

    /// The two bytes of the field announcing these algorithms.
    pub fn encode(&self) -> (v: Vec<u8>)
        ensures
            v@ == be16_bytes(Self::spec_bits(self@)),
    {
        let bits: u16 = if self.0.len() > 0 { 1 } else { 0 };
        let b = to_be16(bits);
        let v = vec![b[0], b[1]];
        assert(v@ =~= be16_bytes(Self::spec_bits(self@)));
        v
    }

    /// Appends the field announcing these algorithms.
    pub fn emit(&self, xmit: &mut ByteBuf) -> (r: Result<(), InsufficientBuffer>)
        ensures
            final(xmit).cap() == old(xmit).cap(),
            appended(old(xmit)@, final(xmit)@, old(xmit).cap(), be16_bytes(Self::spec_bits(self@)), r is Ok),
    {
        xmit.extend_from_slice(self.encode().as_slice())
    }

    /// A copy of this list.
    pub fn duplicate(&self) -> (a: Self)
        ensures
            a@ == self@,
    {
        proof { use_type_invariant(self); }
        Algorithms(self.0.clone())
    }
}

impl Default for Algorithms {
    fn default() -> (a: Self)
        ensures
            a@ == seq![Algorithm::P256],
    {
        let mut algos = Self::new();
        let _ = algos.push(Algorithm::P256);
        assert(algos@ =~= seq![Algorithm::P256]);
        algos
    }
}

/// Whether a device offers its public key out of band.
#[derive(PartialEq, Eq, Structural, Clone, Copy, Debug)]
pub struct PublicKeyType {
    pub available: bool,
}

impl Default for PublicKeyType {
    fn default() -> (t: Self)
        ensures
            !t.available,
    {
        Self { available: false }
    }
}

impl PublicKeyType {
    /// The public key type an octet denotes; only bit 0 may be set.
    pub open spec fn spec_parse(bits: u8) -> Result<PublicKeyType, ParseError> {
        if bits > 1 { Err(ParseError::InvalidValue) } else { Ok(PublicKeyType { available: bits == 1 }) }
    }

    pub open spec fn spec_bytes(self) -> Seq<u8> {
        seq![if self.available { 1u8 } else { 0u8 }]
    }

    /// Reads a public key type.
    pub fn parse(bits: u8) -> (r: Result<Self, ParseError>)
        ensures
            r == Self::spec_parse(bits),
    {
        if bits > 1 {
            Err(ParseError::InvalidValue)
        } else {
            Ok(Self { available: bits == 1 })
        }
    }

    /// The octet of this public key type.
    pub fn encode(&self) -> (v: Vec<u8>)
        ensures
            v@ == self.spec_bytes(),
    {
        let v = if self.available { vec![0b1u8] } else { vec![0b0u8] };
        assert(v@ =~= self.spec_bytes());
        v
    }

    /// Appends the octet of this public key type.
    pub fn emit(&self, xmit: &mut ByteBuf) -> (r: Result<(), InsufficientBuffer>)
        ensures
            final(xmit).cap() == old(xmit).cap(),
            appended(old(xmit)@, final(xmit)@, old(xmit).cap(), self.spec_bytes(), r is Ok),
    {
        if self.available {
            xmit.push(0b1)
        } else {
            xmit.push(0b0)
        }
    }
}

/// Which public key the provisioner chose.
#[derive(PartialEq, Eq, Structural, Clone, Copy, Debug)]
pub enum PublicKeySelected {
    NoPublicKey,
    OOBPublicKey,
}

impl PublicKeySelected {
    pub open spec fn spec_parse(octet: u8) -> Result<PublicKeySelected, ParseError> {
        if octet == 0 {
            Ok(PublicKeySelected::NoPublicKey)
        } else if octet == 1 {
            Ok(PublicKeySelected::OOBPublicKey)
        } else {
            Err(ParseError::InvalidValue)
        }
    }

    pub open spec fn spec_bytes(self) -> Seq<u8> {
        match self {
            PublicKeySelected::NoPublicKey => seq![0x00u8],
            PublicKeySelected::OOBPublicKey => seq![0x01u8],
        }
    }

    /// Reads the public key choice.
    pub fn parse(octet: u8) -> (r: Result<Self, ParseError>)
        ensures
            r == Self::spec_parse(octet),
    {
        match octet {
            0x00 => Ok(Self::NoPublicKey),
            0x01 => Ok(Self::OOBPublicKey),
            _ => Err(ParseError::InvalidValue),
        }
    }

    /// The octet of this choice.
    pub fn encode(&self) -> (v: Vec<u8>)
        ensures
            v@ == self.spec_bytes(),
    {
        let v = match self {
            PublicKeySelected::NoPublicKey => vec![0x00u8],
            PublicKeySelected::OOBPublicKey => vec![0x01u8],
        };
        assert(v@ =~= self.spec_bytes());
        v
    }

    /// Appends the octet of this choice.
    pub fn emit(&self, xmit: &mut ByteBuf) -> (r: Result<(), InsufficientBuffer>)
        ensures
            final(xmit).cap() == old(xmit).cap(),
            appended(old(xmit)@, final(xmit)@, old(xmit).cap(), self.spec_bytes(), r is Ok),
    {
        xmit.extend_from_slice(self.encode().as_slice())
    }
}

/// Whether a device has static out-of-band information.
#[derive(PartialEq, Eq, Structural, Clone, Copy, Debug)]
pub struct StaticOOBType {
    pub available: bool,
}

impl StaticOOBType {
    /// The static OOB type an octet denotes; only bit 0 may be set.
    pub open spec fn spec_parse(bits: u8) -> Result<StaticOOBType, ParseError> {
        if bits > 1 { Err(ParseError::InvalidValue) } else { Ok(StaticOOBType { available: bits == 1 }) }
    }

    pub open spec fn spec_bytes(self) -> Seq<u8> {
        seq![if self.available { 1u8 } else { 0u8 }]
    }

    /// Reads a static OOB type.
    pub fn parse(bits: u8) -> (r: Result<Self, ParseError>)
        ensures
            r == Self::spec_parse(bits),
    {
        if bits > 1 {
            Err(ParseError::InvalidValue)
        } else {
            Ok(Self { available: bits == 1 })
        }
    }

    /// The octet of this static OOB type.
    pub fn encode(&self) -> (v: Vec<u8>)
        ensures
            v@ == self.spec_bytes(),
    {
        let v = if self.available { vec![0b1u8] } else { vec![0b0u8] };
        assert(v@ =~= self.spec_bytes());
        v
    }

    /// Appends the octet of this static OOB type.
    pub fn emit(&self, xmit: &mut ByteBuf) -> (r: Result<(), InsufficientBuffer>)
        ensures
            final(xmit).cap() == old(xmit).cap(),
            appended(old(xmit)@, final(xmit)@, old(xmit).cap(), self.spec_bytes(), r is Ok),
    {
        if self.available {
            xmit.push(0b1)
        } else {
            xmit.push(0b0)
        }
    }
}

impl Default for StaticOOBType {
    fn default() -> (t: Self)
        ensures
            !t.available,
    {
        Self { available: false }
    }
}

/// The largest out-of-band value a device can output or input.
#[derive(PartialEq, Eq, Structural, Clone, Copy, Debug)]
pub enum OOBSize {
    NotSupported,
    MaximumSize(u8),
}

impl OOBSize {
    /// The size an octet denotes: none for zero, a maximum of one to eight
    /// digits or characters otherwise.
    pub open spec fn spec_parse(octet: u8) -> Result<OOBSize, ParseError> {
        if octet == 0 {
            Ok(OOBSize::NotSupported)
        } else if octet <= 8 {
            Ok(OOBSize::MaximumSize(octet))
        } else {
            Err(ParseError::InvalidValue)
        }
    }

    pub open spec fn spec_bytes(self) -> Seq<u8> {
        match self {
            OOBSize::NotSupported => seq![0u8],
            OOBSize::MaximumSize(size) => seq![size],
        }
    }

    /// Reads an OOB size.
    pub fn parse(octet: u8) -> (r: Result<Self, ParseError>)
        ensures
            r == Self::spec_parse(octet),
    {
        if octet == 0 {
            Ok(Self::NotSupported)
        } else if octet <= 8 {
            Ok(Self::MaximumSize(octet))
        } else {
            Err(ParseError::InvalidValue)
        }
    }

    /// The octet of this size.
    pub fn encode(&self) -> (v: Vec<u8>)
        ensures
            v@ == self.spec_bytes(),
    {
        let v = match self {
            OOBSize::NotSupported => vec![0u8],
            OOBSize::MaximumSize(size) => vec![*size],
        };
        assert(v@ =~= self.spec_bytes());
        v
    }

    /// Appends the octet of this size.
    pub fn emit(&self, xmit: &mut ByteBuf) -> (r: Result<(), InsufficientBuffer>)
        ensures
            final(xmit).cap() == old(xmit).cap(),
            appended(old(xmit)@, final(xmit)@, old(xmit).cap(), self.spec_bytes(), r is Ok),
    {
        match self {
            OOBSize::NotSupported => xmit.push(0),
            OOBSize::MaximumSize(size) => xmit.push(*size),
        }
    }
}

/// An action by which a device outputs an authentication value.
#[derive(PartialEq, Eq, Structural, Clone, Copy, Debug)]
pub enum OutputOOBAction {
    Blink,
    Beep,
    Vibrate,
    OutputNumeric,
    OutputAlphanumeric,
}

impl OutputOOBAction {
    /// The bit of this action in the field of output actions.
    pub open spec fn spec_bit(self) -> u16 {
        match self {
            OutputOOBAction::Blink => 0b00001,
            OutputOOBAction::Beep => 0b00010,
            OutputOOBAction::Vibrate => 0b00100,
            OutputOOBAction::OutputNumeric => 0b01000,
            OutputOOBAction::OutputAlphanumeric => 0b10000,
        }
    }

    /// The action an octet of a start PDU denotes.
    pub open spec fn spec_parse(octet: u8) -> Result<OutputOOBAction, ParseError> {
        if octet == 0 {
            Ok(OutputOOBAction::Blink)
        } else if octet == 1 {
            Ok(OutputOOBAction::Beep)
        } else if octet == 2 {
            Ok(OutputOOBAction::Vibrate)
        } else if octet == 3 {
            Ok(OutputOOBAction::OutputNumeric)
        } else if octet == 4 {
            Ok(OutputOOBAction::OutputAlphanumeric)
        } else {
            Err(ParseError::InvalidValue)
        }
    }

    /// The bit of this action.
    pub fn bit(&self) -> (b: u16)
        ensures
            b == self.spec_bit(),
    {
        match self {
            OutputOOBAction::Blink => 0b00001,
            OutputOOBAction::Beep => 0b00010,
            OutputOOBAction::Vibrate => 0b00100,
            OutputOOBAction::OutputNumeric => 0b01000,
            OutputOOBAction::OutputAlphanumeric => 0b10000,
        }
    }

    /// Reads an output action from its octet.
    pub fn parse(octet: u8) -> (r: Result<Self, ParseError>)
        ensures
            r == Self::spec_parse(octet),
    {
        match octet {
            0x00 => Ok(Self::Blink),
            0x01 => Ok(Self::Beep),
            0x02 => Ok(Self::Vibrate),
            0x03 => Ok(Self::OutputNumeric),
            0x04 => Ok(Self::OutputAlphanumeric),
            _ => Err(ParseError::InvalidValue),
        }
    }

    /// The two bytes of this action's bit, most significant first.
    pub fn encode(&self) -> (v: Vec<u8>)
        ensures
            v@ == be16_bytes(self.spec_bit()),
    {
        let b = to_be16(self.bit());
        let v = vec![b[0], b[1]];
        assert(v@ =~= be16_bytes(self.spec_bit()));
        v
    }

    /// Appends the two bytes of this action's bit.
    pub fn emit(&self, xmit: &mut ByteBuf) -> (r: Result<(), InsufficientBuffer>)
        ensures
            final(xmit).cap() == old(xmit).cap(),
            appended(old(xmit)@, final(xmit)@, old(xmit).cap(), be16_bytes(self.spec_bit()), r is Ok),
    {
        xmit.extend_from_slice(self.encode().as_slice())
    }
}

/// The output actions a device supports (at most five).
pub struct OutputOOBActions(Vec<OutputOOBAction>);

impl View for OutputOOBActions {
    type V = Seq<OutputOOBAction>;

    closed spec fn view(&self) -> Seq<OutputOOBAction> {
        self.0@
    }
}

impl OutputOOBActions {
    #[verifier::type_invariant]
    spec fn inv(self) -> bool {
        self.0@.len() <= 5
    }

    /// The field announcing a list of actions: the or of their bits.
    pub open spec fn spec_bits(actions: Seq<OutputOOBAction>) -> u16
        decreases actions.len(),
    {
        if actions.len() == 0 {
            0
        } else {
            Self::spec_bits(actions.drop_last()) | actions.last().spec_bit()
        }
    }

    /// The actions a field announces. Only the five low bits may be set; of
    /// them, only bit 0 (blink) is recognised.
    pub open spec fn spec_parse(bits: u16) -> Result<Seq<OutputOOBAction>, ParseError> {
        if bits >= 0b100000 {
            Err(ParseError::InvalidValue)
        } else if bits % 2 == 1 {
            Ok(seq![OutputOOBAction::Blink])
        } else {
            Ok(Seq::empty())
        }
    }

    /// No actions.
    pub fn new() -> (a: Self)
        ensures
            a@ == Seq::<OutputOOBAction>::empty(),
    {
        Self(Vec::new())
    }

    /// Adds an action, or hands it back when five are held.
    pub fn push(&mut self, action: OutputOOBAction) -> (r: Result<(), OutputOOBAction>)
        ensures
            r is Ok <==> old(self)@.len() < 5,
            r is Ok ==> final(self)@ == old(self)@.push(action),
            r matches Err(a) ==> final(self)@ == old(self)@ && a == action,
    {
        proof { use_type_invariant(&*self); }
        if self.0.len() < 5 {
            let mut v = Vec::new();
            std::mem::swap(&mut v, &mut self.0);
            v.push(action);
            self.0 = v;
            Ok(())
        } else {
            Err(action)
        }
    }

    /// Reads the actions a field announces.
    pub fn parse(bits: u16) -> (r: Result<Self, ParseError>)
        ensures
            r is Ok <==> Self::spec_parse(bits) is Ok,
            r matches Ok(a) ==> Self::spec_parse(bits) == Ok::<Seq<OutputOOBAction>, ParseError>(a@),
            r matches Err(e) ==> e == ParseError::InvalidValue,
    {
        proof { lemma_low_bits(bits); }
        if bits & 0b1111111111100000 != 0 {
            return Err(ParseError::InvalidValue);
        }
        let mut actions = OutputOOBActions::new();
        if bits & 0b00000001 == 1 {
            if actions.push(OutputOOBAction::Blink).is_err() {
                return Err(ParseError::InsufficientBuffer);
            }
        }
        if bits & 0b00000010 == 1 {
            if actions.push(OutputOOBAction::Beep).is_err() {
                return Err(ParseError::InsufficientBuffer);
            }
        }
        if bits & 0b00000100 == 1 {
            if actions.push(OutputOOBAction::Vibrate).is_err() {
                return Err(ParseError::InsufficientBuffer);
            }
        }
        if bits & 0b00001000 == 1 {
            if actions.push(OutputOOBAction::OutputNumeric).is_err() {
                return Err(ParseError::InsufficientBuffer);
            }
        }
        if bits & 0b00010000 == 1 {
            if actions.push(OutputOOBAction::OutputAlphanumeric).is_err() {
                return Err(ParseError::InsufficientBuffer);
            }
        }
        assert(actions@ =~= Self::spec_parse(bits).unwrap());
        Ok(actions)
    }

    /// The field announcing these actions.
    pub fn bits(&self) -> (b: u16)
        ensures
            b == Self::spec_bits(self@),
    {
        let mut bits: u16 = 0;
        let mut i: usize = 0;
        while i < self.0.len()
            invariant
                0 <= i <= self.0@.len(),
                bits == Self::spec_bits(self.0@.take(i as int)),
            decreases self.0@.len() - i,
        {
            assert(self.0@.take(i + 1).drop_last() =~= self.0@.take(i as int));
            bits = bits | self.0[i].bit();
            i = i + 1;
        }
        assert(self.0@.take(i as int) =~= self.0@);
        bits
    }

    /// The two bytes of the field announcing these actions.
    pub fn encode(&self) -> (v: Vec<u8>)
        ensures
            v@ == be16_bytes(Self::spec_bits(self@)),
    {
        let b = to_be16(self.bits());
        let v = vec![b[0], b[1]];
        assert(v@ =~= be16_bytes(Self::spec_bits(self@)));
        v
    }

    /// Appends the field announcing these actions.
    pub fn emit(&self, xmit: &mut ByteBuf) -> (r: Result<(), InsufficientBuffer>)
        ensures
            final(xmit).cap() == old(xmit).cap(),
            appended(old(xmit)@, final(xmit)@, old(xmit).cap(), be16_bytes(Self::spec_bits(self@)), r is Ok),
    {
        xmit.extend_from_slice(self.encode().as_slice())
    }

    /// A copy of this list.
    pub fn duplicate(&self) -> (a: Self)
        ensures
            a@ == self@,
    {
        proof { use_type_invariant(self); }
        OutputOOBActions(self.0.clone())
    }
}

impl Default for OutputOOBActions {
    fn default() -> (a: Self)
        ensures
            a@ == Seq::<OutputOOBAction>::empty(),
    {
        Self::new()
    }
}

proof fn lemma_low_bits(bits: u16)
    by (bit_vector)
    ensures
        (bits & 0b1111111111100000 != 0) <==> bits >= 0b100000,
        (bits & 0b1111111111110000 != 0) <==> bits >= 0b10000,
        (bits & 0b00000001 == 1) <==> bits % 2 == 1,
        bits & 0b00000010 != 1,
        bits & 0b00000100 != 1,
        bits & 0b00001000 != 1,
        bits & 0b00010000 != 1,
{
}

/// An action by which a device takes in an authentication value.
#[derive(PartialEq, Eq, Structural, Clone, Copy, Debug)]
pub enum InputOOBAction {
    Push,
    Twist,
    InputNumeric,
    InputAlphanumeric,
}

impl InputOOBAction {
    /// The bit of this action in the field of input actions.
    pub open spec fn spec_bit(self) -> u16 {
        match self {
            InputOOBAction::Push => 0b0001,
            InputOOBAction::Twist => 0b0010,
            InputOOBAction::InputNumeric => 0b0100,
            InputOOBAction::InputAlphanumeric => 0b1000,
        }
    }

    /// The action an octet of a start PDU denotes.
    pub open spec fn spec_parse(octet: u8) -> Result<InputOOBAction, ParseError> {
        if octet == 0 {
            Ok(InputOOBAction::Push)
        } else if octet == 1 {
            Ok(InputOOBAction::Twist)
        } else if octet == 2 {
            Ok(InputOOBAction::InputNumeric)
        } else if octet == 3 {
            Ok(InputOOBAction::InputAlphanumeric)
        } else {
            Err(ParseError::InvalidValue)
        }
    }

    /// The bit of this action.
    pub fn bit(&self) -> (b: u16)
        ensures
            b == self.spec_bit(),
    {
        match self {
            InputOOBAction::Push => 0b0001,
            InputOOBAction::Twist => 0b0010,
            InputOOBAction::InputNumeric => 0b0100,
            InputOOBAction::InputAlphanumeric => 0b1000,
        }
    }

    /// Reads an input action from its octet.
    pub fn parse(octet: u8) -> (r: Result<Self, ParseError>)
        ensures
            r == Self::spec_parse(octet),
    {
        match octet {
            0x00 => Ok(Self::Push),
            0x01 => Ok(Self::Twist),
            0x02 => Ok(Self::InputNumeric),
            0x03 => Ok(Self::InputAlphanumeric),
            _ => Err(ParseError::InvalidValue),
        }
    }

    /// The two bytes of this action's bit, most significant first.
    pub fn encode(&self) -> (v: Vec<u8>)
        ensures
            v@ == be16_bytes(self.spec_bit()),
    {
        let b = to_be16(self.bit());
        let v = vec![b[0], b[1]];
        assert(v@ =~= be16_bytes(self.spec_bit()));
        v
    }

    /// Appends the two bytes of this action's bit.
    pub fn emit(&self, xmit: &mut ByteBuf) -> (r: Result<(), InsufficientBuffer>)
        ensures
            final(xmit).cap() == old(xmit).cap(),
            appended(old(xmit)@, final(xmit)@, old(xmit).cap(), be16_bytes(self.spec_bit()), r is Ok),
    {
        xmit.extend_from_slice(self.encode().as_slice())
    }
}

/// The input actions a device supports (at most four).
pub struct InputOOBActions(Vec<InputOOBAction>);

impl View for InputOOBActions {
    type V = Seq<InputOOBAction>;

    closed spec fn view(&self) -> Seq<InputOOBAction> {
        self.0@
    }
}

impl InputOOBActions {
    #[verifier::type_invariant]
    spec fn inv(self) -> bool {
        self.0@.len() <= 4
    }

    /// The field announcing a list of actions: the or of their bits.
    pub open spec fn spec_bits(actions: Seq<InputOOBAction>) -> u16
        decreases actions.len(),
    {
        if actions.len() == 0 {
            0
        } else {
            Self::spec_bits(actions.drop_last()) | actions.last().spec_bit()
        }
    }

    /// The actions a field announces. Only the four low bits may be set; of
    /// them, only bit 0 (push) is recognised.
    pub open spec fn spec_parse(bits: u16) -> Result<Seq<InputOOBAction>, ParseError> {
        if bits >= 0b10000 {
            Err(ParseError::InvalidValue)
        } else if bits % 2 == 1 {
            Ok(seq![InputOOBAction::Push])
        } else {
            Ok(Seq::empty())
        }
    }

    /// No actions.
    pub fn new() -> (a: Self)
        ensures
            a@ == Seq::<InputOOBAction>::empty(),
    {
        Self(Vec::new())
    }

    /// Adds an action, or hands it back when four are held.
    pub fn push(&mut self, action: InputOOBAction) -> (r: Result<(), InputOOBAction>)
        ensures
            r is Ok <==> old(self)@.len() < 4,
            r is Ok ==> final(self)@ == old(self)@.push(action),
            r matches Err(a) ==> final(self)@ == old(self)@ && a == action,
    {
        proof { use_type_invariant(&*self); }
        if self.0.len() < 4 {
            let mut v = Vec::new();
            std::mem::swap(&mut v, &mut self.0);
            v.push(action);
            self.0 = v;
            Ok(())
        } else {
            Err(action)
        }
    }

    /// Reads the actions a field announces.
    pub fn parse(bits: u16) -> (r: Result<Self, ParseError>)
        ensures
            r is Ok <==> Self::spec_parse(bits) is Ok,
            r matches Ok(a) ==> Self::spec_parse(bits) == Ok::<Seq<InputOOBAction>, ParseError>(a@),
            r matches Err(e) ==> e == ParseError::InvalidValue,
    {
        proof { lemma_low_bits(bits); }
        if bits & 0b1111111111110000 != 0 {
            return Err(ParseError::InvalidValue);
        }
        let mut actions = InputOOBActions::new();
        if bits & 0b00000001 == 1 {
            if actions.push(InputOOBAction::Push).is_err() {
                return Err(ParseError::InsufficientBuffer);
            }
        }
        if bits & 0b00000010 == 1 {
            if actions.push(InputOOBAction::Twist).is_err() {
                return Err(ParseError::InsufficientBuffer);
            }
        }
        if bits & 0b00000100 == 1 {
            if actions.push(InputOOBAction::InputNumeric).is_err() {
                return Err(ParseError::InsufficientBuffer);
            }
        }
        if bits & 0b00001000 == 1 {
            if actions.push(InputOOBAction::InputAlphanumeric).is_err() {
                return Err(ParseError::InsufficientBuffer);
            }
        }
        assert(actions@ =~= Self::spec_parse(bits).unwrap());
        Ok(actions)
    }

    /// The field announcing these actions.
    pub fn bits(&self) -> (b: u16)
        ensures
            b == Self::spec_bits(self@),
    {
        let mut bits: u16 = 0;
        let mut i: usize = 0;
        while i < self.0.len()
            invariant
                0 <= i <= self.0@.len(),
                bits == Self::spec_bits(self.0@.take(i as int)),
            decreases self.0@.len() - i,
        {
            assert(self.0@.take(i + 1).drop_last() =~= self.0@.take(i as int));
            bits = bits | self.0[i].bit();
            i = i + 1;
        }
        assert(self.0@.take(i as int) =~= self.0@);
        bits
    }

    /// The two bytes of the field announcing these actions.
    pub fn encode(&self) -> (v: Vec<u8>)
        ensures
            v@ == be16_bytes(Self::spec_bits(self@)),
    {
        let b = to_be16(self.bits());
        let v = vec![b[0], b[1]];
        assert(v@ =~= be16_bytes(Self::spec_bits(self@)));
        v
    }

    /// Appends the field announcing these actions.
    pub fn emit(&self, xmit: &mut ByteBuf) -> (r: Result<(), InsufficientBuffer>)
        ensures
            final(xmit).cap() == old(xmit).cap(),
            appended(old(xmit)@, final(xmit)@, old(xmit).cap(), be16_bytes(Self::spec_bits(self@)), r is Ok),
    {
        xmit.extend_from_slice(self.encode().as_slice())
    }

    /// A copy of this list.
    pub fn duplicate(&self) -> (a: Self)
        ensures
            a@ == self@,
    {
        proof { use_type_invariant(self); }
        InputOOBActions(self.0.clone())
    }
}

impl Default for InputOOBActions {
    fn default() -> (a: Self)
        ensures
            a@ == Seq::<InputOOBAction>::empty(),
    {
        Self::new()
    }
}

/// The out-of-band action the provisioner chose.
#[derive(PartialEq, Eq, Structural, Clone, Copy, Debug)]
pub enum OOBAction {
    NoAction,
    Output(OutputOOBAction),
    Input(InputOOBAction),
}

impl OOBAction {
    /// The action an octet denotes under `method`: none (and the octet
    /// zero) without out-of-band actions, else an output or input action.
    pub open spec fn spec_parse(method: AuthenticationMethod, octet: u8) -> Result<OOBAction, ParseError> {
        match method {
            AuthenticationMethod::NoOOBAuthentication | AuthenticationMethod::StaticOOBAuthentication => {
                if octet != 0 { Err(ParseError::InvalidValue) } else { Ok(OOBAction::NoAction) }
            }
            AuthenticationMethod::OutputOOBAuthentication => match OutputOOBAction::spec_parse(octet) {
                Ok(a) => Ok(OOBAction::Output(a)),
                Err(e) => Err(e),
            },
            AuthenticationMethod::InputOOBAuthentication => match InputOOBAction::spec_parse(octet) {
                Ok(a) => Ok(OOBAction::Input(a)),
                Err(e) => Err(e),
            },
        }
    }

    /// The bytes of this action in a start PDU: one zero octet for none,
    /// else the two bytes of the action's bit.
    pub open spec fn spec_bytes(self) -> Seq<u8> {
        match self {
            OOBAction::NoAction => seq![0x00u8],
            OOBAction::Output(a) => be16_bytes(a.spec_bit()),
            OOBAction::Input(a) => be16_bytes(a.spec_bit()),
        }
    }

    /// Reads the action under `method`.
    pub fn parse(method: &AuthenticationMethod, octet: u8) -> (r: Result<Self, ParseError>)
        ensures
            r == Self::spec_parse(*method, octet),
    {
        match method {
            AuthenticationMethod::NoOOBAuthentication | AuthenticationMethod::StaticOOBAuthentication => {
                if octet != 0 {
                    Err(ParseError::InvalidValue)
                } else {
                    Ok(Self::NoAction)
                }
            }
            AuthenticationMethod::OutputOOBAuthentication => Ok(Self::Output(OutputOOBAction::parse(octet)?)),
            AuthenticationMethod::InputOOBAuthentication => Ok(Self::Input(InputOOBAction::parse(octet)?)),
        }
    }

    /// The bytes of this action.
    pub fn encode(&self) -> (v: Vec<u8>)
        ensures
            v@ == self.spec_bytes(),
    {
        match self {
            OOBAction::NoAction => {
                let v = vec![0x00u8];
                assert(v@ =~= self.spec_bytes());
                v
            }
            OOBAction::Output(action) => action.encode(),
            OOBAction::Input(action) => action.encode(),
        }
    }

    /// Appends the bytes of this action.
    pub fn emit(&self, xmit: &mut ByteBuf) -> (r: Result<(), InsufficientBuffer>)
        ensures
            final(xmit).cap() == old(xmit).cap(),
            appended(old(xmit)@, final(xmit)@, old(xmit).cap(), self.spec_bytes(), r is Ok),
    {
        xmit.extend_from_slice(self.encode().as_slice())
    }
}

/// How the provisioner authenticates the device.
#[derive(PartialEq, Eq, Structural, Clone, Copy, Debug)]
pub enum AuthenticationMethod {
    NoOOBAuthentication,
    StaticOOBAuthentication,
    OutputOOBAuthentication,
    InputOOBAuthentication,
}

impl AuthenticationMethod {
    pub open spec fn spec_code(self) -> u8 {
        match self {
            AuthenticationMethod::NoOOBAuthentication => 0x00,
            AuthenticationMethod::StaticOOBAuthentication => 0x01,
            AuthenticationMethod::OutputOOBAuthentication => 0x02,
            AuthenticationMethod::InputOOBAuthentication => 0x03,
        }
    }

    pub open spec fn spec_parse(octet: u8) -> Result<AuthenticationMethod, ParseError> {
        if octet == 0 {
            Ok(AuthenticationMethod::NoOOBAuthentication)
        } else if octet == 1 {
            Ok(AuthenticationMethod::StaticOOBAuthentication)
        } else if octet == 2 {
            Ok(AuthenticationMethod::OutputOOBAuthentication)
        } else if octet == 3 {
            Ok(AuthenticationMethod::InputOOBAuthentication)
        } else {
            Err(ParseError::InvalidValue)
        }
    }

    pub open spec fn spec_bytes(self) -> Seq<u8> {
        seq![self.spec_code()]
    }

    /// Reads a method from its octet.
    pub fn parse(octet: u8) -> (r: Result<Self, ParseError>)
        ensures
            r == Self::spec_parse(octet),
    {
        match octet {
            0x00 => Ok(Self::NoOOBAuthentication),
            0x01 => Ok(Self::StaticOOBAuthentication),
            0x02 => Ok(Self::OutputOOBAuthentication),
            0x03 => Ok(Self::InputOOBAuthentication),
            _ => Err(ParseError::InvalidValue),
        }
    }

    /// The octet of this method.
    pub fn encode(&self) -> (v: Vec<u8>)
        ensures
            v@ == self.spec_bytes(),
    {
        let c: u8 = match self {
            AuthenticationMethod::NoOOBAuthentication => 0x00,
            AuthenticationMethod::StaticOOBAuthentication => 0x01,
            AuthenticationMethod::OutputOOBAuthentication => 0x02,
            AuthenticationMethod::InputOOBAuthentication => 0x03,
        };
        let v = vec![c];
        assert(v@ =~= self.spec_bytes());
        v
    }

    /// Appends the octet of this method.
    pub fn emit(&self, xmit: &mut ByteBuf) -> (r: Result<(), InsufficientBuffer>)
        ensures
            final(xmit).cap() == old(xmit).cap(),
            appended(old(xmit)@, final(xmit)@, old(xmit).cap(), self.spec_bytes(), r is Ok),
    {
        xmit.extend_from_slice(self.encode().as_slice())
    }
}

/// Why provisioning failed.
#[derive(PartialEq, Eq, Structural, Clone, Copy, Debug)]
pub enum ErrorCode {
    Prohibited,
    InvalidPDU,
    InvalidFormat,
    UnexpectedPDU,
    ConfirmationFailed,
    OutOfResources,
    DecryptionFailed,
    UnexpectedError,
    CannotAssignAddresses,
}

impl ErrorCode {
    pub open spec fn spec_parse(octet: u8) -> Result<ErrorCode, ParseError> {
        if octet == 0 {
            Ok(ErrorCode::Prohibited)
        } else if octet == 1 {
            Ok(ErrorCode::InvalidPDU)
        } else if octet == 2 {
            Ok(ErrorCode::InvalidFormat)
        } else if octet == 3 {
            Ok(ErrorCode::UnexpectedPDU)
        } else if octet == 4 {
            Ok(ErrorCode::ConfirmationFailed)
        } else if octet == 5 {
            Ok(ErrorCode::OutOfResources)
        } else if octet == 6 {
            Ok(ErrorCode::DecryptionFailed)
        } else if octet == 7 {
            Ok(ErrorCode::UnexpectedError)
        } else if octet == 8 {
            Ok(ErrorCode::CannotAssignAddresses)
        } else {
            Err(ParseError::InvalidValue)
        }
    }

    /// Reads an error code from its octet.
    pub fn parse(octet: u8) -> (r: Result<Self, ParseError>)
        ensures
            r == Self::spec_parse(octet),
    {
        match octet {
            0x00 => Ok(Self::Prohibited),
            0x01 => Ok(Self::InvalidPDU),
            0x02 => Ok(Self::InvalidFormat),
            0x03 => Ok(Self::UnexpectedPDU),
            0x04 => Ok(Self::ConfirmationFailed),
            0x05 => Ok(Self::OutOfResources),
            0x06 => Ok(Self::DecryptionFailed),
            0x07 => Ok(Self::UnexpectedError),
            0x08 => Ok(Self::CannotAssignAddresses),
            _ => Err(ParseError::InvalidValue),
        }
    }
}

/// Whether an OOB size reads back as itself: a maximum of one to eight.
pub open spec fn oob_size_recognised(size: OOBSize) -> bool {
    size matches OOBSize::MaximumSize(n) ==> 1 <= n <= 8
}

impl CapabilitiesView {
    /// Whether a reader recognises each field as it is written: at most one
    /// algorithm, output and input actions of blinking and pushing alone
    /// (the only ones it reads), and OOB sizes it accepts.
    pub open spec fn recognised(self) -> bool {
        &&& self.algorithms.len() <= 1
        &&& (self.output_oob_action == Seq::<OutputOOBAction>::empty() || self.output_oob_action == seq![
            OutputOOBAction::Blink,
        ])
        &&& (self.input_oob_action == Seq::<InputOOBAction>::empty() || self.input_oob_action == seq![
            InputOOBAction::Push,
        ])
        &&& oob_size_recognised(self.output_oob_size)
        &&& oob_size_recognised(self.input_oob_size)
    }
}

/// A provisioning PDU that a device sends is read back, by the same
/// parser, as the PDU it was written from; capabilities must hold only
/// what the reader recognises.
pub proof fn lemma_provisioning_pdu_roundtrip(pdu: ProvisioningPDU)
    requires
        pdu.emittable(),
        pdu matches ProvisioningPDU::Capabilities(c) ==> c@.recognised(),
    ensures
        ProvisioningPDU::parse_defined(pdu.spec_bytes()),
        ProvisioningPDU::spec_parse(pdu.spec_bytes()) == Ok::<ProvisioningPDUView, ParseError>(pdu@),
{
    let b = pdu.spec_bytes();
    match pdu {
        ProvisioningPDU::Capabilities(c) => {
            let v = c@;
            let a = Algorithms::spec_bits(v.algorithms);
            let o = OutputOOBActions::spec_bits(v.output_oob_action);
            let i = InputOOBActions::spec_bits(v.input_oob_action);
            crate::bytes::lemma_be16_roundtrip(a);
            crate::bytes::lemma_be16_roundtrip(o);
            crate::bytes::lemma_be16_roundtrip(i);
            assert(b.len() == 12);
            assert(be16(b[2], b[3]) == a);
            assert(be16(b[7], b[8]) == o);
            assert(be16(b[10], b[11]) == i);
            if v.algorithms.len() == 1 {
                assert(v.algorithms =~= seq![Algorithm::P256]);
            } else {
                assert(v.algorithms =~= Seq::<Algorithm>::empty());
            }
            assert((0u16 | 1u16) == 1u16) by (bit_vector);
            if v.output_oob_action.len() == 0 {
                assert(o == 0);
            } else {
                assert(v.output_oob_action.drop_last() =~= Seq::<OutputOOBAction>::empty());
                assert(OutputOOBActions::spec_bits(v.output_oob_action.drop_last()) == 0);
                assert(v.output_oob_action.last().spec_bit() == 1);
                assert(o == 1);
            }
            if v.input_oob_action.len() == 0 {
                assert(i == 0);
            } else {
                assert(v.input_oob_action.drop_last() =~= Seq::<InputOOBAction>::empty());
                assert(InputOOBActions::spec_bits(v.input_oob_action.drop_last()) == 0);
                assert(v.input_oob_action.last().spec_bit() == 1);
                assert(i == 1);
            }
            assert(OutputOOBActions::spec_parse(o) == Ok::<Seq<OutputOOBAction>, ParseError>(v.output_oob_action));
            assert(InputOOBActions::spec_parse(i) == Ok::<Seq<InputOOBAction>, ParseError>(v.input_oob_action));
        },
        ProvisioningPDU::PublicKey(pk) => {
            assert(b.subrange(1, 33) =~= pk.x@);
            assert(b.subrange(33, 65) =~= pk.y@);
        },
        ProvisioningPDU::Confirmation(c) => {
            assert(b.skip(1) =~= c.confirmation@);
        },
        ProvisioningPDU::Random(r) => {
            assert(b.skip(1) =~= r.random@);
        },
        _ => {},
    }
}

} // verus!
