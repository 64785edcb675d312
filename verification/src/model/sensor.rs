//! The sensor models: the descriptors of the sensors an element holds, and
//! the messages of the sensor server, client and setup server.
use vstd::prelude::*;
use crate::buffer::{appended, concat_parts, lemma_appended_err, lemma_appended_seq, lemma_parts_fail, lemma_parts_step, ByteBuf};
use crate::bytes::{be16, from_le16, lemma_be16_roundtrip, le16_bytes, to_le16};
use crate::model::{Message, Model, ModelIdentifier};
use crate::pdu::access::Opcode;
use crate::pdu::ParseError;
use crate::InsufficientBuffer;

verus! {

/// The identifier of the sensor server.
#[verifier::allow_in_spec]
pub fn sensor_server() -> ModelIdentifier
    returns
        ModelIdentifier::SIG(0x1100),
{
    ModelIdentifier::SIG(0x1100)
}

/// The identifier of the sensor setup server.
#[verifier::allow_in_spec]
pub fn sensor_setup_server() -> ModelIdentifier
    returns
        ModelIdentifier::SIG(0x1101),
{
    ModelIdentifier::SIG(0x1101)
}

/// The identifier of the sensor client.
#[verifier::allow_in_spec]
pub fn sensor_client() -> ModelIdentifier
    returns
        ModelIdentifier::SIG(0x1102),
{
    ModelIdentifier::SIG(0x1102)
}

/// Opcode of the Sensor Descriptor Get message.
#[verifier::allow_in_spec]
pub fn sensor_descriptor_get() -> Opcode
    returns
        Opcode::TwoOctet(0x82, 0x30),
{
    Opcode::TwoOctet(0x82, 0x30)
}

/// Opcode of the Sensor Descriptor Status message.
#[verifier::allow_in_spec]
pub fn sensor_descriptor_status() -> Opcode
    returns
        Opcode::OneOctet(0x51),
{
    Opcode::OneOctet(0x51)
}

/// Opcode of the Sensor Get message.
#[verifier::allow_in_spec]
pub fn sensor_get() -> Opcode
    returns
        Opcode::TwoOctet(0x82, 0x31),
{
    Opcode::TwoOctet(0x82, 0x31)
}

/// Opcode of the Sensor Status message.
#[verifier::allow_in_spec]
pub fn sensor_status() -> Opcode
    returns
        Opcode::OneOctet(0x52),
{
    Opcode::OneOctet(0x52)
}

/// Opcode of the Sensor Column Get message.
#[verifier::allow_in_spec]
pub fn sensor_column_get() -> Opcode
    returns
        Opcode::TwoOctet(0x82, 0x32),
{
    Opcode::TwoOctet(0x82, 0x32)
}

/// Opcode of the Sensor Column Status message.
#[verifier::allow_in_spec]
pub fn sensor_column_status() -> Opcode
    returns
        Opcode::OneOctet(0x53),
{
    Opcode::OneOctet(0x53)
}

/// Opcode of the Sensor Series Get message.
#[verifier::allow_in_spec]
pub fn sensor_series_get() -> Opcode
    returns
        Opcode::TwoOctet(0x82, 0x33),
{
    Opcode::TwoOctet(0x82, 0x33)
}

/// Opcode of the Sensor Series Status message.
#[verifier::allow_in_spec]
pub fn sensor_series_status() -> Opcode
    returns
        Opcode::OneOctet(0x54),
{
    Opcode::OneOctet(0x54)
}

/// Opcode of the Sensor Cadence Get message.
#[verifier::allow_in_spec]
pub fn sensor_cadence_get() -> Opcode
    returns
        Opcode::TwoOctet(0x82, 0x34),
{
    Opcode::TwoOctet(0x82, 0x34)
}

/// Opcode of the Sensor Cadence Set message.
#[verifier::allow_in_spec]
pub fn sensor_cadence_set() -> Opcode
    returns
        Opcode::OneOctet(0x55),
{
    Opcode::OneOctet(0x55)
}

/// Opcode of the Sensor Cadence Set Unacknowledged message.
#[verifier::allow_in_spec]
pub fn sensor_cadence_set_unacknowledged() -> Opcode
    returns
        Opcode::OneOctet(0x56),
{
    Opcode::OneOctet(0x56)
}

/// Opcode of the Sensor Cadence Status message.
#[verifier::allow_in_spec]
pub fn sensor_cadence_status() -> Opcode
    returns
        Opcode::OneOctet(0x57),
{
    Opcode::OneOctet(0x57)
}

/// Opcode of the Sensor Settings Get message.
#[verifier::allow_in_spec]
pub fn sensor_settings_get() -> Opcode
    returns
        Opcode::TwoOctet(0x82, 0x35),
{
    Opcode::TwoOctet(0x82, 0x35)
}

/// Opcode of the Sensor Settings Status message.
#[verifier::allow_in_spec]
pub fn sensor_settings_status() -> Opcode
    returns
        Opcode::OneOctet(0x58),
{
    Opcode::OneOctet(0x58)
}

/// Opcode of the Sensor Setting Get message.
#[verifier::allow_in_spec]
pub fn sensor_setting_get() -> Opcode
    returns
        Opcode::TwoOctet(0x82, 0x36),
{
    Opcode::TwoOctet(0x82, 0x36)
}

/// Opcode of the Sensor Setting Set message.
#[verifier::allow_in_spec]
pub fn sensor_setting_set() -> Opcode
    returns
        Opcode::OneOctet(0x59),
{
    Opcode::OneOctet(0x59)
}

/// Opcode of the Sensor Setting Set Unacknowledged message.
#[verifier::allow_in_spec]
pub fn sensor_setting_set_unacknowledged() -> Opcode
    returns
        Opcode::OneOctet(0x5A),
{
    Opcode::OneOctet(0x5A)
}

/// Opcode of the Sensor Setting Status message.
#[verifier::allow_in_spec]
pub fn sensor_setting_status() -> Opcode
    returns
        Opcode::OneOctet(0x5B),
{
    Opcode::OneOctet(0x5B)
}

/// A device property, by its 16-bit identifier.
#[derive(PartialEq, Eq, Structural, Clone, Copy, Debug)]
pub struct PropertyId(pub u16);

impl PropertyId {
    /// The two bytes of this identifier, least significant first.
    pub open spec fn spec_bytes(self) -> Seq<u8> {
        le16_bytes(self.0)
    }

    /// The identifier in the first two bytes of `data`.
    pub open spec fn spec_parse(data: Seq<u8>) -> Result<PropertyId, ParseError> {
        if data.len() < 2 {
            Err(ParseError::InvalidLength)
        } else {
            Ok(PropertyId(be16(data[1], data[0])))
        }
    }

    /// The bytes of this identifier.
    pub fn encode(&self) -> (v: Vec<u8>)
        ensures
            v@ == self.spec_bytes(),
    {
        let b = to_le16(self.0);
        let v = vec![b[0], b[1]];
        assert(v@ =~= self.spec_bytes());
        v
    }

    /// Appends the two bytes of this identifier.
    pub fn emit_parameters(&self, xmit: &mut ByteBuf) -> (r: Result<(), InsufficientBuffer>)
        ensures
            final(xmit).cap() == old(xmit).cap(),
            appended(old(xmit)@, final(xmit)@, old(xmit).cap(), self.spec_bytes(), r is Ok),
    {
        xmit.extend_from_slice(self.encode().as_slice())
    }

    /// Reads an identifier from the first two bytes of `data`.
    pub fn parse(data: &[u8]) -> (r: Result<Self, ParseError>)
        ensures
            r == Self::spec_parse(data@),
    {
        if data.len() < 2 {
            Err(ParseError::InvalidLength)
        } else {
            Ok(Self(from_le16(data[0], data[1])))
        }
    }
}

/// A raw sensor value, as many bytes as its descriptor gives.
#[derive(Clone, Debug)]
pub struct RawValue(pub Vec<u8>);

impl RawValue {
    /// Appends the bytes of this value.
    pub fn emit_parameters(&self, xmit: &mut ByteBuf) -> (r: Result<(), InsufficientBuffer>)
        ensures
            final(xmit).cap() == old(xmit).cap(),
            appended(old(xmit)@, final(xmit)@, old(xmit).cap(), self.0@, r is Ok),
    {
        xmit.extend_from_slice(self.0.as_slice())
    }
}

/// A 12-bit measurement tolerance.
#[derive(PartialEq, Eq, Structural, Clone, Copy, Debug)]
pub struct Tolerance(pub u16);

/// How a sensor samples its measurements.
#[derive(PartialEq, Eq, Structural, Clone, Copy, Debug)]
pub enum SamplingFunction {
    Unspecified,
    Instantaneous,
    ArithmeticMean,
    RMS,
    Maximum,
    Minimum,
    Accumulated,
    Count,
}

impl SamplingFunction {
    /// The octet of this sampling function.
    pub open spec fn spec_code(self) -> u8 {
        match self {
            SamplingFunction::Unspecified => 0x00,
            SamplingFunction::Instantaneous => 0x01,
            SamplingFunction::ArithmeticMean => 0x02,
            SamplingFunction::RMS => 0x03,
            SamplingFunction::Maximum => 0x04,
            SamplingFunction::Minimum => 0x05,
            SamplingFunction::Accumulated => 0x06,
            SamplingFunction::Count => 0x07,
        }
    }

    /// The octet of this sampling function.
    pub fn code(&self) -> (c: u8)
        ensures
            c == self.spec_code(),
    {
        match self {
            SamplingFunction::Unspecified => 0x00,
            SamplingFunction::Instantaneous => 0x01,
            SamplingFunction::ArithmeticMean => 0x02,
            SamplingFunction::RMS => 0x03,
            SamplingFunction::Maximum => 0x04,
            SamplingFunction::Minimum => 0x05,
            SamplingFunction::Accumulated => 0x06,
            SamplingFunction::Count => 0x07,
        }
    }

    /// Appends the octet of this sampling function.
    pub fn emit_parameters(&self, xmit: &mut ByteBuf) -> (r: Result<(), InsufficientBuffer>)
        ensures
            final(xmit).cap() == old(xmit).cap(),
            appended(old(xmit)@, final(xmit)@, old(xmit).cap(), seq![self.spec_code()], r is Ok),
    {
        xmit.push(self.code())
    }
}

/// What a sensor measures and how: its property, tolerances, sampling,
/// the periods (in whole seconds) of its measurements and updates, and the
/// sizes of its values and of the raw values of its series columns.
#[derive(PartialEq, Eq, Structural, Clone, Copy, Debug)]
pub struct SensorDescriptor {
    pub id: PropertyId,
    pub positive_tolerance: Tolerance,
    pub negative_tolerance: Tolerance,
    pub sampling_function: SamplingFunction,
    pub measurement_period: Option<u64>,
    pub update_interval: Option<u64>,
    pub size: usize,
    pub x_size: usize,
}

/// The three bytes that carry two 12-bit tolerances: the low byte of the
/// positive one; its high byte shifted up a nibble, or-ed with the low
/// byte of the negative one; the high byte of the negative one.
pub open spec fn tolerance_bytes(positive: Tolerance, negative: Tolerance) -> Seq<u8> {
    seq![
        le16_bytes(positive.0)[0],
        (le16_bytes(positive.0)[1] << 4u8) | le16_bytes(negative.0)[0],
        le16_bytes(negative.0)[1],
    ]
}

/// The octet that announces a period: its code when there is one, else 0.
pub open spec fn period_octet(period: Option<u64>, code: u8) -> u8 {
    if period is Some { code } else { 0 }
}

impl SensorDescriptor {
    /// A descriptor of `size`-byte values of property `id`: no tolerances,
    /// an unspecified sampling function, no periods and no series.
    pub fn new(id: PropertyId, size: usize) -> (d: Self)
        ensures
            d.id == id,
            d.positive_tolerance == Tolerance(0),
            d.negative_tolerance == Tolerance(0),
            d.sampling_function == SamplingFunction::Unspecified,
            d.measurement_period is None,
            d.update_interval is None,
            d.size == size,
            d.x_size == 0,
    {
        Self {
            id,
            positive_tolerance: Tolerance(0),
            negative_tolerance: Tolerance(0),
            sampling_function: SamplingFunction::Unspecified,
            measurement_period: None,
            update_interval: None,
            size,
            x_size: 0,
        }
    }

    /// The eight bytes of this descriptor, given the codes of its
    /// measurement period and update interval.
    pub open spec fn spec_bytes(self, measurement_code: u8, update_code: u8) -> Seq<u8> {
        self.id.spec_bytes() + tolerance_bytes(self.positive_tolerance, self.negative_tolerance) + seq![
            self.sampling_function.spec_code(),
            period_octet(self.measurement_period, measurement_code),
            period_octet(self.update_interval, update_code),
        ]
    }

    /// The bytes of this descriptor. A period is announced by its code: the
    /// base-1.1 logarithm of its seconds plus 64, which the caller computes
    /// (in floating point) and passes as `measurement_code` and
    /// `update_code`; an absent period is announced as 0.
    pub fn encode(&self, measurement_code: u8, update_code: u8) -> (v: Vec<u8>)
        ensures
            v@ == self.spec_bytes(measurement_code, update_code),
    {
        let mut v = self.id.encode();
        let p = to_le16(self.positive_tolerance.0);
        let n = to_le16(self.negative_tolerance.0);
        v.push(p[0]);
        v.push((p[1] << 4) | n[0]);
        v.push(n[1]);
        v.push(self.sampling_function.code());
        v.push(match self.measurement_period {
            Some(_) => measurement_code,
            None => 0,
        });
        v.push(match self.update_interval {
            Some(_) => update_code,
            None => 0,
        });
        assert(v@ =~= self.spec_bytes(measurement_code, update_code));
        v
    }

    /// Appends the bytes of this descriptor, with the codes of its periods.
    pub fn emit_parameters(&self, measurement_code: u8, update_code: u8, xmit: &mut ByteBuf) -> (r: Result<
        (),
        InsufficientBuffer,
    >)
        ensures
            final(xmit).cap() == old(xmit).cap(),
            appended(old(xmit)@, final(xmit)@, old(xmit).cap(), self.spec_bytes(measurement_code, update_code), r is Ok),
    {
        xmit.extend_from_slice(self.encode(measurement_code, update_code).as_slice())
    }
}

/// The cadence a sensor supports: its property and the size of its
/// cadence values.
#[derive(PartialEq, Eq, Structural, Clone, Copy, Debug)]
pub struct CadenceDescriptor {
    pub id: PropertyId,
    pub size: usize,
}

/// A setting of a sensor: the sensor's property, the setting's property
/// and the size of its values.
#[derive(PartialEq, Eq, Structural, Clone, Copy, Debug)]
pub struct SettingDescriptor {
    pub sensor: PropertyId,
    pub setting: PropertyId,
    pub size: usize,
}

/// The index of the first descriptor of property `p`, or the length of
/// `s` when there is none.
pub open spec fn descriptor_index(s: Seq<SensorDescriptor>, p: PropertyId) -> int
    decreases s.len(),
{
    if s.len() == 0 {
        0
    } else if s[0].id == p {
        0
    } else {
        1 + descriptor_index(s.skip(1), p)
    }
}

/// The index of the first cadence descriptor of property `p`, or the
/// length of `s`.
pub open spec fn cadence_index(s: Seq<CadenceDescriptor>, p: PropertyId) -> int
    decreases s.len(),
{
    if s.len() == 0 {
        0
    } else if s[0].id == p {
        0
    } else {
        1 + cadence_index(s.skip(1), p)
    }
}

/// The index of the first descriptor of setting `setting` of sensor `p`,
/// or the length of `s`.
pub open spec fn setting_index(s: Seq<SettingDescriptor>, p: PropertyId, setting: PropertyId) -> int
    decreases s.len(),
{
    if s.len() == 0 {
        0
    } else if s[0].sensor == p && s[0].setting == setting {
        0
    } else {
        1 + setting_index(s.skip(1), p, setting)
    }
}

/// The first descriptor of property `p` is where the index points.
proof fn lemma_descriptor_index(s: Seq<SensorDescriptor>, p: PropertyId)
    ensures
        0 <= descriptor_index(s, p) <= s.len(),
        descriptor_index(s, p) < s.len() ==> s[descriptor_index(s, p)].id == p,
        forall|j: int| 0 <= j < descriptor_index(s, p) ==> (#[trigger] s[j]).id != p,
    decreases s.len(),
{
    if s.len() > 0 && s[0].id != p {
        lemma_descriptor_index(s.skip(1), p);
        assert forall|j: int| 0 <= j < descriptor_index(s, p) implies (#[trigger] s[j]).id != p by {
            if j > 0 {
                assert(s[j] == s.skip(1)[j - 1]);
            }
        }
    }
}

/// The first cadence descriptor of property `p` is where the index points.
proof fn lemma_cadence_index(s: Seq<CadenceDescriptor>, p: PropertyId)
    ensures
        0 <= cadence_index(s, p) <= s.len(),
        cadence_index(s, p) < s.len() ==> s[cadence_index(s, p)].id == p,
        forall|j: int| 0 <= j < cadence_index(s, p) ==> (#[trigger] s[j]).id != p,
    decreases s.len(),
{
    if s.len() > 0 && s[0].id != p {
        lemma_cadence_index(s.skip(1), p);
        assert forall|j: int| 0 <= j < cadence_index(s, p) implies (#[trigger] s[j]).id != p by {
            if j > 0 {
                assert(s[j] == s.skip(1)[j - 1]);
            }
        }
    }
}

/// The first descriptor of a setting is where the index points.
proof fn lemma_setting_index(s: Seq<SettingDescriptor>, p: PropertyId, setting: PropertyId)
    ensures
        0 <= setting_index(s, p, setting) <= s.len(),
        setting_index(s, p, setting) < s.len() ==> s[setting_index(s, p, setting)].sensor == p
            && s[setting_index(s, p, setting)].setting == setting,
        forall|j: int|
            0 <= j < setting_index(s, p, setting) ==> !((#[trigger] s[j]).sensor == p && s[j].setting == setting),
    decreases s.len(),
{
    if s.len() > 0 && !(s[0].sensor == p && s[0].setting == setting) {
        lemma_setting_index(s.skip(1), p, setting);
        assert forall|j: int| 0 <= j < setting_index(s, p, setting) implies !((#[trigger] s[j]).sensor == p
            && s[j].setting == setting) by {
            if j > 0 {
                assert(s[j] == s.skip(1)[j - 1]);
            }
        }
    }
}

/// The first descriptor of property `p`.
pub fn lookup_descriptor(descriptors: &[SensorDescriptor], p: PropertyId) -> (r: Option<&SensorDescriptor>)
    ensures
        0 <= descriptor_index(descriptors@, p) <= descriptors@.len(),
        descriptor_index(descriptors@, p) < descriptors@.len() ==> r == Some(
            &descriptors@[descriptor_index(descriptors@, p)],
        ),
        descriptor_index(descriptors@, p) == descriptors@.len() ==> r is None,
{
    proof { lemma_descriptor_index(descriptors@, p); }
    let mut i: usize = 0;
    while i < descriptors.len()
        invariant
            i <= descriptors@.len(),
            0 <= descriptor_index(descriptors@, p) <= descriptors@.len(),
            descriptor_index(descriptors@, p) < descriptors@.len() ==> descriptors@[descriptor_index(descriptors@, p)].id == p,
            forall|j: int| 0 <= j < descriptor_index(descriptors@, p) ==> (#[trigger] descriptors@[j]).id != p,
            forall|j: int| 0 <= j < i ==> (#[trigger] descriptors@[j]).id != p,
        decreases descriptors@.len() - i,
    {
        if descriptors[i].id == p {
            return Some(&descriptors[i]);
        }
        i = i + 1;
    }
    None
}

/// The first cadence descriptor of property `p`.
pub fn lookup_cadence_descriptor(descriptors: &[CadenceDescriptor], p: PropertyId) -> (r: Option<&CadenceDescriptor>)
    ensures
        0 <= cadence_index(descriptors@, p) <= descriptors@.len(),
        cadence_index(descriptors@, p) < descriptors@.len() ==> r == Some(&descriptors@[cadence_index(descriptors@, p)]),
        cadence_index(descriptors@, p) == descriptors@.len() ==> r is None,
{
    proof { lemma_cadence_index(descriptors@, p); }
    let mut i: usize = 0;
    while i < descriptors.len()
        invariant
            i <= descriptors@.len(),
            0 <= cadence_index(descriptors@, p) <= descriptors@.len(),
            cadence_index(descriptors@, p) < descriptors@.len() ==> descriptors@[cadence_index(descriptors@, p)].id == p,
            forall|j: int| 0 <= j < cadence_index(descriptors@, p) ==> (#[trigger] descriptors@[j]).id != p,
            forall|j: int| 0 <= j < i ==> (#[trigger] descriptors@[j]).id != p,
        decreases descriptors@.len() - i,
    {
        if descriptors[i].id == p {
            return Some(&descriptors[i]);
        }
        i = i + 1;
    }
    None
}

/// The first descriptor of setting `s` of sensor `p`.
pub fn lookup_setting_descriptor(descriptors: &[SettingDescriptor], p: PropertyId, s: PropertyId) -> (r: Option<
    &SettingDescriptor,
>)
    ensures
        0 <= setting_index(descriptors@, p, s) <= descriptors@.len(),
        setting_index(descriptors@, p, s) < descriptors@.len() ==> r == Some(
            &descriptors@[setting_index(descriptors@, p, s)],
        ),
        setting_index(descriptors@, p, s) == descriptors@.len() ==> r is None,
{
    proof { lemma_setting_index(descriptors@, p, s); }
    let mut i: usize = 0;
    while i < descriptors.len()
        invariant
            i <= descriptors@.len(),
            0 <= setting_index(descriptors@, p, s) <= descriptors@.len(),
            setting_index(descriptors@, p, s) < descriptors@.len() ==> descriptors@[setting_index(descriptors@, p, s)].sensor
                == p && descriptors@[setting_index(descriptors@, p, s)].setting == s,
            forall|j: int|
                0 <= j < setting_index(descriptors@, p, s) ==> !((#[trigger] descriptors@[j]).sensor == p
                    && descriptors@[j].setting == s),
            forall|j: int| 0 <= j < i ==> !((#[trigger] descriptors@[j]).sensor == p && descriptors@[j].setting == s),
        decreases descriptors@.len() - i,
    {
        if descriptors[i].sensor == p && descriptors[i].setting == s {
            return Some(&descriptors[i]);
        }
        i = i + 1;
    }
    None
}

/// The bytes of an optional property: none when it is absent.
pub open spec fn optional_id_bytes(id: Option<PropertyId>) -> Seq<u8> {
    match id {
        Some(i) => i.spec_bytes(),
        None => Seq::empty(),
    }
}

/// The property that the parameters of a get message name, if they hold
/// any bytes.
pub open spec fn spec_parse_optional_id(p: Seq<u8>) -> Result<Option<PropertyId>, ParseError> {
    if p.len() > 0 {
        match PropertyId::spec_parse(p) {
            Ok(id) => Ok(Some(id)),
            Err(e) => Err(e),
        }
    } else {
        Ok(None)
    }
}

fn parse_optional_id(parameters: &[u8]) -> (r: Result<Option<PropertyId>, ParseError>)
    ensures
        r == spec_parse_optional_id(parameters@),
{
    if parameters.len() > 0 {
        Ok(Some(PropertyId::parse(parameters)?))
    } else {
        Ok(None)
    }
}

fn emit_optional_id(id: &Option<PropertyId>, xmit: &mut ByteBuf) -> (r: Result<(), InsufficientBuffer>)
    ensures
        final(xmit).cap() == old(xmit).cap(),
        appended(old(xmit)@, final(xmit)@, old(xmit).cap(), optional_id_bytes(*id), r is Ok),
{
    match id {
        Some(i) => i.emit_parameters(xmit),
        None => {
            let empty: [u8; 0] = [];
            assert(empty@ =~= Seq::<u8>::empty());
            xmit.extend_from_slice(&empty)
        },
    }
}

/// A request for the descriptor of one property, or of all.
#[derive(PartialEq, Eq, Structural, Clone, Copy, Debug)]
pub struct DescriptorGet {
    pub id: Option<PropertyId>,
}

impl DescriptorGet {
    /// The request that `p` denotes.
    pub open spec fn spec_parse(p: Seq<u8>) -> Result<DescriptorGet, ParseError> {
        match spec_parse_optional_id(p) {
            Ok(id) => Ok(DescriptorGet { id }),
            Err(e) => Err(e),
        }
    }

    /// Reads a request: a property when there are parameters, else none.
    pub fn parse(parameters: &[u8]) -> (r: Result<Self, ParseError>)
        ensures
            r == Self::spec_parse(parameters@),
    {
        let id = parse_optional_id(parameters)?;
        Ok(Self { id })
    }

    /// The bytes of this request.
    pub open spec fn spec_bytes(self) -> Seq<u8> {
        optional_id_bytes(self.id)
    }

    /// Appends the property, if any.
    pub fn emit_parameters(&self, xmit: &mut ByteBuf) -> (r: Result<(), InsufficientBuffer>)
        ensures
            final(xmit).cap() == old(xmit).cap(),
            appended(old(xmit)@, final(xmit)@, old(xmit).cap(), self.spec_bytes(), r is Ok),
    {
        emit_optional_id(&self.id, xmit)
    }
}

/// The answer to a descriptor request: the property asked for is not
/// known, or the descriptors.
pub enum DescriptorStatus {
    NotFound(PropertyId),
    Descriptors(Vec<SensorDescriptor>),
}

/// The bytes of each descriptor with the codes of its periods.
pub open spec fn descriptor_parts(ds: Seq<SensorDescriptor>, codes: Seq<(u8, u8)>) -> Seq<Seq<u8>> {
    Seq::new(ds.len(), |i: int| ds[i].spec_bytes(codes[i].0, codes[i].1))
}

impl DescriptorStatus {
    /// The bytes of this status, given the codes of each descriptor's
    /// periods.
    pub open spec fn spec_bytes(&self, codes: Seq<(u8, u8)>) -> Seq<u8> {
        match self {
            DescriptorStatus::NotFound(p) => p.spec_bytes(),
            DescriptorStatus::Descriptors(ds) => concat_parts(descriptor_parts(ds@, codes)),
        }
    }

    /// Appends the property not found, or each descriptor in turn; `codes`
    /// holds, for each descriptor, the codes of its measurement period and
    /// update interval (see [`SensorDescriptor::encode`]).
    pub fn emit_parameters(&self, codes: &[(u8, u8)], xmit: &mut ByteBuf) -> (r: Result<(), InsufficientBuffer>)
        requires
            self matches DescriptorStatus::Descriptors(ds) ==> codes@.len() == ds@.len(),
        ensures
            final(xmit).cap() == old(xmit).cap(),
            appended(old(xmit)@, final(xmit)@, old(xmit).cap(), self.spec_bytes(codes@), r is Ok),
    {
        match self {
            DescriptorStatus::NotFound(p) => p.emit_parameters(xmit),
            DescriptorStatus::Descriptors(ds) => {
                let ghost parts = descriptor_parts(ds@, codes@);
                assert(self.spec_bytes(codes@) == concat_parts(parts));
                xmit.within_capacity();
                let ghost s0 = xmit@;
                assert(parts.take(0) =~= Seq::<Seq<u8>>::empty());
                assert(s0 + concat_parts(parts.take(0)) =~= s0);
                let mut i: usize = 0;
                while i < ds.len()
                    invariant
                        i <= ds@.len(),
                        codes@.len() == ds@.len(),
                        parts == descriptor_parts(ds@, codes@),
                        self.spec_bytes(codes@) == concat_parts(parts),
                        xmit.cap() == old(xmit).cap(),
                        s0 == old(xmit)@,
                        appended(s0, xmit@, xmit.cap(), concat_parts(parts.take(i as int)), true),
                    decreases ds@.len() - i,
                {
                    let ghost s1 = xmit@;
                    let (m, u) = codes[i];
                    assert(parts[i as int] == ds@[i as int].spec_bytes(m, u));
                    let r = ds[i].emit_parameters(m, u, xmit);
                    if r.is_err() {
                        proof { lemma_parts_fail(s0, s1, xmit@, xmit.cap(), parts, i as int); }
                        return r;
                    }
                    proof { lemma_parts_step(s0, s1, xmit@, xmit.cap(), parts, i as int); }
                    i = i + 1;
                }
                assert(parts.take(ds@.len() as int) =~= parts);
                Ok(())
            },
        }
    }
}

/// A request for the values of one sensor, or of all.
#[derive(PartialEq, Eq, Structural, Clone, Copy, Debug)]
pub struct SensorGet {
    pub id: Option<PropertyId>,
}

impl SensorGet {
    /// The request that `p` denotes.
    pub open spec fn spec_parse(p: Seq<u8>) -> Result<SensorGet, ParseError> {
        match spec_parse_optional_id(p) {
            Ok(id) => Ok(SensorGet { id }),
            Err(e) => Err(e),
        }
    }

    /// Reads a request: a property when there are parameters, else none.
    pub fn parse(parameters: &[u8]) -> (r: Result<Self, ParseError>)
        ensures
            r == Self::spec_parse(parameters@),
    {
        let id = parse_optional_id(parameters)?;
        Ok(Self { id })
    }

    /// The bytes of this request.
    pub open spec fn spec_bytes(self) -> Seq<u8> {
        optional_id_bytes(self.id)
    }

    /// Appends the property, if any.
    pub fn emit_parameters(&self, xmit: &mut ByteBuf) -> (r: Result<(), InsufficientBuffer>)
        ensures
            final(xmit).cap() == old(xmit).cap(),
            appended(old(xmit)@, final(xmit)@, old(xmit).cap(), self.spec_bytes(), r is Ok),
    {
        emit_optional_id(&self.id, xmit)
    }
}

/// The values of the sensors of an element, which the application reads
/// from and writes into messages, property by property.
pub trait SensorData: Default {
    /// The bytes that encoding the value of `property` gives.
    spec fn spec_encoded(&self, property: PropertyId) -> Seq<u8>;

    /// Takes the value of `property` from its raw bytes.
    fn decode(&mut self, property: PropertyId, data: &[u8]) -> (r: Result<(), ParseError>);

    /// Appends the value of `property`.
    fn encode(&self, property: PropertyId, xmit: &mut ByteBuf) -> (r: Result<(), InsufficientBuffer>)
        ensures
            final(xmit).cap() == old(xmit).cap(),
            appended(old(xmit)@, final(xmit)@, old(xmit).cap(), self.spec_encoded(property), r is Ok),
    ;
}

/// Whether the marshalled property header at the start of `p` is in the
/// long format (its first bit set).
pub open spec fn header_long(p: Seq<u8>) -> bool {
    p[0] & 0x80u8 != 0
}

/// The value length that the header at the start of `p` announces: bits 3
/// to 6 in the short format, the low seven bits in the long one.
pub open spec fn header_length(p: Seq<u8>) -> nat {
    if !header_long(p) {
        ((p[0] & 0x78u8) >> 3u8) as nat
    } else {
        (p[0] & 0x7Fu8) as nat
    }
}

/// The property that the header at the start of `p` announces: in the
/// short format, the low three bits of the first byte or-ed with the
/// second; in the long format, the second and third bytes, most
/// significant first.
pub open spec fn header_id(p: Seq<u8>) -> u16 {
    if !header_long(p) {
        ((p[0] & 0x07u8) | p[1]) as u16
    } else {
        ((p[1] as u16) << 8u16) | (p[2] as u16)
    }
}

/// The length of the header at the start of `p`.
pub open spec fn header_offset(p: Seq<u8>) -> nat {
    if header_long(p) { 3 } else { 2 }
}

/// Whether `p` holds a whole header.
pub open spec fn header_readable(p: Seq<u8>) -> bool {
    p.len() >= 1 && p.len() >= header_offset(p)
}

/// Whether the header at the start of `p` announces the property and size
/// of descriptor `d`.
pub open spec fn header_matches(p: Seq<u8>, d: SensorDescriptor) -> bool {
    header_id(p) == d.id.0 && header_length(p) == d.size
}

/// The header that announces `size` bytes of property `id`: the short
/// format for an identifier below 2048 and at most 16 bytes, else the long
/// one, whose second byte repeats the low byte of the identifier.
pub open spec fn property_header(id: PropertyId, size: usize) -> Seq<u8> {
    if id.0 < 2048 && size <= 16 {
        seq![((size as u8) << 3u8) | (((id.0 & 0x0700u16) >> 8u16) as u8), (id.0 & 0xFFu16) as u8]
    } else {
        seq![0x80u8 | ((size as u8) & 0x7Fu8), (id.0 & 0xFFu16) as u8, (id.0 & 0xFFu16) as u8]
    }
}

/// The marshalled properties of a status: for each descriptor, its header
/// and the encoded value.
pub open spec fn status_parts<D: SensorData>(data: D, ds: Seq<SensorDescriptor>) -> Seq<Seq<u8>> {
    Seq::new(ds.len(), |i: int| property_header(ds[i].id, ds[i].size) + data.spec_encoded(ds[i].id))
}

/// The values of an element's sensors.
pub struct SensorStatus<D: SensorData> {
    pub data: D,
}

impl<D: SensorData> SensorStatus<D> {
    /// A status of these values.
    pub fn new(data: D) -> (s: Self)
        ensures
            s.data == data,
    {
        Self { data }
    }

    /// Reads the values of the sensors that `descriptors` describe, each
    /// decoded from the value after the header at the start of
    /// `parameters`: every descriptor must match that one header.
    pub fn parse(descriptors: &[SensorDescriptor], parameters: &[u8]) -> (r: Result<Self, ParseError>)
        requires
            descriptors@.len() > 0 ==> header_readable(parameters@),
            descriptors@.len() > 0 && header_matches(parameters@, descriptors@[0]) ==> header_offset(parameters@)
                + header_length(parameters@) <= parameters@.len(),
        ensures
            descriptors@.len() > 0 && !header_matches(parameters@, descriptors@[0]) ==> (r matches Err(e) && e
                == ParseError::InvalidValue),
            r is Ok ==> forall|i: int| 0 <= i < descriptors@.len() ==> header_matches(parameters@, #[trigger] descriptors@[i]),
    {
        let mut data = D::default();
        let mut i: usize = 0;
        while i < descriptors.len()
            invariant
                i <= descriptors@.len(),
                descriptors@.len() > 0 ==> header_readable(parameters@),
                descriptors@.len() > 0 && header_matches(parameters@, descriptors@[0]) ==> header_offset(parameters@)
                    + header_length(parameters@) <= parameters@.len(),
                forall|j: int| 0 <= j < i ==> header_matches(parameters@, #[trigger] descriptors@[j]),
            decreases descriptors@.len() - i,
        {
            let d = &descriptors[i];
            let first = parameters[0];
            let format = first & 0b1000_0000;
            let (length, id, offset): (usize, u16, usize) = if format == 0 {
                (((first & 0b0111_1000) >> 3) as usize, ((first & 0b0000_0111) | parameters[1]) as u16, 2)
            } else {
                ((first & 0b0111_1111) as usize, ((parameters[1] as u16) << 8) | parameters[2] as u16, 3)
            };
            assert(length == header_length(parameters@) && id == header_id(parameters@) && offset == header_offset(parameters@));
            if !(id == d.id.0 && d.size == length) {
                return Err(ParseError::InvalidValue);
            }
            assert(header_matches(parameters@, descriptors@[0]));
            let value = vstd::slice::slice_subrange(parameters, offset, offset + d.size);
            data.decode(d.id, value)?;
            i = i + 1;
        }
        Ok(Self { data })
    }

    /// Appends the header and the value of property `id`, of `size` bytes.
    pub fn emit_property(&self, id: PropertyId, size: usize, xmit: &mut ByteBuf) -> (r: Result<(), InsufficientBuffer>)
        ensures
            final(xmit).cap() == old(xmit).cap(),
            appended(
                old(xmit)@,
                final(xmit)@,
                old(xmit).cap(),
                property_header(id, size) + self.data.spec_encoded(id),
                r is Ok,
            ),
    {
        let len = size;
        let header: Vec<u8> = if id.0 < 2048 && len <= 16 {
            let value: u8 = (len as u8) << 3;
            let value: u8 = value | ((id.0 & 0x0700) >> 8) as u8;
            vec![value, (id.0 & 0xFF) as u8]
        } else {
            let value: u8 = 0x80;
            let value: u8 = value | len as u8 & 0x7F;
            vec![value, (id.0 & 0xFF00 >> 8) as u8, (id.0 & 0xFF) as u8]
        };
        assert(0xFF00u16 >> 8u16 == 0xFFu16) by (bit_vector);
        assert(header@ =~= property_header(id, size));
        let ghost s0 = xmit@;
        let r = xmit.extend_from_slice(header.as_slice());
        if r.is_err() {
            proof { lemma_appended_err(s0, xmit@, xmit.cap(), header@, self.data.spec_encoded(id)); }
            return r;
        }
        let ghost s1 = xmit@;
        let r = self.data.encode(id, xmit);
        proof { lemma_appended_seq(s0, s1, xmit@, xmit.cap(), header@, self.data.spec_encoded(id), r is Ok); }
        r
    }

    /// Appends the header and value of each property that `descriptors`
    /// describe, in order.
    pub fn emit_parameters(&self, descriptors: &[SensorDescriptor], xmit: &mut ByteBuf) -> (r: Result<(), InsufficientBuffer>)
        ensures
            final(xmit).cap() == old(xmit).cap(),
            appended(old(xmit)@, final(xmit)@, old(xmit).cap(), concat_parts(status_parts(self.data, descriptors@)), r is Ok),
    {
        let ghost parts = status_parts(self.data, descriptors@);
        xmit.within_capacity();
        let ghost s0 = xmit@;
        assert(parts.take(0) =~= Seq::<Seq<u8>>::empty());
        assert(s0 + concat_parts(parts.take(0)) =~= s0);
        let mut i: usize = 0;
        while i < descriptors.len()
            invariant
                i <= descriptors@.len(),
                parts == status_parts(self.data, descriptors@),
                xmit.cap() == old(xmit).cap(),
                s0 == old(xmit)@,
                appended(s0, xmit@, xmit.cap(), concat_parts(parts.take(i as int)), true),
            decreases descriptors@.len() - i,
        {
            let ghost s1 = xmit@;
            let d = &descriptors[i];
            assert(parts[i as int] == property_header(d.id, d.size) + self.data.spec_encoded(d.id));
            let r = self.emit_property(d.id, d.size, xmit);
            if r.is_err() {
                proof { lemma_parts_fail(s0, s1, xmit@, xmit.cap(), parts, i as int); }
                return r;
            }
            proof { lemma_parts_step(s0, s1, xmit@, xmit.cap(), parts, i as int); }
            i = i + 1;
        }
        assert(parts.take(descriptors@.len() as int) =~= parts);
        Ok(())
    }
}

/// The property named by the first two bytes of `p`, least significant
/// first.
pub open spec fn leading_id(p: Seq<u8>) -> PropertyId {
    PropertyId(be16(p[1], p[0]))
}

/// A request for the column of a sensor series that starts at raw value
/// `x`.
pub struct ColumnGet {
    pub id: PropertyId,
    pub x: RawValue,
}

impl ColumnGet {
    /// Whether reading `p` stays within its bytes: a known property must
    /// be followed by a whole raw value.
    pub open spec fn parse_defined(ds: Seq<SensorDescriptor>, p: Seq<u8>) -> bool {
        p.len() >= 2 && descriptor_index(ds, leading_id(p)) < ds.len() ==> p.len() >= 2
            + ds[descriptor_index(ds, leading_id(p))].x_size
    }

    /// Whether `r` is what reading `p` gives: the property, then as many
    /// bytes of raw value as its descriptor gives; an unknown property is
    /// refused.
    pub open spec fn parsed(ds: Seq<SensorDescriptor>, p: Seq<u8>, r: Result<ColumnGet, ParseError>) -> bool {
        if p.len() < 2 {
            r matches Err(e) && e == ParseError::InvalidLength
        } else {
            let i = descriptor_index(ds, leading_id(p));
            if i < ds.len() {
                r matches Ok(c) && c.id == leading_id(p) && c.x.0@ == p.subrange(2, 2 + ds[i].x_size)
            } else {
                r matches Err(e) && e == ParseError::InvalidValue
            }
        }
    }

    /// Reads a column request for one of the sensors of `descriptors`.
    pub fn parse(descriptors: &[SensorDescriptor], parameters: &[u8]) -> (r: Result<Self, ParseError>)
        requires
            Self::parse_defined(descriptors@, parameters@),
        ensures
            Self::parsed(descriptors@, parameters@, r),
    {
        let _len: usize = parameters.len();
        let id = PropertyId::parse(parameters)?;
        if let Some(d) = lookup_descriptor(descriptors, id) {
            let x_len = d.x_size;
            let x = vstd::slice::slice_to_vec(vstd::slice::slice_subrange(parameters, 2, 2 + x_len));
            Ok(Self { id, x: RawValue(x) })
        } else {
            Err(ParseError::InvalidValue)
        }
    }

    /// The bytes of this request.
    pub open spec fn spec_bytes(&self) -> Seq<u8> {
        self.id.spec_bytes() + self.x.0@
    }

    /// Appends the property and the raw value.
    pub fn emit_parameters(&self, xmit: &mut ByteBuf) -> (r: Result<(), InsufficientBuffer>)
        ensures
            final(xmit).cap() == old(xmit).cap(),
            appended(old(xmit)@, final(xmit)@, old(xmit).cap(), self.spec_bytes(), r is Ok),
    {
        let mut v = self.id.encode();
        let mut x = self.x.0.clone();
        v.append(&mut x);
        xmit.extend_from_slice(v.as_slice())
    }
}

/// A column of a sensor series: its raw value `x` and, when the column
/// exists, its width and value.
pub struct ColumnStatus {
    pub id: PropertyId,
    pub x: RawValue,
    pub values: Option<(RawValue, RawValue)>,
}

impl ColumnStatus {
    /// The bytes of this column.
    pub open spec fn spec_bytes(&self) -> Seq<u8> {
        self.id.spec_bytes() + self.x.0@ + match self.values {
            Some((w, y)) => w.0@ + y.0@,
            None => Seq::empty(),
        }
    }

    /// Appends the property, the raw value and, if any, the width and value.
    pub fn emit_parameters(&self, xmit: &mut ByteBuf) -> (r: Result<(), InsufficientBuffer>)
        ensures
            final(xmit).cap() == old(xmit).cap(),
            appended(old(xmit)@, final(xmit)@, old(xmit).cap(), self.spec_bytes(), r is Ok),
    {
        let mut v = self.id.encode();
        let mut x = self.x.0.clone();
        v.append(&mut x);
        if let Some((w, y)) = &self.values {
            let mut w = w.0.clone();
            let mut y = y.0.clone();
            v.append(&mut w);
            v.append(&mut y);
        }
        assert(v@ =~= self.spec_bytes());
        xmit.extend_from_slice(v.as_slice())
    }
}

/// A request for the columns of a sensor series, all of them or those
/// between two raw values.
pub struct SeriesGet {
    pub id: PropertyId,
    pub x: Option<(RawValue, RawValue)>,
}

impl SeriesGet {
    /// Whether reading `p` stays within its bytes: after a known property,
    /// any bytes must hold two whole raw values.
    pub open spec fn parse_defined(ds: Seq<SensorDescriptor>, p: Seq<u8>) -> bool {
        p.len() > 2 && descriptor_index(ds, leading_id(p)) < ds.len() ==> p.len() >= 2 + 2
            * ds[descriptor_index(ds, leading_id(p))].x_size
    }

    /// Whether `r` is what reading `p` gives: the property alone asks for
    /// all columns; after it, two raw values of the size its descriptor
    /// gives; more bytes about an unknown property are refused.
    pub open spec fn parsed(ds: Seq<SensorDescriptor>, p: Seq<u8>, r: Result<SeriesGet, ParseError>) -> bool {
        if p.len() < 2 {
            r matches Err(e) && e == ParseError::InvalidLength
        } else if p.len() == 2 {
            r matches Ok(g) && g.id == leading_id(p) && g.x is None
        } else {
            let i = descriptor_index(ds, leading_id(p));
            if i < ds.len() {
                let n = ds[i].x_size as int;
                &&& r matches Ok(g)
                &&& g.id == leading_id(p)
                &&& g.x matches Some((x1, x2)) && x1.0@ == p.subrange(2, 2 + n) && x2.0@ == p.subrange(2 + n, 2 + 2 * n)
            } else {
                r matches Err(e) && e == ParseError::InvalidValue
            }
        }
    }

    /// Reads a series request for one of the sensors of `descriptors`.
    pub fn parse(descriptors: &[SensorDescriptor], parameters: &[u8]) -> (r: Result<Self, ParseError>)
        requires
            Self::parse_defined(descriptors@, parameters@),
        ensures
            Self::parsed(descriptors@, parameters@, r),
    {
        let id = PropertyId::parse(parameters)?;
        if parameters.len() > 2 {
            if let Some(d) = lookup_descriptor(descriptors, id) {
                let x_len = d.x_size;
                let x1 = vstd::slice::slice_to_vec(vstd::slice::slice_subrange(parameters, 2, 2 + x_len));
                let x2 = vstd::slice::slice_to_vec(vstd::slice::slice_subrange(parameters, 2 + x_len, 2 + 2 * x_len));
                Ok(Self { id, x: Some((RawValue(x1), RawValue(x2))) })
            } else {
                Err(ParseError::InvalidValue)
            }
        } else {
            Ok(Self { id, x: None })
        }
    }

    /// The bytes of this request.
    pub open spec fn spec_bytes(&self) -> Seq<u8> {
        self.id.spec_bytes() + match self.x {
            Some((x1, x2)) => x1.0@ + x2.0@,
            None => Seq::empty(),
        }
    }

    /// Appends the property and, if any, the two raw values.
    pub fn emit_parameters(&self, xmit: &mut ByteBuf) -> (r: Result<(), InsufficientBuffer>)
        ensures
            final(xmit).cap() == old(xmit).cap(),
            appended(old(xmit)@, final(xmit)@, old(xmit).cap(), self.spec_bytes(), r is Ok),
    {
        let mut v = self.id.encode();
        if let Some((x1, x2)) = &self.x {
            let mut a = x1.0.clone();
            let mut b = x2.0.clone();
            v.append(&mut a);
            v.append(&mut b);
        }
        assert(v@ =~= self.spec_bytes());
        xmit.extend_from_slice(v.as_slice())
    }
}

/// The bytes of one column of a series: its raw value, width and value.
pub open spec fn column_bytes(c: (RawValue, RawValue, RawValue)) -> Seq<u8> {
    c.0.0@ + c.1.0@ + c.2.0@
}

/// The columns of a sensor series.
pub struct SeriesStatus {
    pub id: PropertyId,
    pub values: Vec<(RawValue, RawValue, RawValue)>,
}

impl SeriesStatus {
    /// The bytes of this series: the property, then each column.
    pub open spec fn spec_bytes(&self) -> Seq<u8> {
        self.id.spec_bytes() + concat_parts(Seq::new(self.values@.len(), |i: int| column_bytes(self.values@[i])))
    }

    /// Appends the property and each column in turn.
    pub fn emit_parameters(&self, xmit: &mut ByteBuf) -> (r: Result<(), InsufficientBuffer>)
        ensures
            final(xmit).cap() == old(xmit).cap(),
            appended(old(xmit)@, final(xmit)@, old(xmit).cap(), self.spec_bytes(), r is Ok),
    {
        let ghost parts = Seq::new(self.values@.len(), |i: int| column_bytes(self.values@[i]));
        let mut v = self.id.encode();
        assert(parts.take(0) =~= Seq::<Seq<u8>>::empty());
        assert(v@ =~= self.id.spec_bytes() + concat_parts(parts.take(0)));
        let mut i: usize = 0;
        while i < self.values.len()
            invariant
                i <= self.values@.len(),
                parts == Seq::new(self.values@.len(), |i: int| column_bytes(self.values@[i])),
                v@ == self.id.spec_bytes() + concat_parts(parts.take(i as int)),
            decreases self.values@.len() - i,
        {
            let (x, w, y) = &self.values[i];
            let mut a = x.0.clone();
            let mut b = w.0.clone();
            let mut c = y.0.clone();
            v.append(&mut a);
            v.append(&mut b);
            v.append(&mut c);
            assert(parts.take(i + 1).drop_last() =~= parts.take(i as int));
            assert(parts[i as int] == column_bytes(self.values@[i as int]));
            assert(v@ =~= self.id.spec_bytes() + concat_parts(parts.take(i + 1)));
            i = i + 1;
        }
        assert(parts.take(self.values@.len() as int) =~= parts);
        xmit.extend_from_slice(v.as_slice())
    }
}

/// A request for the cadence of a sensor.
#[derive(PartialEq, Eq, Structural, Clone, Copy, Debug)]
pub struct CadenceGet {
    pub id: PropertyId,
}

impl CadenceGet {
    /// Reads a cadence request: its property.
    pub fn parse(parameters: &[u8]) -> (r: Result<Self, ParseError>)
        ensures
            match PropertyId::spec_parse(parameters@) {
                Ok(id) => r == Ok::<CadenceGet, ParseError>(CadenceGet { id }),
                Err(e) => r == Err::<CadenceGet, ParseError>(e),
            },
    {
        let id = PropertyId::parse(parameters)?;
        Ok(Self { id })
    }

    /// Appends the property.
    pub fn emit_parameters(&self, xmit: &mut ByteBuf) -> (r: Result<(), InsufficientBuffer>)
        ensures
            final(xmit).cap() == old(xmit).cap(),
            appended(old(xmit)@, final(xmit)@, old(xmit).cap(), self.id.spec_bytes(), r is Ok),
    {
        self.id.emit_parameters(xmit)
    }
}

/// How the deltas that trigger a status are expressed: in the units of the
/// property, or as a percentage.
#[derive(PartialEq, Eq, Structural, Clone, Copy, Debug)]
pub enum StatusTriggerType {
    Property,
    Unitless,
}

/// The cadence of a sensor: how much faster it publishes within a range of
/// values, and by how much a value must change to be published.
pub struct CadenceSet {
    pub id: PropertyId,
    pub fast_cadence_divisor: u8,
    pub status_trigger_type: StatusTriggerType,
    pub status_trigger_delta_down: RawValue,
    pub status_trigger_delta_up: RawValue,
    pub status_min_interval: u8,
    pub fast_cadence_low: RawValue,
    pub fast_cadence_high: RawValue,
}

/// The cadence a sensor reports: the same fields as a cadence set.
pub type CadenceStatus = CadenceSet;

impl CadenceSet {
    /// Whether reading `p` stays within its bytes: a property must be
    /// followed by the divisor byte and, when known, by four cadence values
    /// and the minimum interval.
    pub open spec fn parse_defined(cds: Seq<CadenceDescriptor>, p: Seq<u8>) -> bool {
        &&& p.len() >= 2 ==> p.len() >= 3
        &&& p.len() >= 2 && cadence_index(cds, leading_id(p)) < cds.len() ==> p.len() >= 4 + 4
            * cds[cadence_index(cds, leading_id(p))].size
    }

    /// Whether `r` is what reading `p` gives: the property; the divisor,
    /// the third byte with the bits of the mask `0x7B`; the trigger type
    /// from its lowest bit; then the deltas down and up, the minimum
    /// interval and the low and high bounds of the fast cadence, each value
    /// as long as the cadence descriptor gives. An unknown property is
    /// refused.
    pub open spec fn parsed(cds: Seq<CadenceDescriptor>, p: Seq<u8>, r: Result<CadenceSet, ParseError>) -> bool {
        if p.len() < 2 {
            r matches Err(e) && e == ParseError::InvalidLength
        } else {
            let i = cadence_index(cds, leading_id(p));
            if i < cds.len() {
                let c = cds[i].size as int;
                &&& r matches Ok(s)
                &&& s.id == leading_id(p)
                &&& s.fast_cadence_divisor == p[2] & 0x7Bu8
                &&& s.status_trigger_type == (if p[2] & 0x01u8 == 1 {
                    StatusTriggerType::Unitless
                } else {
                    StatusTriggerType::Property
                })
                &&& s.status_trigger_delta_down.0@ == p.subrange(3, 3 + c)
                &&& s.status_trigger_delta_up.0@ == p.subrange(3 + c, 3 + 2 * c)
                &&& s.status_min_interval == p[3 + 2 * c]
                &&& s.fast_cadence_low.0@ == p.subrange(4 + 2 * c, 4 + 3 * c)
                &&& s.fast_cadence_high.0@ == p.subrange(4 + 3 * c, 4 + 4 * c)
            } else {
                r matches Err(e) && e == ParseError::InvalidValue
            }
        }
    }

    /// Reads a cadence for one of the sensors of `descriptors`.
    pub fn parse(descriptors: &[CadenceDescriptor], parameters: &[u8]) -> (r: Result<Self, ParseError>)
        requires
            Self::parse_defined(descriptors@, parameters@),
        ensures
            Self::parsed(descriptors@, parameters@, r),
    {
        let _len: usize = parameters.len();
        let id = PropertyId::parse(parameters)?;
        let fast_cadence_divisor = parameters[2] & 0xF7 >> 1;
        assert(0xF7u8 >> 1u8 == 0x7Bu8) by (bit_vector);
        let status_trigger_type = if parameters[2] & 0x01 == 1 {
            StatusTriggerType::Unitless
        } else {
            StatusTriggerType::Property
        };
        if let Some(d) = lookup_cadence_descriptor(descriptors, id) {
            let c_len = d.size;
            let status_trigger_delta_down = vstd::slice::slice_to_vec(vstd::slice::slice_subrange(parameters, 3, 3 + c_len));
            let status_trigger_delta_up = vstd::slice::slice_to_vec(
                vstd::slice::slice_subrange(parameters, 3 + c_len, 3 + 2 * c_len),
            );
            let status_min_interval = parameters[3 + 2 * c_len];
            let fast_cadence_low = vstd::slice::slice_to_vec(
                vstd::slice::slice_subrange(parameters, 4 + 2 * c_len, 4 + 3 * c_len),
            );
            let fast_cadence_high = vstd::slice::slice_to_vec(
                vstd::slice::slice_subrange(parameters, 4 + 3 * c_len, 4 + 4 * c_len),
            );
            Ok(Self {
                id,
                fast_cadence_divisor,
                status_trigger_type,
                status_trigger_delta_down: RawValue(status_trigger_delta_down),
                status_trigger_delta_up: RawValue(status_trigger_delta_up),
                status_min_interval,
                fast_cadence_low: RawValue(fast_cadence_low),
                fast_cadence_high: RawValue(fast_cadence_high),
            })
        } else {
            Err(ParseError::InvalidValue)
        }
    }

    /// The byte that carries the divisor above the trigger type bit.
    pub open spec fn spec_flags(&self) -> u8 {
        (self.fast_cadence_divisor << 1u8) | (if self.status_trigger_type == StatusTriggerType::Unitless {
            1u8
        } else {
            0u8
        })
    }

    /// The bytes of this cadence.
    pub open spec fn spec_bytes(&self) -> Seq<u8> {
        self.id.spec_bytes() + seq![self.spec_flags()] + self.status_trigger_delta_down.0@
            + self.status_trigger_delta_up.0@ + seq![self.status_min_interval] + self.fast_cadence_low.0@
            + self.fast_cadence_high.0@
    }

    /// Appends the property, the divisor and trigger type, the deltas, the
    /// minimum interval and the bounds of the fast cadence.
    pub fn emit_parameters(&self, xmit: &mut ByteBuf) -> (r: Result<(), InsufficientBuffer>)
        ensures
            final(xmit).cap() == old(xmit).cap(),
            appended(old(xmit)@, final(xmit)@, old(xmit).cap(), self.spec_bytes(), r is Ok),
    {
        let mut v = self.id.encode();
        let val = self.fast_cadence_divisor << 1;
        let val = val | match self.status_trigger_type {
            StatusTriggerType::Unitless => 1,
            _ => 0,
        };
        v.push(val);
        let mut a = self.status_trigger_delta_down.0.clone();
        v.append(&mut a);
        let mut a = self.status_trigger_delta_up.0.clone();
        v.append(&mut a);
        v.push(self.status_min_interval);
        let mut a = self.fast_cadence_low.0.clone();
        v.append(&mut a);
        let mut a = self.fast_cadence_high.0.clone();
        v.append(&mut a);
        assert(v@ =~= self.spec_bytes());
        xmit.extend_from_slice(v.as_slice())
    }
}

/// A request for the settings of a sensor.
#[derive(PartialEq, Eq, Structural, Clone, Copy, Debug)]
pub struct SettingsGet {
    pub id: PropertyId,
}

impl SettingsGet {
    /// Reads a settings request: its property.
    pub fn parse(parameters: &[u8]) -> (r: Result<Self, ParseError>)
        ensures
            match PropertyId::spec_parse(parameters@) {
                Ok(id) => r == Ok::<SettingsGet, ParseError>(SettingsGet { id }),
                Err(e) => r == Err::<SettingsGet, ParseError>(e),
            },
    {
        let id = PropertyId::parse(parameters)?;
        Ok(Self { id })
    }

    /// Appends the property.
    pub fn emit_parameters(&self, xmit: &mut ByteBuf) -> (r: Result<(), InsufficientBuffer>)
        ensures
            final(xmit).cap() == old(xmit).cap(),
            appended(old(xmit)@, final(xmit)@, old(xmit).cap(), self.id.spec_bytes(), r is Ok),
    {
        self.id.emit_parameters(xmit)
    }
}

/// The settings of a sensor, by their properties.
pub struct SettingsStatus {
    pub id: PropertyId,
    pub settings: Vec<PropertyId>,
}

impl SettingsStatus {
    /// The bytes of this status: the sensor's property, then each
    /// setting's.
    pub open spec fn spec_bytes(&self) -> Seq<u8> {
        self.id.spec_bytes() + concat_parts(Seq::new(self.settings@.len(), |i: int| self.settings@[i].spec_bytes()))
    }

    /// Appends the sensor's property and each setting's.
    pub fn emit_parameters(&self, xmit: &mut ByteBuf) -> (r: Result<(), InsufficientBuffer>)
        ensures
            final(xmit).cap() == old(xmit).cap(),
            appended(old(xmit)@, final(xmit)@, old(xmit).cap(), self.spec_bytes(), r is Ok),
    {
        let ghost parts = Seq::new(self.settings@.len(), |i: int| self.settings@[i].spec_bytes());
        let mut v = self.id.encode();
        assert(parts.take(0) =~= Seq::<Seq<u8>>::empty());
        assert(v@ =~= self.id.spec_bytes() + concat_parts(parts.take(0)));
        let mut i: usize = 0;
        while i < self.settings.len()
            invariant
                i <= self.settings@.len(),
                parts == Seq::new(self.settings@.len(), |i: int| self.settings@[i].spec_bytes()),
                v@ == self.id.spec_bytes() + concat_parts(parts.take(i as int)),
            decreases self.settings@.len() - i,
        {
            let mut b = self.settings[i].encode();
            v.append(&mut b);
            assert(parts.take(i + 1).drop_last() =~= parts.take(i as int));
            assert(v@ =~= self.id.spec_bytes() + concat_parts(parts.take(i + 1)));
            i = i + 1;
        }
        assert(parts.take(self.settings@.len() as int) =~= parts);
        xmit.extend_from_slice(v.as_slice())
    }
}

/// A request for one setting of a sensor.
#[derive(PartialEq, Eq, Structural, Clone, Copy, Debug)]
pub struct SettingGet {
    pub id: PropertyId,
    pub setting: PropertyId,
}

impl SettingGet {
    /// The request that `p` denotes: the sensor's property, then the
    /// setting's.
    pub open spec fn spec_parse(p: Seq<u8>) -> Result<SettingGet, ParseError> {
        if p.len() < 4 {
            Err(ParseError::InvalidLength)
        } else {
            Ok(SettingGet { id: leading_id(p), setting: leading_id(p.skip(2)) })
        }
    }

    /// Reads a setting request.
    pub fn parse(parameters: &[u8]) -> (r: Result<Self, ParseError>)
        ensures
            r == Self::spec_parse(parameters@),
    {
        let id = PropertyId::parse(parameters)?;
        let rest = vstd::slice::slice_subrange(parameters, 2, parameters.len());
        let setting = PropertyId::parse(rest)?;
        assert(rest@ =~= parameters@.skip(2));
        Ok(Self { id, setting })
    }

    /// Appends the sensor's property and the setting's.
    pub fn emit_parameters(&self, xmit: &mut ByteBuf) -> (r: Result<(), InsufficientBuffer>)
        ensures
            final(xmit).cap() == old(xmit).cap(),
            appended(
                old(xmit)@,
                final(xmit)@,
                old(xmit).cap(),
                self.id.spec_bytes() + self.setting.spec_bytes(),
                r is Ok,
            ),
    {
        let mut v = self.id.encode();
        let mut b = self.setting.encode();
        v.append(&mut b);
        xmit.extend_from_slice(v.as_slice())
    }
}

/// A new value for one setting of a sensor.
pub struct SettingSet {
    pub id: PropertyId,
    pub setting: PropertyId,
    pub raw: RawValue,
}

impl SettingSet {
    /// Whether reading `p` stays within its bytes: a known setting must be
    /// followed by a whole value.
    pub open spec fn parse_defined(sds: Seq<SettingDescriptor>, p: Seq<u8>) -> bool {
        p.len() >= 4 && setting_index(sds, leading_id(p), leading_id(p.skip(2))) < sds.len() ==> p.len() >= 4
            + sds[setting_index(sds, leading_id(p), leading_id(p.skip(2)))].size
    }

    /// Whether `r` is what reading `p` gives: the two properties, then as
    /// many bytes of value as the setting's descriptor gives; an unknown
    /// setting is refused.
    pub open spec fn parsed(sds: Seq<SettingDescriptor>, p: Seq<u8>, r: Result<SettingSet, ParseError>) -> bool {
        if p.len() < 4 {
            r matches Err(e) && e == ParseError::InvalidLength
        } else {
            let i = setting_index(sds, leading_id(p), leading_id(p.skip(2)));
            if i < sds.len() {
                &&& r matches Ok(s)
                &&& s.id == leading_id(p)
                &&& s.setting == leading_id(p.skip(2))
                &&& s.raw.0@ == p.subrange(4, 4 + sds[i].size)
            } else {
                r matches Err(e) && e == ParseError::InvalidValue
            }
        }
    }

    /// Reads a new value for one of the settings of `descriptors`.
    pub fn parse(descriptors: &[SettingDescriptor], parameters: &[u8]) -> (r: Result<Self, ParseError>)
        requires
            Self::parse_defined(descriptors@, parameters@),
        ensures
            Self::parsed(descriptors@, parameters@, r),
    {
        let _len: usize = parameters.len();
        let id = PropertyId::parse(parameters)?;
        let rest = vstd::slice::slice_subrange(parameters, 2, parameters.len());
        assert(rest@ =~= parameters@.skip(2));
        let setting = PropertyId::parse(rest)?;
        if let Some(d) = lookup_setting_descriptor(descriptors, id, setting) {
            let s_len = d.size;
            let raw = vstd::slice::slice_to_vec(vstd::slice::slice_subrange(parameters, 4, 4 + s_len));
            Ok(Self { id, setting, raw: RawValue(raw) })
        } else {
            Err(ParseError::InvalidValue)
        }
    }

    /// The bytes of this value.
    pub open spec fn spec_bytes(&self) -> Seq<u8> {
        self.id.spec_bytes() + self.setting.spec_bytes() + self.raw.0@
    }

    /// Appends the two properties and the value.
    pub fn emit_parameters(&self, xmit: &mut ByteBuf) -> (r: Result<(), InsufficientBuffer>)
        ensures
            final(xmit).cap() == old(xmit).cap(),
            appended(old(xmit)@, final(xmit)@, old(xmit).cap(), self.spec_bytes(), r is Ok),
    {
        let mut v = self.id.encode();
        let mut b = self.setting.encode();
        v.append(&mut b);
        let mut c = self.raw.0.clone();
        v.append(&mut c);
        xmit.extend_from_slice(v.as_slice())
    }
}

/// Whether a setting can be read only, or read and written.
#[derive(PartialEq, Eq, Structural, Clone, Copy, Debug)]
pub enum SensorSettingAccess {
    Read,
    ReadWrite,
}

/// The value of one setting of a sensor, with its access.
pub struct SettingStatus {
    pub id: PropertyId,
    pub setting: PropertyId,
    pub access: SensorSettingAccess,
    pub raw: RawValue,
}

impl SettingStatus {
    /// The bytes of this status: the two properties, the access (1 for read
    /// only, 3 for read and write) and the value.
    pub open spec fn spec_bytes(&self) -> Seq<u8> {
        self.id.spec_bytes() + self.setting.spec_bytes() + seq![
            if self.access == SensorSettingAccess::Read { 1u8 } else { 3u8 },
        ] + self.raw.0@
    }

    /// Appends the two properties, the access and the value.
    pub fn emit_parameters(&self, xmit: &mut ByteBuf) -> (r: Result<(), InsufficientBuffer>)
        ensures
            final(xmit).cap() == old(xmit).cap(),
            appended(old(xmit)@, final(xmit)@, old(xmit).cap(), self.spec_bytes(), r is Ok),
    {
        let mut v = self.id.encode();
        let mut b = self.setting.encode();
        v.append(&mut b);
        v.push(match self.access {
            SensorSettingAccess::Read => 1,
            SensorSettingAccess::ReadWrite => 3,
        });
        let mut c = self.raw.0.clone();
        v.append(&mut c);
        assert(v@ =~= self.spec_bytes());
        xmit.extend_from_slice(v.as_slice())
    }
}

/// A message of the sensor server and client.
pub enum SensorMessage<D: SensorData> {
    DescriptorGet(DescriptorGet),
    DescriptorStatus(DescriptorStatus),
    Get(SensorGet),
    Status(SensorStatus<D>),
    ColumnGet(ColumnGet),
    ColumnStatus(ColumnStatus),
    SeriesGet(SeriesGet),
    SeriesStatus(SeriesStatus),
}

impl<D: SensorData> Message for SensorMessage<D> {
    open spec fn spec_opcode(&self) -> Opcode {
        match self {
            SensorMessage::DescriptorGet(_) => sensor_descriptor_get(),
            SensorMessage::DescriptorStatus(_) => sensor_descriptor_status(),
            SensorMessage::Get(_) => sensor_get(),
            SensorMessage::Status(_) => sensor_status(),
            SensorMessage::ColumnGet(_) => sensor_column_get(),
            SensorMessage::ColumnStatus(_) => sensor_column_status(),
            SensorMessage::SeriesGet(_) => sensor_series_get(),
            SensorMessage::SeriesStatus(_) => sensor_series_status(),
        }
    }

    open spec fn spec_parameters(&self) -> Seq<u8> {
        match self {
            SensorMessage::DescriptorGet(m) => m.spec_bytes(),
            SensorMessage::Get(m) => m.spec_bytes(),
            SensorMessage::ColumnGet(m) => m.spec_bytes(),
            SensorMessage::ColumnStatus(m) => m.spec_bytes(),
            SensorMessage::SeriesGet(m) => m.spec_bytes(),
            SensorMessage::SeriesStatus(m) => m.spec_bytes(),
            _ => Seq::empty(),
        }
    }

    /// A descriptor status needs the codes of its periods, and a sensor
    /// status the descriptors of its values: each is emitted by its own
    /// `emit_parameters`, not through this trait.
    open spec fn emittable(&self) -> bool {
        !(self is DescriptorStatus || self is Status)
    }

    fn opcode(&self) -> (o: Opcode) {
        match self {
            SensorMessage::DescriptorGet(_) => sensor_descriptor_get(),
            SensorMessage::DescriptorStatus(_) => sensor_descriptor_status(),
            SensorMessage::Get(_) => sensor_get(),
            SensorMessage::Status(_) => sensor_status(),
            SensorMessage::ColumnGet(_) => sensor_column_get(),
            SensorMessage::ColumnStatus(_) => sensor_column_status(),
            SensorMessage::SeriesGet(_) => sensor_series_get(),
            SensorMessage::SeriesStatus(_) => sensor_series_status(),
        }
    }

    fn emit_parameters(&self, xmit: &mut ByteBuf) -> (r: Result<(), InsufficientBuffer>) {
        match self {
            SensorMessage::DescriptorGet(m) => m.emit_parameters(xmit),
            SensorMessage::Get(m) => m.emit_parameters(xmit),
            SensorMessage::ColumnGet(m) => m.emit_parameters(xmit),
            SensorMessage::ColumnStatus(m) => m.emit_parameters(xmit),
            SensorMessage::SeriesGet(m) => m.emit_parameters(xmit),
            SensorMessage::SeriesStatus(m) => m.emit_parameters(xmit),
            _ => {
                assert(false);
                Err(InsufficientBuffer)
            },
        }
    }
}

/// A message of the sensor setup server.
pub enum SensorSetupMessage<D: SensorData> {
    Sensor(SensorMessage<D>),
    CadenceGet(CadenceGet),
    CadenceSet(CadenceSet),
    CadenceSetUnacknowledged(CadenceSet),
    CadenceStatus(CadenceStatus),
    SettingsGet(SettingsGet),
    SettingsStatus(SettingsStatus),
    SettingGet(SettingGet),
    SettingSet(SettingSet),
    SettingSetUnacknowledged(SettingSet),
    SettingStatus(SettingStatus),
}

impl<D: SensorData> Message for SensorSetupMessage<D> {
    open spec fn spec_opcode(&self) -> Opcode {
        match self {
            SensorSetupMessage::Sensor(m) => m.spec_opcode(),
            SensorSetupMessage::CadenceGet(_) => sensor_cadence_get(),
            SensorSetupMessage::CadenceSet(_) => sensor_cadence_set(),
            SensorSetupMessage::CadenceSetUnacknowledged(_) => sensor_cadence_set_unacknowledged(),
            SensorSetupMessage::CadenceStatus(_) => sensor_cadence_status(),
            SensorSetupMessage::SettingsGet(_) => sensor_settings_get(),
            SensorSetupMessage::SettingsStatus(_) => sensor_settings_status(),
            SensorSetupMessage::SettingGet(_) => sensor_setting_get(),
            SensorSetupMessage::SettingSet(_) => sensor_setting_set(),
            SensorSetupMessage::SettingSetUnacknowledged(_) => sensor_setting_set_unacknowledged(),
            SensorSetupMessage::SettingStatus(_) => sensor_setting_status(),
        }
    }

    open spec fn spec_parameters(&self) -> Seq<u8> {
        match self {
            SensorSetupMessage::Sensor(m) => m.spec_parameters(),
            SensorSetupMessage::CadenceGet(m) => m.id.spec_bytes(),
            SensorSetupMessage::CadenceSet(m) => m.spec_bytes(),
            SensorSetupMessage::CadenceSetUnacknowledged(m) => m.spec_bytes(),
            SensorSetupMessage::CadenceStatus(m) => m.spec_bytes(),
            SensorSetupMessage::SettingsGet(m) => m.id.spec_bytes(),
            SensorSetupMessage::SettingsStatus(m) => m.spec_bytes(),
            SensorSetupMessage::SettingGet(m) => m.id.spec_bytes() + m.setting.spec_bytes(),
            SensorSetupMessage::SettingSet(m) => m.spec_bytes(),
            SensorSetupMessage::SettingSetUnacknowledged(m) => m.spec_bytes(),
            SensorSetupMessage::SettingStatus(m) => m.spec_bytes(),
        }
    }

    open spec fn emittable(&self) -> bool {
        self matches SensorSetupMessage::Sensor(m) ==> m.emittable()
    }

    fn opcode(&self) -> (o: Opcode) {
        match self {
            SensorSetupMessage::Sensor(m) => m.opcode(),
            SensorSetupMessage::CadenceGet(_) => sensor_cadence_get(),
            SensorSetupMessage::CadenceSet(_) => sensor_cadence_set(),
            SensorSetupMessage::CadenceSetUnacknowledged(_) => sensor_cadence_set_unacknowledged(),
            SensorSetupMessage::CadenceStatus(_) => sensor_cadence_status(),
            SensorSetupMessage::SettingsGet(_) => sensor_settings_get(),
            SensorSetupMessage::SettingsStatus(_) => sensor_settings_status(),
            SensorSetupMessage::SettingGet(_) => sensor_setting_get(),
            SensorSetupMessage::SettingSet(_) => sensor_setting_set(),
            SensorSetupMessage::SettingSetUnacknowledged(_) => sensor_setting_set_unacknowledged(),
            SensorSetupMessage::SettingStatus(_) => sensor_setting_status(),
        }
    }

    fn emit_parameters(&self, xmit: &mut ByteBuf) -> (r: Result<(), InsufficientBuffer>) {
        match self {
            SensorSetupMessage::Sensor(m) => m.emit_parameters(xmit),
            SensorSetupMessage::CadenceGet(m) => m.emit_parameters(xmit),
            SensorSetupMessage::CadenceSet(m) => m.emit_parameters(xmit),
            SensorSetupMessage::CadenceSetUnacknowledged(m) => m.emit_parameters(xmit),
            SensorSetupMessage::CadenceStatus(m) => m.emit_parameters(xmit),
            SensorSetupMessage::SettingsGet(m) => m.emit_parameters(xmit),
            SensorSetupMessage::SettingsStatus(m) => m.emit_parameters(xmit),
            SensorSetupMessage::SettingGet(m) => m.emit_parameters(xmit),
            SensorSetupMessage::SettingSet(m) => m.emit_parameters(xmit),
            SensorSetupMessage::SettingSetUnacknowledged(m) => m.emit_parameters(xmit),
            SensorSetupMessage::SettingStatus(m) => m.emit_parameters(xmit),
        }
    }
}

/// The sensors of an element, by their descriptors.
pub struct SensorConfig {
    pub descriptors: Vec<SensorDescriptor>,
}

/// The sensors of an element with their cadences and settings.
pub struct SensorSetupConfig {
    pub descriptors: Vec<SensorDescriptor>,
    pub cadence_descriptors: Vec<CadenceDescriptor>,
    pub setting_descriptors: Vec<SettingDescriptor>,
}

/// Whether `r` is what reading a descriptor or sensor get from `p` gives,
/// wrapped as a sensor message.
pub open spec fn get_parsed<D: SensorData>(opcode: Opcode, p: Seq<u8>, r: Result<Option<SensorMessage<D>>, ParseError>) -> bool {
    if opcode == sensor_descriptor_get() {
        match DescriptorGet::spec_parse(p) {
            Ok(m) => r matches Ok(Some(SensorMessage::DescriptorGet(x))) && x == m,
            Err(e) => r matches Err(f) && f == e,
        }
    } else {
        match SensorGet::spec_parse(p) {
            Ok(m) => r matches Ok(Some(SensorMessage::Get(x))) && x == m,
            Err(e) => r matches Err(f) && f == e,
        }
    }
}

/// Whether `r` is what reading a column or series request from `p` gives,
/// wrapped as a sensor message.
pub open spec fn series_parsed<D: SensorData>(
    ds: Seq<SensorDescriptor>,
    opcode: Opcode,
    p: Seq<u8>,
    r: Result<Option<SensorMessage<D>>, ParseError>,
) -> bool {
    if opcode == sensor_column_get() {
        match r {
            Ok(Some(SensorMessage::ColumnGet(c))) => ColumnGet::parsed(ds, p, Ok(c)),
            Err(e) => ColumnGet::parsed(ds, p, Err(e)),
            _ => false,
        }
    } else {
        match r {
            Ok(Some(SensorMessage::SeriesGet(g))) => SeriesGet::parsed(ds, p, Ok(g)),
            Err(e) => SeriesGet::parsed(ds, p, Err(e)),
            _ => false,
        }
    }
}

/// Whether the column and series requests that `p` may be read as stay
/// within its bytes.
pub open spec fn series_defined(ds: Seq<SensorDescriptor>, opcode: Opcode, p: Seq<u8>) -> bool {
    &&& opcode == sensor_column_get() ==> ColumnGet::parse_defined(ds, p)
    &&& opcode == sensor_series_get() ==> SeriesGet::parse_defined(ds, p)
}

/// The sensor server of an element.
pub struct SensorServer<D: SensorData> {
    pub config: SensorConfig,
    pub marker: core::marker::PhantomData<D>,
}

impl<D: SensorData> SensorServer<D> {
    /// A server of the sensors of `config`.
    pub fn new(config: SensorConfig) -> (s: Self)
        ensures
            s.config == config,
    {
        Self { config, marker: core::marker::PhantomData }
    }
}

impl<D: SensorData> Model for SensorServer<D> {
    type Message = SensorMessage<D>;

    open spec fn spec_identifier(&self) -> ModelIdentifier {
        sensor_server()
    }

    open spec fn accepts(&self, opcode: Opcode, parameters: Seq<u8>) -> bool {
        series_defined(self.config.descriptors@, opcode, parameters)
    }

    /// The server reads descriptor, sensor, column and series requests.
    open spec fn parsed(&self, opcode: Opcode, parameters: Seq<u8>, r: Result<Option<SensorMessage<D>>, ParseError>) -> bool {
        if opcode == sensor_descriptor_get() || opcode == sensor_get() {
            get_parsed(opcode, parameters, r)
        } else if opcode == sensor_column_get() || opcode == sensor_series_get() {
            series_parsed(self.config.descriptors@, opcode, parameters, r)
        } else {
            r matches Ok(None)
        }
    }

    fn identifier(&self) -> (m: ModelIdentifier) {
        sensor_server()
    }

    fn parse(&self, opcode: Opcode, parameters: &[u8]) -> (r: Result<Option<SensorMessage<D>>, ParseError>) {
        if opcode == sensor_descriptor_get() {
            Ok(Some(SensorMessage::DescriptorGet(DescriptorGet::parse(parameters)?)))
        } else if opcode == sensor_get() {
            Ok(Some(SensorMessage::Get(SensorGet::parse(parameters)?)))
        } else if opcode == sensor_column_get() {
            Ok(Some(SensorMessage::ColumnGet(ColumnGet::parse(self.config.descriptors.as_slice(), parameters)?)))
        } else if opcode == sensor_series_get() {
            Ok(Some(SensorMessage::SeriesGet(SeriesGet::parse(self.config.descriptors.as_slice(), parameters)?)))
        } else {
            Ok(None)
        }
    }
}

/// Whether the status that `p` may be read as stays within its bytes.
pub open spec fn status_defined(ds: Seq<SensorDescriptor>, p: Seq<u8>) -> bool {
    &&& ds.len() > 0 ==> header_readable(p)
    &&& ds.len() > 0 && header_matches(p, ds[0]) ==> header_offset(p) + header_length(p) <= p.len()
}

/// Whether `r` is what reading a status from `p` gives, wrapped as a
/// sensor message: refused when the header does not match the first
/// descriptor, and read only when it matches every descriptor.
pub open spec fn status_parsed<D: SensorData>(ds: Seq<SensorDescriptor>, p: Seq<u8>, r: Result<Option<SensorMessage<D>>, ParseError>) -> bool {
    &&& ds.len() > 0 && !header_matches(p, ds[0]) ==> (r matches Err(e) && e == ParseError::InvalidValue)
    &&& r is Ok ==> (r matches Ok(Some(SensorMessage::Status(_)))) && forall|i: int|
        0 <= i < ds.len() ==> header_matches(p, #[trigger] ds[i])
}

/// The sensor client of an element.
pub struct SensorClient<D: SensorData> {
    pub config: SensorConfig,
    pub marker: core::marker::PhantomData<D>,
}

impl<D: SensorData> SensorClient<D> {
    /// A client of sensors described by `config`.
    pub fn new(config: SensorConfig) -> (s: Self)
        ensures
            s.config == config,
    {
        Self { config, marker: core::marker::PhantomData }
    }
}

impl<D: SensorData> Model for SensorClient<D> {
    type Message = SensorMessage<D>;

    open spec fn spec_identifier(&self) -> ModelIdentifier {
        sensor_client()
    }

    open spec fn accepts(&self, opcode: Opcode, parameters: Seq<u8>) -> bool {
        &&& series_defined(self.config.descriptors@, opcode, parameters)
        &&& opcode == sensor_status() ==> status_defined(self.config.descriptors@, parameters)
    }

    /// The client reads descriptor, sensor, column and series requests and
    /// sensor statuses.
    open spec fn parsed(&self, opcode: Opcode, parameters: Seq<u8>, r: Result<Option<SensorMessage<D>>, ParseError>) -> bool {
        if opcode == sensor_descriptor_get() || opcode == sensor_get() {
            get_parsed(opcode, parameters, r)
        } else if opcode == sensor_status() {
            status_parsed(self.config.descriptors@, parameters, r)
        } else if opcode == sensor_column_get() || opcode == sensor_series_get() {
            series_parsed(self.config.descriptors@, opcode, parameters, r)
        } else {
            r matches Ok(None)
        }
    }

    fn identifier(&self) -> (m: ModelIdentifier) {
        sensor_client()
    }

    fn parse(&self, opcode: Opcode, parameters: &[u8]) -> (r: Result<Option<SensorMessage<D>>, ParseError>) {
        if opcode == sensor_descriptor_get() {
            Ok(Some(SensorMessage::DescriptorGet(DescriptorGet::parse(parameters)?)))
        } else if opcode == sensor_get() {
            Ok(Some(SensorMessage::Get(SensorGet::parse(parameters)?)))
        } else if opcode == sensor_status() {
            Ok(Some(SensorMessage::Status(SensorStatus::parse(self.config.descriptors.as_slice(), parameters)?)))
        } else if opcode == sensor_column_get() {
            Ok(Some(SensorMessage::ColumnGet(ColumnGet::parse(self.config.descriptors.as_slice(), parameters)?)))
        } else if opcode == sensor_series_get() {
            Ok(Some(SensorMessage::SeriesGet(SeriesGet::parse(self.config.descriptors.as_slice(), parameters)?)))
        } else {
            Ok(None)
        }
    }
}

/// The sensor setup server of an element.
pub struct SensorSetupServer<D: SensorData> {
    pub config: SensorSetupConfig,
    pub marker: core::marker::PhantomData<D>,
}

impl<D: SensorData> SensorSetupServer<D> {
    /// A setup server of the sensors, cadences and settings of `config`.
    pub fn new(config: SensorSetupConfig) -> (s: Self)
        ensures
            s.config == config,
    {
        Self { config, marker: core::marker::PhantomData }
    }
}

/// Whether `r` is what reading a cadence set from `p` gives, as an
/// unacknowledged set or not.
pub open spec fn cadence_parsed<D: SensorData>(
    cds: Seq<CadenceDescriptor>,
    p: Seq<u8>,
    unacknowledged: bool,
    r: Result<Option<SensorSetupMessage<D>>, ParseError>,
) -> bool {
    match r {
        Ok(Some(SensorSetupMessage::CadenceSet(c))) => !unacknowledged && CadenceSet::parsed(cds, p, Ok(c)),
        Ok(Some(SensorSetupMessage::CadenceSetUnacknowledged(c))) => unacknowledged && CadenceSet::parsed(cds, p, Ok(c)),
        Err(e) => CadenceSet::parsed(cds, p, Err(e)),
        _ => false,
    }
}

/// Whether `r` is what reading a setting set from `p` gives, as an
/// unacknowledged set or not.
pub open spec fn setting_parsed<D: SensorData>(
    sds: Seq<SettingDescriptor>,
    p: Seq<u8>,
    unacknowledged: bool,
    r: Result<Option<SensorSetupMessage<D>>, ParseError>,
) -> bool {
    match r {
        Ok(Some(SensorSetupMessage::SettingSet(s))) => !unacknowledged && SettingSet::parsed(sds, p, Ok(s)),
        Ok(Some(SensorSetupMessage::SettingSetUnacknowledged(s))) => unacknowledged && SettingSet::parsed(sds, p, Ok(s)),
        Err(e) => SettingSet::parsed(sds, p, Err(e)),
        _ => false,
    }
}

impl<D: SensorData> Model for SensorSetupServer<D> {
    type Message = SensorSetupMessage<D>;

    open spec fn spec_identifier(&self) -> ModelIdentifier {
        sensor_setup_server()
    }

    open spec fn accepts(&self, opcode: Opcode, parameters: Seq<u8>) -> bool {
        &&& (opcode == sensor_cadence_set() || opcode == sensor_cadence_set_unacknowledged()) ==> CadenceSet::parse_defined(
            self.config.cadence_descriptors@,
            parameters,
        )
        &&& (opcode == sensor_setting_set() || opcode == sensor_setting_set_unacknowledged()) ==> SettingSet::parse_defined(
            self.config.setting_descriptors@,
            parameters,
        )
    }

    /// The setup server reads cadence and setting requests.
    open spec fn parsed(&self, opcode: Opcode, parameters: Seq<u8>, r: Result<Option<SensorSetupMessage<D>>, ParseError>) -> bool {
        if opcode == sensor_cadence_get() {
            match PropertyId::spec_parse(parameters) {
                Ok(id) => r matches Ok(Some(SensorSetupMessage::CadenceGet(m))) && m.id == id,
                Err(e) => r matches Err(f) && f == e,
            }
        } else if opcode == sensor_cadence_set() {
            cadence_parsed(self.config.cadence_descriptors@, parameters, false, r)
        } else if opcode == sensor_cadence_set_unacknowledged() {
            cadence_parsed(self.config.cadence_descriptors@, parameters, true, r)
        } else if opcode == sensor_settings_get() {
            match PropertyId::spec_parse(parameters) {
                Ok(id) => r matches Ok(Some(SensorSetupMessage::SettingsGet(m))) && m.id == id,
                Err(e) => r matches Err(f) && f == e,
            }
        } else if opcode == sensor_setting_get() {
            match SettingGet::spec_parse(parameters) {
                Ok(g) => r matches Ok(Some(SensorSetupMessage::SettingGet(m))) && m == g,
                Err(e) => r matches Err(f) && f == e,
            }
        } else if opcode == sensor_setting_set() {
            setting_parsed(self.config.setting_descriptors@, parameters, false, r)
        } else if opcode == sensor_setting_set_unacknowledged() {
            setting_parsed(self.config.setting_descriptors@, parameters, true, r)
        } else {
            r matches Ok(None)
        }
    }

    fn identifier(&self) -> (m: ModelIdentifier) {
        sensor_setup_server()
    }

    fn parse(&self, opcode: Opcode, parameters: &[u8]) -> (r: Result<Option<SensorSetupMessage<D>>, ParseError>) {
        if opcode == sensor_cadence_get() {
            Ok(Some(SensorSetupMessage::CadenceGet(CadenceGet::parse(parameters)?)))
        } else if opcode == sensor_cadence_set() {
            Ok(Some(SensorSetupMessage::CadenceSet(CadenceSet::parse(self.config.cadence_descriptors.as_slice(), parameters)?)))
        } else if opcode == sensor_cadence_set_unacknowledged() {
            Ok(
                Some(
                    SensorSetupMessage::CadenceSetUnacknowledged(
                        CadenceSet::parse(self.config.cadence_descriptors.as_slice(), parameters)?,
                    ),
                ),
            )
        } else if opcode == sensor_settings_get() {
            Ok(Some(SensorSetupMessage::SettingsGet(SettingsGet::parse(parameters)?)))
        } else if opcode == sensor_setting_get() {
            Ok(Some(SensorSetupMessage::SettingGet(SettingGet::parse(parameters)?)))
        } else if opcode == sensor_setting_set() {
            Ok(Some(SensorSetupMessage::SettingSet(SettingSet::parse(self.config.setting_descriptors.as_slice(), parameters)?)))
        } else if opcode == sensor_setting_set_unacknowledged() {
            Ok(
                Some(
                    SensorSetupMessage::SettingSetUnacknowledged(
                        SettingSet::parse(self.config.setting_descriptors.as_slice(), parameters)?,
                    ),
                ),
            )
        } else {
            Ok(None)
        }
    }
}


/// Sensor requests that name properties are read back from the bytes they
/// are written as: descriptor and sensor gets, with or without a property,
/// cadence and settings gets by their property, and setting gets by the
/// sensor's property and the setting's.
pub proof fn lemma_sensor_request_roundtrip(descriptor_get: DescriptorGet, get: SensorGet, id: PropertyId, setting_get: SettingGet)
    ensures
        DescriptorGet::spec_parse(descriptor_get.spec_bytes()) == Ok::<DescriptorGet, ParseError>(descriptor_get),
        SensorGet::spec_parse(get.spec_bytes()) == Ok::<SensorGet, ParseError>(get),
        PropertyId::spec_parse(id.spec_bytes()) == Ok::<PropertyId, ParseError>(id),
        SettingGet::spec_parse(setting_get.id.spec_bytes() + setting_get.setting.spec_bytes())
            == Ok::<SettingGet, ParseError>(setting_get),
{
    if let Some(i) = descriptor_get.id {
        lemma_be16_roundtrip(i.0);
    }
    if let Some(i) = get.id {
        lemma_be16_roundtrip(i.0);
    }
    lemma_be16_roundtrip(id.0);
    lemma_be16_roundtrip(setting_get.id.0);
    lemma_be16_roundtrip(setting_get.setting.0);
    let b = setting_get.id.spec_bytes() + setting_get.setting.spec_bytes();
    assert(b.skip(2) =~= setting_get.setting.spec_bytes());
}


/// The header announcing `size` bytes of property `id`. In the short format
/// (an identifier below 2048 and at most sixteen bytes) its first byte is
/// eight times the size plus the identifier's top three bits, and its second
/// the identifier's low byte, so that a reader takes back the size and, for
/// an identifier below 256 and a size below sixteen, the identifier. In the
/// long format its first byte is the size, below 128, with the top bit set,
/// and then come two bytes, each the identifier's low byte.
pub proof fn lemma_property_header_layout(id: PropertyId, size: usize, value: Seq<u8>)
    ensures
        id.0 < 2048 && size <= 16 ==> {
            let h = property_header(id, size);
            &&& h.len() == 2
            &&& h[0] == size * 8 + id.0 / 256
            &&& h[1] == id.0 % 256
        },
        id.0 < 256 && size < 16 ==> {
            let p = property_header(id, size) + value;
            &&& !header_long(p)
            &&& header_offset(p) == 2
            &&& header_length(p) == size
            &&& header_id(p) == id.0
        },
        !(id.0 < 2048 && size <= 16) ==> {
            let h = property_header(id, size);
            &&& h.len() == 3
            &&& h[0] == 128 + size % 128
            &&& h[1] == id.0 % 256
            &&& h[2] == id.0 % 256
        },
{
    let i = id.0;
    if i < 2048 && size <= 16 {
        assert(size <= 16 && i < 2048 ==> ((((size as u8) << 3u8) | (((i & 0x0700u16) >> 8u16) as u8)) as int)
            == size * 8 + i / 256) by (bit_vector);
        assert((i & 0xFFu16) as u8 == i % 256) by (bit_vector);
        if i < 256 && size < 16 {
            let b = (((size as u8) << 3u8) | (((i & 0x0700u16) >> 8u16) as u8));
            assert(size < 16 && i < 256 ==> b & 0x80u8 == 0 && ((b & 0x78u8) >> 3u8) as int == size && ((b & 0x07u8)
                | ((i & 0xFFu16) as u8)) as u16 == i) by (bit_vector)
                requires
                    b == (((size as u8) << 3u8) | (((i & 0x0700u16) >> 8u16) as u8)),
            ;
        }
    } else {
        assert(((0x80u8 | ((size as u8) & 0x7Fu8)) as int) == 128 + size % 128) by (bit_vector);
        assert((i & 0xFFu16) as u8 == i % 256) by (bit_vector);
    }
}


/// A sensor descriptor is the property identifier least significant byte
/// first, three bytes of tolerances, the sampling function's code, then the
/// measurement period's code and the update interval's code, each 0 when
/// the period is not given.
pub proof fn lemma_descriptor_layout(d: SensorDescriptor, measurement_code: u8, update_code: u8)
    ensures
        ({
            let b = d.spec_bytes(measurement_code, update_code);
            &&& b.len() == 8
            &&& (b[0] as int) + (b[1] as int) * 0x100 == d.id.0
            &&& b[2] == d.positive_tolerance.0 % 256
            &&& b[4] == (d.negative_tolerance.0 / 256) % 256
            &&& b[5] == d.sampling_function.spec_code()
            &&& b[6] == (if d.measurement_period is Some { measurement_code } else { 0u8 })
            &&& b[7] == (if d.update_interval is Some { update_code } else { 0u8 })
        }),
{
    lemma_be16_roundtrip(d.id.0);
}

} // verus!
