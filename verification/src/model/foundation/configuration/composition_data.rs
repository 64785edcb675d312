//! Config Composition Data messages: a node describes its composition.
use vstd::prelude::*;
use crate::buffer::{appended, ByteBuf};
use crate::bytes::{be16_bytes, to_be16};
use crate::composition::{sig_models, vendor_models, Composition, ElementDescriptor};
use crate::model::{Message, ModelIdentifier};
use crate::pdu::access::Opcode;
use crate::pdu::ParseError;
use crate::InsufficientBuffer;

verus! {

/// Opcode of the Config Composition Data Get message.
#[verifier::allow_in_spec]
pub fn config_composition_data_get() -> Opcode
    returns
        Opcode::TwoOctet(0x80, 0x08),
{
    Opcode::TwoOctet(0x80, 0x08)
}

/// Opcode of the Config Composition Data Status message.
#[verifier::allow_in_spec]
pub fn config_composition_data_status() -> Opcode
    returns
        Opcode::OneOctet(0x02),
{
    Opcode::OneOctet(0x02)
}

/// The bytes of a list of model identifiers, one after the other.
pub open spec fn models_bytes(ms: Seq<ModelIdentifier>) -> Seq<u8>
    decreases ms.len(),
{
    if ms.len() == 0 {
        Seq::empty()
    } else {
        models_bytes(ms.drop_last()) + ms.last().spec_bytes()
    }
}

/// The models of `ms` of one kind: SIG models when `sig` holds, else
/// vendor models.
pub open spec fn models_of_kind(ms: Seq<ModelIdentifier>, sig: bool) -> Seq<ModelIdentifier> {
    if sig { sig_models(ms) } else { vendor_models(ms) }
}

/// The bytes of one element: its location, the numbers of SIG and of
/// vendor models, then the SIG models and the vendor models.
pub open spec fn element_bytes(e: ElementDescriptor) -> Seq<u8> {
    let sig = sig_models(e.models@);
    let vendor = vendor_models(e.models@);
    be16_bytes(e.loc.0) + seq![sig.len() as u8, vendor.len() as u8] + models_bytes(sig) + models_bytes(vendor)
}

/// The bytes of a list of elements, one after the other.
pub open spec fn elements_bytes(es: Seq<ElementDescriptor>) -> Seq<u8>
    decreases es.len(),
{
    if es.len() == 0 {
        Seq::empty()
    } else {
        elements_bytes(es.drop_last()) + element_bytes(es.last())
    }
}

/// Whether each element holds at most ten SIG and ten vendor models, the
/// most that a composition status lists.
pub open spec fn elements_fit(es: Seq<ElementDescriptor>) -> bool {
    forall|i: int|
        0 <= i < es.len() ==> sig_models(#[trigger] es[i].models@).len() <= 10 && vendor_models(
            es[i].models@,
        ).len() <= 10
}

/// Page 0 of the composition data of a node.
pub struct CompositionStatus {
    pub page: u8,
    pub data: Composition,
}

impl CompositionStatus {
    /// The parameters of a composition status: the page, the company,
    /// product and version identifiers, the replay protection list size and
    /// the feature bits, each 16 bits wide and most significant byte first,
    /// then the elements.
    pub open spec fn spec_bytes(&self) -> Seq<u8> {
        seq![self.page] + be16_bytes(self.data.cid.0) + be16_bytes(self.data.pid.0) + be16_bytes(
            self.data.vid.0,
        ) + be16_bytes(self.data.crpl) + be16_bytes(self.data.features.spec_bits()) + elements_bytes(
            self.data.elements@,
        )
    }

    /// Appends the bytes of the models of one kind among `models`; returns
    /// how many there were.
    fn encode_models(models: &Vec<ModelIdentifier>, sig: bool, out: &mut Vec<u8>) -> (n: usize)
        ensures
            final(out)@ == old(out)@ + models_bytes(models_of_kind(models@, sig)),
            n == models_of_kind(models@, sig).len(),
    {
        let ghost start = out@;
        let mut n: usize = 0;
        let mut i: usize = 0;
        while i < models.len()
            invariant
                i <= models.len(),
                out@ == start + models_bytes(models_of_kind(models@.take(i as int), sig)),
                n == models_of_kind(models@.take(i as int), sig).len(),
                n <= i,
            decreases models.len() - i,
        {
            let m = models[i];
            let ghost pre = models@.take(i as int);
            let ghost post = models@.take(i as int + 1);
            assert(post.drop_last() =~= pre);
            assert(post.last() == m);
            proof {
                reveal(Seq::filter);
            }
            let selected = match m {
                ModelIdentifier::SIG(_) => sig,
                ModelIdentifier::Vendor(..) => !sig,
            };
            if selected {
                let ghost kind = models_of_kind(pre, sig);
                assert(models_of_kind(post, sig) == kind.push(m));
                assert(kind.push(m).drop_last() =~= kind);
                let mut b = m.encode();
                out.append(&mut b);
                n = n + 1;
                assert(out@ =~= start + models_bytes(models_of_kind(post, sig)));
            } else {
                assert(models_of_kind(post, sig) == models_of_kind(pre, sig));
            }
            i = i + 1;
        }
        assert(models@.take(models@.len() as int) =~= models@);
        n
    }

    /// Appends the bytes of one element.
    fn encode_element(e: &ElementDescriptor, out: &mut Vec<u8>)
        requires
            sig_models(e.models@).len() <= 10,
            vendor_models(e.models@).len() <= 10,
        ensures
            final(out)@ == old(out)@ + element_bytes(*e),
    {
        let loc = to_be16(e.loc.0);
        let mut sig_bytes: Vec<u8> = Vec::new();
        let nsig = Self::encode_models(&e.models, true, &mut sig_bytes);
        let mut vendor_bytes: Vec<u8> = Vec::new();
        let nvendor = Self::encode_models(&e.models, false, &mut vendor_bytes);
        out.push(loc[0]);
        out.push(loc[1]);
        out.push(nsig as u8);
        out.push(nvendor as u8);
        out.append(&mut sig_bytes);
        out.append(&mut vendor_bytes);
        assert(out@ =~= old(out)@ + element_bytes(*e));
    }

    /// The parameters of this status.
    pub fn encode(&self) -> (v: Vec<u8>)
        requires
            elements_fit(self.data.elements@),
        ensures
            v@ == self.spec_bytes(),
    {
        let mut v: Vec<u8> = vec![self.page];
        let cid = to_be16(self.data.cid.0);
        let pid = to_be16(self.data.pid.0);
        let vid = to_be16(self.data.vid.0);
        let crpl = to_be16(self.data.crpl);
        let features = to_be16(self.data.features.bits());
        v.push(cid[0]);
        v.push(cid[1]);
        v.push(pid[0]);
        v.push(pid[1]);
        v.push(vid[0]);
        v.push(vid[1]);
        v.push(crpl[0]);
        v.push(crpl[1]);
        v.push(features[0]);
        v.push(features[1]);
        let ghost head = v@;
        let elements = &self.data.elements;
        let mut i: usize = 0;
        while i < elements.len()
            invariant
                i <= elements.len(),
                elements_fit(elements@),
                v@ == head + elements_bytes(elements@.take(i as int)),
            decreases elements.len() - i,
        {
            let ghost pre = elements@.take(i as int);
            let ghost post = elements@.take(i as int + 1);
            assert(post.drop_last() =~= pre);
            assert(post.last() == elements@[i as int]);
            assert(sig_models(elements@[i as int].models@).len() <= 10);
            Self::encode_element(&elements[i], &mut v);
            i = i + 1;
        }
        assert(elements@.take(elements@.len() as int) =~= elements@);
        assert(v@ =~= self.spec_bytes());
        v
    }
}

/// A Config Composition Data message.
pub enum CompositionDataMessage {
    Get(u8),
    Status(CompositionStatus),
}

impl CompositionDataMessage {
    /// A Get carries the page number in one byte.
    pub open spec fn spec_parse_get(p: Seq<u8>) -> Result<u8, ParseError> {
        if p.len() == 1 { Ok(p[0]) } else { Err(ParseError::InvalidLength) }
    }

    /// Reads a Get.
    pub fn parse_get(parameters: &[u8]) -> (r: Result<Self, ParseError>)
        ensures
            r is Ok <==> Self::spec_parse_get(parameters@) is Ok,
            r matches Ok(m) ==> m matches CompositionDataMessage::Get(page) && Self::spec_parse_get(
                parameters@,
            ) == Ok::<u8, ParseError>(page),
            r matches Err(e) ==> Self::spec_parse_get(parameters@) == Err::<u8, ParseError>(e),
    {
        if parameters.len() == 1 {
            Ok(Self::Get(parameters[0]))
        } else {
            Err(ParseError::InvalidLength)
        }
    }
}

impl Message for CompositionDataMessage {
    open spec fn spec_opcode(&self) -> Opcode {
        match self {
            Self::Get(_) => config_composition_data_get(),
            Self::Status(_) => config_composition_data_status(),
        }
    }

    open spec fn spec_parameters(&self) -> Seq<u8> {
        match self {
            Self::Get(page) => seq![*page],
            Self::Status(inner) => inner.spec_bytes(),
        }
    }

    open spec fn emittable(&self) -> bool {
        match self {
            Self::Get(_) => true,
            Self::Status(inner) => elements_fit(inner.data.elements@),
        }
    }

    fn opcode(&self) -> (o: Opcode) {
        match self {
            Self::Get(_) => config_composition_data_get(),
            Self::Status(_) => config_composition_data_status(),
        }
    }

    fn emit_parameters(&self, xmit: &mut ByteBuf) -> (r: Result<(), InsufficientBuffer>) {
        match self {
            Self::Get(page) => xmit.push(*page),
            Self::Status(inner) => xmit.extend_from_slice(inner.encode().as_slice()),
        }
    }
}


/// In the record of an element, after the two bytes of its location, come
/// the number of its SIG models and then the number of its vendor models.
pub proof fn lemma_element_model_counts(e: ElementDescriptor)
    requires
        e.models@.filter(|m: ModelIdentifier| m is SIG).len() < 256,
        e.models@.filter(|m: ModelIdentifier| m is Vendor).len() < 256,
    ensures
        element_bytes(e).len() >= 4,
        (element_bytes(e)[0] as int) * 0x100 + (element_bytes(e)[1] as int) == e.loc.0,
        element_bytes(e)[2] == e.models@.filter(|m: ModelIdentifier| m is SIG).len(),
        element_bytes(e)[3] == e.models@.filter(|m: ModelIdentifier| m is Vendor).len(),
{
    crate::bytes::lemma_be16_roundtrip(e.loc.0);
}

/// A composition status starts with the page, then the company, product and
/// version identifiers, the replay protection list size and the feature
/// bits, each two bytes with the most significant first; the element records
/// follow from the eleventh byte.
pub proof fn lemma_composition_header(c: CompositionStatus)
    ensures
        ({
            let b = c.spec_bytes();
            &&& b.len() >= 11
            &&& b[0] == c.page
            &&& (b[1] as int) * 0x100 + (b[2] as int) == c.data.cid.0
            &&& (b[3] as int) * 0x100 + (b[4] as int) == c.data.pid.0
            &&& (b[5] as int) * 0x100 + (b[6] as int) == c.data.vid.0
            &&& (b[7] as int) * 0x100 + (b[8] as int) == c.data.crpl
            &&& (b[9] as int) * 0x100 + (b[10] as int) == c.data.features.spec_bits()
            &&& b.skip(11) == elements_bytes(c.data.elements@)
        }),
{
    crate::bytes::lemma_be16_roundtrip(c.data.cid.0);
    crate::bytes::lemma_be16_roundtrip(c.data.pid.0);
    crate::bytes::lemma_be16_roundtrip(c.data.vid.0);
    crate::bytes::lemma_be16_roundtrip(c.data.crpl);
    crate::bytes::lemma_be16_roundtrip(c.data.features.spec_bits());
    let b = c.spec_bytes();
    assert(b.skip(11) =~= elements_bytes(c.data.elements@));
}

} // verus!
