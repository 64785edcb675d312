//! Segmentation of provisioning PDUs into transactions on the advertising
//! bearer, and their reassembly.
use vstd::prelude::*;
use crate::buffer::ByteBuf;
use crate::driver::DeviceError;
use crate::generic_provisioning::{GenericProvisioningPDU, GenericProvisioningPDUView, TransactionContinuation, TransactionStart};
use crate::provisioning::{lemma_provisioning_pdu_roundtrip, ProvisioningPDU, ProvisioningPDUView};

verus! {

/// The most bytes the start of a transaction carries.
pub const TRANSACTION_START_MTU: usize = 20;
/// The most bytes a continuation of a transaction carries.
pub const TRANSACTION_CONTINUATION_MTU: usize = 23;
/// The most segments of an inbound transaction.
pub const INBOUND_SEGMENTS_MAX: usize = 32;
/// The most bytes one inbound segment holds.
pub const SEGMENT_DATA_MAX: usize = 64;
/// The most bytes of a reassembled provisioning PDU.
pub const REASSEMBLED_MAX: usize = 1024;
/// The most bytes of an outbound provisioning PDU.
pub const OUTBOUND_PDU_MAX: usize = 128;

/// One step of the reflected CRC-8 with polynomial `x^8 + x^2 + x + 1`.
pub open spec fn crc_step(c: u8) -> u8 {
    if c % 2 == 1 { (c / 2) ^ 0xE0u8 } else { c / 2 }
}

/// `k` steps of the CRC from `c`.
pub open spec fn crc_steps(c: u8, k: nat) -> u8
    decreases k,
{
    if k == 0 { c } else { crc_step(crc_steps(c, (k - 1) as nat)) }
}

/// The CRC register after the bytes of `s`, starting from `0xFF`.
pub open spec fn crc_of(s: Seq<u8>) -> u8
    decreases s.len(),
{
    if s.len() == 0 { 0xFF } else { crc_steps(crc_of(s.drop_last()) ^ s.last(), 8) }
}

/// The frame check sequence of a provisioning PDU: the complement of its
/// reflected CRC-8.
pub open spec fn fcs_of(s: Seq<u8>) -> u8 {
    (0xFF - crc_of(s)) as u8
}

/// The frame check sequence of `data`.
pub fn fcs(data: &[u8]) -> (f: u8)
    ensures
        f == fcs_of(data@),
{
    let mut crc: u8 = 0xFF;
    let mut i: usize = 0;
    while i < data.len()
        invariant
            i <= data.len(),
            crc == crc_of(data@.take(i as int)),
        decreases data.len() - i,
    {
        assert(data@.take(i as int + 1).drop_last() =~= data@.take(i as int));
        let mut c: u8 = crc ^ data[i];
        let ghost start = c;
        let mut k: usize = 0;
        while k < 8
            invariant
                k <= 8,
                c == crc_steps(start, k as nat),
            decreases 8 - k,
        {
            c = if c % 2 == 1 { (c / 2) ^ 0xE0u8 } else { c / 2 };
            k = k + 1;
        }
        crc = c;
        i = i + 1;
    }
    assert(data@.take(data@.len() as int) =~= data@);
    0xFF - crc
}

/// The number of segments of a provisioning PDU of `len` bytes: twenty bytes
/// in the start, twenty-three in each continuation.
pub open spec fn num_chunks_of(len: nat) -> nat {
    if len <= TRANSACTION_START_MTU { 1 } else { 1 + ((len - TRANSACTION_START_MTU) as nat + 22) / 23 }
}

/// The bytes of segment `i` of `pdu`.
pub open spec fn chunk_of(pdu: Seq<u8>, i: int) -> Seq<u8> {
    if i == 0 {
        if pdu.len() <= TRANSACTION_START_MTU { pdu } else { pdu.take(TRANSACTION_START_MTU as int) }
    } else {
        let start = TRANSACTION_START_MTU + (i - 1) * TRANSACTION_CONTINUATION_MTU;
        let end = start + TRANSACTION_CONTINUATION_MTU;
        if end <= pdu.len() { pdu.subrange(start, end) } else { pdu.subrange(start, pdu.len() as int) }
    }
}

/// The generic provisioning PDU that carries segment `i` of `pdu`.
pub open spec fn segment_pdu_of(pdu: Seq<u8>, fcs: u8, i: int) -> GenericProvisioningPDUView {
    if i == 0 {
        GenericProvisioningPDUView::TransactionStart {
            seg_n: (num_chunks_of(pdu.len()) - 1) as u8,
            total_len: pdu.len() as u16,
            fcs,
            data: chunk_of(pdu, 0),
        }
    } else {
        GenericProvisioningPDUView::TransactionContinuation { segment_index: i as u8, data: chunk_of(pdu, i) }
    }
}

/// An outbound provisioning PDU, its bytes and check sequence, ready to be
/// sent as a transaction.
pub struct OutboundSegments {
    pdu: Vec<u8>,
    num_segments: u8,
    fcs: u8,
}

impl OutboundSegments {
    /// The bytes of the provisioning PDU.
    pub closed spec fn bytes(&self) -> Seq<u8> {
        self.pdu@
    }

    /// The check sequence sent with it.
    pub closed spec fn spec_fcs(&self) -> u8 {
        self.fcs
    }

    #[verifier::type_invariant]
    spec fn inv(self) -> bool {
        &&& self.pdu@.len() <= OUTBOUND_PDU_MAX
        &&& self.num_segments == num_chunks_of(self.pdu@.len())
        &&& self.fcs == fcs_of(self.pdu@)
    }

    /// The segments of a PDU whose bytes fit 128.
    pub fn new(pdu: ProvisioningPDU) -> (r: Result<Self, DeviceError>)
        requires
            pdu.emittable(),
        ensures
            pdu.spec_bytes().len() <= OUTBOUND_PDU_MAX ==> (r matches Ok(s) && s.bytes() == pdu.spec_bytes()
                && s.spec_fcs() == fcs_of(pdu.spec_bytes())),
            pdu.spec_bytes().len() > OUTBOUND_PDU_MAX ==> r == Err::<OutboundSegments, DeviceError>(
                DeviceError::InsufficientBuffer,
            ),
    {
        let mut data = ByteBuf::new(OUTBOUND_PDU_MAX);
        match pdu.emit(&mut data) {
            Ok(()) => {},
            Err(_) => return Err(DeviceError::InsufficientBuffer),
        }
        let bytes = vstd::slice::slice_to_vec(data.as_slice());
        let fcs = fcs(bytes.as_slice());
        let num_segments = Self::num_chunks(bytes.as_slice());
        Ok(OutboundSegments { pdu: bytes, num_segments, fcs })
    }

    /// The number of segments of `pdu`.
    pub fn num_chunks(pdu: &[u8]) -> (n: u8)
        requires
            pdu@.len() <= OUTBOUND_PDU_MAX,
        ensures
            n == num_chunks_of(pdu@.len()),
    {
        let mut len = pdu.len();
        if len <= TRANSACTION_START_MTU {
            return 1;
        }
        let mut num_chunks: u8 = 1;
        len = len - TRANSACTION_START_MTU;
        while len > 0
            invariant
                len <= pdu@.len() - TRANSACTION_START_MTU,
                pdu@.len() > TRANSACTION_START_MTU,
                pdu@.len() <= OUTBOUND_PDU_MAX,
                num_chunks + (len + 22) / 23 == num_chunks_of(pdu@.len()),
                num_chunks_of(pdu@.len()) <= 6,
            decreases len,
        {
            num_chunks = num_chunks + 1;
            if len > TRANSACTION_CONTINUATION_MTU {
                len = len - TRANSACTION_CONTINUATION_MTU;
            } else {
                len = 0;
            }
        }
        num_chunks
    }

    /// The generic provisioning PDUs of the transaction, in order.
    pub fn iter(&self) -> (v: Vec<GenericProvisioningPDU>)
        ensures
            v@.len() == num_chunks_of(self.bytes().len()),
            forall|i: int| 0 <= i < v@.len() ==> (#[trigger] v@[i])@ == segment_pdu_of(self.bytes(), self.spec_fcs(), i),
    {
        proof { use_type_invariant(self); }
        let len = self.pdu.len();
        let mut out: Vec<GenericProvisioningPDU> = Vec::new();
        let first_end = if len <= TRANSACTION_START_MTU { len } else { TRANSACTION_START_MTU };
        let first = vstd::slice::slice_to_vec(vstd::slice::slice_subrange(self.pdu.as_slice(), 0, first_end));
        assert(first@ =~= chunk_of(self.pdu@, 0));
        out.push(GenericProvisioningPDU::TransactionStart(TransactionStart {
            seg_n: self.num_segments - 1,
            total_len: len as u16,
            fcs: self.fcs,
            data: first,
        }));
        let mut cur: usize = 1;
        while cur < self.num_segments as usize
            invariant
                self.inv(),
                len == self.pdu@.len(),
                1 <= cur <= self.num_segments,
                out@.len() == cur,
                forall|i: int| 0 <= i < out@.len() ==> (#[trigger] out@[i])@ == segment_pdu_of(self.pdu@, self.fcs, i),
            decreases self.num_segments - cur,
        {
            let start = TRANSACTION_START_MTU + (cur - 1) * TRANSACTION_CONTINUATION_MTU;
            let end = if start + TRANSACTION_CONTINUATION_MTU <= len { start + TRANSACTION_CONTINUATION_MTU } else { len };
            let chunk = vstd::slice::slice_to_vec(vstd::slice::slice_subrange(self.pdu.as_slice(), start, end));
            assert(chunk@ =~= chunk_of(self.pdu@, cur as int));
            out.push(GenericProvisioningPDU::TransactionContinuation(TransactionContinuation {
                segment_index: cur as u8,
                data: chunk,
            }));
            cur = cur + 1;
        }
        out
    }
}

/// The concatenation of the received segments, in order.
pub open spec fn concat_segments(s: Seq<Option<Seq<u8>>>) -> Seq<u8>
    decreases s.len(),
{
    if s.len() == 0 {
        Seq::empty()
    } else {
        concat_segments(s.drop_last()) + match s.last() {
            Some(d) => d,
            None => Seq::empty(),
        }
    }
}

/// Whether every segment has been received.
pub open spec fn all_received(s: Seq<Option<Seq<u8>>>) -> bool {
    forall|i: int| 0 <= i < s.len() ==> (#[trigger] s[i]) is Some
}

/// The segments of an inbound transaction received so far.
pub struct InboundSegments {
    segments: Vec<Option<Vec<u8>>>,
}

impl View for InboundSegments {
    type V = Seq<Option<Seq<u8>>>;

    closed spec fn view(&self) -> Seq<Option<Seq<u8>>> {
        self.segments@.map_values(|o: Option<Vec<u8>>| match o {
            Some(v) => Some(v@),
            None => None,
        })
    }
}

impl InboundSegments {
    /// A transaction of `seg_n + 1` segments whose first is `data`; refused
    /// when it has more than 32 segments or `data` more than 64 bytes.
    pub fn new(seg_n: u8, data: &Vec<u8>) -> (r: Result<Self, DeviceError>)
        requires
            seg_n < 255,
        ensures
            seg_n + 1 <= INBOUND_SEGMENTS_MAX && data@.len() <= SEGMENT_DATA_MAX ==> (r matches Ok(s) && s@.len()
                == seg_n + 1 && s@[0] == Some(data@) && forall|i: int| 1 <= i < s@.len() ==> (#[trigger] s@[i]) is None),
            !(seg_n + 1 <= INBOUND_SEGMENTS_MAX && data@.len() <= SEGMENT_DATA_MAX) ==> r == Err::<InboundSegments, DeviceError>(
                DeviceError::InsufficientBuffer,
            ),
    {
        if seg_n as usize + 1 > INBOUND_SEGMENTS_MAX || data.len() > SEGMENT_DATA_MAX {
            return Err(DeviceError::InsufficientBuffer);
        }
        let mut segments: Vec<Option<Vec<u8>>> = Vec::new();
        let mut i: usize = 0;
        while i < seg_n as usize + 1
            invariant
                i <= seg_n + 1,
                segments@.len() == i,
                forall|j: int| 0 <= j < i ==> (#[trigger] segments@[j]) is None,
            decreases seg_n + 1 - i,
        {
            segments.push(None);
            i = i + 1;
        }
        segments.set(0, Some(data.clone()));
        let s = InboundSegments { segments };
        assert(s@[0] == Some(data@));
        Ok(s)
    }

    /// Whether every segment has been received.
    pub fn is_complete(&self) -> (b: bool)
        ensures
            b == all_received(self@),
    {
        let mut i: usize = 0;
        while i < self.segments.len()
            invariant
                i <= self.segments@.len(),
                forall|j: int| 0 <= j < i ==> (#[trigger] self@[j]) is Some,
            decreases self.segments@.len() - i,
        {
            if self.segments[i].is_none() {
                assert(!(self@[i as int] is Some));
                return false;
            }
            i = i + 1;
        }
        true
    }

    /// The segments received so far joined, within `max` bytes, or refused
    /// when one is missing or they exceed `max`.
    pub fn fill(&self, max: usize) -> (r: Result<Vec<u8>, DeviceError>)
        ensures
            all_received(self@) && concat_segments(self@).len() <= max ==> (r matches Ok(v) && v@ == concat_segments(
                self@,
            )),
            !all_received(self@) ==> r is Err,
            all_received(self@) && concat_segments(self@).len() > max ==> r == Err::<Vec<u8>, DeviceError>(
                DeviceError::InsufficientBuffer,
            ),
    {
        let mut dst: Vec<u8> = Vec::new();
        let mut i: usize = 0;
        while i < self.segments.len()
            invariant
                i <= self.segments@.len(),
                forall|j: int| 0 <= j < i ==> (#[trigger] self@[j]) is Some,
                dst@ == concat_segments(self@.take(i as int)),
                dst@.len() <= max,
            decreases self.segments@.len() - i,
        {
            assert(self@.take(i as int + 1).drop_last() =~= self@.take(i as int));
            match &self.segments[i] {
                Some(chunk) => {
                    if chunk.len() > max - dst.len() {
                        proof { lemma_concat_prefix(self@, i as int + 1); }
                        return Err(DeviceError::InsufficientBuffer);
                    }
                    let mut c = chunk.clone();
                    dst.append(&mut c);
                },
                None => {
                    assert(!(self@[i as int] is Some));
                    return Err(DeviceError::IncompleteTransaction);
                },
            }
            i = i + 1;
        }
        assert(self@.take(self@.len() as int) =~= self@);
        Ok(dst)
    }

    /// Records segment `segment_index` unless it is already held; one of
    /// more than 64 bytes is refused.
    pub fn store(&mut self, segment_index: u8, data: &Vec<u8>) -> (r: Result<(), DeviceError>)
        requires
            segment_index < old(self)@.len(),
        ensures
            old(self)@[segment_index as int] is None && data@.len() > SEGMENT_DATA_MAX ==> final(self)@ == old(self)@
                && r == Err::<(), DeviceError>(DeviceError::InsufficientBuffer),
            !(old(self)@[segment_index as int] is None && data@.len() > SEGMENT_DATA_MAX) ==> final(self)@
                == Self::after_receive(old(self)@, segment_index, data@) && r is Ok,
    {
        if self.segments[segment_index as usize].is_none() {
            if data.len() > SEGMENT_DATA_MAX {
                return Err(DeviceError::InsufficientBuffer);
            }
            self.segments.set(segment_index as usize, Some(data.clone()));
            assert(self@ =~= old(self)@.update(segment_index as int, Some(data@)));
        }
        Ok(())
    }

    /// Records segment `segment_index`, unless it is already held, and once
    /// all are held reads the provisioning PDU they join into.
    pub fn receive(&mut self, segment_index: u8, data: &Vec<u8>) -> (r: Result<Option<ProvisioningPDU>, DeviceError>)
        requires
            segment_index < old(self)@.len(),
            Self::receive_defined(old(self)@, segment_index, data@),
        ensures
            Self::received(old(self)@, segment_index, data@, final(self)@, r),
    {
        self.store(segment_index, data)?;
        if self.is_complete() {
            let data = self.fill(REASSEMBLED_MAX)?;
            match ProvisioningPDU::parse(data.as_slice()) {
                Ok(pdu) => Ok(Some(pdu)),
                Err(e) => Err(DeviceError::Parse(e)),
            }
        } else {
            Ok(None)
        }
    }

    /// The segments after receiving `data` as segment `i`.
    pub open spec fn after_receive(s: Seq<Option<Seq<u8>>>, i: u8, data: Seq<u8>) -> Seq<Option<Seq<u8>>> {
        if s[i as int] is None { s.update(i as int, Some(data)) } else { s }
    }

    /// Whether reading the joined segments after receiving `data` as
    /// segment `i` stays within their bytes.
    pub open spec fn receive_defined(s: Seq<Option<Seq<u8>>>, i: u8, data: Seq<u8>) -> bool {
        let t = Self::after_receive(s, i, data);
        (s[i as int] is None ==> data.len() <= SEGMENT_DATA_MAX) && all_received(t) && concat_segments(t).len()
            <= REASSEMBLED_MAX ==> ProvisioningPDU::parse_defined(concat_segments(t))
    }

    /// Whether receiving `data` as segment `i` of `s` leaves `t` and gives
    /// `r`: a segment already held is kept; one of more than 64 bytes is
    /// refused; once all are held their joined bytes, within 1024, are read.
    pub open spec fn received(
        s: Seq<Option<Seq<u8>>>,
        i: u8,
        data: Seq<u8>,
        t: Seq<Option<Seq<u8>>>,
        r: Result<Option<ProvisioningPDU>, DeviceError>,
    ) -> bool {
        if s[i as int] is None && data.len() > SEGMENT_DATA_MAX {
            t == s && r == Err::<Option<ProvisioningPDU>, DeviceError>(DeviceError::InsufficientBuffer)
        } else {
            &&& t == Self::after_receive(s, i, data)
            &&& if !all_received(t) {
                r matches Ok(None)
            } else if concat_segments(t).len() > REASSEMBLED_MAX {
                r == Err::<Option<ProvisioningPDU>, DeviceError>(DeviceError::InsufficientBuffer)
            } else {
                match ProvisioningPDU::spec_parse(concat_segments(t)) {
                    Ok(v) => r matches Ok(Some(p)) && p@ == v,
                    Err(e) => r == Err::<Option<ProvisioningPDU>, DeviceError>(DeviceError::Parse(e)),
                }
            }
        }
    }
}

/// The reassembly of inbound transactions and the segmentation of outbound
/// provisioning PDUs.
pub struct Segmentation {
    inbound_segments: Option<InboundSegments>,
}

impl Default for Segmentation {
    fn default() -> (s: Self)
        ensures
            s@ is None,
    {
        Segmentation { inbound_segments: None }
    }
}

impl View for Segmentation {
    type V = Option<Seq<Option<Seq<u8>>>>;

    closed spec fn view(&self) -> Option<Seq<Option<Seq<u8>>>> {
        match &self.inbound_segments {
            Some(s) => Some(s@),
            None => None,
        }
    }
}

/// What reading a provisioning PDU from `data` gives, a PDU too short for
/// its fields counting as one of the wrong length.
pub open spec fn read_pdu(data: Seq<u8>, r: Result<Option<ProvisioningPDU>, DeviceError>) -> bool {
    if !ProvisioningPDU::parse_defined(data) {
        r == Err::<Option<ProvisioningPDU>, DeviceError>(DeviceError::Parse(crate::pdu::ParseError::InvalidLength))
    } else {
        match ProvisioningPDU::spec_parse(data) {
            Ok(v) => r matches Ok(Some(p)) && p@ == v,
            Err(e) => r == Err::<Option<ProvisioningPDU>, DeviceError>(DeviceError::Parse(e)),
        }
    }
}

impl Segmentation {
    /// Whether receiving `pdu` in state `s` leaves `t` and gives `r`. A
    /// transaction of one segment is read at once. The start of a longer
    /// one opens its reassembly unless one is open. A continuation is
    /// recorded in the open reassembly, if its index is in range; once all
    /// segments are held, their joined bytes are read and the reassembly
    /// closed. Anything else is ignored.
    pub open spec fn inbound_step(
        s: Option<Seq<Option<Seq<u8>>>>,
        pdu: GenericProvisioningPDUView,
        t: Option<Seq<Option<Seq<u8>>>>,
        r: Result<Option<ProvisioningPDU>, DeviceError>,
    ) -> bool {
        match pdu {
            GenericProvisioningPDUView::TransactionStart { seg_n, data, .. } => if seg_n == 0 {
                t == s && read_pdu(data, r)
            } else if s is Some {
                t == s && r matches Ok(None)
            } else if seg_n as int + 1 > INBOUND_SEGMENTS_MAX || data.len() > SEGMENT_DATA_MAX {
                t == s && r == Err::<Option<ProvisioningPDU>, DeviceError>(DeviceError::InsufficientBuffer)
            } else {
                &&& r matches Ok(None)
                &&& t matches Some(segs)
                &&& segs.len() == seg_n + 1
                &&& segs[0] == Some(data)
                &&& forall|i: int| 1 <= i < segs.len() ==> (#[trigger] segs[i]) is None
            },
            GenericProvisioningPDUView::TransactionContinuation { segment_index, data } => match s {
                None => t == s && r matches Ok(None),
                Some(segs) => if segment_index >= segs.len() {
                    t == s && r matches Ok(None)
                } else if segs[segment_index as int] is None && data.len() > SEGMENT_DATA_MAX {
                    t == s && r == Err::<Option<ProvisioningPDU>, DeviceError>(DeviceError::InsufficientBuffer)
                } else {
                    let after = InboundSegments::after_receive(segs, segment_index, data);
                    if !all_received(after) {
                        t == Some(after) && r matches Ok(None)
                    } else if concat_segments(after).len() > REASSEMBLED_MAX {
                        t == Some(after) && r == Err::<Option<ProvisioningPDU>, DeviceError>(DeviceError::InsufficientBuffer)
                    } else {
                        &&& read_pdu(concat_segments(after), r)
                        &&& r matches Ok(Some(_)) ==> t is None
                        &&& !(r matches Ok(Some(_))) ==> t == Some(after)
                    }
                },
            },
            _ => t == s && r matches Ok(None),
        }
    }

    /// Reads a provisioning PDU, checking first that it is long enough for
    /// its fields.
    fn read(data: &[u8]) -> (r: Result<Option<ProvisioningPDU>, DeviceError>)
        ensures
            read_pdu(data@, r),
    {
        if !ProvisioningPDU::parse_is_defined(data) {
            return Err(DeviceError::Parse(crate::pdu::ParseError::InvalidLength));
        }
        match ProvisioningPDU::parse(data) {
            Ok(pdu) => Ok(Some(pdu)),
            Err(e) => Err(DeviceError::Parse(e)),
        }
    }

    /// Receives one generic provisioning PDU of a transaction.
    pub fn process_inbound(&mut self, pdu: GenericProvisioningPDU) -> (r: Result<Option<ProvisioningPDU>, DeviceError>)
        ensures
            Self::inbound_step(old(self)@, pdu@, final(self)@, r),
    {
        match pdu {
            GenericProvisioningPDU::TransactionStart(start) => {
                if start.seg_n == 0 {
                    Self::read(start.data.as_slice())
                } else if self.inbound_segments.is_some() {
                    Ok(None)
                } else if start.seg_n as usize + 1 > INBOUND_SEGMENTS_MAX {
                    Err(DeviceError::InsufficientBuffer)
                } else {
                    let segments = InboundSegments::new(start.seg_n, &start.data)?;
                    self.inbound_segments = Some(segments);
                    Ok(None)
                }
            },
            GenericProvisioningPDU::TransactionContinuation(cont) => {
                let mut segments = match self.inbound_segments.take() {
                    Some(s) => s,
                    None => return Ok(None),
                };
                if cont.segment_index as usize >= segments.segments.len() {
                    self.inbound_segments = Some(segments);
                    return Ok(None);
                }
                let stored = segments.store(cont.segment_index, &cont.data);
                if stored.is_err() {
                    self.inbound_segments = Some(segments);
                    return Err(DeviceError::InsufficientBuffer);
                }
                if !segments.is_complete() {
                    self.inbound_segments = Some(segments);
                    return Ok(None);
                }
                let joined = segments.fill(REASSEMBLED_MAX);
                match joined {
                    Err(e) => {
                        self.inbound_segments = Some(segments);
                        Err(e)
                    },
                    Ok(data) => {
                        let r = Self::read(data.as_slice());
                        if !(r matches Ok(Some(_))) {
                            self.inbound_segments = Some(segments);
                        }
                        r
                    },
                }
            },
            _ => Ok(None),
        }
    }

    /// The segments of an outbound provisioning PDU.
    pub fn process_outbound(&mut self, pdu: ProvisioningPDU) -> (r: Result<OutboundSegments, DeviceError>)
        requires
            pdu.emittable(),
        ensures
            final(self)@ == old(self)@,
            pdu.spec_bytes().len() <= OUTBOUND_PDU_MAX ==> (r matches Ok(s) && s.bytes() == pdu.spec_bytes()
                && s.spec_fcs() == fcs_of(pdu.spec_bytes())),
            pdu.spec_bytes().len() > OUTBOUND_PDU_MAX ==> r == Err::<OutboundSegments, DeviceError>(
                DeviceError::InsufficientBuffer,
            ),
    {
        OutboundSegments::new(pdu)
    }
}

/// The joined segments only grow as more are joined.
proof fn lemma_concat_prefix(s: Seq<Option<Seq<u8>>>, k: int)
    requires
        0 <= k <= s.len(),
    ensures
        concat_segments(s.take(k)).len() <= concat_segments(s).len(),
    decreases s.len() - k,
{
    if k < s.len() {
        lemma_concat_prefix(s, k + 1);
        assert(s.take(k + 1).drop_last() =~= s.take(k));
    } else {
        assert(s.take(k) =~= s);
    }
}

/// The segments of a transaction of `n` segments of `pdu` once the first
/// `k` are held.
pub open spec fn received_prefix(pdu: Seq<u8>, n: nat, k: int) -> Seq<Option<Seq<u8>>> {
    Seq::new(n, |j: int| if j < k { Some(chunk_of(pdu, j)) } else { None })
}

/// How many bytes of a PDU of `len` bytes its first `k` segments carry.
pub open spec fn prefix_len(len: nat, k: int) -> int {
    if k <= 0 {
        0
    } else if TRANSACTION_START_MTU + (k - 1) * TRANSACTION_CONTINUATION_MTU <= len {
        TRANSACTION_START_MTU + (k - 1) * TRANSACTION_CONTINUATION_MTU
    } else {
        len as int
    }
}

/// The first `k` segments of a PDU, joined, are its first `prefix_len`
/// bytes.
proof fn lemma_concat_chunks(pdu: Seq<u8>, k: int)
    requires
        1 <= pdu.len() <= OUTBOUND_PDU_MAX,
        0 <= k <= num_chunks_of(pdu.len()),
    ensures
        concat_segments(Seq::new(k as nat, |j: int| Some(chunk_of(pdu, j)))) =~= pdu.take(prefix_len(pdu.len(), k)),
    decreases k,
{
    if k > 0 {
        lemma_concat_chunks(pdu, k - 1);
        let s = Seq::new(k as nat, |j: int| Some(chunk_of(pdu, j)));
        assert(s.drop_last() =~= Seq::new((k - 1) as nat, |j: int| Some(chunk_of(pdu, j))));
        assert(k - 1 >= 1 ==> TRANSACTION_START_MTU + (k - 2) * TRANSACTION_CONTINUATION_MTU < pdu.len());
    }
}

/// Each step of a transaction of `pdu` received in order, from the second
/// segment on: after `k` segments the first `k` are held and nothing has
/// been read.
proof fn lemma_transaction_prefix(
    pdu: Seq<u8>,
    states: Seq<Option<Seq<Option<Seq<u8>>>>>,
    results: Seq<Result<Option<ProvisioningPDU>, DeviceError>>,
    k: int,
)
    requires
        1 <= pdu.len() <= OUTBOUND_PDU_MAX,
        num_chunks_of(pdu.len()) >= 2,
        1 <= k < num_chunks_of(pdu.len()),
        states.len() == results.len() + 1,
        results.len() == num_chunks_of(pdu.len()),
        states[0] is None,
        forall|i: int|
            0 <= i < results.len() ==> Segmentation::inbound_step(
                states[i],
                segment_pdu_of(pdu, fcs_of(pdu), i),
                states[i + 1],
                #[trigger] results[i],
            ),
    ensures
        states[k] == Some(received_prefix(pdu, num_chunks_of(pdu.len()), k)),
        forall|i: int| 0 <= i < k ==> (#[trigger] results[i]) matches Ok(None),
    decreases k,
{
    let n = num_chunks_of(pdu.len());
    if k == 1 {
        assert(Segmentation::inbound_step(states[0], segment_pdu_of(pdu, fcs_of(pdu), 0), states[1], results[0]));
        assert(states[1]->0 =~= received_prefix(pdu, n, 1));
    } else {
        lemma_transaction_prefix(pdu, states, results, k - 1);
        let i = k - 1;
        assert(Segmentation::inbound_step(states[i], segment_pdu_of(pdu, fcs_of(pdu), i), states[i + 1], results[i]));
        let segs = received_prefix(pdu, n, i);
        assert(InboundSegments::after_receive(segs, i as u8, chunk_of(pdu, i)) =~= received_prefix(pdu, n, k));
        assert(!(received_prefix(pdu, n, k)[n - 1] is Some));
    }
}

/// A provisioning PDU that a device sends as a transaction, its segments
/// received in order by a segmentation with no reassembly open, is read
/// back as the same PDU at the last segment, and no reassembly is left
/// open; no segment before the last yields anything.
pub proof fn lemma_transaction_roundtrip(
    pdu: ProvisioningPDU,
    states: Seq<Option<Seq<Option<Seq<u8>>>>>,
    results: Seq<Result<Option<ProvisioningPDU>, DeviceError>>,
)
    requires
        pdu.emittable(),
        pdu matches ProvisioningPDU::Capabilities(c) ==> c@.recognised(),
        states.len() == results.len() + 1,
        results.len() == num_chunks_of(pdu.spec_bytes().len()),
        states[0] is None,
        forall|i: int|
            0 <= i < results.len() ==> Segmentation::inbound_step(
                states[i],
                segment_pdu_of(pdu.spec_bytes(), fcs_of(pdu.spec_bytes()), i),
                states[i + 1],
                #[trigger] results[i],
            ),
    ensures
        forall|i: int| 0 <= i < results.len() - 1 ==> (#[trigger] results[i]) matches Ok(None),
        results.last() matches Ok(Some(q)) && q@ == pdu@,
        states.last() is None,
{
    let b = pdu.spec_bytes();
    lemma_provisioning_pdu_roundtrip(pdu);
    assert(1 <= b.len() <= OUTBOUND_PDU_MAX);
    let n = num_chunks_of(b.len());
    if n == 1 {
        assert(Segmentation::inbound_step(states[0], segment_pdu_of(b, fcs_of(b), 0), states[1], results[0]));
    } else {
        lemma_transaction_prefix(b, states, results, n - 1);
        let i = n - 1;
        assert(Segmentation::inbound_step(states[i], segment_pdu_of(b, fcs_of(b), i), states[i + 1], results[i]));
        let after = received_prefix(b, n, n as int);
        assert(InboundSegments::after_receive(received_prefix(b, n, i), i as u8, chunk_of(b, i)) =~= after);
        assert(after =~= Seq::new(n, |j: int| Some(chunk_of(b, j))));
        lemma_concat_chunks(b, n as int);
        assert(b.take(prefix_len(b.len(), n as int)) =~= b);
    }
}


/// The data of the segments of a provisioning PDU, joined in order, are the
/// PDU's bytes: twenty in the start, twenty-three in each continuation, the
/// last holding what is left.
pub proof fn lemma_segments_concatenate(pdu: Seq<u8>)
    requires
        1 <= pdu.len() <= OUTBOUND_PDU_MAX,
    ensures
        concat_segments(Seq::new(num_chunks_of(pdu.len()), |j: int| Some(chunk_of(pdu, j)))) == pdu,
{
    let n = num_chunks_of(pdu.len());
    lemma_concat_chunks(pdu, n as int);
    assert(pdu.take(prefix_len(pdu.len(), n as int)) =~= pdu);
}

} // verus!
