//! The lower transport stage: device-key encryption of access payloads and
//! their segmentation into network PDUs, and the reverse for unsegmented
//! inbound access PDUs.
use vstd::prelude::*;
use crate::crypto::nonce::{device_nonce_bytes, DeviceNonce};
use crate::crypto::{ccm_decrypt_mic32, ccm_decrypt_of, ccm_encrypt_mic32, ccm_encrypt_of};
use crate::buffer::concat_parts;
use crate::driver::DeviceError;
use crate::pdu::lower::{LowerAccess, LowerAccessMessage, LowerPDU, LowerPDUView, SzMic};
use crate::pdu::network::CleartextNetworkPDU;
use crate::pdu::upper::{UpperAccess, UpperPDU};

verus! {

/// The most bytes one segment of an access message carries.
pub const SEGMENTED_ACCESS_MTU: usize = 12;
/// The most bytes an unsegmented access PDU carries.
pub const NONSEGMENTED_ACCESS_MTU: usize = 15;
/// The most bytes of an upper transport access payload with its MIC.
pub const UPPER_ACCESS_MAX: usize = 380;
/// The most network PDUs that one outbound access message is kept as.
pub const SEGMENTS_MAX: usize = 10;

/// The number of segments of `len` bytes, twelve to a segment.
pub open spec fn chunk_count(len: nat) -> nat {
    (len + 11) / 12
}

/// Segment `i` of a sealed payload.
pub open spec fn chunk_of(sealed: Seq<u8>, i: int) -> Seq<u8> {
    let end = if 12 * i + 12 <= sealed.len() { 12 * i + 12 } else { sealed.len() as int };
    sealed.subrange(12 * i, end)
}

/// The lower transport access PDU that carries segment `i` of a sealed
/// payload.
pub open spec fn segment_view(sealed: Seq<u8>, seq_zero: u32, i: int) -> LowerPDUView {
    LowerPDUView::SegmentedAccess {
        akf: false,
        aid: 0,
        szmic: SzMic::Bit32,
        seq_zero: seq_zero as u16,
        seg_o: i as u8,
        seg_n: (chunk_count(sealed.len()) - 1) as u8,
        segment: chunk_of(sealed, i),
    }
}

/// Whether network PDU `p` carries `transport` from the source, destination
/// and network of `access`, with time to live `ttl` and sequence number
/// `seq`.
pub open spec fn carries(p: CleartextNetworkPDU, access: UpperAccess, ttl: u8, seq: u32, transport: LowerPDUView) -> bool {
    &&& p.network_key == access.network_key
    &&& p.ivi == access.ivi
    &&& p.nid == access.nid
    &&& p.ttl == ttl
    &&& p.seq == seq
    &&& p.src == access.src
    &&& p.dst == access.dst
    &&& p.transport_pdu@ == transport
}

/// The network PDUs of one outbound access message, at most ten.
pub struct CleartextNetworkPDUSegments {
    segments: Vec<CleartextNetworkPDU>,
}

impl View for CleartextNetworkPDUSegments {
    type V = Seq<CleartextNetworkPDU>;

    closed spec fn view(&self) -> Seq<CleartextNetworkPDU> {
        self.segments@
    }
}

impl CleartextNetworkPDUSegments {
    /// One network PDU alone.
    pub fn new(first: CleartextNetworkPDU) -> (s: Self)
        ensures
            s@ == seq![first],
    {
        let mut segments = Vec::new();
        segments.push(first);
        CleartextNetworkPDUSegments { segments }
    }

    /// No network PDU yet.
    pub fn new_empty() -> (s: Self)
        ensures
            s@ == Seq::<CleartextNetworkPDU>::empty(),
    {
        CleartextNetworkPDUSegments { segments: Vec::new() }
    }

    /// Adds a network PDU, refused once ten are held.
    pub fn add(&mut self, pdu: CleartextNetworkPDU) -> (r: Result<(), DeviceError>)
        ensures
            r is Ok <==> old(self)@.len() < SEGMENTS_MAX,
            r is Ok ==> final(self)@ == old(self)@.push(pdu),
            r is Err ==> final(self)@ == old(self)@ && r == Err::<(), DeviceError>(DeviceError::InsufficientBuffer),
    {
        if self.segments.len() < SEGMENTS_MAX {
            self.segments.push(pdu);
            Ok(())
        } else {
            Err(DeviceError::InsufficientBuffer)
        }
    }

    /// The network PDUs, in order.
    pub fn iter(&self) -> (s: &[CleartextNetworkPDU])
        ensures
            s@ == self@,
    {
        self.segments.as_slice()
    }
}

/// The lower transport stage.
pub struct Lower {}

impl Default for Lower {
    fn default() -> (l: Self)
        ensures
            l == (Lower {}),
    {
        Lower {}
    }
}

impl Lower {
    /// How many sequence numbers sending `pdu` takes: none for a control
    /// message, one per segment of the sealed access payload, one when it
    /// goes unsegmented. A payload over 380 bytes is refused.
    pub open spec fn spec_sequences_needed(payload_len: nat) -> nat {
        if payload_len + 4 > NONSEGMENTED_ACCESS_MTU {
            chunk_count(payload_len + 4)
        } else {
            1
        }
    }

    /// The number of sequence numbers that sending `pdu` takes.
    pub fn sequences_needed(pdu: &UpperPDU) -> (r: Result<usize, DeviceError>)
        ensures
            match pdu {
                UpperPDU::Control(_) => r == Ok::<usize, DeviceError>(0),
                UpperPDU::Access(a) => if a.payload@.len() > UPPER_ACCESS_MAX {
                    r == Err::<usize, DeviceError>(DeviceError::InsufficientBuffer)
                } else {
                    r matches Ok(n) && n == Self::spec_sequences_needed(a.payload@.len())
                },
            },
    {
        match pdu {
            UpperPDU::Control(_) => Ok(0),
            UpperPDU::Access(access) => {
                let len = access.payload.len();
                if len > UPPER_ACCESS_MAX {
                    Err(DeviceError::InsufficientBuffer)
                } else if len + 4 > NONSEGMENTED_ACCESS_MTU {
                    Ok((len + 4 + 11) / 12)
                } else {
                    Ok(1)
                }
            },
        }
    }

    /// Whether `r` is what receiving the unsegmented access PDU `pdu` gives
    /// under `iv_index`: the last four bytes are the transport MIC; a payload
    /// under the device key (no application key flag) must authenticate
    /// with the device nonce, and is then given decrypted; one under an
    /// application key is given as it came.
    pub open spec fn inbound_parsed(
        iv_index: Option<u32>,
        device_key: Seq<u8>,
        pdu: CleartextNetworkPDU,
        r: Result<Option<UpperPDU>, DeviceError>,
    ) -> bool {
        match pdu.transport_pdu@ {
            LowerPDUView::UnsegmentedAccess { akf, aid, payload: whole } => {
                let split = whole.len() - 4;
                let payload = whole.take(split);
                let mic = whole.skip(split);
                if split > UPPER_ACCESS_MAX {
                    r matches Err(e) && e == DeviceError::InsufficientBuffer
                } else if !akf && iv_index is None {
                    r matches Err(e) && e == DeviceError::CryptoError
                } else {
                    let opened = if akf {
                        Some(payload)
                    } else {
                        ccm_decrypt_of(
                            device_key,
                            device_nonce_bytes(false, pdu.seq, pdu.src, pdu.dst, iv_index->0),
                            payload,
                            mic,
                        )
                    };
                    match opened {
                        None => r matches Err(e) && e == DeviceError::CryptoError,
                        Some(plain) => {
                            &&& r matches Ok(Some(UpperPDU::Access(a)))
                            &&& a.ttl == Some(pdu.ttl)
                            &&& a.network_key == pdu.network_key
                            &&& a.ivi == pdu.ivi
                            &&& a.nid == pdu.nid
                            &&& a.akf == akf
                            &&& a.aid == aid
                            &&& a.src == pdu.src
                            &&& a.dst == pdu.dst
                            &&& a.payload@ == plain
                        },
                    }
                }
            },
            _ => false,
        }
    }

    /// Receives an unsegmented access PDU (the only kind this stage reads).
    pub fn process_inbound(&mut self, iv_index: Option<u32>, device_key: &[u8; 16], pdu: CleartextNetworkPDU) -> (r:
        Result<Option<UpperPDU>, DeviceError>)
        requires
            pdu.transport_pdu@ matches LowerPDUView::UnsegmentedAccess { payload, .. } && payload.len() >= 4,
        ensures
            Self::inbound_parsed(iv_index, device_key@, pdu, r),
    {
        let ghost view = pdu.transport_pdu@;
        let CleartextNetworkPDU { network_key, ivi, nid, ttl, seq, src, dst, transport_pdu } = pdu;
        let access = match transport_pdu {
            LowerPDU::Access(a) => a,
            LowerPDU::Control(_) => {
                assert(false);
                return Err(DeviceError::InsufficientBuffer);
            },
        };
        let whole = match access.message {
            LowerAccessMessage::Unsegmented(p) => p,
            LowerAccessMessage::Segmented { .. } => {
                assert(false);
                return Err(DeviceError::InsufficientBuffer);
            },
        };
        let split = whole.len() - 4;
        let body = vstd::slice::slice_subrange(whole.as_slice(), 0, split);
        let mic = crate::bytes::take_array4(whole.as_slice(), split);
        assert(body@ =~= whole@.take(split as int));
        assert(mic@ =~= whole@.skip(split as int));
        if split > UPPER_ACCESS_MAX {
            return Err(DeviceError::InsufficientBuffer);
        }
        let payload = if access.akf {
            vstd::slice::slice_to_vec(body)
        } else {
            let iv = match iv_index {
                Some(iv) => iv,
                None => return Err(DeviceError::CryptoError),
            };
            let nonce = DeviceNonce::new(false, seq, src, dst, iv).into_bytes();
            match ccm_decrypt_mic32(device_key, &nonce, body, &mic) {
                Some(p) => p,
                None => return Err(DeviceError::CryptoError),
            }
        };
        Ok(
            Some(
                UpperPDU::Access(
                    UpperAccess {
                        ttl: Some(ttl),
                        network_key,
                        ivi,
                        nid,
                        akf: access.akf,
                        aid: access.aid,
                        src,
                        dst,
                        payload,
                    },
                ),
            ),
        )
    }

    /// The time to live of an outbound message: its own, else the default.
    pub open spec fn ttl_of(ttl: Option<u8>, default_ttl: u8) -> u8 {
        match ttl {
            Some(t) => t,
            None => default_ttl,
        }
    }

    /// The payload of `access` sealed under the device key with the device
    /// nonce of `seq_zero`, its 32-bit MIC appended.
    pub open spec fn sealed_of(device_key: Seq<u8>, seq_zero: u32, access: UpperAccess, iv: u32) -> Seq<u8> {
        ccm_encrypt_of(device_key, device_nonce_bytes(false, seq_zero, access.src, access.dst, iv), access.payload@, 4)
    }

    /// Whether `r` is what sending the access message `access` gives, with
    /// `seqs` the sequence numbers drawn for it, the first the SeqZero. A
    /// sealed payload within 15 bytes goes as one unsegmented PDU; a longer
    /// one is cut into segments of twelve bytes, each with the next sequence
    /// number, of which the first ten are kept.
    pub open spec fn outbound_result(
        iv_index: Option<u32>,
        default_ttl: u8,
        device_key: Seq<u8>,
        seqs: Seq<u32>,
        access: UpperAccess,
        r: Result<Option<CleartextNetworkPDUSegments>, DeviceError>,
    ) -> bool {
        let ttl = match access.ttl {
            Some(t) => t,
            None => default_ttl,
        };
        if iv_index is None {
            r matches Err(e) && e == DeviceError::CryptoError
        } else if access.payload@.len() + 4 > UPPER_ACCESS_MAX {
            r matches Err(e) && e == DeviceError::InsufficientBuffer
        } else {
            let sealed = Self::sealed_of(device_key, seqs[0], access, iv_index->0);
            &&& r matches Ok(Some(s))
            &&& if sealed.len() > NONSEGMENTED_ACCESS_MTU {
                let n = chunk_count(sealed.len());
                &&& s@.len() == if n < SEGMENTS_MAX { n } else { SEGMENTS_MAX as nat }
                &&& forall|i: int|
                    0 <= i < s@.len() ==> carries(#[trigger] s@[i], access, ttl, seqs[i], segment_view(sealed, seqs[0], i))
            } else {
                &&& s@.len() == 1
                &&& carries(s@[0], access, ttl, seqs[0], LowerPDUView::UnsegmentedAccess { akf: false, aid: 0, payload: sealed })
            }
        }
    }

    /// Seals an outbound access message under the device key and cuts it
    /// into network PDUs; `seqs` are the sequence numbers drawn for it
    /// (as many as [`Lower::sequences_needed`] gives). A control message
    /// gives nothing.
    pub fn process_outbound(
        &mut self,
        iv_index: Option<u32>,
        default_ttl: u8,
        device_key: &[u8; 16],
        seqs: &[u32],
        pdu: UpperPDU,
    ) -> (r: Result<Option<CleartextNetworkPDUSegments>, DeviceError>)
        requires
            pdu matches UpperPDU::Access(a) ==> !a.akf && (a.payload@.len() <= UPPER_ACCESS_MAX ==> seqs@.len()
                == Self::spec_sequences_needed(a.payload@.len())),
        ensures
            match pdu {
                UpperPDU::Control(_) => r matches Ok(None),
                UpperPDU::Access(a) => if a.payload@.len() > UPPER_ACCESS_MAX {
                    r matches Err(e) && e == DeviceError::InsufficientBuffer
                } else {
                    Self::outbound_result(iv_index, default_ttl, device_key@, seqs@, a, r)
                },
            },
            pdu matches UpperPDU::Access(a) ==> (r matches Ok(Some(_)) ==> Self::sealed_of(
                device_key@,
                seqs@[0],
                a,
                iv_index->0,
            ).len() == a.payload@.len() + 4),
            pdu matches UpperPDU::Access(a) ==> (a.payload@.len() + 4 <= NONSEGMENTED_ACCESS_MTU ==> (r matches Ok(
                Some(s),
            ) ==> Self::inbound_parsed(
                iv_index,
                device_key@,
                s@[0],
                Ok(Some(UpperPDU::Access(UpperAccess { ttl: Some(Self::ttl_of(a.ttl, default_ttl)), aid: 0, ..a }))),
            ))),
    {
        let access = match pdu {
            UpperPDU::Control(_) => return Ok(None),
            UpperPDU::Access(a) => a,
        };
        if access.payload.len() > UPPER_ACCESS_MAX {
            return Err(DeviceError::InsufficientBuffer);
        }
        let seq_zero = seqs[0];
        let ttl = match access.ttl {
            Some(t) => t,
            None => default_ttl,
        };
        let iv = match iv_index {
            Some(iv) => iv,
            None => return Err(DeviceError::CryptoError),
        };
        let nonce = DeviceNonce::new(false, seq_zero, access.src, access.dst, iv).into_bytes();
        let sealed = match ccm_encrypt_mic32(device_key, &nonce, access.payload.as_slice()) {
            Some(v) => v,
            None => return Err(DeviceError::CryptoError),
        };
        if sealed.len() > UPPER_ACCESS_MAX {
            return Err(DeviceError::InsufficientBuffer);
        }
        assert(sealed@ == Self::sealed_of(device_key@, seqs@[0], access, iv));
        if sealed.len() > NONSEGMENTED_ACCESS_MTU {
            let n = (sealed.len() + 11) / 12;
            let seg_n = (n - 1) as u8;
            let mut segments = CleartextNetworkPDUSegments::new_empty();
            let mut seg_o: usize = 0;
            while seg_o < n
                invariant
                    n == chunk_count(sealed@.len()),
                    sealed@ == Self::sealed_of(device_key@, seqs@[0], access, iv),
                    sealed@.len() <= UPPER_ACCESS_MAX,
                    seqs@.len() == n,
                    seg_o <= n,
                    seg_n == (n - 1) as u8,
                    seq_zero == seqs@[0],
                    segments@.len() == if seg_o < SEGMENTS_MAX { seg_o as nat } else { SEGMENTS_MAX as nat },
                    forall|i: int|
                        0 <= i < segments@.len() ==> carries(#[trigger] segments@[i], access, ttl, seqs@[i], segment_view(sealed@, seq_zero, i)),
                decreases n - seg_o,
            {
                let start = seg_o * 12;
                let end = if start + 12 <= sealed.len() {
                    start + 12
                } else {
                    sealed.len()
                };
                let chunk = vstd::slice::slice_subrange(sealed.as_slice(), start, end);
                let segment_m = vstd::slice::slice_to_vec(chunk);
                let seq = seqs[seg_o];
                let transport_pdu = LowerPDU::Access(
                    LowerAccess {
                        akf: false,
                        aid: 0,
                        message: LowerAccessMessage::Segmented {
                            szmic: SzMic::Bit32,
                            seq_zero: seq_zero as u16,
                            seg_o: seg_o as u8,
                            seg_n,
                            segment_m,
                        },
                    },
                );
                assert(transport_pdu@ == segment_view(sealed@, seq_zero, seg_o as int));
                let network = CleartextNetworkPDU {
                    network_key: access.network_key,
                    ivi: access.ivi,
                    nid: access.nid,
                    ttl,
                    seq,
                    src: access.src,
                    dst: access.dst,
                    transport_pdu,
                };
                let _ = segments.add(network);
                seg_o = seg_o + 1;
            }
            Ok(Some(segments))
        } else {
            let transport_pdu = LowerPDU::Access(
                LowerAccess { akf: false, aid: 0, message: LowerAccessMessage::Unsegmented(sealed) },
            );
            Ok(
                Some(
                    CleartextNetworkPDUSegments::new(
                        CleartextNetworkPDU {
                            network_key: access.network_key,
                            ivi: access.ivi,
                            nid: access.nid,
                            ttl,
                            seq: seq_zero,
                            src: access.src,
                            dst: access.dst,
                            transport_pdu,
                        },
                    ),
                ),
            )
        }
    }
}

/// The segments of a sealed payload, joined in order, are the payload.
pub proof fn lemma_segments_join(sealed: Seq<u8>)
    ensures
        concat_parts(Seq::new(chunk_count(sealed.len()), |i: int| chunk_of(sealed, i))) == sealed,
{
    lemma_segments_prefix(sealed, chunk_count(sealed.len()) as int);
    assert(sealed.take(sealed.len() as int) =~= sealed);
}

/// The first `k` segments of a sealed payload, joined, are its first
/// `12 * k` bytes, or all of it.
proof fn lemma_segments_prefix(sealed: Seq<u8>, k: int)
    requires
        0 <= k <= chunk_count(sealed.len()),
    ensures
        concat_parts(Seq::new(k as nat, |i: int| chunk_of(sealed, i))) == sealed.take(
            if 12 * k <= sealed.len() { 12 * k } else { sealed.len() as int },
        ),
    decreases k,
{
    let parts = Seq::new(k as nat, |i: int| chunk_of(sealed, i));
    if k == 0 {
        assert(sealed.take(0) =~= Seq::<u8>::empty());
    } else {
        lemma_segments_prefix(sealed, k - 1);
        assert(parts.drop_last() =~= Seq::new((k - 1) as nat, |i: int| chunk_of(sealed, i)));
        assert(12 * (k - 1) < sealed.len());
        let end = if 12 * k <= sealed.len() { 12 * k } else { sealed.len() as int };
        assert(concat_parts(parts) =~= sealed.take(end));
    }
}

} // verus!
