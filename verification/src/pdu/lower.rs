//! Lower transport PDUs: access and control messages, whole or as one
//! segment of a segmented message.
use vstd::prelude::*;
use crate::buffer::{appended, ByteBuf};
use crate::keys::ApplicationKeyIdentifier;
use crate::pdu::ParseError;
use crate::InsufficientBuffer;

verus! {

/// The most bytes of an unsegmented access PDU after its header.
pub const UNSEGMENTED_ACCESS_MAX: usize = 15;
/// The fewest bytes of an unsegmented access PDU after its header: the
/// 32-bit transport MIC and at least one byte it covers.
pub const UNSEGMENTED_ACCESS_MIN: usize = 5;
/// The most bytes one segment of an access message carries.
pub const SEGMENTED_ACCESS_MAX: usize = 12;
/// The most parameter bytes of an unsegmented control PDU.
pub const UNSEGMENTED_CONTROL_MAX: usize = 11;
/// The most bytes one segment of a control message carries.
pub const SEGMENTED_CONTROL_MAX: usize = 8;

/// The size of the transport MIC of a segmented access message.
#[derive(PartialEq, Eq, Structural, Clone, Copy, Debug)]
pub enum SzMic {
    Bit32,
    Bit64,
}

/// A lower transport PDU.
pub enum LowerPDU {
    Access(LowerAccess),
    Control(LowerControl),
}

/// A lower transport access PDU.
pub struct LowerAccess {
    pub akf: bool,
    pub aid: ApplicationKeyIdentifier,
    pub message: LowerAccessMessage,
}

/// The body of a lower transport access PDU.
pub enum LowerAccessMessage {
    /// A whole upper transport PDU with its 32-bit MIC (5 to 15 bytes).
    Unsegmented(Vec<u8>),
    /// One segment (1 to 12 bytes) of a segmented upper transport PDU.
    Segmented { szmic: SzMic, seq_zero: u16, seg_o: u8, seg_n: u8, segment_m: Vec<u8> },
}

/// A lower transport control PDU.
pub struct LowerControl {
    /// The 7-bit control opcode.
    pub opcode: u8,
    pub message: LowerControlMessage,
}

/// The body of a lower transport control PDU.
pub enum LowerControlMessage {
    /// The parameters of a whole control message (at most 11 bytes).
    Unsegmented { parameters: Vec<u8> },
    /// One segment (1 to 8 bytes) of a segmented control message.
    Segmented { seq_zero: u16, seg_o: u8, seg_n: u8, segment_m: Vec<u8> },
}

/// What a lower transport PDU holds, with byte strings as sequences.
pub enum LowerPDUView {
    UnsegmentedAccess { akf: bool, aid: u8, payload: Seq<u8> },
    SegmentedAccess { akf: bool, aid: u8, szmic: SzMic, seq_zero: u16, seg_o: u8, seg_n: u8, segment: Seq<u8> },
    UnsegmentedControl { opcode: u8, parameters: Seq<u8> },
    SegmentedControl { opcode: u8, seq_zero: u16, seg_o: u8, seg_n: u8, segment: Seq<u8> },
}

impl View for LowerPDU {
    type V = LowerPDUView;

    open spec fn view(&self) -> LowerPDUView {
        match self {
            LowerPDU::Access(a) => match &a.message {
                LowerAccessMessage::Unsegmented(p) => LowerPDUView::UnsegmentedAccess { akf: a.akf, aid: a.aid, payload: p@ },
                LowerAccessMessage::Segmented { szmic, seq_zero, seg_o, seg_n, segment_m } => LowerPDUView::SegmentedAccess {
                    akf: a.akf,
                    aid: a.aid,
                    szmic: *szmic,
                    seq_zero: *seq_zero,
                    seg_o: *seg_o,
                    seg_n: *seg_n,
                    segment: segment_m@,
                },
            },
            LowerPDU::Control(c) => match &c.message {
                LowerControlMessage::Unsegmented { parameters } => LowerPDUView::UnsegmentedControl { opcode: c.opcode, parameters: parameters@ },
                LowerControlMessage::Segmented { seq_zero, seg_o, seg_n, segment_m } => LowerPDUView::SegmentedControl {
                    opcode: c.opcode,
                    seq_zero: *seq_zero,
                    seg_o: *seg_o,
                    seg_n: *seg_n,
                    segment: segment_m@,
                },
            },
        }
    }
}

/// The 13-bit SeqZero, 5-bit SegO and 5-bit SegN packed in the three bytes
/// after the first, the top bit of the first of them left to the caller.
pub open spec fn seg_header_bytes(top: bool, seq_zero: u16, seg_o: u8, seg_n: u8) -> Seq<u8> {
    seq![
        ((if top { 128int } else { 0int }) + (seq_zero as int / 64) % 128) as u8,
        ((seq_zero as int % 64) * 4 + (seg_o as int / 8) % 4) as u8,
        ((seg_o as int % 8) * 32 + seg_n as int % 32) as u8,
    ]
}

/// The SeqZero that the three header bytes `b1 b2 b3` carry.
pub open spec fn seq_zero_of(b1: u8, b2: u8) -> u16 {
    ((b1 as int % 128) * 64 + b2 as int / 4) as u16
}

/// The SegO that the header bytes carry.
pub open spec fn seg_o_of(b2: u8, b3: u8) -> u8 {
    ((b2 as int % 4) * 8 + b3 as int / 32) as u8
}

impl LowerPDU {
    /// The lower transport PDU that `data` denotes, an access PDU unless
    /// `ctl` is set. The first byte holds the segmentation bit; an access
    /// PDU then carries the application key flag and the 6-bit AID, a
    /// control PDU the 7-bit opcode. A segment has three more header bytes.
    pub open spec fn spec_parse(ctl: bool, data: Seq<u8>) -> Result<LowerPDUView, ParseError> {
        if data.len() < 1 {
            Err(ParseError::InvalidLength)
        } else if data[0] < 128 {
            if !ctl {
                if UNSEGMENTED_ACCESS_MIN <= data.len() - 1 <= UNSEGMENTED_ACCESS_MAX {
                    Ok(LowerPDUView::UnsegmentedAccess { akf: data[0] >= 64, aid: data[0] % 64, payload: data.skip(1) })
                } else {
                    Err(ParseError::InvalidLength)
                }
            } else if data.len() - 1 <= UNSEGMENTED_CONTROL_MAX {
                Ok(LowerPDUView::UnsegmentedControl { opcode: data[0] % 128, parameters: data.skip(1) })
            } else {
                Err(ParseError::InvalidLength)
            }
        } else if data.len() < 5 {
            Err(ParseError::InvalidLength)
        } else if !ctl {
            if data.len() - 4 <= SEGMENTED_ACCESS_MAX {
                Ok(LowerPDUView::SegmentedAccess {
                    akf: data[0] % 128 >= 64,
                    aid: data[0] % 64,
                    szmic: if data[1] >= 128 { SzMic::Bit64 } else { SzMic::Bit32 },
                    seq_zero: seq_zero_of(data[1], data[2]),
                    seg_o: seg_o_of(data[2], data[3]),
                    seg_n: data[3] % 32,
                    segment: data.skip(4),
                })
            } else {
                Err(ParseError::InvalidLength)
            }
        } else if data.len() - 4 <= SEGMENTED_CONTROL_MAX {
            Ok(LowerPDUView::SegmentedControl {
                opcode: data[0] % 128,
                seq_zero: seq_zero_of(data[1], data[2]),
                seg_o: seg_o_of(data[2], data[3]),
                seg_n: data[3] % 32,
                segment: data.skip(4),
            })
        } else {
            Err(ParseError::InvalidLength)
        }
    }

    /// Whether this PDU is a control PDU.
    pub open spec fn spec_ctl(v: LowerPDUView) -> bool {
        v is UnsegmentedControl || v is SegmentedControl
    }

    /// The bytes of a lower transport PDU.
    pub open spec fn spec_bytes(v: LowerPDUView) -> Seq<u8> {
        match v {
            LowerPDUView::UnsegmentedAccess { akf, aid, payload } =>
                seq![((if akf { 64int } else { 0int }) + aid as int % 64) as u8] + payload,
            LowerPDUView::SegmentedAccess { akf, aid, szmic, seq_zero, seg_o, seg_n, segment } =>
                seq![(128 + (if akf { 64int } else { 0int }) + aid as int % 64) as u8]
                    + seg_header_bytes(szmic == SzMic::Bit64, seq_zero, seg_o, seg_n) + segment,
            LowerPDUView::UnsegmentedControl { opcode, parameters } =>
                seq![(opcode as int % 128) as u8] + parameters,
            LowerPDUView::SegmentedControl { opcode, seq_zero, seg_o, seg_n, segment } =>
                seq![(128 + opcode as int % 128) as u8] + seg_header_bytes(false, seq_zero, seg_o, seg_n) + segment,
        }
    }

    /// Reads a lower transport PDU.
    pub fn parse(ctl: bool, data: &[u8]) -> (r: Result<Self, ParseError>)
        ensures
            r is Ok <==> Self::spec_parse(ctl, data@) is Ok,
            r matches Ok(p) ==> Self::spec_parse(ctl, data@) == Ok::<LowerPDUView, ParseError>(p@),
            r matches Err(e) ==> Self::spec_parse(ctl, data@) == Err::<LowerPDUView, ParseError>(e),
    {
        if data.len() < 1 {
            return Err(ParseError::InvalidLength);
        }
        let first = data[0];
        if first < 128 {
            let rest = vstd::slice::slice_subrange(data, 1, data.len());
            assert(rest@ =~= data@.skip(1));
            if !ctl {
                if UNSEGMENTED_ACCESS_MIN <= rest.len() && rest.len() <= UNSEGMENTED_ACCESS_MAX {
                    Ok(LowerPDU::Access(LowerAccess {
                        akf: first >= 64,
                        aid: first % 64,
                        message: LowerAccessMessage::Unsegmented(vstd::slice::slice_to_vec(rest)),
                    }))
                } else {
                    Err(ParseError::InvalidLength)
                }
            } else if rest.len() <= UNSEGMENTED_CONTROL_MAX {
                Ok(LowerPDU::Control(LowerControl {
                    opcode: first % 128,
                    message: LowerControlMessage::Unsegmented { parameters: vstd::slice::slice_to_vec(rest) },
                }))
            } else {
                Err(ParseError::InvalidLength)
            }
        } else if data.len() < 5 {
            Err(ParseError::InvalidLength)
        } else {
            let b1 = data[1];
            let b2 = data[2];
            let b3 = data[3];
            let seq_zero: u16 = (b1 as u16 % 128) * 64 + (b2 as u16) / 4;
            let seg_o: u8 = (b2 % 4) * 8 + b3 / 32;
            let seg_n: u8 = b3 % 32;
            let segment = vstd::slice::slice_subrange(data, 4, data.len());
            assert(segment@ =~= data@.skip(4));
            if !ctl {
                if segment.len() <= SEGMENTED_ACCESS_MAX {
                    Ok(LowerPDU::Access(LowerAccess {
                        akf: first % 128 >= 64,
                        aid: first % 64,
                        message: LowerAccessMessage::Segmented {
                            szmic: if b1 >= 128 { SzMic::Bit64 } else { SzMic::Bit32 },
                            seq_zero,
                            seg_o,
                            seg_n,
                            segment_m: vstd::slice::slice_to_vec(segment),
                        },
                    }))
                } else {
                    Err(ParseError::InvalidLength)
                }
            } else if segment.len() <= SEGMENTED_CONTROL_MAX {
                Ok(LowerPDU::Control(LowerControl {
                    opcode: first % 128,
                    message: LowerControlMessage::Segmented {
                        seq_zero,
                        seg_o,
                        seg_n,
                        segment_m: vstd::slice::slice_to_vec(segment),
                    },
                }))
            } else {
                Err(ParseError::InvalidLength)
            }
        }
    }

    /// Whether this is a control PDU.
    pub fn is_control(&self) -> (c: bool)
        ensures
            c == Self::spec_ctl(self@),
    {
        match self {
            LowerPDU::Access(_) => false,
            LowerPDU::Control(_) => true,
        }
    }

    /// The three segment header bytes.
    fn encode_seg_header(top: bool, seq_zero: u16, seg_o: u8, seg_n: u8) -> (v: Vec<u8>)
        ensures
            v@ == seg_header_bytes(top, seq_zero, seg_o, seg_n),
    {
        let b1: u8 = (if top { 128u8 } else { 0u8 }) + ((seq_zero / 64) % 128) as u8;
        let b2: u8 = ((seq_zero % 64) * 4) as u8 + (seg_o / 8) % 4;
        let b3: u8 = (seg_o % 8) * 32 + seg_n % 32;
        let v = vec![b1, b2, b3];
        assert(v@ =~= seg_header_bytes(top, seq_zero, seg_o, seg_n));
        v
    }

    /// The bytes of this PDU.
    pub fn encode(&self) -> (v: Vec<u8>)
        ensures
            v@ == Self::spec_bytes(self@),
    {
        match self {
            LowerPDU::Access(a) => {
                let flags: u8 = (if a.akf { 64u8 } else { 0u8 }) + a.aid % 64;
                match &a.message {
                    LowerAccessMessage::Unsegmented(payload) => {
                        let mut v = vec![flags];
                        let mut p = payload.clone();
                        v.append(&mut p);
                        assert(v@ =~= Self::spec_bytes(self@));
                        v
                    }
                    LowerAccessMessage::Segmented { szmic, seq_zero, seg_o, seg_n, segment_m } => {
                        let mut v = vec![128u8 + flags];
                        let top = match szmic {
                            SzMic::Bit64 => true,
                            SzMic::Bit32 => false,
                        };
                        let mut h = Self::encode_seg_header(top, *seq_zero, *seg_o, *seg_n);
                        v.append(&mut h);
                        let mut s = segment_m.clone();
                        v.append(&mut s);
                        assert(v@ =~= Self::spec_bytes(self@));
                        v
                    }
                }
            }
            LowerPDU::Control(c) => {
                let op: u8 = c.opcode % 128;
                match &c.message {
                    LowerControlMessage::Unsegmented { parameters } => {
                        let mut v = vec![op];
                        let mut p = parameters.clone();
                        v.append(&mut p);
                        assert(v@ =~= Self::spec_bytes(self@));
                        v
                    }
                    LowerControlMessage::Segmented { seq_zero, seg_o, seg_n, segment_m } => {
                        let mut v = vec![128u8 + op];
                        let mut h = Self::encode_seg_header(false, *seq_zero, *seg_o, *seg_n);
                        v.append(&mut h);
                        let mut s = segment_m.clone();
                        v.append(&mut s);
                        assert(v@ =~= Self::spec_bytes(self@));
                        v
                    }
                }
            }
        }
    }

    /// Appends the bytes of this PDU.
    pub fn emit(&self, xmit: &mut ByteBuf) -> (r: Result<(), InsufficientBuffer>)
        ensures
            final(xmit).cap() == old(xmit).cap(),
            appended(old(xmit)@, final(xmit)@, old(xmit).cap(), Self::spec_bytes(self@), r is Ok),
    {
        xmit.extend_from_slice(self.encode().as_slice())
    }

    /// A copy of this PDU.
    pub fn duplicate(&self) -> (p: Self)
        ensures
            p@ == self@,
    {
        match self {
            LowerPDU::Access(a) => LowerPDU::Access(LowerAccess {
                akf: a.akf,
                aid: a.aid,
                message: match &a.message {
                    LowerAccessMessage::Unsegmented(p) => LowerAccessMessage::Unsegmented(p.clone()),
                    LowerAccessMessage::Segmented { szmic, seq_zero, seg_o, seg_n, segment_m } => LowerAccessMessage::Segmented {
                        szmic: *szmic,
                        seq_zero: *seq_zero,
                        seg_o: *seg_o,
                        seg_n: *seg_n,
                        segment_m: segment_m.clone(),
                    },
                },
            }),
            LowerPDU::Control(c) => LowerPDU::Control(LowerControl {
                opcode: c.opcode,
                message: match &c.message {
                    LowerControlMessage::Unsegmented { parameters } => LowerControlMessage::Unsegmented { parameters: parameters.clone() },
                    LowerControlMessage::Segmented { seq_zero, seg_o, seg_n, segment_m } => LowerControlMessage::Segmented {
                        seq_zero: *seq_zero,
                        seg_o: *seg_o,
                        seg_n: *seg_n,
                        segment_m: segment_m.clone(),
                    },
                },
            }),
        }
    }
}

/// Whether the fields of a lower transport PDU fit their widths and its
/// body fits its kind.
pub open spec fn lower_view_fits(v: LowerPDUView) -> bool {
    match v {
        LowerPDUView::UnsegmentedAccess { akf, aid, payload } =>
            aid < 64 && UNSEGMENTED_ACCESS_MIN <= payload.len() <= UNSEGMENTED_ACCESS_MAX,
        LowerPDUView::SegmentedAccess { akf, aid, szmic, seq_zero, seg_o, seg_n, segment } =>
            aid < 64 && seq_zero < 8192 && seg_o < 32 && seg_n < 32 && 1 <= segment.len() <= SEGMENTED_ACCESS_MAX,
        LowerPDUView::UnsegmentedControl { opcode, parameters } =>
            opcode < 128 && parameters.len() <= UNSEGMENTED_CONTROL_MAX,
        LowerPDUView::SegmentedControl { opcode, seq_zero, seg_o, seg_n, segment } =>
            opcode < 128 && seq_zero < 8192 && seg_o < 32 && seg_n < 32 && 1 <= segment.len() <= SEGMENTED_CONTROL_MAX,
    }
}

/// The three segment header bytes give back the fields packed in them.
proof fn lemma_seg_header(top: bool, seq_zero: u16, seg_o: u8, seg_n: u8)
    requires
        seq_zero < 8192,
        seg_o < 32,
        seg_n < 32,
    ensures
        ({
            let h = seg_header_bytes(top, seq_zero, seg_o, seg_n);
            &&& (h[0] >= 128) == top
            &&& h[0] % 128 == seq_zero as int / 64
            &&& seq_zero_of(h[0], h[1]) == seq_zero
            &&& seg_o_of(h[1], h[2]) == seg_o
            &&& h[2] % 32 == seg_n
        }),
{
    let hi: int = seq_zero as int / 64;
    let lo: int = seq_zero as int % 64;
    assert(0 <= hi < 128);
    assert(seq_zero as int == hi * 64 + lo);
    let o_hi: int = seg_o as int / 8;
    let o_lo: int = seg_o as int % 8;
    assert(seg_o as int == o_hi * 8 + o_lo);
    let h = seg_header_bytes(top, seq_zero, seg_o, seg_n);
    assert(h[1] as int == lo * 4 + o_hi);
    assert(h[1] as int / 4 == lo);
    assert(h[1] as int % 4 == o_hi);
    assert(h[2] as int == o_lo * 32 + seg_n as int);
    assert(h[2] as int / 32 == o_lo);
    assert(h[2] as int % 32 == seg_n as int);
}

proof fn lemma_segmented_access_roundtrip(v: LowerPDUView)
    requires
        v is SegmentedAccess,
        lower_view_fits(v),
    ensures
        LowerPDU::spec_parse(false, LowerPDU::spec_bytes(v)) == Ok::<LowerPDUView, ParseError>(v),
{
    let b = LowerPDU::spec_bytes(v);
    if let LowerPDUView::SegmentedAccess { akf, aid, szmic, seq_zero, seg_o, seg_n, segment } = v {
        let top = szmic == SzMic::Bit64;
        let h = seg_header_bytes(top, seq_zero, seg_o, seg_n);
        lemma_seg_header(top, seq_zero, seg_o, seg_n);
        let f: int = 128 + (if akf { 64int } else { 0int }) + aid as int % 64;
        assert(b[0] as int == f);
        assert(f % 128 >= 64 <==> akf);
        assert(f % 64 == aid);
        assert(b.skip(4) =~= segment);
        assert(b[1] == h[0] && b[2] == h[1] && b[3] == h[2]);
        assert(LowerPDU::spec_parse(false, b) == Ok::<LowerPDUView, ParseError>(v));
    }
}

proof fn lemma_segmented_control_roundtrip(v: LowerPDUView)
    requires
        v is SegmentedControl,
        lower_view_fits(v),
    ensures
        LowerPDU::spec_parse(true, LowerPDU::spec_bytes(v)) == Ok::<LowerPDUView, ParseError>(v),
{
    let b = LowerPDU::spec_bytes(v);
    if let LowerPDUView::SegmentedControl { opcode, seq_zero, seg_o, seg_n, segment } = v {
        let h = seg_header_bytes(false, seq_zero, seg_o, seg_n);
        lemma_seg_header(false, seq_zero, seg_o, seg_n);
        assert(b[0] as int == 128 + opcode as int);
        assert(b.skip(4) =~= segment);
        assert(b[1] == h[0] && b[2] == h[1] && b[3] == h[2]);
        assert(LowerPDU::spec_parse(true, b) == Ok::<LowerPDUView, ParseError>(v));
    }
}

/// A lower transport PDU whose fields fit their widths is read back, as a
/// PDU of the same kind, from the bytes it is emitted as.
pub proof fn lemma_lower_roundtrip(v: LowerPDUView)
    requires
        lower_view_fits(v),
    ensures
        LowerPDU::spec_parse(LowerPDU::spec_ctl(v), LowerPDU::spec_bytes(v)) == Ok::<LowerPDUView, ParseError>(v),
{
    let b = LowerPDU::spec_bytes(v);
    match v {
        LowerPDUView::UnsegmentedAccess { akf, aid, payload } => {
            assert(b.skip(1) =~= payload);
        }
        LowerPDUView::SegmentedAccess { .. } => {
            lemma_segmented_access_roundtrip(v);
        }
        LowerPDUView::UnsegmentedControl { opcode, parameters } => {
            assert(b.skip(1) =~= parameters);
        }
        LowerPDUView::SegmentedControl { .. } => {
            lemma_segmented_control_roundtrip(v);
        }
    }
}

/// The acknowledgement of the segments of a segmented message: its
/// SeqZero and a bit for each segment received.
#[derive(PartialEq, Eq, Structural, Clone, Copy, Debug)]
pub struct SegmentAck {
    pub seq_zero: u16,
    pub block_ack: u32,
}

} // verus!
