//! Generic provisioning PDUs: the transactions and link control messages
//! that carry provisioning PDUs over the advertising bearer.
use vstd::prelude::*;
use crate::bits::lemma_nibbles;
use crate::buffer::{appended, ByteBuf};
use crate::bytes::{be16, be16_bytes, from_be16, take_array16, to_be16};
use crate::device::Uuid;
use crate::InsufficientBuffer;

verus! {

/// The most bytes a transaction segment carries.
pub const TRANSACTION_DATA_MAX: usize = 64;

/// A generic provisioning PDU.
pub enum GenericProvisioningPDU {
    TransactionStart(TransactionStart),
    TransactionAck,
    TransactionContinuation(TransactionContinuation),
    ProvisioningBearerControl(ProvisioningBearerControl),
}

/// The first segment of a transaction.
pub struct TransactionStart {
    /// The index of the last segment of the transaction.
    pub seg_n: u8,
    /// The length of the whole provisioning PDU.
    pub total_len: u16,
    /// The frame check sequence of the whole provisioning PDU.
    pub fcs: u8,
    /// The bytes of this segment (at most 64).
    pub data: Vec<u8>,
}

/// A later segment of a transaction.
pub struct TransactionContinuation {
    pub segment_index: u8,
    /// The bytes of this segment (at most 64).
    pub data: Vec<u8>,
}

/// Why a generic provisioning PDU could not be read.
#[derive(PartialEq, Eq, Structural, Clone, Copy, Debug)]
pub enum GenericProvisioningError {
    InvalidSize,
    InvalidGpcf,
    InvalidBits,
    InvalidReason,
    Other,
}

/// What a generic provisioning PDU holds, with segments as sequences.
pub enum GenericProvisioningPDUView {
    TransactionStart { seg_n: u8, total_len: u16, fcs: u8, data: Seq<u8> },
    TransactionAck,
    TransactionContinuation { segment_index: u8, data: Seq<u8> },
    ProvisioningBearerControl(ProvisioningBearerControlView),
}

/// A link control message, the device UUID as a sequence.
pub enum ProvisioningBearerControlView {
    LinkOpen(Seq<u8>),
    LinkAck,
    LinkClose(Reason),
}

impl TransactionStart {
    /// The transaction start that `data` denotes: the segment count in the
    /// upper six bits of the first byte, then the total length, the check
    /// sequence and up to 64 bytes of data.
    pub open spec fn spec_parse(data: Seq<u8>) -> Result<GenericProvisioningPDUView, GenericProvisioningError> {
        if data.len() >= 5 && data.len() - 4 <= TRANSACTION_DATA_MAX {
            Ok(GenericProvisioningPDUView::TransactionStart {
                seg_n: data[0] / 4,
                total_len: be16(data[1], data[2]),
                fcs: data[3],
                data: data.skip(4),
            })
        } else {
            Err(GenericProvisioningError::InvalidSize)
        }
    }

    /// The bytes of a transaction start.
    pub open spec fn spec_bytes(seg_n: u8, total_len: u16, fcs: u8, data: Seq<u8>) -> Seq<u8> {
        seq![((seg_n % 64) * 4) as u8] + be16_bytes(total_len) + seq![fcs] + data
    }

    /// Reads a transaction start.
    pub fn parse(data: &[u8]) -> (r: Result<Self, GenericProvisioningError>)
        ensures
            r is Ok <==> Self::spec_parse(data@) is Ok,
            r matches Ok(t) ==> Self::spec_parse(data@) == Ok::<GenericProvisioningPDUView, GenericProvisioningError>(
                GenericProvisioningPDUView::TransactionStart { seg_n: t.seg_n, total_len: t.total_len, fcs: t.fcs, data: t.data@ }),
            r matches Err(e) ==> e == GenericProvisioningError::InvalidSize,
    {
        if data.len() >= 5 {
            let seg_n = (data[0] & 0b11111100) >> 2;
            proof { lemma_nibbles(data[0], 0); }
            let total_len = from_be16(data[1], data[2]);
            let fcs = data[3];
            if data.len() - 4 > TRANSACTION_DATA_MAX {
                return Err(GenericProvisioningError::InvalidSize);
            }
            let rest = vstd::slice::slice_subrange(data, 4, data.len());
            assert(rest@ =~= data@.skip(4));
            Ok(Self { seg_n, total_len, fcs, data: vstd::slice::slice_to_vec(rest) })
        } else {
            Err(GenericProvisioningError::InvalidSize)
        }
    }

    /// The bytes of this transaction start.
    pub fn encode(&self) -> (v: Vec<u8>)
        ensures
            v@ == Self::spec_bytes(self.seg_n, self.total_len, self.fcs, self.data@),
    {
        let first = self.seg_n << 2;
        proof { lemma_nibbles(self.seg_n, 0); }
        let len = to_be16(self.total_len);
        let mut v = vec![first, len[0], len[1], self.fcs];
        let mut d = self.data.clone();
        v.append(&mut d);
        assert(v@ =~= Self::spec_bytes(self.seg_n, self.total_len, self.fcs, self.data@));
        v
    }

    /// Appends the bytes of this transaction start.
    pub fn emit(&self, xmit: &mut ByteBuf) -> (r: Result<(), InsufficientBuffer>)
        ensures
            final(xmit).cap() == old(xmit).cap(),
            appended(old(xmit)@, final(xmit)@, old(xmit).cap(),
                Self::spec_bytes(self.seg_n, self.total_len, self.fcs, self.data@), r is Ok),
    {
        xmit.extend_from_slice(self.encode().as_slice())
    }
}

impl TransactionContinuation {
    /// The continuation that `data` denotes: the segment index in the upper
    /// six bits of the first byte, then one to 64 bytes of data.
    pub open spec fn spec_parse(data: Seq<u8>) -> Result<GenericProvisioningPDUView, GenericProvisioningError> {
        if data.len() >= 2 && data.len() - 1 <= TRANSACTION_DATA_MAX {
            Ok(GenericProvisioningPDUView::TransactionContinuation { segment_index: data[0] / 4, data: data.skip(1) })
        } else {
            Err(GenericProvisioningError::InvalidSize)
        }
    }

    /// The bytes of a continuation.
    pub open spec fn spec_bytes(segment_index: u8, data: Seq<u8>) -> Seq<u8> {
        seq![((segment_index % 64) * 4 + 2) as u8] + data
    }

    /// Reads a continuation.
    pub fn parse(data: &[u8]) -> (r: Result<Self, GenericProvisioningError>)
        ensures
            r is Ok <==> Self::spec_parse(data@) is Ok,
            r matches Ok(t) ==> Self::spec_parse(data@) == Ok::<GenericProvisioningPDUView, GenericProvisioningError>(
                GenericProvisioningPDUView::TransactionContinuation { segment_index: t.segment_index, data: t.data@ }),
            r matches Err(e) ==> e == GenericProvisioningError::InvalidSize,
    {
        if data.len() >= 2 {
            let segment_index = (data[0] & 0b11111100) >> 2;
            proof { lemma_nibbles(data[0], 0); }
            if data.len() - 1 > TRANSACTION_DATA_MAX {
                return Err(GenericProvisioningError::InvalidSize);
            }
            let rest = vstd::slice::slice_subrange(data, 1, data.len());
            assert(rest@ =~= data@.skip(1));
            Ok(Self { segment_index, data: vstd::slice::slice_to_vec(rest) })
        } else {
            Err(GenericProvisioningError::InvalidSize)
        }
    }

    /// The bytes of this continuation.
    pub fn encode(&self) -> (v: Vec<u8>)
        ensures
            v@ == Self::spec_bytes(self.segment_index, self.data@),
    {
        let first = self.segment_index << 2 | 0b10;
        proof { lemma_nibbles(self.segment_index, 2); }
        let mut v = vec![first];
        let mut d = self.data.clone();
        v.append(&mut d);
        assert(v@ =~= Self::spec_bytes(self.segment_index, self.data@));
        v
    }

    /// Appends the bytes of this continuation.
    pub fn emit(&self, xmit: &mut ByteBuf) -> (r: Result<(), InsufficientBuffer>)
        ensures
            final(xmit).cap() == old(xmit).cap(),
            appended(old(xmit)@, final(xmit)@, old(xmit).cap(), Self::spec_bytes(self.segment_index, self.data@), r is Ok),
    {
        xmit.extend_from_slice(self.encode().as_slice())
    }
}

impl View for GenericProvisioningPDU {
    type V = GenericProvisioningPDUView;

    open spec fn view(&self) -> GenericProvisioningPDUView {
        match self {
            GenericProvisioningPDU::TransactionStart(t) => GenericProvisioningPDUView::TransactionStart {
                seg_n: t.seg_n,
                total_len: t.total_len,
                fcs: t.fcs,
                data: t.data@,
            },
            GenericProvisioningPDU::TransactionAck => GenericProvisioningPDUView::TransactionAck,
            GenericProvisioningPDU::TransactionContinuation(t) => GenericProvisioningPDUView::TransactionContinuation {
                segment_index: t.segment_index,
                data: t.data@,
            },
            GenericProvisioningPDU::ProvisioningBearerControl(c) => GenericProvisioningPDUView::ProvisioningBearerControl(c@),
        }
    }
}

impl GenericProvisioningPDU {
    /// The PDU that `data` denotes, by the control format in the two low
    /// bits of its first byte.
    pub open spec fn spec_parse(data: Seq<u8>) -> Result<GenericProvisioningPDUView, GenericProvisioningError> {
        if data.len() >= 1 {
            if data[0] % 4 == 0 {
                TransactionStart::spec_parse(data)
            } else if data[0] % 4 == 1 {
                if data.len() == 1 {
                    if data[0] / 4 == 0 {
                        Ok(GenericProvisioningPDUView::TransactionAck)
                    } else {
                        Err(GenericProvisioningError::InvalidBits)
                    }
                } else {
                    Err(GenericProvisioningError::InvalidSize)
                }
            } else if data[0] % 4 == 2 {
                TransactionContinuation::spec_parse(data)
            } else {
                match ProvisioningBearerControl::spec_parse(data) {
                    Ok(c) => Ok(GenericProvisioningPDUView::ProvisioningBearerControl(c)),
                    Err(e) => Err(e),
                }
            }
        } else {
            Err(GenericProvisioningError::InvalidSize)
        }
    }

    /// The bytes of a PDU. Link open and link close carry no bytes.
    pub open spec fn spec_bytes(&self) -> Seq<u8> {
        match self {
            GenericProvisioningPDU::TransactionStart(t) => TransactionStart::spec_bytes(t.seg_n, t.total_len, t.fcs, t.data@),
            GenericProvisioningPDU::TransactionAck => seq![0b00000001u8],
            GenericProvisioningPDU::TransactionContinuation(t) => TransactionContinuation::spec_bytes(t.segment_index, t.data@),
            GenericProvisioningPDU::ProvisioningBearerControl(c) => c.spec_bytes(),
        }
    }

    /// Reads a generic provisioning PDU.
    pub fn parse(data: &[u8]) -> (r: Result<Self, GenericProvisioningError>)
        ensures
            r is Ok <==> Self::spec_parse(data@) is Ok,
            r matches Ok(p) ==> Self::spec_parse(data@) == Ok::<GenericProvisioningPDUView, GenericProvisioningError>(p@),
            r matches Err(e) ==> Self::spec_parse(data@) == Err::<GenericProvisioningPDUView, GenericProvisioningError>(e),
    {
        if data.len() >= 1 {
            proof { lemma_nibbles(data[0], 0); }
            let gpcf = data[0] & 0b11;
            if gpcf == 0b00 {
                Ok(Self::TransactionStart(TransactionStart::parse(data)?))
            } else if gpcf == 0b01 {
                Self::parse_transaction_ack(data)
            } else if gpcf == 0b10 {
                Ok(Self::TransactionContinuation(TransactionContinuation::parse(data)?))
            } else {
                Ok(Self::ProvisioningBearerControl(ProvisioningBearerControl::parse(data)?))
            }
        } else {
            Err(GenericProvisioningError::InvalidSize)
        }
    }

    /// Appends the bytes of this PDU.
    pub fn emit(&self, xmit: &mut ByteBuf) -> (r: Result<(), InsufficientBuffer>)
        ensures
            final(xmit).cap() == old(xmit).cap(),
            appended(old(xmit)@, final(xmit)@, old(xmit).cap(), self.spec_bytes(), r is Ok),
    {
        match self {
            GenericProvisioningPDU::TransactionStart(tx_start) => tx_start.emit(xmit),
            GenericProvisioningPDU::TransactionAck => xmit.push(0b00000001),
            GenericProvisioningPDU::TransactionContinuation(tx_cont) => tx_cont.emit(xmit),
            GenericProvisioningPDU::ProvisioningBearerControl(pbc) => pbc.emit(xmit),
        }
    }

    fn parse_transaction_ack(data: &[u8]) -> (r: Result<Self, GenericProvisioningError>)
        requires
            data@.len() >= 1,
        ensures
            r is Ok <==> data@.len() == 1 && data@[0] / 4 == 0,
            r matches Ok(p) ==> p is TransactionAck,
            r matches Err(e) ==> e == (if data@.len() == 1 { GenericProvisioningError::InvalidBits } else { GenericProvisioningError::InvalidSize }),
    {
        if data.len() == 1 {
            proof { lemma_nibbles(data[0], 0); }
            if data[0] & 0b11111100 == 0 {
                Ok(Self::TransactionAck)
            } else {
                Err(GenericProvisioningError::InvalidBits)
            }
        } else {
            Err(GenericProvisioningError::InvalidSize)
        }
    }
}

/// A link control message.
pub enum ProvisioningBearerControl {
    LinkOpen(Uuid),
    LinkAck,
    LinkClose(Reason),
}

impl View for ProvisioningBearerControl {
    type V = ProvisioningBearerControlView;

    open spec fn view(&self) -> ProvisioningBearerControlView {
        match self {
            ProvisioningBearerControl::LinkOpen(uuid) => ProvisioningBearerControlView::LinkOpen(uuid.0@),
            ProvisioningBearerControl::LinkAck => ProvisioningBearerControlView::LinkAck,
            ProvisioningBearerControl::LinkClose(r) => ProvisioningBearerControlView::LinkClose(*r),
        }
    }
}

impl ProvisioningBearerControl {
    /// The link control message that `data` denotes, by the opcode in bits
    /// 2 to 5 of its first byte, its parameters after that byte.
    pub open spec fn spec_parse(data: Seq<u8>) -> Result<ProvisioningBearerControlView, GenericProvisioningError> {
        let opcode = (data[0] % 64) / 4;
        let params = data.skip(1);
        if opcode == 0 {
            if params.len() == 16 {
                Ok(ProvisioningBearerControlView::LinkOpen(params))
            } else {
                Err(GenericProvisioningError::InvalidSize)
            }
        } else if opcode == 1 {
            if params.len() == 0 {
                Ok(ProvisioningBearerControlView::LinkAck)
            } else {
                Err(GenericProvisioningError::InvalidSize)
            }
        } else if opcode == 2 {
            if params.len() == 1 {
                match Reason::spec_parse(params[0]) {
                    Ok(r) => Ok(ProvisioningBearerControlView::LinkClose(r)),
                    Err(e) => Err(e),
                }
            } else {
                Err(GenericProvisioningError::InvalidSize)
            }
        } else {
            Err(GenericProvisioningError::InvalidGpcf)
        }
    }

    /// The bytes a link control message is emitted as: only a link ack is
    /// emitted; link open and link close emit nothing.
    pub open spec fn spec_bytes(&self) -> Seq<u8> {
        match self {
            ProvisioningBearerControl::LinkAck => seq![0x07u8],
            _ => Seq::empty(),
        }
    }

    /// Reads a link control message.
    pub fn parse(data: &[u8]) -> (r: Result<Self, GenericProvisioningError>)
        requires
            data@.len() >= 1,
        ensures
            r is Ok <==> Self::spec_parse(data@) is Ok,
            r matches Ok(c) ==> Self::spec_parse(data@) == Ok::<ProvisioningBearerControlView, GenericProvisioningError>(c@),
            r matches Err(e) ==> Self::spec_parse(data@) == Err::<ProvisioningBearerControlView, GenericProvisioningError>(e),
    {
        let opcode = (data[0] & 0b111111) >> 2;
        proof {
            lemma_nibbles(data[0], 0);
            lemma_nibbles((data[0] & 0b111111) as u8, 0);
        }
        let params = vstd::slice::slice_subrange(data, 1, data.len());
        assert(params@ =~= data@.skip(1));
        if opcode == 0x00 {
            Self::parse_link_open(params)
        } else if opcode == 0x01 {
            Self::parse_link_ack(params)
        } else if opcode == 0x02 {
            Self::parse_link_close(params)
        } else {
            Err(GenericProvisioningError::InvalidGpcf)
        }
    }

    /// Appends the bytes of this message.
    pub fn emit(&self, xmit: &mut ByteBuf) -> (r: Result<(), InsufficientBuffer>)
        ensures
            final(xmit).cap() == old(xmit).cap(),
            appended(old(xmit)@, final(xmit)@, old(xmit).cap(), self.spec_bytes(), r is Ok),
    {
        if let ProvisioningBearerControl::LinkAck = self {
            assert(0x01u8 << 2u8 | 0b11u8 == 0x07u8) by (bit_vector);
            xmit.push(0x01 << 2 | 0b11)
        } else {
            let empty: [u8; 0] = [];
            assert(empty@ =~= self.spec_bytes());
            xmit.extend_from_slice(&empty)
        }
    }

    fn parse_link_open(data: &[u8]) -> (r: Result<Self, GenericProvisioningError>)
        ensures
            r is Ok <==> data@.len() == 16,
            r matches Ok(c) ==> c@ == ProvisioningBearerControlView::LinkOpen(data@),
            r matches Err(e) ==> e == GenericProvisioningError::InvalidSize,
    {
        if data.len() == 16 {
            let uuid = Uuid(take_array16(data, 0));
            assert(data@.subrange(0, 16) =~= data@);
            Ok(Self::LinkOpen(uuid))
        } else {
            Err(GenericProvisioningError::InvalidSize)
        }
    }

    fn parse_link_ack(data: &[u8]) -> (r: Result<Self, GenericProvisioningError>)
        ensures
            r is Ok <==> data@.len() == 0,
            r matches Ok(c) ==> c is LinkAck,
            r matches Err(e) ==> e == GenericProvisioningError::InvalidSize,
    {
        if data.len() == 0 {
            Ok(Self::LinkAck)
        } else {
            Err(GenericProvisioningError::InvalidSize)
        }
    }

    fn parse_link_close(data: &[u8]) -> (r: Result<Self, GenericProvisioningError>)
        ensures
            r is Ok <==> data@.len() == 1 && Reason::spec_parse(data@[0]) is Ok,
            r matches Ok(c) ==> c@ == ProvisioningBearerControlView::LinkClose(Reason::spec_parse(data@[0]).unwrap()),
            r matches Err(e) ==> e == (if data@.len() == 1 { GenericProvisioningError::InvalidReason } else { GenericProvisioningError::InvalidSize }),
    {
        if data.len() == 1 {
            Ok(Self::LinkClose(Reason::parse(data[0])?))
        } else {
            Err(GenericProvisioningError::InvalidSize)
        }
    }
}

/// Why a provisioning link was closed.
#[derive(PartialEq, Eq, Structural, Clone, Copy, Debug)]
pub enum Reason {
    Success,
    Timeout,
    Fail,
}

impl Reason {
    pub open spec fn spec_parse(reason: u8) -> Result<Reason, GenericProvisioningError> {
        if reason == 0 {
            Ok(Reason::Success)
        } else if reason == 1 {
            Ok(Reason::Timeout)
        } else if reason == 2 {
            Ok(Reason::Fail)
        } else {
            Err(GenericProvisioningError::InvalidReason)
        }
    }

    /// Reads a close reason.
    pub fn parse(reason: u8) -> (r: Result<Self, GenericProvisioningError>)
        ensures
            r == Self::spec_parse(reason),
    {
        match reason {
            0x00 => Ok(Self::Success),
            0x01 => Ok(Self::Timeout),
            0x02 => Ok(Self::Fail),
            _ => Err(GenericProvisioningError::InvalidReason),
        }
    }
}

impl GenericProvisioningPDU {
    /// Whether this PDU is read back from its bytes: a segment count or
    /// index within six bits and one to 64 bytes of data; of the link
    /// control messages only the link ack is emitted with its bytes.
    pub open spec fn reads_back(&self) -> bool {
        match self {
            GenericProvisioningPDU::TransactionStart(t) => t.seg_n < 64 && 1 <= t.data@.len() <= TRANSACTION_DATA_MAX,
            GenericProvisioningPDU::TransactionAck => true,
            GenericProvisioningPDU::TransactionContinuation(t) => t.segment_index < 64 && 1 <= t.data@.len()
                <= TRANSACTION_DATA_MAX,
            GenericProvisioningPDU::ProvisioningBearerControl(c) => c is LinkAck,
        }
    }
}

/// A generic provisioning PDU whose fields fit is read back, as the same
/// PDU, from the bytes it is emitted as.
pub proof fn lemma_generic_provisioning_roundtrip(pdu: GenericProvisioningPDU)
    requires
        pdu.reads_back(),
    ensures
        GenericProvisioningPDU::spec_parse(pdu.spec_bytes())
            == Ok::<GenericProvisioningPDUView, GenericProvisioningError>(pdu@),
{
    let b = pdu.spec_bytes();
    match pdu {
        GenericProvisioningPDU::TransactionStart(t) => {
            crate::bytes::lemma_be16_roundtrip(t.total_len);
            assert(b.skip(4) =~= t.data@);
        },
        GenericProvisioningPDU::TransactionContinuation(t) => {
            assert(b.skip(1) =~= t.data@);
        },
        GenericProvisioningPDU::ProvisioningBearerControl(c) => {
            assert(b.skip(1) =~= Seq::<u8>::empty());
        },
        GenericProvisioningPDU::TransactionAck => {},
    }
}

} // verus!
