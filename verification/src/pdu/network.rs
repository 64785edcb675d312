//! Network PDUs: as they travel, obfuscated and encrypted, and as they are
//! once authenticated.
use vstd::prelude::*;
use crate::address::{is_group, is_unicast, is_virtual, Address, UnicastAddress};
use crate::bits::lemma_nibbles;
use crate::buffer::{appended, ByteBuf};
use crate::bytes::take_array6;
use crate::keys::NetworkKeyHandle;
use crate::pdu::lower::{lower_view_fits, LowerPDU};
use crate::pdu::ParseError;
use crate::InsufficientBuffer;

verus! {

/// The most bytes of encrypted transport PDU and network MIC that a network
/// PDU carries.
pub const ENCRYPTED_AND_MIC_MAX: usize = 28;

/// A network PDU, before or after it has been authenticated.
pub enum NetworkPDU {
    ObfuscatedAndEncrypted(ObfuscatedAndEncryptedNetworkPDU),
    Authenticated(CleartextNetworkPDU),
}

/// The message integrity check of a network PDU: 32 bits for an access
/// message, 64 for a control message.
#[derive(Clone, Copy, Debug)]
pub enum NetMic {
    Access([u8; 4]),
    Control([u8; 8]),
}

/// A network PDU as it travels: the IV index bit and NID in the clear, the
/// obfuscated header fields, and the encrypted transport PDU with its MIC.
pub struct ObfuscatedAndEncryptedNetworkPDU {
    /// The least significant bit of the IV index.
    pub ivi: u8,
    /// The 7-bit network identifier.
    pub nid: u8,
    pub obfuscated: [u8; 6],
    /// At most 28 bytes.
    pub encrypted_and_mic: Vec<u8>,
}

/// The fields read from a network PDU.
pub struct ObfuscatedView {
    pub ivi: u8,
    pub nid: u8,
    pub obfuscated: Seq<u8>,
    pub encrypted_and_mic: Seq<u8>,
}

impl ObfuscatedAndEncryptedNetworkPDU {
    /// The fields of this PDU.
    pub open spec fn fields(&self) -> ObfuscatedView {
        ObfuscatedView {
            ivi: self.ivi,
            nid: self.nid,
            obfuscated: self.obfuscated@,
            encrypted_and_mic: self.encrypted_and_mic@,
        }
    }

    /// The fields that `data` (at least seven bytes) denotes: the IV index
    /// bit is taken from the lowest bit of the first byte and the NID from
    /// its low seven bits; six obfuscated bytes follow, then the rest, which
    /// must fit 28 bytes.
    pub open spec fn spec_parse(data: Seq<u8>) -> Result<ObfuscatedView, ParseError> {
        if data.len() - 7 > ENCRYPTED_AND_MIC_MAX {
            Err(ParseError::InsufficientBuffer)
        } else {
            Ok(ObfuscatedView {
                ivi: data[0] % 2,
                nid: data[0] % 128,
                obfuscated: data.subrange(1, 7),
                encrypted_and_mic: data.skip(7),
            })
        }
    }

    /// The bytes of a network PDU: the IV index bit above the NID, the
    /// obfuscated bytes, then the encrypted transport PDU and MIC.
    pub open spec fn spec_bytes(v: ObfuscatedView) -> Seq<u8> {
        seq![((v.ivi % 2) * 128 + v.nid % 128) as u8] + v.obfuscated + v.encrypted_and_mic
    }

    /// Reads a network PDU of at least seven bytes.
    pub fn parse(data: &[u8]) -> (r: Result<Self, ParseError>)
        requires
            data@.len() >= 7,
        ensures
            r is Ok <==> Self::spec_parse(data@) is Ok,
            r matches Ok(p) ==> Self::spec_parse(data@) == Ok::<ObfuscatedView, ParseError>(p.fields()),
            r matches Err(e) ==> Self::spec_parse(data@) == Err::<ObfuscatedView, ParseError>(e),
    {
        let ivi_nid = data[0];
        let ivi = ivi_nid & 0b10000000 >> 7;
        let nid = ivi_nid & 0b01111111;
        proof {
            lemma_nibbles(ivi_nid, 0);
            assert(0b10000000u8 >> 7u8 == 0x01u8) by (bit_vector);
        }
        let obfuscated = take_array6(data, 1);
        if data.len() - 7 > ENCRYPTED_AND_MIC_MAX {
            return Err(ParseError::InsufficientBuffer);
        }
        let rest = vstd::slice::slice_subrange(data, 7, data.len());
        let encrypted_and_mic = vstd::slice::slice_to_vec(rest);
        assert(encrypted_and_mic@ =~= data@.skip(7));
        Ok(Self { ivi, nid, obfuscated, encrypted_and_mic })
    }

    /// The bytes of this PDU.
    pub fn encode(&self) -> (v: Vec<u8>)
        ensures
            v@ == Self::spec_bytes(self.fields()),
    {
        let hi = self.ivi & 0b0000001;
        let lo = self.nid & 0b01111111;
        let ivi_nid = (hi << 7) | lo;
        proof {
            lemma_nibbles(self.ivi, 0);
            lemma_nibbles(self.nid, 0);
            assert(hi < 2 && lo < 128 ==> (hi << 7u8) | lo == hi * 128 + lo) by (bit_vector);
        }
        let mut v: Vec<u8> = vec![ivi_nid];
        let mut o = vstd::slice::slice_to_vec(self.obfuscated.as_slice());
        v.append(&mut o);
        let mut e = self.encrypted_and_mic.clone();
        v.append(&mut e);
        assert(v@ =~= Self::spec_bytes(self.fields()));
        v
    }

    /// A copy of this PDU.
    pub fn duplicate(&self) -> (p: Self)
        ensures
            p.fields() == self.fields(),
    {
        ObfuscatedAndEncryptedNetworkPDU {
            ivi: self.ivi,
            nid: self.nid,
            obfuscated: self.obfuscated,
            encrypted_and_mic: self.encrypted_and_mic.clone(),
        }
    }

    /// Appends the bytes of this PDU.
    pub fn emit(&self, xmit: &mut ByteBuf) -> (r: Result<(), InsufficientBuffer>)
        ensures
            final(xmit).cap() == old(xmit).cap(),
            appended(old(xmit)@, final(xmit)@, old(xmit).cap(), Self::spec_bytes(self.fields()), r is Ok),
    {
        xmit.extend_from_slice(self.encode().as_slice())
    }
}

/// A network PDU once deobfuscated, decrypted and authenticated.
pub struct CleartextNetworkPDU {
    pub network_key: NetworkKeyHandle,
    /// The least significant bit of the IV index.
    pub ivi: u8,
    /// The 7-bit network identifier.
    pub nid: u8,
    /// The 7-bit time to live.
    pub ttl: u8,
    /// The 24-bit sequence number.
    pub seq: u32,
    pub src: UnicastAddress,
    pub dst: Address,
    pub transport_pdu: LowerPDU,
}

impl CleartextNetworkPDU {
    /// Whether each field fits the width that a network PDU gives it: a
    /// 7-bit TTL, a 24-bit sequence number, a unicast source, a destination
    /// whose value names its kind, and a lower transport PDU that fits.
    pub open spec fn fits(&self) -> bool {
        &&& self.ttl < 128
        &&& self.seq < 0x100_0000
        &&& is_unicast(self.src.value())
        &&& match self.dst {
            Address::Unicast(u) => is_unicast(u.value()),
            Address::Virtual(v) => is_virtual(v.value()),
            Address::Group(g) => is_group(g.value()),
            Address::LabelUuid(_) => false,
            Address::Unassigned => true,
        }
        &&& lower_view_fits(self.transport_pdu@)
    }
}

/// A network PDU is read back from the bytes it is emitted as, when its
/// fields fit their widths and its IV index bit equals the lowest bit of its
/// NID (the reader takes the IV index bit from there).
pub proof fn lemma_network_roundtrip(v: ObfuscatedView)
    requires
        v.ivi == v.nid % 2,
        v.nid < 128,
        v.obfuscated.len() == 6,
        v.encrypted_and_mic.len() <= ENCRYPTED_AND_MIC_MAX,
    ensures
        ObfuscatedAndEncryptedNetworkPDU::spec_parse(ObfuscatedAndEncryptedNetworkPDU::spec_bytes(v))
            == Ok::<ObfuscatedView, ParseError>(v),
{
    let b = ObfuscatedAndEncryptedNetworkPDU::spec_bytes(v);
    assert(b.subrange(1, 7) =~= v.obfuscated);
    assert(b.skip(7) =~= v.encrypted_and_mic);
    assert(b[0] as int == v.ivi * 128 + v.nid);
}

} // verus!
