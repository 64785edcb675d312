//! The nonces that network and device-key encryption use.
use vstd::prelude::*;
use crate::address::{Address, UnicastAddress};
use crate::bytes::{be16_bytes, be32_bytes, to_be16, to_be32};

verus! {

/// The nonce of network-layer encryption: type `0x00`, the CTL bit and TTL,
/// the 24-bit sequence number, the source address, two zero bytes and the IV
/// index.
pub struct NetworkNonce {
    pub ctl_ttl: u8,
    pub seq: u32,
    pub src: [u8; 2],
    pub iv_index: u32,
}

/// The bytes of a network nonce.
pub open spec fn network_nonce_bytes(ctl_ttl: u8, seq: u32, src: Seq<u8>, iv_index: u32) -> Seq<u8> {
    seq![0x00u8, ctl_ttl] + be32_bytes(seq).skip(1) + src + seq![0u8, 0u8] + be32_bytes(iv_index)
}

impl NetworkNonce {
    /// The nonce for these header fields.
    pub fn new(ctl_ttl: u8, seq: u32, src: [u8; 2], iv_index: u32) -> (n: Self)
        ensures
            n.ctl_ttl == ctl_ttl,
            n.seq == seq,
            n.src == src,
            n.iv_index == iv_index,
    {
        NetworkNonce { ctl_ttl, seq, src, iv_index }
    }

    /// The 13 bytes of this nonce.
    pub fn into_bytes(&self) -> (b: [u8; 13])
        ensures
            b@ == network_nonce_bytes(self.ctl_ttl, self.seq, self.src@, self.iv_index),
    {
        let seq = to_be32(self.seq);
        let iv = to_be32(self.iv_index);
        let b = [0x00, self.ctl_ttl, seq[1], seq[2], seq[3], self.src[0], self.src[1], 0, 0, iv[0], iv[1], iv[2], iv[3]];
        assert(b@ =~= network_nonce_bytes(self.ctl_ttl, self.seq, self.src@, self.iv_index));
        b
    }
}

/// The nonce of device-key encryption: type `0x02`, the ASZMIC bit, the
/// 24-bit sequence number, the source and destination addresses and the IV
/// index.
pub struct DeviceNonce {
    pub szmic: bool,
    pub seq: u32,
    pub src: UnicastAddress,
    pub dst: Address,
    pub iv_index: u32,
}

/// The bytes of a device nonce.
pub open spec fn device_nonce_bytes(szmic: bool, seq: u32, src: UnicastAddress, dst: Address, iv_index: u32) -> Seq<u8> {
    seq![0x02u8, if szmic { 0x80u8 } else { 0x00u8 }] + be32_bytes(seq).skip(1) + be16_bytes(src.value())
        + be16_bytes(dst.value()) + be32_bytes(iv_index)
}

impl DeviceNonce {
    /// The nonce for these fields.
    pub fn new(szmic: bool, seq: u32, src: UnicastAddress, dst: Address, iv_index: u32) -> (n: Self)
        ensures
            n.szmic == szmic,
            n.seq == seq,
            n.src == src,
            n.dst == dst,
            n.iv_index == iv_index,
    {
        DeviceNonce { szmic, seq, src, dst, iv_index }
    }

    /// The 13 bytes of this nonce.
    pub fn into_bytes(&self) -> (b: [u8; 13])
        ensures
            b@ == device_nonce_bytes(self.szmic, self.seq, self.src, self.dst, self.iv_index),
    {
        let seq = to_be32(self.seq);
        let src = self.src.as_bytes();
        let dst = self.dst.as_bytes();
        let iv = to_be32(self.iv_index);
        let b = [
            0x02,
            if self.szmic { 0x80 } else { 0x00 },
            seq[1],
            seq[2],
            seq[3],
            src[0],
            src[1],
            dst[0],
            dst[1],
            iv[0],
            iv[1],
            iv[2],
            iv[3],
        ];
        assert(b@ =~= device_nonce_bytes(self.szmic, self.seq, self.src, self.dst, self.iv_index));
        b
    }
}


/// The network nonce is the type 0x00, the CTL bit and TTL, the low 24 bits
/// of the sequence number most significant first, the two source address
/// bytes, two zero bytes, and the IV index most significant byte first.
pub proof fn lemma_network_nonce_layout(ctl_ttl: u8, seq: u32, src: Seq<u8>, iv_index: u32)
    requires
        src.len() == 2,
    ensures
        ({
            let n = network_nonce_bytes(ctl_ttl, seq, src, iv_index);
            &&& n.len() == 13
            &&& n[0] == 0x00
            &&& n[1] == ctl_ttl
            &&& (n[2] as int) * 0x1_0000 + (n[3] as int) * 0x100 + (n[4] as int) == seq % 0x100_0000
            &&& n[5] == src[0] && n[6] == src[1]
            &&& n[7] == 0 && n[8] == 0
            &&& (n[9] as int) * 0x100_0000 + (n[10] as int) * 0x1_0000 + (n[11] as int) * 0x100 + (n[12] as int)
                == iv_index
        }),
{
    crate::bytes::lemma_be32_roundtrip(seq);
    crate::bytes::lemma_be32_roundtrip(iv_index);
}

/// The device nonce is the type 0x02, the ASZMIC bit as the top bit of the
/// next byte, the low 24 bits of the sequence number, the source and the
/// destination addresses and the IV index, each most significant byte
/// first.
pub proof fn lemma_device_nonce_layout(szmic: bool, seq: u32, src: UnicastAddress, dst: Address, iv_index: u32)
    ensures
        ({
            let n = device_nonce_bytes(szmic, seq, src, dst, iv_index);
            &&& n.len() == 13
            &&& n[0] == 0x02
            &&& n[1] == (if szmic { 0x80u8 } else { 0u8 })
            &&& (n[2] as int) * 0x1_0000 + (n[3] as int) * 0x100 + (n[4] as int) == seq % 0x100_0000
            &&& (n[5] as int) * 0x100 + (n[6] as int) == src.value()
            &&& (n[7] as int) * 0x100 + (n[8] as int) == dst.value()
            &&& (n[9] as int) * 0x100_0000 + (n[10] as int) * 0x1_0000 + (n[11] as int) * 0x100 + (n[12] as int)
                == iv_index
        }),
{
    crate::bytes::lemma_be32_roundtrip(seq);
    crate::bytes::lemma_be32_roundtrip(iv_index);
    crate::bytes::lemma_be16_roundtrip(src.value());
    crate::bytes::lemma_be16_roundtrip(dst.value());
}

} // verus!
