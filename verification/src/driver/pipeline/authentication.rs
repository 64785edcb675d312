//! Network-layer authentication: encrypting and obfuscating outbound network
//! PDUs, and deobfuscating, decrypting and authenticating inbound ones.
use vstd::prelude::*;
use crate::address::{is_unicast, Address, UnicastAddress};
use crate::bytes::{be16, be16_bytes, be32, be32_bytes, from_be32, to_be32};
use crate::crypto::nonce::{network_nonce_bytes, NetworkNonce};
use crate::crypto::{
    aes_ecb, aes_ecb_of, ccm_decrypt_mic32, ccm_decrypt_mic64, ccm_decrypt_of, ccm_encrypt_mic32, ccm_encrypt_mic64,
    ccm_encrypt_of,
};
use crate::driver::DeviceError;
use crate::keys::NetworkKeyHandle;
use crate::pdu::lower::{LowerPDU, LowerPDUView};
use crate::pdu::network::{CleartextNetworkPDU, ObfuscatedAndEncryptedNetworkPDU, ObfuscatedView, ENCRYPTED_AND_MIC_MAX};
use crate::pdu::ParseError;

verus! {

/// The privacy plaintext: five zero bytes, the IV index and the first seven
/// bytes of the encrypted PDU.
pub open spec fn privacy_plaintext_of(iv_index: u32, encrypted_and_mic: Seq<u8>) -> Seq<u8> {
    seq![0u8, 0u8, 0u8, 0u8, 0u8] + be32_bytes(iv_index) + encrypted_and_mic.take(7)
}

/// The six bytes of `bytes` each xored with the byte of `pecb` at the same
/// place.
pub open spec fn xor_of(pecb: Seq<u8>, bytes: Seq<u8>) -> Seq<u8> {
    Seq::new(6, |i: int| pecb[i] ^ bytes[i])
}

/// The six header bytes that obfuscation hides: CTL and TTL, the low three
/// bytes of the sequence number and the source address.
pub open spec fn header_of(ctl_ttl: u8, seq: u32, src: UnicastAddress) -> Seq<u8> {
    seq![ctl_ttl] + be32_bytes(seq).skip(1) + be16_bytes(src.value())
}

/// The byte holding the CTL bit above the TTL.
pub open spec fn ctl_ttl_of(ctl: bool, ttl: u8) -> u8 {
    if ctl { ttl | 0x80 } else { ttl }
}

/// The length of the network MIC: 64 bits for control messages, 32 for
/// access messages.
pub open spec fn net_mic_len(ctl: bool) -> nat {
    if ctl { 8 } else { 4 }
}

/// The fewest encrypted bytes of a control PDU: a destination address and
/// a 64-bit MIC.
pub const CONTROL_MIN: usize = 10;

/// Network-layer authentication.
pub struct Authentication {}

impl Default for Authentication {
    fn default() -> (a: Self)
        ensures
            a == (Authentication {}),
    {
        Authentication {}
    }
}

impl Authentication {
    /// What sending `pdu` under `iv_index` gives: the destination address
    /// and the lower transport PDU are encrypted under the network key's
    /// encryption key with the network nonce, the MIC appended (all within
    /// 28 bytes), and the header obfuscated with the encryption of the
    /// privacy plaintext under the privacy key.
    pub open spec fn outbound_result(iv_index: Option<u32>, pdu: &CleartextNetworkPDU) -> Result<
        Option<ObfuscatedView>,
        DeviceError,
    > {
        match iv_index {
            None => Err(DeviceError::NotProvisioned),
            Some(iv) => {
                let ctl = LowerPDU::spec_ctl(pdu.transport_pdu@);
                let ctl_ttl = ctl_ttl_of(ctl, pdu.ttl);
                let plaintext = be16_bytes(pdu.dst.value()) + LowerPDU::spec_bytes(pdu.transport_pdu@);
                if plaintext.len() + net_mic_len(ctl) > ENCRYPTED_AND_MIC_MAX {
                    Err(DeviceError::InsufficientBuffer)
                } else {
                    let nonce = network_nonce_bytes(ctl_ttl, pdu.seq, be16_bytes(pdu.src.value()), iv);
                    let em = ccm_encrypt_of(pdu.network_key.encryption_key@, nonce, plaintext, net_mic_len(ctl));
                    let pecb = aes_ecb_of(pdu.network_key.privacy_key@, privacy_plaintext_of(iv, em));
                    Ok(
                        Some(
                            ObfuscatedView {
                                ivi: pdu.ivi,
                                nid: pdu.nid,
                                obfuscated: xor_of(pecb, header_of(ctl_ttl, pdu.seq, pdu.src)),
                                encrypted_and_mic: em,
                            },
                        ),
                    )
                }
            },
        }
    }

    /// Whether `r` is what receiving `pdu` under `iv_index` gives, with
    /// `networks` the keys whose NID matches. Only the first key is tried:
    /// its privacy key deobfuscates the header, whose CTL bit sets the MIC
    /// length; its encryption key must authenticate the rest. A control PDU
    /// without room for its 64-bit MIC and a destination (under ten bytes)
    /// fails authentication. The source must then be a unicast address and
    /// the lower transport PDU must read.
    pub open spec fn inbound_parsed(
        iv_index: Option<u32>,
        networks: Seq<NetworkKeyHandle>,
        pdu: ObfuscatedView,
        r: Result<Option<CleartextNetworkPDU>, DeviceError>,
    ) -> bool {
        if iv_index is None || networks.len() == 0 {
            r matches Ok(None)
        } else {
            let iv = iv_index->0;
            let key = networks[0];
            let em = pdu.encrypted_and_mic;
            let pecb = aes_ecb_of(key.privacy_key@, privacy_plaintext_of(iv, em));
            let u = xor_of(pecb, pdu.obfuscated);
            let ctl = u[0] >= 128;
            let seq = be32(0, u[1], u[2], u[3]);
            let nonce = network_nonce_bytes(u[0], seq, u.subrange(4, 6), iv);
            let split = em.len() - net_mic_len(ctl);
            if ctl && em.len() < CONTROL_MIN {
                r matches Err(e) && e == DeviceError::CryptoError
            } else {
            match ccm_decrypt_of(key.encryption_key@, nonce, em.take(split), em.skip(split)) {
                None => r matches Err(e) && e == DeviceError::CryptoError,
                Some(plaintext) => if !is_unicast(be16(u[4], u[5])) {
                    r matches Err(e) && e == DeviceError::InvalidSrcAddress
                } else {
                    match LowerPDU::spec_parse(ctl, plaintext.skip(2)) {
                        Err(e) => r matches Err(f) && f == DeviceError::Parse(e),
                        Ok(transport) => {
                            &&& r matches Ok(Some(c))
                            &&& c.network_key == key
                            &&& c.ivi == pdu.ivi
                            &&& c.nid == pdu.nid
                            &&& c.ttl == u[0] % 128
                            &&& c.seq == seq
                            &&& c.src == UnicastAddress(be16(u[4], u[5]))
                            &&& c.dst == Address::spec_from_value(be16(plaintext[0], plaintext[1]))
                            &&& c.transport_pdu@ == transport
                        },
                    }
                },
            }
            }
        }
    }

    /// The privacy plaintext of an encrypted PDU of at least seven bytes.
    pub fn privacy_plaintext(iv_index: u32, encrypted_and_mic: &[u8]) -> (p: [u8; 16])
        requires
            encrypted_and_mic@.len() >= 7,
        ensures
            p@ == privacy_plaintext_of(iv_index, encrypted_and_mic@),
    {
        let iv = to_be32(iv_index);
        let e = encrypted_and_mic;
        let p = [0, 0, 0, 0, 0, iv[0], iv[1], iv[2], iv[3], e[0], e[1], e[2], e[3], e[4], e[5], e[6]];
        assert(p@ =~= privacy_plaintext_of(iv_index, encrypted_and_mic@));
        p
    }

    /// The six bytes of `bytes` xored with the first six of `pecb`.
    pub fn xor(pecb: [u8; 16], bytes: [u8; 6]) -> (out: [u8; 6])
        ensures
            out@ == xor_of(pecb@, bytes@),
    {
        let mut output = [0u8; 6];
        let mut i: usize = 0;
        while i < 6
            invariant
                i <= 6,
                forall|j: int| 0 <= j < i ==> output@[j] == pecb@[j] ^ bytes@[j],
            decreases 6 - i,
        {
            output[i] = pecb[i] ^ bytes[i];
            i = i + 1;
        }
        assert(output@ =~= xor_of(pecb@, bytes@));
        output
    }

    /// Encrypts and obfuscates an outbound network PDU.
    pub fn process_outbound(&mut self, iv_index: Option<u32>, pdu: &CleartextNetworkPDU) -> (r: Result<
        Option<ObfuscatedAndEncryptedNetworkPDU>,
        DeviceError,
    >)
        ensures
            match (r, Self::outbound_result(iv_index, pdu)) {
                (Ok(Some(o)), Ok(Some(v))) => o.fields() == v,
                (Ok(None), Ok(None)) => true,
                (Err(e), Err(f)) => e == f,
                _ => false,
            },
            r matches Ok(Some(o)) ==> o.encrypted_and_mic@.len() == 2 + LowerPDU::spec_bytes(pdu.transport_pdu@).len()
                + net_mic_len(LowerPDU::spec_ctl(pdu.transport_pdu@)),
            pdu.fits() ==> (r matches Ok(Some(o)) ==> Self::inbound_parsed(
                iv_index,
                seq![pdu.network_key],
                o.fields(),
                Ok(Some(*pdu)),
            )),
    {
        let iv = match iv_index {
            Some(iv) => iv,
            None => return Err(DeviceError::NotProvisioned),
        };
        let ctl = pdu.transport_pdu.is_control();
        let ctl_ttl = pdu.ttl | (if ctl { 0b10000000 } else { 0 });
        assert(ctl_ttl == ctl_ttl_of(ctl, pdu.ttl)) by {
            assert(pdu.ttl | 0u8 == pdu.ttl) by (bit_vector);
        }
        let src = pdu.src.as_bytes();
        let nonce = NetworkNonce::new(ctl_ttl, pdu.seq, src, iv).into_bytes();
        let dst = pdu.dst.as_bytes();
        let mut plaintext: Vec<u8> = vec![dst[0], dst[1]];
        let mut transport = pdu.transport_pdu.encode();
        plaintext.append(&mut transport);
        let mic_len: usize = if ctl { 8 } else { 4 };
        if plaintext.len() > ENCRYPTED_AND_MIC_MAX - mic_len {
            return Err(DeviceError::InsufficientBuffer);
        }
        let sealed = if ctl {
            ccm_encrypt_mic64(&pdu.network_key.encryption_key, &nonce, plaintext.as_slice())
        } else {
            ccm_encrypt_mic32(&pdu.network_key.encryption_key, &nonce, plaintext.as_slice())
        };
        let encrypted_and_mic = match sealed {
            Some(v) => v,
            None => return Err(DeviceError::CryptoError),
        };
        let privacy = Self::privacy_plaintext(iv, encrypted_and_mic.as_slice());
        let pecb = aes_ecb(&pdu.network_key.privacy_key, &privacy);
        let seq = to_be32(pdu.seq);
        let unobfuscated = [ctl_ttl, seq[1], seq[2], seq[3], src[0], src[1]];
        assert(unobfuscated@ =~= header_of(ctl_ttl, pdu.seq, pdu.src));
        let obfuscated = Self::xor(pecb, unobfuscated);
        proof {
            if pdu.fits() {
                lemma_reads_back(iv, pdu, ctl_ttl, plaintext@, encrypted_and_mic@, pecb@);
            }
        }
        Ok(Some(ObfuscatedAndEncryptedNetworkPDU { ivi: pdu.ivi, nid: pdu.nid, obfuscated, encrypted_and_mic }))
    }

    /// Deobfuscates, decrypts and authenticates an inbound network PDU with
    /// the first of `networks`, the keys whose NID it carries. Its encrypted
    /// part must hold the seven bytes the privacy plaintext is taken from.
    pub fn process_inbound(
        &mut self,
        iv_index: Option<u32>,
        networks: &[NetworkKeyHandle],
        pdu: ObfuscatedAndEncryptedNetworkPDU,
    ) -> (r: Result<Option<CleartextNetworkPDU>, DeviceError>)
        requires
            iv_index is Some && networks@.len() > 0 ==> pdu.encrypted_and_mic@.len() >= 7,
        ensures
            Self::inbound_parsed(iv_index, networks@, pdu.fields(), r),
    {
        let iv = match iv_index {
            Some(iv) => iv,
            None => return Ok(None),
        };
        if networks.len() == 0 {
            return Ok(None);
        }
        let network_key = networks[0];
        let em = pdu.encrypted_and_mic.as_slice();
        let privacy = Self::privacy_plaintext(iv, em);
        let pecb = aes_ecb(&network_key.privacy_key, &privacy);
        let u = Self::xor(pecb, pdu.obfuscated);
        let ctl = (u[0] & 0b10000000) != 0;
        assert(ctl == (u[0] >= 128)) by {
            crate::bits::lemma_nibbles(u[0], 0);
        }
        let seq = from_be32(0, u[1], u[2], u[3]);
        let nonce = NetworkNonce::new(u[0], seq, [u[4], u[5]], iv).into_bytes();
        assert([u[4], u[5]]@ =~= u@.subrange(4, 6));
        let len = em.len();
        if ctl && len < CONTROL_MIN {
            return Err(DeviceError::CryptoError);
        }
        let opened = if !ctl {
            let payload = vstd::slice::slice_subrange(em, 0, len - 4);
            let mic = crate::bytes::take_array4(em, len - 4);
            assert(payload@ =~= em@.take(len - 4));
            assert(mic@ =~= em@.skip(len - 4));
            ccm_decrypt_mic32(&network_key.encryption_key, &nonce, payload, &mic)
        } else {
            let payload = vstd::slice::slice_subrange(em, 0, len - 8);
            let mic = crate::bytes::take_array8(em, len - 8);
            assert(payload@ =~= em@.take(len - 8));
            assert(mic@ =~= em@.skip(len - 8));
            ccm_decrypt_mic64(&network_key.encryption_key, &nonce, payload, &mic)
        };
        let payload = match opened {
            Some(p) => p,
            None => return Err(DeviceError::CryptoError),
        };
        let ttl = u[0] & 0b01111111;
        assert(ttl == u[0] % 128) by {
            crate::bits::lemma_nibbles(u[0], 0);
        }
        let src = match UnicastAddress::parse([u[4], u[5]]) {
            Ok(a) => a,
            Err(_) => return Err(DeviceError::InvalidSrcAddress),
        };
        let dst = Address::parse([payload[0], payload[1]]);
        let rest = vstd::slice::slice_subrange(payload.as_slice(), 2, payload.len());
        assert(rest@ =~= payload@.skip(2));
        let transport_pdu = match LowerPDU::parse(ctl, rest) {
            Ok(t) => t,
            Err(e) => return Err(DeviceError::Parse(e)),
        };
        Ok(Some(CleartextNetworkPDU { network_key, ivi: pdu.ivi, nid: pdu.nid, ttl, seq, src, dst, transport_pdu }))
    }
}

/// Xoring twice with the same pad gives the bytes back.
proof fn lemma_xor_twice(pecb: Seq<u8>, bytes: Seq<u8>)
    requires
        bytes.len() == 6,
    ensures
        xor_of(pecb, xor_of(pecb, bytes)) =~= bytes,
{
    assert forall|i: int| 0 <= i < 6 implies #[trigger] xor_of(pecb, xor_of(pecb, bytes))[i] == bytes[i] by {
        let a = pecb[i];
        let b = bytes[i];
        assert(a ^ (a ^ b) == b) by (bit_vector);
    }
}

/// The header, the nonce and the plaintext that a receiver recovers from
/// a PDU sent with these values are those the sender used.
proof fn lemma_reads_back(
    iv: u32,
    pdu: &CleartextNetworkPDU,
    ctl_ttl: u8,
    plaintext: Seq<u8>,
    em: Seq<u8>,
    pecb: Seq<u8>,
)
    requires
        pdu.fits(),
        ctl_ttl == ctl_ttl_of(LowerPDU::spec_ctl(pdu.transport_pdu@), pdu.ttl),
        plaintext == be16_bytes(pdu.dst.value()) + LowerPDU::spec_bytes(pdu.transport_pdu@),
        em.len() == plaintext.len() + net_mic_len(LowerPDU::spec_ctl(pdu.transport_pdu@)),
        ccm_decrypt_of(
            pdu.network_key.encryption_key@,
            network_nonce_bytes(ctl_ttl, pdu.seq, be16_bytes(pdu.src.value()), iv),
            em.take(plaintext.len() as int),
            em.skip(plaintext.len() as int),
        ) == Some(plaintext),
        pecb == aes_ecb_of(pdu.network_key.privacy_key@, privacy_plaintext_of(iv, em)),
    ensures
        Authentication::inbound_parsed(
            Some(iv),
            seq![pdu.network_key],
            ObfuscatedView {
                ivi: pdu.ivi,
                nid: pdu.nid,
                obfuscated: xor_of(pecb, header_of(ctl_ttl, pdu.seq, pdu.src)),
                encrypted_and_mic: em,
            },
            Ok(Some(*pdu)),
        ),
{
    let ctl = LowerPDU::spec_ctl(pdu.transport_pdu@);
    let h = header_of(ctl_ttl, pdu.seq, pdu.src);
    lemma_xor_twice(pecb, h);
    let u = xor_of(pecb, xor_of(pecb, h));
    assert(u == h);
    let ttl = pdu.ttl;
    assert(ttl < 128 ==> (ttl | 0x80u8) >= 128 && (ttl | 0x80u8) % 128 == ttl) by (bit_vector);
    assert(u[0] >= 128 <==> ctl);
    assert(u[0] % 128 == pdu.ttl);
    let seq = pdu.seq;
    crate::bytes::lemma_be32_roundtrip(seq);
    assert(be32_bytes(seq)[0] == 0);
    assert(be32(0, u[1], u[2], u[3]) == seq);
    crate::bytes::lemma_be16_roundtrip(pdu.src.value());
    assert(u.subrange(4, 6) =~= be16_bytes(pdu.src.value()));
    assert(be16(u[4], u[5]) == pdu.src.value());
    assert(plaintext.skip(2) =~= LowerPDU::spec_bytes(pdu.transport_pdu@));
    crate::pdu::lower::lemma_lower_roundtrip(pdu.transport_pdu@);
    crate::address::lemma_address_roundtrip(pdu.dst);
    assert(plaintext[0] == be16_bytes(pdu.dst.value())[0]);
    assert(plaintext[1] == be16_bytes(pdu.dst.value())[1]);
}


/// The privacy plaintext that an obfuscation pad is encrypted from is five
/// zero bytes, then the IV index with its most significant byte first, then
/// the first seven bytes of the encrypted destination, transport PDU and
/// MIC.
pub proof fn lemma_privacy_plaintext_layout(iv_index: u32, encrypted_and_mic: Seq<u8>)
    requires
        encrypted_and_mic.len() >= 7,
    ensures
        privacy_plaintext_of(iv_index, encrypted_and_mic).len() == 16,
        forall|i: int| 0 <= i < 5 ==> #[trigger] privacy_plaintext_of(iv_index, encrypted_and_mic)[i] == 0,
        ({
            let p = privacy_plaintext_of(iv_index, encrypted_and_mic);
            p[5] as int * 0x100_0000 + p[6] as int * 0x1_0000 + p[7] as int * 0x100 + p[8] as int == iv_index
        }),
        forall|j: int|
            0 <= j < 7 ==> #[trigger] privacy_plaintext_of(iv_index, encrypted_and_mic)[9 + j] == encrypted_and_mic[j],
{
    let p = privacy_plaintext_of(iv_index, encrypted_and_mic);
    crate::bytes::lemma_be32_roundtrip(iv_index);
    let b = be32_bytes(iv_index);
    assert(p[5] == b[0] && p[6] == b[1] && p[7] == b[2] && p[8] == b[3]);
    assert((b[0] as int) * 0x100_0000 + (b[1] as int) * 0x1_0000 + (b[2] as int) * 0x100 + (b[3] as int) < 0x1_0000_0000);
}


/// The six header bytes that obfuscation hides are the CTL bit and TTL, the
/// low 24 bits of the sequence number and the source address, each most
/// significant byte first; the CTL bit of a control PDU is the top bit of
/// the first.
pub proof fn lemma_header_layout(ctl: bool, ttl: u8, seq: u32, src: UnicastAddress)
    requires
        ttl < 128,
    ensures
        ({
            let h = header_of(ctl_ttl_of(ctl, ttl), seq, src);
            &&& h.len() == 6
            &&& h[0] == (if ctl { ttl + 128 } else { ttl as int })
            &&& (h[1] as int) * 0x1_0000 + (h[2] as int) * 0x100 + (h[3] as int) == seq % 0x100_0000
            &&& (h[4] as int) * 0x100 + (h[5] as int) == src.value()
        }),
{
    crate::bytes::lemma_be32_roundtrip(seq);
    crate::bytes::lemma_be16_roundtrip(src.value());
    assert(ttl < 128 ==> (ttl | 0x80u8) as int == ttl + 128) by (bit_vector);
}

} // verus!
