//! The block-cipher primitives of the mesh security toolbox, computed by the
//! `aes` and `cmac` crates.
#![allow(deprecated)]
use vstd::prelude::*;
use aes::Aes128;
use aes::cipher::generic_array::GenericArray;
use aes::cipher::{BlockEncrypt, NewBlockCipher};
use ccm::aead::{AeadInPlace, NewAead};
use ccm::consts::{U13, U4, U8};
use ccm::Ccm;
use cmac::{Cmac, Mac, NewMac};
use p256::elliptic_curve::sec1::FromEncodedPoint;
use p256::EncodedPoint;

pub mod nonce;

verus! {

/// The AES-CMAC of `msg` under the 128-bit `key`, as the `cmac` crate
/// computes it over `aes::Aes128`.
pub uninterp spec fn aes_cmac_of(key: Seq<u8>, msg: Seq<u8>) -> Seq<u8>;

/// The AES-128 encryption of one block, as the `aes` crate computes it.
pub uninterp spec fn aes_ecb_of(key: Seq<u8>, block: Seq<u8>) -> Seq<u8>;

/// Computes AES-CMAC with `cmac::Cmac<aes::Aes128>`: a key of 16 bytes, the
/// message absorbed in one update, the 16-byte tag returned.
#[verifier::external_body]
pub(crate) fn aes_cmac(key: &[u8; 16], msg: &[u8]) -> (tag: [u8; 16])
    ensures
        tag@ == aes_cmac_of(key@, msg@),
{
    let mut mac = Cmac::<Aes128>::new(GenericArray::from_slice(key));
    mac.update(msg);
    let out = mac.finalize().into_bytes();
    let mut tag = [0u8; 16];
    tag.copy_from_slice(&out);
    tag
}

/// Encrypts one 16-byte block with `aes::Aes128` under `key` (the security
/// function `e` of the mesh security toolbox).
#[verifier::external_body]
pub(crate) fn aes_ecb(key: &[u8; 16], block: &[u8; 16]) -> (out: [u8; 16])
    ensures
        out@ == aes_ecb_of(key@, block@),
{
    let cipher = Aes128::new(GenericArray::from_slice(key));
    let mut b = GenericArray::clone_from_slice(block);
    cipher.encrypt_block(&mut b);
    let mut out = [0u8; 16];
    out.copy_from_slice(&b);
    out
}

/// The AES-CCM encryption, under a 128-bit key and a 13-byte nonce, without
/// associated data, of a plaintext: the ciphertext followed by a MIC of
/// `mic_len` bytes, as the `ccm` crate computes it over `aes::Aes128`.
pub uninterp spec fn ccm_encrypt_of(key: Seq<u8>, nonce: Seq<u8>, plaintext: Seq<u8>, mic_len: nat) -> Seq<u8>;

/// The AES-CCM decryption, under a 128-bit key and a 13-byte nonce, without
/// associated data, of a ciphertext with its MIC: the plaintext, or nothing
/// when the MIC does not authenticate it.
pub uninterp spec fn ccm_decrypt_of(key: Seq<u8>, nonce: Seq<u8>, ciphertext: Seq<u8>, mic: Seq<u8>) -> Option<Seq<u8>>;

/// The most bytes that AES-CCM with a 13-byte nonce encrypts: the length
/// field has two bytes.
pub open spec fn ccm_max_len() -> nat {
    65535
}

/// Encrypts with `ccm::Ccm<Aes128, U4, U13>` (a 32-bit MIC), in place and
/// detached: returns the ciphertext followed by the MIC. The crate refuses
/// only a plaintext longer than its length field holds; the ciphertext is as
/// long as the plaintext, and decrypting it with that MIC gives the
/// plaintext back.
#[verifier::external_body]
pub(crate) fn ccm_encrypt_mic32(key: &[u8; 16], nonce: &[u8; 13], plaintext: &[u8]) -> (r: Option<Vec<u8>>)
    ensures
        r is Some <==> plaintext@.len() <= ccm_max_len(),
        r matches Some(v) ==> v@ == ccm_encrypt_of(key@, nonce@, plaintext@, 4),
        r matches Some(v) ==> v@.len() == plaintext@.len() + 4,
        r matches Some(v) ==> ccm_decrypt_of(key@, nonce@, v@.take(plaintext@.len() as int), v@.skip(
            plaintext@.len() as int,
        )) == Some(plaintext@),
{
    let cipher = Ccm::<Aes128, U4, U13>::new(GenericArray::from_slice(key));
    let mut buf = plaintext.to_vec();
    let tag = cipher.encrypt_in_place_detached(GenericArray::from_slice(nonce), &[], &mut buf).ok()?;
    buf.extend_from_slice(&tag);
    Some(buf)
}

/// Encrypts with `ccm::Ccm<Aes128, U8, U13>` (a 64-bit MIC), in place and
/// detached: returns the ciphertext followed by the MIC, with the same
/// facts as the 32-bit one.
#[verifier::external_body]
pub(crate) fn ccm_encrypt_mic64(key: &[u8; 16], nonce: &[u8; 13], plaintext: &[u8]) -> (r: Option<Vec<u8>>)
    ensures
        r is Some <==> plaintext@.len() <= ccm_max_len(),
        r matches Some(v) ==> v@ == ccm_encrypt_of(key@, nonce@, plaintext@, 8),
        r matches Some(v) ==> v@.len() == plaintext@.len() + 8,
        r matches Some(v) ==> ccm_decrypt_of(key@, nonce@, v@.take(plaintext@.len() as int), v@.skip(
            plaintext@.len() as int,
        )) == Some(plaintext@),
{
    let cipher = Ccm::<Aes128, U8, U13>::new(GenericArray::from_slice(key));
    let mut buf = plaintext.to_vec();
    let tag = cipher.encrypt_in_place_detached(GenericArray::from_slice(nonce), &[], &mut buf).ok()?;
    buf.extend_from_slice(&tag);
    Some(buf)
}

/// Decrypts with `ccm::Ccm<Aes128, U4, U13>` against a 4-byte MIC: the
/// plaintext, as long as the ciphertext, or nothing when the MIC does not
/// authenticate the ciphertext.
#[verifier::external_body]
pub(crate) fn ccm_decrypt_mic32(key: &[u8; 16], nonce: &[u8; 13], ciphertext: &[u8], mic: &[u8; 4]) -> (r: Option<Vec<u8>>)
    ensures
        r matches Some(v) ==> ccm_decrypt_of(key@, nonce@, ciphertext@, mic@) == Some(v@),
        r is None ==> ccm_decrypt_of(key@, nonce@, ciphertext@, mic@) is None,
        r matches Some(v) ==> v@.len() == ciphertext@.len(),
{
    let cipher = Ccm::<Aes128, U4, U13>::new(GenericArray::from_slice(key));
    let mut buf = ciphertext.to_vec();
    let tag = GenericArray::from_slice(mic);
    cipher.decrypt_in_place_detached(GenericArray::from_slice(nonce), &[], &mut buf, tag).ok()?;
    Some(buf)
}

/// Decrypts with `ccm::Ccm<Aes128, U8, U13>` against an 8-byte MIC, with
/// the same facts as the 32-bit one.
#[verifier::external_body]
pub(crate) fn ccm_decrypt_mic64(key: &[u8; 16], nonce: &[u8; 13], ciphertext: &[u8], mic: &[u8; 8]) -> (r: Option<Vec<u8>>)
    ensures
        r matches Some(v) ==> ccm_decrypt_of(key@, nonce@, ciphertext@, mic@) == Some(v@),
        r is None ==> ccm_decrypt_of(key@, nonce@, ciphertext@, mic@) is None,
        r matches Some(v) ==> v@.len() == ciphertext@.len(),
{
    let cipher = Ccm::<Aes128, U8, U13>::new(GenericArray::from_slice(key));
    let mut buf = ciphertext.to_vec();
    let tag = GenericArray::from_slice(mic);
    cipher.decrypt_in_place_detached(GenericArray::from_slice(nonce), &[], &mut buf, tag).ok()?;
    Some(buf)
}

/// The salt generation function `s1`: AES-CMAC under the all-zero key.
pub open spec fn s1_of(msg: Seq<u8>) -> Seq<u8> {
    aes_cmac_of(Seq::new(16, |i: int| 0u8), msg)
}

/// The salt generation function `s1` of the mesh security toolbox.
pub fn s1(msg: &[u8]) -> (salt: [u8; 16])
    ensures
        salt@ == s1_of(msg@),
{
    let zero = [0u8; 16];
    assert(zero@ == Seq::new(16, |i: int| 0u8));
    aes_cmac(&zero, msg)
}

/// The key derivation function `k1`: AES-CMAC of `p` under the AES-CMAC of
/// `n` under `salt`.
pub open spec fn k1_of(n: Seq<u8>, salt: Seq<u8>, p: Seq<u8>) -> Seq<u8> {
    aes_cmac_of(aes_cmac_of(salt, n), p)
}

/// The key derivation function `k1` of the mesh security toolbox.
pub fn k1(n: &[u8], salt: &[u8; 16], p: &[u8]) -> (k: [u8; 16])
    ensures
        k@ == k1_of(n@, salt@, p@),
{
    let t = aes_cmac(salt, n);
    aes_cmac(&t, p)
}


/// Whether the big-endian affine coordinates `x` and `y` decode, as an
/// uncompressed SEC1 point, to a public key of the P-256 curve, as the
/// `p256` crate decides it.
pub uninterp spec fn p256_point_valid(x: Seq<u8>, y: Seq<u8>) -> bool;

/// `p256::PublicKey::from_encoded_point` on the uncompressed point of `x`
/// and `y`: whether it gives a public key.
#[verifier::external_body]
pub(crate) fn p256_point_decodes(x: &[u8; 32], y: &[u8; 32]) -> (b: bool)
    ensures
        b == p256_point_valid(x@, y@),
{
    let point = EncodedPoint::from_affine_coordinates(&(*x).into(), &(*y).into(), false);
    bool::from(p256::PublicKey::from_encoded_point(&point).is_some())
}

} // verus!
