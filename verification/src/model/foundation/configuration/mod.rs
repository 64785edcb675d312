//! The configuration server model: key indexes and the configuration
//! messages a configuration client sends.
use vstd::prelude::*;
use crate::bits::lemma_nibbles;
use crate::buffer::{appended, ByteBuf};
use crate::bytes::to_be16;
use crate::pdu::ParseError;
use crate::InsufficientBuffer;

pub mod app_key;
pub mod beacon;
pub mod composition_data;
pub mod default_ttl;
pub mod model_app;
pub mod model_publication;
pub mod model_subscription;
pub mod network_transmit;
pub mod relay;
pub mod server;
pub mod node_reset;

verus! {

/// The 12-bit global index of a network or application key.
#[derive(PartialEq, Eq, Structural, Clone, Copy, Debug)]
pub struct KeyIndex(pub u16);

impl KeyIndex {
    /// The index read from the first two bytes: the first byte is the low
    /// byte, the low nibble of the second the high bits.
    pub open spec fn spec_parse_one(p: Seq<u8>) -> Result<KeyIndex, ParseError> {
        if p.len() >= 2 {
            Ok(KeyIndex(((p[1] % 16) as int * 256 + p[0] as int) as u16))
        } else {
            Err(ParseError::InvalidLength)
        }
    }

    /// The two bytes a single index is emitted as: its low byte, then its
    /// high byte moved into the upper nibble.
    pub open spec fn spec_one_bytes(self) -> Seq<u8> {
        seq![(self.0 % 256) as u8, (((self.0 / 256) % 16) * 16) as u8]
    }

    /// The two indexes read from the first three bytes, returned as the one
    /// in the last twelve bits followed by the one in the first twelve.
    pub open spec fn spec_parse_two(p: Seq<u8>) -> Result<(KeyIndex, KeyIndex), ParseError> {
        if p.len() >= 3 {
            Ok((
                KeyIndex(((p[1] % 16) as int * 256 + p[2] as int) as u16),
                KeyIndex((p[0] as int * 256 + (p[1] / 16) as int) as u16),
            ))
        } else {
            Err(ParseError::InvalidLength)
        }
    }

    /// The three bytes two indexes `(a, b)` are emitted as.
    pub open spec fn spec_two_bytes(a: KeyIndex, b: KeyIndex) -> Seq<u8> {
        seq![
            (b.0 / 256) as u8,
            ((((b.0 % 256) % 16) * 16) as u8 | (a.0 / 256) as u8),
            (a.0 % 256) as u8,
        ]
    }

    /// Reads a key index from the first two bytes.
    pub fn parse_one(parameters: &[u8]) -> (r: Result<Self, ParseError>)
        ensures
            r == Self::spec_parse_one(parameters@),
    {
        if parameters.len() >= 2 {
            let byte1 = parameters[0];
            let byte2 = parameters[1] & 0b11110000 >> 4;
            proof {
                lemma_nibbles(parameters[1], 0);
                assert(0b11110000u8 >> 4u8 == 0x0Fu8) by (bit_vector);
            }
            let val = crate::bytes::from_be16(byte2, byte1);
            Ok(Self(val))
        } else {
            Err(ParseError::InvalidLength)
        }
    }

    /// The two bytes of one key index.
    pub fn encode_one(index: &KeyIndex) -> (v: Vec<u8>)
        ensures
            v@ == index.spec_one_bytes(),
    {
        let bytes = to_be16(index.0);
        let byte1 = bytes[1];
        let byte2 = bytes[0] << 4;
        proof { lemma_nibbles(bytes[0], 0); }
        let v = vec![byte1, byte2];
        assert(v@ =~= index.spec_one_bytes());
        v
    }

    /// Appends the two bytes of one key index.
    pub fn emit_one(index: &KeyIndex, xmit: &mut ByteBuf) -> (r: Result<(), InsufficientBuffer>)
        ensures
            final(xmit).cap() == old(xmit).cap(),
            appended(old(xmit)@, final(xmit)@, old(xmit).cap(), index.spec_one_bytes(), r is Ok),
    {
        xmit.extend_from_slice(Self::encode_one(index).as_slice())
    }

    /// Reads two key indexes from the first three bytes.
    pub fn parse_two(parameters: &[u8]) -> (r: Result<(Self, Self), ParseError>)
        ensures
            r == Self::spec_parse_two(parameters@),
    {
        if parameters.len() >= 3 {
            let byte1 = parameters[0];
            let byte2 = (parameters[1] & 0b11110000) >> 4;
            proof { lemma_nibbles(parameters[1], 0); }
            let index1 = crate::bytes::from_be16(byte1, byte2);
            let byte1 = parameters[1] & 0b00001111;
            let byte2 = parameters[2];
            let index2 = crate::bytes::from_be16(byte1, byte2);
            Ok((Self(index2), Self(index1)))
        } else {
            Err(ParseError::InvalidLength)
        }
    }

    /// The three bytes of two key indexes.
    pub fn encode_two(indexes: (&KeyIndex, &KeyIndex)) -> (v: Vec<u8>)
        ensures
            v@ == Self::spec_two_bytes(*indexes.0, *indexes.1),
    {
        let bytes = to_be16(indexes.1.0);
        let first = bytes[0];
        let byte2 = bytes[1] << 4;
        proof { lemma_nibbles(bytes[1], 0); }
        let bytes = to_be16(indexes.0.0);
        let second = byte2 | bytes[0];
        let third = bytes[1];
        let v = vec![first, second, third];
        assert(v@ =~= Self::spec_two_bytes(*indexes.0, *indexes.1));
        v
    }

    /// Appends the three bytes of two key indexes.
    pub fn emit_two(indexes: (&KeyIndex, &KeyIndex), xmit: &mut ByteBuf) -> (r: Result<(), InsufficientBuffer>)
        ensures
            final(xmit).cap() == old(xmit).cap(),
            appended(old(xmit)@, final(xmit)@, old(xmit).cap(), Self::spec_two_bytes(*indexes.0, *indexes.1), r is Ok),
    {
        xmit.extend_from_slice(Self::encode_two(indexes).as_slice())
    }
}

/// The index of a network key.
#[derive(PartialEq, Eq, Structural, Clone, Copy, Debug)]
pub struct NetKeyIndex(pub KeyIndex);

impl NetKeyIndex {
    /// The network key index `index`.
    pub fn new(index: u16) -> (k: Self)
        ensures
            k == NetKeyIndex(KeyIndex(index)),
    {
        Self(KeyIndex(index))
    }

    /// Appends the two bytes of this index.
    pub fn emit(&self, xmit: &mut ByteBuf) -> (r: Result<(), InsufficientBuffer>)
        ensures
            final(xmit).cap() == old(xmit).cap(),
            appended(old(xmit)@, final(xmit)@, old(xmit).cap(), self.0.spec_one_bytes(), r is Ok),
    {
        KeyIndex::emit_one(&self.0, xmit)
    }
}

/// The index of an application key.
#[derive(PartialEq, Eq, Structural, Clone, Copy, Debug)]
pub struct AppKeyIndex(pub KeyIndex);

impl AppKeyIndex {
    /// Appends the two bytes of this index.
    pub fn emit(&self, xmit: &mut ByteBuf) -> (r: Result<(), InsufficientBuffer>)
        ensures
            final(xmit).cap() == old(xmit).cap(),
            appended(old(xmit)@, final(xmit)@, old(xmit).cap(), self.0.spec_one_bytes(), r is Ok),
    {
        KeyIndex::emit_one(&self.0, xmit)
    }
}

/// A network key index and an application key index, packed together in
/// three bytes.
#[derive(PartialEq, Eq, Structural, Clone, Copy, Debug)]
pub struct NetKeyAppKeyIndexesPair(pub NetKeyIndex, pub AppKeyIndex);

impl NetKeyAppKeyIndexesPair {
    /// The three bytes of this pair.
    pub open spec fn spec_bytes(self) -> Seq<u8> {
        KeyIndex::spec_two_bytes(self.0.0, self.1.0)
    }

    /// The pair that exactly three bytes denote.
    pub open spec fn spec_parse(p: Seq<u8>) -> Result<NetKeyAppKeyIndexesPair, ParseError> {
        if p.len() == 3 {
            match KeyIndex::spec_parse_two(p) {
                Ok((net, app)) => Ok(NetKeyAppKeyIndexesPair(NetKeyIndex(net), AppKeyIndex(app))),
                Err(e) => Err(e),
            }
        } else {
            Err(ParseError::InvalidLength)
        }
    }

    /// Appends the three bytes of this pair.
    pub fn emit(&self, xmit: &mut ByteBuf) -> (r: Result<(), InsufficientBuffer>)
        ensures
            final(xmit).cap() == old(xmit).cap(),
            appended(old(xmit)@, final(xmit)@, old(xmit).cap(), self.spec_bytes(), r is Ok),
    {
        KeyIndex::emit_two((&self.0.0, &self.1.0), xmit)
    }

    /// Reads a pair from exactly three bytes.
    pub fn parse(parameters: &[u8]) -> (r: Result<Self, ParseError>)
        ensures
            r == Self::spec_parse(parameters@),
    {
        if parameters.len() == 3 {
            let (net_key, app_key) = KeyIndex::parse_two(parameters)?;
            Ok(Self(NetKeyIndex(net_key), AppKeyIndex(app_key)))
        } else {
            Err(ParseError::InvalidLength)
        }
    }

    /// The network key index.
    pub fn net_key(&self) -> (k: NetKeyIndex)
        ensures
            k == self.0,
    {
        self.0
    }

    /// The application key index.
    pub fn app_key(&self) -> (k: AppKeyIndex)
        ensures
            k == self.1,
    {
        self.1
    }
}

/// A key index read back from the bytes it is emitted as is that index,
/// for indexes below 256 (the emitter moves the high byte into the upper
/// nibble, where the reader does not look).
pub proof fn lemma_key_index_one_roundtrip(k: KeyIndex, rest: Seq<u8>)
    requires
        k.0 < 256,
    ensures
        KeyIndex::spec_parse_one(k.spec_one_bytes() + rest) == Ok::<KeyIndex, ParseError>(k),
{
    let b = k.spec_one_bytes() + rest;
    assert(b[0] == k.0 % 256 && b[1] == 0);
}

/// A pair of key indexes read back from the bytes it is emitted as is that
/// pair, when the network key index fits twelve bits and the application
/// key index has no bits set between bit 4 and bit 7.
pub proof fn lemma_key_index_pair_roundtrip(p: NetKeyAppKeyIndexesPair)
    requires
        p.0.0.0 < 0x1000,
        (p.1.0.0 % 256) < 16,
    ensures
        NetKeyAppKeyIndexesPair::spec_parse(p.spec_bytes()) == Ok::<NetKeyAppKeyIndexesPair, ParseError>(p),
{
    let net = p.0.0.0;
    let app = p.1.0.0;
    let b = p.spec_bytes();
    let x = (app % 256) as u8;
    let y = (net / 256) as u8;
    lemma_nibbles(x, y);
    assert(((x % 16) * 16) as u8 == x << 4u8);
    assert(b[1] == (x << 4u8) | y);
}

} // verus!
