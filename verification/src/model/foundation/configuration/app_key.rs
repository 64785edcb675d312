//! Config AppKey messages: application keys are added to a node and listed.
use vstd::prelude::*;
use crate::buffer::{appended, ByteBuf};
use crate::bytes::take_array16;
use crate::model::foundation::configuration::{AppKeyIndex, KeyIndex, NetKeyAppKeyIndexesPair, NetKeyIndex};
use crate::model::{Message, Status};
use crate::pdu::access::Opcode;
use crate::pdu::ParseError;
use crate::InsufficientBuffer;

verus! {

/// Opcode of the Config AppKey Add message.
#[verifier::allow_in_spec]
pub fn config_appkey_add() -> Opcode
    returns
        Opcode::OneOctet(0x00),
{
    Opcode::OneOctet(0x00)
}

/// Opcode of the Config AppKey Delete message.
#[verifier::allow_in_spec]
pub fn config_appkey_delete() -> Opcode
    returns
        Opcode::TwoOctet(0x80, 0x00),
{
    Opcode::TwoOctet(0x80, 0x00)
}

/// Opcode of the Config AppKey Get message.
#[verifier::allow_in_spec]
pub fn config_appkey_get() -> Opcode
    returns
        Opcode::TwoOctet(0x80, 0x01),
{
    Opcode::TwoOctet(0x80, 0x01)
}

/// Opcode of the Config AppKey List message.
#[verifier::allow_in_spec]
pub fn config_appkey_list() -> Opcode
    returns
        Opcode::TwoOctet(0x80, 0x02),
{
    Opcode::TwoOctet(0x80, 0x02)
}

/// Opcode of the Config AppKey Status message.
#[verifier::allow_in_spec]
pub fn config_appkey_status() -> Opcode
    returns
        Opcode::TwoOctet(0x80, 0x03),
{
    Opcode::TwoOctet(0x80, 0x03)
}

/// Opcode of the Config AppKey Update message.
#[verifier::allow_in_spec]
pub fn config_appkey_update() -> Opcode
    returns
        Opcode::OneOctet(0x01),
{
    Opcode::OneOctet(0x01)
}

/// A Config AppKey message.
pub enum AppKeyMessage {
    Add(AppKeyAddMessage),
    Delete(AppKeyDeleteMessage),
    Get(AppKeyGetMessage),
    List(AppKeyListMessage),
    Status(AppKeyStatusMessage),
    Update(AppKeyUpdateMessage),
}

/// An application key to add, with the network key it is bound to.
pub struct AppKeyAddMessage {
    pub indexes: NetKeyAppKeyIndexesPair,
    pub app_key: [u8; 16],
}

/// An application key to delete.
pub struct AppKeyDeleteMessage {
    pub indexes: NetKeyAppKeyIndexesPair,
}

/// A request for the application keys bound to a network key.
pub struct AppKeyGetMessage {
    pub net_key_index: NetKeyIndex,
}

/// The application keys bound to a network key.
pub struct AppKeyListMessage {
    pub status: Status,
    pub net_key_index: NetKeyIndex,
    pub app_key_indexes: Vec<AppKeyIndex>,
}

/// The outcome of adding, updating or deleting an application key.
pub struct AppKeyStatusMessage {
    pub status: Status,
    pub indexes: NetKeyAppKeyIndexesPair,
}

/// A new value for an application key.
pub struct AppKeyUpdateMessage {
    pub net_key_index: NetKeyIndex,
    pub app_key_index: AppKeyIndex,
    pub app_key: [u8; 16],
}

/// The bytes of chunk `k` of a list of key indexes taken two at a time: a
/// pair packed in three bytes, or a last index alone in two.
pub open spec fn index_chunk_bytes(s: Seq<AppKeyIndex>, k: int) -> Seq<u8> {
    if 2 * k + 1 < s.len() {
        KeyIndex::spec_two_bytes(s[2 * k].0, s[2 * k + 1].0)
    } else {
        s[2 * k].0.spec_one_bytes()
    }
}

/// The bytes of the first `n` chunks of a list of key indexes.
pub open spec fn index_chunks_bytes(s: Seq<AppKeyIndex>, n: nat) -> Seq<u8>
    decreases n,
{
    if n == 0 {
        Seq::empty()
    } else {
        index_chunks_bytes(s, (n - 1) as nat) + index_chunk_bytes(s, n - 1)
    }
}

/// The number of chunks of two that a list of `len` indexes falls into.
pub open spec fn chunk_count(len: nat) -> nat {
    (len + 1) / 2
}

impl AppKeyListMessage {
    /// The parameters of a list: the status code, the network key index,
    /// then the application key indexes two at a time.
    pub open spec fn spec_bytes(&self) -> Seq<u8> {
        seq![self.status.spec_code()] + self.net_key_index.0.spec_one_bytes() + index_chunks_bytes(
            self.app_key_indexes@,
            chunk_count(self.app_key_indexes@.len()),
        )
    }

    /// The parameters of this list.
    pub fn encode(&self) -> (v: Vec<u8>)
        ensures
            v@ == self.spec_bytes(),
    {
        let mut v: Vec<u8> = vec![self.status.code()];
        let mut idx = KeyIndex::encode_one(&self.net_key_index.0);
        v.append(&mut idx);
        let ghost head = v@;
        let indexes = &self.app_key_indexes;
        let n = indexes.len();
        let mut i: usize = 0;
        let ghost mut k: nat = 0;
        while i < n
            invariant
                n == indexes@.len(),
                i <= n,
                i < n ==> i == 2 * k,
                i == n ==> k == chunk_count(n as nat),
                v@ == head + index_chunks_bytes(indexes@, k),
            decreases n - i,
        {
            assert(index_chunks_bytes(indexes@, k + 1) == index_chunks_bytes(indexes@, k) + index_chunk_bytes(
                indexes@,
                k as int,
            ));
            if i + 1 < n {
                let mut b = KeyIndex::encode_two((&indexes[i].0, &indexes[i + 1].0));
                v.append(&mut b);
                i = i + 2;
            } else {
                let mut b = KeyIndex::encode_one(&indexes[i].0);
                v.append(&mut b);
                i = n;
            }
            proof {
                k = k + 1;
            }
        }
        assert(n == 0 ==> k == chunk_count(n as nat));
        assert(v@ =~= self.spec_bytes());
        v
    }
}

impl AppKeyStatusMessage {
    /// The parameters of a status: the status code, then the pair of key
    /// indexes.
    pub open spec fn spec_bytes(&self) -> Seq<u8> {
        seq![self.status.spec_code()] + self.indexes.spec_bytes()
    }

    /// The parameters of this status.
    pub fn encode(&self) -> (v: Vec<u8>)
        ensures
            v@ == self.spec_bytes(),
    {
        let mut v: Vec<u8> = vec![self.status.code()];
        let mut b = KeyIndex::encode_two((&self.indexes.0.0, &self.indexes.1.0));
        v.append(&mut b);
        assert(v@ =~= self.spec_bytes());
        v
    }
}

impl AppKeyMessage {
    /// Whether `r` is what reading an Add from `p` gives: nineteen bytes,
    /// the pair of key indexes in the first three and the key in the rest.
    pub open spec fn add_parsed(p: Seq<u8>, r: Result<AppKeyMessage, ParseError>) -> bool {
        if p.len() == 19 {
            &&& r matches Ok(AppKeyMessage::Add(m))
            &&& NetKeyAppKeyIndexesPair::spec_parse(p.subrange(0, 3)) == Ok::<NetKeyAppKeyIndexesPair, ParseError>(
                m.indexes,
            )
            &&& m.app_key@ == p.subrange(3, 19)
        } else {
            r matches Err(e) && e == ParseError::InvalidLength
        }
    }

    /// Whether `r` is what reading a Get from `p` gives: the network key
    /// index in exactly two bytes.
    pub open spec fn get_parsed(p: Seq<u8>, r: Result<AppKeyMessage, ParseError>) -> bool {
        if p.len() == 2 {
            &&& r matches Ok(AppKeyMessage::Get(m))
            &&& KeyIndex::spec_parse_one(p) == Ok::<KeyIndex, ParseError>(m.net_key_index.0)
        } else {
            r matches Err(e) && e == ParseError::InvalidLength
        }
    }

    /// Reads an Add.
    pub fn parse_add(parameters: &[u8]) -> (r: Result<Self, ParseError>)
        ensures
            Self::add_parsed(parameters@, r),
    {
        if parameters.len() == 19 {
            let head = vstd::slice::slice_subrange(parameters, 0, 3);
            let indexes = NetKeyAppKeyIndexesPair::parse(head)?;
            let app_key = take_array16(parameters, 3);
            Ok(Self::Add(AppKeyAddMessage { indexes, app_key }))
        } else {
            Err(ParseError::InvalidLength)
        }
    }

    /// Reads a Get.
    pub fn parse_get(parameters: &[u8]) -> (r: Result<Self, ParseError>)
        ensures
            Self::get_parsed(parameters@, r),
    {
        if parameters.len() == 2 {
            let net_key_index = NetKeyIndex(KeyIndex::parse_one(parameters)?);
            Ok(Self::Get(AppKeyGetMessage { net_key_index }))
        } else {
            Err(ParseError::InvalidLength)
        }
    }
}

impl Message for AppKeyMessage {
    /// An Update answers with the status opcode.
    open spec fn spec_opcode(&self) -> Opcode {
        match self {
            Self::Add(_) => config_appkey_add(),
            Self::Delete(_) => config_appkey_delete(),
            Self::Get(_) => config_appkey_get(),
            Self::List(_) => config_appkey_list(),
            Self::Status(_) => config_appkey_status(),
            Self::Update(_) => config_appkey_status(),
        }
    }

    open spec fn spec_parameters(&self) -> Seq<u8> {
        match self {
            Self::List(inner) => inner.spec_bytes(),
            Self::Status(inner) => inner.spec_bytes(),
            _ => Seq::empty(),
        }
    }

    /// Only lists and statuses are ever sent by a node.
    open spec fn emittable(&self) -> bool {
        self is List || self is Status
    }

    fn opcode(&self) -> (o: Opcode) {
        match self {
            Self::Add(_) => config_appkey_add(),
            Self::Delete(_) => config_appkey_delete(),
            Self::Get(_) => config_appkey_get(),
            Self::List(_) => config_appkey_list(),
            Self::Status(_) => config_appkey_status(),
            Self::Update(_) => config_appkey_status(),
        }
    }

    fn emit_parameters(&self, xmit: &mut ByteBuf) -> (r: Result<(), InsufficientBuffer>) {
        match self {
            Self::List(inner) => xmit.extend_from_slice(inner.encode().as_slice()),
            Self::Status(inner) => xmit.extend_from_slice(inner.encode().as_slice()),
            _ => Ok(()),
        }
    }
}


/// An app key status is the status code, then the pair of key indexes.
pub proof fn lemma_app_key_status_layout(m: AppKeyStatusMessage)
    ensures
        m.spec_bytes().len() >= 1,
        m.spec_bytes()[0] == m.status.spec_code(),
        m.spec_bytes().skip(1) == m.indexes.spec_bytes(),
{
    assert(m.spec_bytes().skip(1) =~= m.indexes.spec_bytes());
}

} // verus!
