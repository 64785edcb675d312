//! The status codes of configuration messages, including the codes
//! reserved for future use.
use vstd::prelude::*;

verus! {

/// A configuration status code.
#[derive(PartialEq, Eq, Structural, Clone, Copy, Debug)]
pub enum Status {
    Success,
    InvalidAddress,
    InvalidModel,
    InvalidAppKeyIndex,
    InvalidNetKeyIndex,
    InsufficientResources,
    KeyIndexAlreadyStored,
    InvalidPublishParameters,
    NotASubscribeModel,
    StorageFailure,
    FeatureNotSupported,
    CannotUpdate,
    CannotRemove,
    CannotBind,
    TemporarilyUnableToChangeState,
    CannotSet,
    UnspecifiedError,
    InvalidBinding,
    RFU(u8),
}

/// The status that a code denotes; codes above `0x11` are reserved.
pub open spec fn status_of(val: u8) -> Status {
    if val == 0x00 { Status::Success }
    else if val == 0x01 { Status::InvalidAddress }
    else if val == 0x02 { Status::InvalidModel }
    else if val == 0x03 { Status::InvalidAppKeyIndex }
    else if val == 0x04 { Status::InvalidNetKeyIndex }
    else if val == 0x05 { Status::InsufficientResources }
    else if val == 0x06 { Status::KeyIndexAlreadyStored }
    else if val == 0x07 { Status::InvalidPublishParameters }
    else if val == 0x08 { Status::NotASubscribeModel }
    else if val == 0x09 { Status::StorageFailure }
    else if val == 0x0A { Status::FeatureNotSupported }
    else if val == 0x0B { Status::CannotUpdate }
    else if val == 0x0C { Status::CannotRemove }
    else if val == 0x0D { Status::CannotBind }
    else if val == 0x0E { Status::TemporarilyUnableToChangeState }
    else if val == 0x0F { Status::CannotSet }
    else if val == 0x10 { Status::UnspecifiedError }
    else if val == 0x11 { Status::InvalidBinding }
    else { Status::RFU(val) }
}

/// The code of a status.
pub open spec fn code_of(s: Status) -> u8 {
    match s {
        Status::Success => 0x00,
        Status::InvalidAddress => 0x01,
        Status::InvalidModel => 0x02,
        Status::InvalidAppKeyIndex => 0x03,
        Status::InvalidNetKeyIndex => 0x04,
        Status::InsufficientResources => 0x05,
        Status::KeyIndexAlreadyStored => 0x06,
        Status::InvalidPublishParameters => 0x07,
        Status::NotASubscribeModel => 0x08,
        Status::StorageFailure => 0x09,
        Status::FeatureNotSupported => 0x0A,
        Status::CannotUpdate => 0x0B,
        Status::CannotRemove => 0x0C,
        Status::CannotBind => 0x0D,
        Status::TemporarilyUnableToChangeState => 0x0E,
        Status::CannotSet => 0x0F,
        Status::UnspecifiedError => 0x10,
        Status::InvalidBinding => 0x11,
        Status::RFU(num) => num,
    }
}

impl From<u8> for Status {
    fn from(val: u8) -> (s: Self) {
        match val {
            0x00 => Self::Success,
            0x01 => Self::InvalidAddress,
            0x02 => Self::InvalidModel,
            0x03 => Self::InvalidAppKeyIndex,
            0x04 => Self::InvalidNetKeyIndex,
            0x05 => Self::InsufficientResources,
            0x06 => Self::KeyIndexAlreadyStored,
            0x07 => Self::InvalidPublishParameters,
            0x08 => Self::NotASubscribeModel,
            0x09 => Self::StorageFailure,
            0x0A => Self::FeatureNotSupported,
            0x0B => Self::CannotUpdate,
            0x0C => Self::CannotRemove,
            0x0D => Self::CannotBind,
            0x0E => Self::TemporarilyUnableToChangeState,
            0x0F => Self::CannotSet,
            0x10 => Self::UnspecifiedError,
            0x11 => Self::InvalidBinding,
            _ => Self::RFU(val),
        }
    }
}

impl vstd::std_specs::convert::FromSpecImpl<u8> for Status {
    open spec fn obeys_from_spec() -> bool {
        true
    }

    open spec fn from_spec(val: u8) -> Status {
        status_of(val)
    }
}

impl From<Status> for u8 {
    fn from(val: Status) -> (c: Self) {
        match val {
            Status::Success => 0x00,
            Status::InvalidAddress => 0x01,
            Status::InvalidModel => 0x02,
            Status::InvalidAppKeyIndex => 0x03,
            Status::InvalidNetKeyIndex => 0x04,
            Status::InsufficientResources => 0x05,
            Status::KeyIndexAlreadyStored => 0x06,
            Status::InvalidPublishParameters => 0x07,
            Status::NotASubscribeModel => 0x08,
            Status::StorageFailure => 0x09,
            Status::FeatureNotSupported => 0x0A,
            Status::CannotUpdate => 0x0B,
            Status::CannotRemove => 0x0C,
            Status::CannotBind => 0x0D,
            Status::TemporarilyUnableToChangeState => 0x0E,
            Status::CannotSet => 0x0F,
            Status::UnspecifiedError => 0x10,
            Status::InvalidBinding => 0x11,
            Status::RFU(num) => num,
        }
    }
}

impl vstd::std_specs::convert::FromSpecImpl<Status> for u8 {
    open spec fn obeys_from_spec() -> bool {
        true
    }

    open spec fn from_spec(s: Status) -> u8 {
        code_of(s)
    }
}

/// Every code is given back by the status it denotes.
pub proof fn lemma_code_of_status(val: u8)
    ensures
        code_of(status_of(val)) == val,
{
}

/// A status is given back by its code, unless it is a reserved status
/// built around one of the assigned codes.
pub proof fn lemma_status_of_code(s: Status)
    requires
        s matches Status::RFU(v) ==> v > 0x11,
    ensures
        status_of(code_of(s)) == s,
{
}

} // verus!
