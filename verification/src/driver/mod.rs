//! The node driver: its errors and the stages of its PDU pipeline.
use vstd::prelude::*;
use crate::pdu::ParseError;
use crate::InsufficientBuffer;

pub mod pipeline;

verus! {

/// Why the node could not process a PDU or a request.
#[derive(PartialEq, Eq, Structural, Clone, Copy, Debug)]
pub enum DeviceError {
    NotProvisioned,
    PipelineNotConfigured,
    InsufficientBuffer,
    InvalidLink,
    InvalidTransactionNumber,
    IncompleteTransaction,
    InvalidSrcAddress,
    InvalidKeyLength,
    KeyInitialization,
    CryptoError,
    Parse(ParseError),
}

impl DeviceError {
    /// The device error that a parse error becomes.
    pub fn from_parse(e: ParseError) -> (d: DeviceError)
        ensures
            d == DeviceError::Parse(e),
    {
        DeviceError::Parse(e)
    }

    /// The device error that a full transmit buffer becomes.
    pub fn from_insufficient(_e: InsufficientBuffer) -> (d: DeviceError)
        ensures
            d == DeviceError::InsufficientBuffer,
    {
        DeviceError::InsufficientBuffer
    }
}

} // verus!
