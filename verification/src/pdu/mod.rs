//! Protocol data units of the mesh stack.
use vstd::prelude::*;

pub mod access;
pub mod bearer;
pub mod lower;
pub mod network;
pub mod proxy;
pub mod upper;

verus! {

/// Why a PDU could not be read from its bytes.
#[derive(PartialEq, Eq, Structural, Clone, Copy, Debug)]
pub enum ParseError {
    InvalidPDUFormat,
    InvalidValue,
    InvalidLength,
    InsufficientBuffer,
}

} // verus!
