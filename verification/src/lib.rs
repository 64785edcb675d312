//! Bluetooth mesh protocol data units, configuration messages and the
//! pipeline decisions of a mesh node, with their byte layouts stated
//! and proved.
#![allow(unused_imports)]

use vstd::prelude::*;

pub mod address;
pub mod bits;
pub mod buffer;
pub mod bytes;
pub mod composition;
pub mod crypto;
pub mod device;
pub mod dns;
pub mod element;
pub mod interface;
pub mod keys;
pub mod model;
pub mod driver;
pub mod generic_provisioning;
pub mod pdu;
pub mod provisioning;
pub mod status;
pub mod storage;

verus! {

/// AD type of a PB-ADV advertisement.
pub const PB_ADV: u8 = 0x29;
/// AD type of a mesh message advertisement.
pub const MESH_MESSAGE: u8 = 0x2A;
/// AD type of a mesh beacon advertisement.
pub const MESH_BEACON: u8 = 0x2B;

/// A transmit buffer had no room left for what was emitted into it.
#[derive(PartialEq, Eq, Structural, Clone, Copy, Debug)]
pub struct InsufficientBuffer;

} // verus!
