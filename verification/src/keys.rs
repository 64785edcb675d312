//! Handles on the keys that protect mesh PDUs.
use vstd::prelude::*;

verus! {

/// The 6-bit identifier of an application key.
pub type ApplicationKeyIdentifier = u8;

/// The keys derived from one network key that the network layer uses.
#[derive(Clone, Copy, Debug)]
pub struct NetworkKeyHandle {
    /// The global index of the network key.
    pub key_index: u16,
    /// The 7-bit network identifier derived from the key.
    pub nid: u8,
    /// The key that encrypts and authenticates network PDUs.
    pub encryption_key: [u8; 16],
    /// The key that obfuscates network PDU headers.
    pub privacy_key: [u8; 16],
}

} // verus!
