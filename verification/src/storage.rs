//! What a node stores: one block of configuration bytes.
use vstd::prelude::*;

verus! {

/// The 512 bytes a node stores and retrieves.
pub struct Payload {
    pub payload: [u8; 512],
}

} // verus!
