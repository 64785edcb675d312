//! The identity of an unprovisioned device.
use vstd::prelude::*;

verus! {

/// The 128-bit UUID of a device.
#[derive(Clone, Copy, Debug)]
pub struct Uuid(pub [u8; 16]);

impl Uuid {
    /// Whether two UUIDs have the same bytes.
    pub fn same(&self, other: &Uuid) -> (b: bool)
        ensures
            b == (self.0@ == other.0@),
    {
        let mut i: usize = 0;
        while i < 16
            invariant
                i <= 16,
                forall|j: int| 0 <= j < i ==> self.0@[j] == other.0@[j],
            decreases 16 - i,
        {
            if self.0[i] != other.0[i] {
                return false;
            }
            i = i + 1;
        }
        assert(self.0@ =~= other.0@);
        true
    }
}

} // verus!
