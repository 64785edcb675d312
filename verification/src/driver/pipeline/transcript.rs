//! The transcript of provisioning: the PDUs whose bytes the confirmation
//! salt is computed over.
use vstd::prelude::*;
use crate::buffer::ByteBuf;
use crate::crypto::{s1, s1_of};
use crate::provisioning::{Capabilities, Invite, PublicKey, Start};
use crate::InsufficientBuffer;

verus! {

/// The most bytes a transcript holds.
pub const TRANSCRIPT_MAX: usize = 256;

/// The confirmation inputs gathered so far.
pub struct Transcript {
    confirmation_inputs: Vec<u8>,
}

impl View for Transcript {
    type V = Seq<u8>;

    closed spec fn view(&self) -> Seq<u8> {
        self.confirmation_inputs@
    }
}

/// Transcript `s` with the PDU bytes `pdu` added after their type octet, or
/// nothing when it would exceed 256 bytes.
pub open spec fn with_pdu(s: Seq<u8>, pdu: Seq<u8>) -> Option<Seq<u8>> {
    if s.len() + pdu.len() - 1 <= TRANSCRIPT_MAX { Some(s + pdu.skip(1)) } else { None }
}

/// Whether adding the PDU bytes `pdu` to transcript `s` leaves `t` and
/// gives `r`: the bytes after the type octet are appended, unless the
/// transcript would exceed 256 bytes.
pub open spec fn added(s: Seq<u8>, pdu: Seq<u8>, t: Seq<u8>, r: Result<(), InsufficientBuffer>) -> bool {
    if s.len() + pdu.len() - 1 <= TRANSCRIPT_MAX {
        r is Ok && t == s + pdu.skip(1)
    } else {
        r is Err && t == s
    }
}

impl Default for Transcript {
    fn default() -> (t: Self)
        ensures
            t@ == Seq::<u8>::empty(),
    {
        Self::new()
    }
}

impl Transcript {
    #[verifier::type_invariant]
    spec fn inv(self) -> bool {
        self.confirmation_inputs@.len() <= TRANSCRIPT_MAX
    }

    /// An empty transcript.
    pub fn new() -> (t: Self)
        ensures
            t@ == Seq::<u8>::empty(),
    {
        Transcript { confirmation_inputs: Vec::new() }
    }

    /// The number of bytes held.
    pub fn len(&self) -> (n: usize)
        ensures
            n == self@.len(),
            n <= TRANSCRIPT_MAX,
    {
        proof { use_type_invariant(self); }
        self.confirmation_inputs.len()
    }

    /// Empties the transcript.
    pub fn reset(&mut self)
        ensures
            final(self)@ == Seq::<u8>::empty(),
    {
        self.confirmation_inputs = Vec::new();
    }

    /// Appends the bytes of a PDU after its type octet.
    fn add_pdu(&mut self, pdu: &ByteBuf) -> (r: Result<(), InsufficientBuffer>)
        requires
            pdu@.len() >= 1,
        ensures
            added(old(self)@, pdu@, final(self)@, r),
    {
        proof { use_type_invariant(&*self); }
        let bytes = pdu.as_slice();
        if bytes.len() - 1 > TRANSCRIPT_MAX - self.confirmation_inputs.len() {
            return Err(InsufficientBuffer);
        }
        let mut data = Vec::new();
        std::mem::swap(&mut data, &mut self.confirmation_inputs);
        let mut tail = vstd::slice::slice_to_vec(vstd::slice::slice_subrange(bytes, 1, bytes.len()));
        data.append(&mut tail);
        assert(data@ =~= old(self)@ + pdu@.skip(1));
        self.confirmation_inputs = data;
        Ok(())
    }

    /// Adds an invite.
    pub fn add_invite(&mut self, invite: &Invite) -> (r: Result<(), InsufficientBuffer>)
        ensures
            added(old(self)@, invite.spec_bytes(), final(self)@, r),
    {
        let mut vec = ByteBuf::new(2);
        invite.emit(&mut vec)?;
        self.add_pdu(&vec)
    }

    /// Adds the capabilities of the device.
    pub fn add_capabilities(&mut self, capabilities: &Capabilities) -> (r: Result<(), InsufficientBuffer>)
        ensures
            added(old(self)@, capabilities@.spec_bytes(), final(self)@, r),
    {
        let mut vec = ByteBuf::new(32);
        capabilities.emit(&mut vec)?;
        self.add_pdu(&vec)
    }

    /// Adds a start.
    pub fn add_start(&mut self, start: &Start) -> (r: Result<(), InsufficientBuffer>)
        ensures
            added(old(self)@, start.spec_bytes(), final(self)@, r),
    {
        let mut vec = ByteBuf::new(32);
        start.emit(&mut vec)?;
        self.add_pdu(&vec)
    }

    /// Adds the public key of the provisioner.
    pub fn add_pubkey_provisioner(&mut self, pk: &PublicKey) -> (r: Result<(), InsufficientBuffer>)
        ensures
            added(old(self)@, pk.spec_bytes(), final(self)@, r),
    {
        let mut vec = ByteBuf::new(65);
        pk.emit(&mut vec)?;
        self.add_pdu(&vec)
    }

    /// Adds the public key of the device.
    pub fn add_pubkey_device(&mut self, pk: &PublicKey) -> (r: Result<(), InsufficientBuffer>)
        ensures
            added(old(self)@, pk.spec_bytes(), final(self)@, r),
    {
        let mut vec = ByteBuf::new(65);
        pk.emit(&mut vec)?;
        self.add_pdu(&vec)
    }

    /// The confirmation inputs.
    pub fn confirmation_inputs(&self) -> (s: &[u8])
        ensures
            s@ == self@,
    {
        self.confirmation_inputs.as_slice()
    }

    /// The confirmation salt: `s1` of the confirmation inputs.
    pub fn confirmation_salt(&self) -> (salt: [u8; 16])
        ensures
            salt@ == s1_of(self@),
    {
        s1(self.confirmation_inputs.as_slice())
    }
}

} // verus!
