//! The upper transport stage: reading access messages out of upper
//! transport PDUs, and writing outbound ones, which the publication cache
//! remembers for repeats.
use vstd::prelude::*;
use crate::buffer::ByteBuf;
use crate::driver::DeviceError;
use crate::driver::pipeline::lower::UPPER_ACCESS_MAX;
use crate::driver::pipeline::mesh::PublishRetransmitDetails;
use crate::driver::pipeline::publish::{EntryView, Publish, PublishView};
use crate::driver::pipeline::transmit::{ModelKey, CLOCK_MAX, INTERVAL_MAX};
use crate::pdu::access::{AccessMessage, AccessPayload, Opcode};
use crate::pdu::upper::{UpperAccess, UpperPDU};

verus! {

/// The upper transport stage and its publication cache.
pub struct Upper {
    publish: Publish,
}

impl Default for Upper {
    fn default() -> (u: Self)
        ensures
            u.fits(),
            u.publish_entries() == seq![None::<EntryView>, None::<EntryView>, None::<EntryView>],
    {
        Upper { publish: Publish::new() }
    }
}

impl Upper {
    /// The slots of the publication cache.
    pub closed spec fn publish_entries(&self) -> Seq<Option<EntryView>> {
        self.publish.spec_entries()
    }

    /// Whether the times of the publication cache fit the clock.
    pub closed spec fn fits(&self) -> bool {
        self.publish.fits()
    }

    /// Reads the access message of an inbound upper transport access PDU
    /// (the only kind this stage reads).
    pub fn process_inbound(&mut self, pdu: UpperPDU) -> (r: Result<Option<AccessMessage>, DeviceError>)
        requires
            pdu is Access,
        ensures
            final(self).publish_entries() == old(self).publish_entries(),
            final(self).fits() == old(self).fits(),
            pdu matches UpperPDU::Access(a) ==> {
                &&& AccessPayload::spec_parse_ok(a.payload@) ==> (r matches Ok(Some(m)) && {
                    &&& m.ttl is None
                    &&& m.network_key == a.network_key
                    &&& m.ivi == a.ivi
                    &&& m.nid == a.nid
                    &&& m.akf == a.akf
                    &&& m.aid == a.aid
                    &&& m.src == a.src
                    &&& m.dst == a.dst
                    &&& m.payload.opcode == Opcode::spec_split(a.payload@).unwrap()
                    &&& m.payload.parameters@ == a.payload@.skip(m.payload.opcode.spec_bytes().len() as int)
                })
                &&& !AccessPayload::spec_parse_ok(a.payload@) ==> (r matches Err(e) && e == DeviceError::Parse(
                    if Opcode::spec_split(a.payload@) is None {
                        crate::pdu::ParseError::InvalidPDUFormat
                    } else {
                        crate::pdu::ParseError::InsufficientBuffer
                    },
                ))
            },
    {
        match pdu {
            UpperPDU::Control(_) => {
                assert(false);
                Ok(None)
            },
            UpperPDU::Access(access) => match AccessMessage::parse(&access) {
                Ok(message) => Ok(Some(message)),
                Err(e) => Err(DeviceError::Parse(e)),
            },
        }
    }

    /// Writes an outbound access message as an upper transport access PDU,
    /// its payload within 380 bytes, after remembering it in the
    /// publication cache when `publish` says which model published it.
    pub fn process_outbound(
        &mut self,
        message: &AccessMessage,
        publish: Option<(ModelKey, PublishRetransmitDetails)>,
        now: u64,
    ) -> (r: Result<Option<UpperPDU>, DeviceError>)
        requires
            old(self).fits(),
            now <= CLOCK_MAX,
            publish matches Some(p) ==> p.1.interval_ms <= INTERVAL_MAX,
        ensures
            final(self).fits(),
            publish is None ==> final(self).publish_entries() == old(self).publish_entries(),
            publish matches Some(p) ==> final(self).publish_entries() == Publish::published(
                old(self).publish_entries(),
                PublishView {
                    element_address: p.0.0,
                    model_identifier: p.0.1,
                    opcode: message.payload.opcode,
                    parameters: message.payload.parameters@,
                },
                p.0,
                p.1,
                now,
            ),
            message.payload.spec_bytes().len() > UPPER_ACCESS_MAX ==> (r matches Err(e) && e
                == DeviceError::InsufficientBuffer),
            message.payload.spec_bytes().len() <= UPPER_ACCESS_MAX ==> (r matches Ok(Some(UpperPDU::Access(a))) && {
                &&& a.ttl == message.ttl
                &&& a.network_key == message.network_key
                &&& a.ivi == message.ivi
                &&& a.nid == message.nid
                &&& a.akf == message.akf
                &&& a.aid == message.aid
                &&& a.src == message.src
                &&& a.dst == message.dst
                &&& a.payload@ == message.payload.spec_bytes()
            }),
    {
        self.publish.process_outbound(message, publish, now);
        let mut payload = ByteBuf::new(UPPER_ACCESS_MAX);
        if message.emit(&mut payload).is_err() {
            return Err(DeviceError::InsufficientBuffer);
        }
        Ok(
            Some(
                UpperPDU::Access(
                    UpperAccess {
                        ttl: message.ttl,
                        network_key: message.network_key,
                        ivi: message.ivi,
                        nid: message.nid,
                        akf: message.akf,
                        aid: message.aid,
                        src: message.src,
                        dst: message.dst,
                        payload: vstd::slice::slice_to_vec(payload.as_slice()),
                    },
                ),
            ),
        )
    }
}

} // verus!
